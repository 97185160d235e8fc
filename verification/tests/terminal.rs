use github_notifications::terminal::{
    format_headline, format_level, format_link, level_word, to_color, TerminalColor,
};
use github_notifications::text::decimal_string;
use github_notifications::{NotificationLevel, PullRequestState};

#[test]
fn colour_numbers() {
    assert_eq!(TerminalColor::Green.code(), 2);
    assert_eq!(TerminalColor::Yellow.code(), 3);
    assert_eq!(TerminalColor::Cyan.code(), 14);
    assert_eq!(TerminalColor::Gray.code(), 8);
    assert_eq!(TerminalColor::DarkYellow.code(), 58);
    assert_eq!(TerminalColor::FadedPurple.code(), 103);
}

#[test]
fn colour_numbers_in_decimal() {
    assert_eq!(TerminalColor::Green.to_code(), "2");
    assert_eq!(TerminalColor::Yellow.to_code(), "3");
    assert_eq!(TerminalColor::Cyan.to_code(), "14");
    assert_eq!(TerminalColor::Gray.to_code(), "8");
    assert_eq!(TerminalColor::DarkYellow.to_code(), "58");
    assert_eq!(TerminalColor::FadedPurple.to_code(), "103");
}

#[test]
fn decimal_notation() {
    assert_eq!(decimal_string(0), "0");
    assert_eq!(decimal_string(9), "9");
    assert_eq!(decimal_string(10), "10");
    assert_eq!(decimal_string(100), "100");
    assert_eq!(decimal_string(1_000_000_007), "1000000007");
    assert_eq!(decimal_string(u32::MAX), "4294967295");
}

#[test]
fn coloured_text() {
    assert_eq!(to_color("hi", TerminalColor::Cyan), "\x1b[38;5;14mhi\x1b[0m");
    assert_eq!(to_color("", TerminalColor::Gray), "\x1b[38;5;8m\x1b[0m");
    assert_eq!(to_color("a b", TerminalColor::FadedPurple), "\x1b[38;5;103ma b\x1b[0m");
}

#[test]
fn level_words() {
    assert_eq!(level_word(&NotificationLevel::Owned), "Owned");
    assert_eq!(level_word(&NotificationLevel::Subscribed), "Subscribed");
    assert_eq!(level_word(&NotificationLevel::Tagged), "Tagged");
    assert_eq!(level_word(&NotificationLevel::TeamTagged), "TeamTagged");
    assert_eq!(level_word(&NotificationLevel::Other), "Other");
}

#[test]
fn level_words_are_the_variant_names() {
    for level in [
        NotificationLevel::Owned,
        NotificationLevel::Subscribed,
        NotificationLevel::Tagged,
        NotificationLevel::TeamTagged,
        NotificationLevel::Other,
    ] {
        assert_eq!(level_word(&level), format!("{:?}", level));
    }
}

#[test]
fn levels_in_colour() {
    assert_eq!(format_level(&NotificationLevel::Owned), "\x1b[38;5;14mOwned\x1b[0m");
    assert_eq!(format_level(&NotificationLevel::Subscribed), "\x1b[38;5;2mSubscribed\x1b[0m");
    assert_eq!(format_level(&NotificationLevel::Tagged), "\x1b[38;5;3mTagged\x1b[0m");
    assert_eq!(format_level(&NotificationLevel::TeamTagged), "\x1b[38;5;58mTeamTagged\x1b[0m");
    assert_eq!(format_level(&NotificationLevel::Other), "Other");
}

#[test]
fn headline_of_an_open_item() {
    assert_eq!(
        format_headline(&NotificationLevel::Tagged, "Fix the build", PullRequestState::Open),
        "[\x1b[38;5;3mTagged\x1b[0m] Fix the build"
    );
    assert_eq!(
        format_headline(&NotificationLevel::Other, "Fix the build", PullRequestState::Open),
        "[Other] Fix the build"
    );
}

#[test]
fn headline_of_a_closed_item() {
    assert_eq!(
        format_headline(&NotificationLevel::Owned, "Fix the build", PullRequestState::Closed),
        "[\x1b[38;5;14mOwned\x1b[0m] \x1b[38;5;103mFix the build\x1b[0m"
    );
}

#[test]
fn link_line_is_gray_and_indented() {
    assert_eq!(
        format_link("https://github.com/octo/cat/pull/5"),
        "  \x1b[38;5;8mhttps://github.com/octo/cat/pull/5\x1b[0m"
    );
}
