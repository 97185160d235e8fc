//! How a ranked notification is written for a terminal that knows the 256
//! colours of the extended palette.

use crate::level::NotificationLevel;
use crate::model::PullRequestState;
use crate::text::{decimal, decimal_string};
use vstd::prelude::*;

verus! {

/// What opens a run of coloured text, up to the number of the colour.
pub const COLOR_START: &'static str = "\x1b[38;5;";

/// What stands between the number of the colour and the text.
pub const COLOR_MARK: &'static str = "m";

/// What closes a run of coloured text.
pub const COLOR_END: &'static str = "\x1b[0m";

/// The colours in use.
#[derive(Clone, Copy, Debug, PartialEq, Eq, Structural)]
pub enum TerminalColor {
    Green,
    Yellow,
    Cyan,
    Gray,
    DarkYellow,
    FadedPurple,
}

impl TerminalColor {
    /// The number of the colour in the palette.
    pub open spec fn number(self) -> u32 {
        match self {
            TerminalColor::Green => 2,
            TerminalColor::Yellow => 3,
            TerminalColor::Cyan => 14,
            TerminalColor::Gray => 8,
            TerminalColor::DarkYellow => 58,
            TerminalColor::FadedPurple => 103,
        }
    }

    /// The number of the colour in the palette.
    pub fn code(&self) -> (number: u32)
        ensures
            number == self.number(),
    {
        match self {
            TerminalColor::Green => 2,
            TerminalColor::Yellow => 3,
            TerminalColor::Cyan => 14,
            TerminalColor::Gray => 8,
            TerminalColor::DarkYellow => 58,
            TerminalColor::FadedPurple => 103,
        }
    }

    /// The number of the colour in the palette, in decimal notation.
    pub fn to_code(&self) -> (text: String)
        ensures
            text@ == decimal(self.number() as nat),
    {
        decimal_string(self.code())
    }
}

/// `text` wrapped in the escape sequences that show it in `color`.
pub open spec fn colored(text: Seq<char>, color: TerminalColor) -> Seq<char> {
    COLOR_START@ + decimal(color.number() as nat) + COLOR_MARK@ + text + COLOR_END@
}

/// `text`, to be shown in `color`.
pub fn to_color(text: &str, color: TerminalColor) -> (out: String)
    ensures
        out@ == colored(text@, color),
{
    let mut out = COLOR_START.to_owned();
    let code = color.to_code();
    out.append(code.as_str());
    out.append(COLOR_MARK);
    out.append(text);
    out.append(COLOR_END);
    out
}

/// The word for a level.
pub open spec fn level_name(level: NotificationLevel) -> Seq<char> {
    match level {
        NotificationLevel::Owned => "Owned"@,
        NotificationLevel::Subscribed => "Subscribed"@,
        NotificationLevel::Tagged => "Tagged"@,
        NotificationLevel::TeamTagged => "TeamTagged"@,
        NotificationLevel::Other => "Other"@,
    }
}

/// The colour in which a level is shown; `Other` is shown plain.
pub open spec fn level_color(level: NotificationLevel) -> Option<TerminalColor> {
    match level {
        NotificationLevel::Owned => Some(TerminalColor::Cyan),
        NotificationLevel::Subscribed => Some(TerminalColor::Green),
        NotificationLevel::Tagged => Some(TerminalColor::Yellow),
        NotificationLevel::TeamTagged => Some(TerminalColor::DarkYellow),
        NotificationLevel::Other => None,
    }
}

/// A level as it is shown: its word, in its colour where it has one.
pub open spec fn level_text(level: NotificationLevel) -> Seq<char> {
    match level_color(level) {
        Some(color) => colored(level_name(level), color),
        None => level_name(level),
    }
}

/// The word for `level`.
pub fn level_word(level: &NotificationLevel) -> (word: &'static str)
    ensures
        word@ == level_name(*level),
{
    match level {
        NotificationLevel::Owned => "Owned",
        NotificationLevel::Subscribed => "Subscribed",
        NotificationLevel::Tagged => "Tagged",
        NotificationLevel::TeamTagged => "TeamTagged",
        NotificationLevel::Other => "Other",
    }
}

/// `level` as it is shown: its word, in cyan for `Owned`, green for
/// `Subscribed`, yellow for `Tagged`, dark yellow for `TeamTagged`, and
/// plain for `Other`.
pub fn format_level(level: &NotificationLevel) -> (out: String)
    ensures
        out@ == level_text(*level),
{
    let word = level_word(level);
    match level {
        NotificationLevel::Owned => to_color(word, TerminalColor::Cyan),
        NotificationLevel::Subscribed => to_color(word, TerminalColor::Green),
        NotificationLevel::Tagged => to_color(word, TerminalColor::Yellow),
        NotificationLevel::TeamTagged => to_color(word, TerminalColor::DarkYellow),
        NotificationLevel::Other => word.to_owned(),
    }
}

/// A title as it is shown: plain while the item is open, in faded purple
/// once it is closed.
pub open spec fn title_text(title: Seq<char>, state: PullRequestState) -> Seq<char> {
    match state {
        PullRequestState::Open => title,
        PullRequestState::Closed => colored(title, TerminalColor::FadedPurple),
    }
}

/// The first line of an entry: the level in square brackets, a space, and
/// the title.
pub open spec fn headline(
    level: NotificationLevel,
    title: Seq<char>,
    state: PullRequestState,
) -> Seq<char> {
    "["@ + level_text(level) + "] "@ + title_text(title, state)
}

/// The second line of an entry: the address in gray, indented by two
/// spaces.
pub open spec fn link_line(url: Seq<char>) -> Seq<char> {
    "  "@ + colored(url, TerminalColor::Gray)
}

/// The first line of the entry for a notification of the given level,
/// about an item with the given title and state.
pub fn format_headline(level: &NotificationLevel, title: &str, state: PullRequestState) -> (out:
    String)
    ensures
        out@ == headline(*level, title@, state),
{
    let mut out = "[".to_owned();
    let shown = format_level(level);
    out.append(shown.as_str());
    out.append("] ");
    match state {
        PullRequestState::Open => {
            out.append(title);
        },
        PullRequestState::Closed => {
            let faded = to_color(title, TerminalColor::FadedPurple);
            out.append(faded.as_str());
        },
    }
    out
}

/// The second line of an entry, which gives the address at which a person
/// reads the item.
pub fn format_link(url: &str) -> (out: String)
    ensures
        out@ == link_line(url@),
{
    let mut out = "  ".to_owned();
    let gray = to_color(url, TerminalColor::Gray);
    out.append(gray.as_str());
    out
}

} // verus!
