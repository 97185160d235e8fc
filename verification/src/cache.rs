//! Where a response is kept and how long it may be served.

use crate::text::{chars_of, starts_with};
use vstd::prelude::*;

verus! {

/// The host prefix that every address of the tracker's API shares.
pub const API_PREFIX: &'static str = "https://api.github.com/";

/// The directory, under the system's temporary directory, that holds the
/// stored responses, one file for each key.
pub const CACHE_DIR: &'static str = "github-notifications";

/// `url` without the API's host prefix, where it has one.
pub open spec fn strip_api_prefix(url: Seq<char>) -> Seq<char> {
    if API_PREFIX@.is_prefix_of(url) {
        url.skip(API_PREFIX@.len() as int)
    } else {
        url
    }
}

/// What one character of an address becomes once path separators are
/// written as a double underscore.
pub open spec fn separator_free(c: char) -> Seq<char> {
    if c == '/' {
        seq!['_', '_']
    } else {
        seq![c]
    }
}

/// `s` with every path separator replaced by a double underscore.
pub open spec fn replace_separators(s: Seq<char>) -> Seq<char>
    decreases s.len(),
{
    if s.len() == 0 {
        Seq::empty()
    } else {
        replace_separators(s.drop_last()) + separator_free(s.last())
    }
}

/// The characters that a key may hold: lowercase ASCII letters, digits,
/// the dot and the underscore.
pub open spec fn is_key_char(c: char) -> bool {
    ('a' <= c && c <= 'z') || ('0' <= c && c <= '9') || c == '.' || c == '_'
}

/// `s` with its path separators replaced, and then every character dropped
/// that a key may not hold.
pub open spec fn sanitised(s: Seq<char>) -> Seq<char> {
    replace_separators(s).filter(|c: char| is_key_char(c))
}

/// The key under which the response for `url` is stored.
pub open spec fn cache_key(url: Seq<char>) -> Seq<char> {
    sanitised(strip_api_prefix(url))
}

/// What one character of a stripped address contributes to the key.
pub open spec fn key_piece(c: char) -> Seq<char> {
    if c == '/' {
        seq!['_', '_']
    } else if is_key_char(c) {
        seq![c]
    } else {
        Seq::empty()
    }
}

/// Reading one more character of an address extends the sanitised text by
/// that character's piece.
proof fn lemma_key_grows(s: Seq<char>, n: int)
    requires
        0 <= n < s.len(),
    ensures
        sanitised(s.take(n + 1)) == sanitised(s.take(n)) + key_piece(s[n]),
{
    let keep = |c: char| is_key_char(c);
    let head = s.take(n + 1);
    assert(head.drop_last() =~= s.take(n));
    assert(head.last() == s[n]);
    let piece = separator_free(s[n]);
    Seq::filter_distributes_over_add(replace_separators(s.take(n)), piece, keep);
    reveal_with_fuel(Seq::filter, 3);
    if s[n] == '/' {
        assert(piece.drop_last() =~= seq!['_']);
        assert(piece.drop_last().drop_last() =~= Seq::<char>::empty());
        assert(piece.filter(keep) =~= piece);
    } else {
        assert(piece.drop_last() =~= Seq::<char>::empty());
        assert(piece.filter(keep) =~= key_piece(s[n]));
    }
}

/// Sanitised text holds nothing but characters that a key may hold.
pub proof fn lemma_key_chars_only(s: Seq<char>)
    ensures
        forall|i: int| 0 <= i < sanitised(s).len() ==> is_key_char(#[trigger] sanitised(s)[i]),
{
    broadcast use Seq::lemma_filter_pred;

}

/// An address with the API's host prefix and the same address without it
/// share one key, unless the shorter address itself begins with the prefix.
pub proof fn lemma_key_ignores_api_prefix(path: Seq<char>)
    requires
        !API_PREFIX@.is_prefix_of(path),
    ensures
        cache_key(API_PREFIX@ + path) == cache_key(path),
{
    let full = API_PREFIX@ + path;
    assert(full.subrange(0, API_PREFIX@.len() as int) =~= API_PREFIX@);
    assert(full.skip(API_PREFIX@.len() as int) =~= path);
}

/// Replacing separators goes piece by piece.
proof fn lemma_replace_separators_concat(a: Seq<char>, b: Seq<char>)
    ensures
        replace_separators(a + b) == replace_separators(a) + replace_separators(b),
    decreases b.len(),
{
    if b.len() == 0 {
        assert(a + b =~= a);
        assert(replace_separators(a) + replace_separators(b) =~= replace_separators(a));
    } else {
        lemma_replace_separators_concat(a, b.drop_last());
        assert((a + b).drop_last() =~= a + b.drop_last());
        assert((a + b).last() == b.last());
        assert(replace_separators(a) + replace_separators(b.drop_last()) + separator_free(b.last())
            =~= replace_separators(a) + (replace_separators(b.drop_last()) + separator_free(
            b.last(),
        )));
    }
}

/// Sanitising goes piece by piece.
pub proof fn lemma_sanitised_concat(a: Seq<char>, b: Seq<char>)
    ensures
        sanitised(a + b) == sanitised(a) + sanitised(b),
{
    lemma_replace_separators_concat(a, b);
    Seq::filter_distributes_over_add(
        replace_separators(a),
        replace_separators(b),
        |c: char| is_key_char(c),
    );
}

/// Keys are no fingerprints: addresses of the API that differ only in a
/// character that is dropped share one key, and with it one stored
/// response. So do `repos/Foo` and `repos/oo`.
pub proof fn lemma_dropped_character_shares_key(before: Seq<char>, c: char, after: Seq<char>)
    requires
        c != '/',
        !is_key_char(c),
    ensures
        cache_key(API_PREFIX@ + (before.push(c) + after)) == cache_key(
            API_PREFIX@ + (before + after),
        ),
{
    let with = before.push(c) + after;
    let without = before + after;
    assert((API_PREFIX@ + with).subrange(0, API_PREFIX@.len() as int) =~= API_PREFIX@);
    assert((API_PREFIX@ + with).skip(API_PREFIX@.len() as int) =~= with);
    assert((API_PREFIX@ + without).subrange(0, API_PREFIX@.len() as int) =~= API_PREFIX@);
    assert((API_PREFIX@ + without).skip(API_PREFIX@.len() as int) =~= without);
    assert(before.take(before.len() as int) =~= before);
    assert(before.push(c).take(before.len() as int) =~= before);
    assert(before.push(c).take(before.len() as int + 1) =~= before.push(c));
    lemma_key_grows(before.push(c), before.len() as int);
    assert(sanitised(before.push(c)) =~= sanitised(before));
    lemma_sanitised_concat(before.push(c), after);
    lemma_sanitised_concat(before, after);
}

/// Whether `c` may stand in a key.
fn key_char(c: char) -> (yes: bool)
    ensures
        yes == is_key_char(c),
{
    ('a' <= c && c <= 'z') || ('0' <= c && c <= '9') || c == '.' || c == '_'
}

/// The name of the file that holds the stored response for `url`: the
/// address without the API's host prefix, its path separators written as a
/// double underscore, and every character dropped that is not a lowercase
/// ASCII letter, a digit, a dot or an underscore.
///
/// Equal addresses give equal names. Different addresses mostly give
/// different names, but not always: the name is a cleaned-up address and no
/// hash. Addresses that differ only in characters that are dropped, such as
/// `repos/Foo` and `repos/oo`, share a name and so a stored response, as
/// [`lemma_dropped_character_shares_key`] shows. The addresses that the
/// tracker hands out are far enough apart; for others, a hash of the whole
/// address is the safer key.
pub fn to_filename(url: &str) -> (name: String)
    ensures
        name@ == cache_key(url@),
        forall|i: int| 0 <= i < name@.len() ==> is_key_char(#[trigger] name@[i]),
{
    let text = chars_of(url);
    let prefix = chars_of(API_PREFIX);
    let start: usize = if starts_with(&text, &prefix) { prefix.len() } else { 0 };
    let ghost rest = strip_api_prefix(url@);
    assert(rest =~= text@.skip(start as int));
    let mut name = String::new();
    let mut i: usize = start;
    assert(sanitised(rest.take(0)) =~= Seq::<char>::empty());
    while i < text.len()
        invariant
            start <= i <= text.len(),
            rest == text@.skip(start as int),
            name@ == sanitised(rest.take(i - start)),
        decreases text.len() - i,
    {
        let c = text[i];
        proof {
            assert(rest[i - start] == c);
            lemma_key_grows(rest, i - start);
        }
        if c == '/' {
            name.push('_');
            name.push('_');
        } else if key_char(c) {
            name.push(c);
        }
        i += 1;
    }
    assert(rest.take(text.len() - start) =~= rest);
    proof {
        lemma_key_chars_only(rest);
    }
    name
}

/// How long a stored response may be served, in nanoseconds. Zero means
/// that it is never served from the store.
#[derive(Clone, Copy, Debug, PartialEq, Eq, Structural)]
pub struct Ttl {
    pub nanos: u128,
}

impl Ttl {
    /// A time-to-live of `secs` whole seconds.
    pub fn from_secs(secs: u64) -> (ttl: Ttl)
        ensures
            ttl.nanos == secs * 1_000_000_000,
    {
        let secs: u128 = secs as u128;
        Ttl { nanos: secs * 1_000_000_000 }
    }
}

/// What a look at the store found under a key.
#[derive(Clone, Copy, Debug, PartialEq, Eq, Structural)]
pub enum CacheProbe {
    /// Nothing is stored under the key.
    Missing,
    /// A response is stored, but the time of its last modification cannot
    /// be read.
    Undated,
    /// A response is stored; `at` is the time of its last modification, in
    /// nanoseconds since the Unix epoch (negative before it).
    Modified { at: i128 },
}

/// The time from `modified` to `now`; zero where `modified` lies ahead.
pub open spec fn age(now: int, modified: int) -> int {
    if now >= modified {
        now - modified
    } else {
        0
    }
}

/// Whether a stored response may be served at the time `now` (nanoseconds
/// since the Unix epoch). Without a time-to-live anything that is stored is
/// fresh; with one, a response is fresh while its age is below it, and a
/// response of unknown age is stale.
pub open spec fn is_fresh(probe: CacheProbe, ttl: Option<Ttl>, now: i128) -> bool {
    match probe {
        CacheProbe::Missing => false,
        CacheProbe::Undated => ttl is None,
        CacheProbe::Modified { at } => match ttl {
            None => true,
            Some(limit) => age(now as int, at as int) < limit.nanos,
        },
    }
}

/// With a time-to-live of zero nothing is ever fresh, whatever its age.
pub proof fn lemma_zero_ttl_is_never_fresh(probe: CacheProbe, now: i128)
    ensures
        !is_fresh(probe, Some(Ttl { nanos: 0 }), now),
{
}

/// Without a time-to-live a response is fresh exactly when one is stored.
pub proof fn lemma_without_ttl_fresh_iff_stored(probe: CacheProbe, now: i128)
    ensures
        is_fresh(probe, None, now) <==> !(probe is Missing),
{
}

/// With a time-to-live a stored response of known age is fresh exactly when
/// the time since its last modification is below the time-to-live. The one
/// exception is a time-to-live of zero with a modification that lies ahead:
/// the difference is below zero then, and still nothing is fresh.
pub proof fn lemma_timed_fresh_iff_young(at: i128, ttl: Ttl, now: i128)
    requires
        ttl.nanos > 0 || now >= at,
    ensures
        is_fresh(CacheProbe::Modified { at }, Some(ttl), now) <==> now - at < ttl.nanos,
{
}

/// The time from `at` to `now` in nanoseconds; zero where `at` lies ahead.
fn elapsed(now: i128, at: i128) -> (span: u128)
    ensures
        span == age(now as int, at as int),
{
    if now <= at {
        0
    } else if at >= 0 || now < 0 {
        (now - at) as u128
    } else {
        let back: u128 = (-(at + 1)) as u128 + 1;
        now as u128 + back
    }
}

/// Whether the response that `probe` found may be served at the time `now`
/// under the time-to-live `ttl`.
pub fn cache_is_fresh(probe: CacheProbe, ttl: Option<Ttl>, now: i128) -> (fresh: bool)
    ensures
        fresh == is_fresh(probe, ttl, now),
{
    match probe {
        CacheProbe::Missing => false,
        CacheProbe::Undated => ttl.is_none(),
        CacheProbe::Modified { at } => match ttl {
            None => true,
            Some(limit) => elapsed(now, at) < limit.nanos,
        },
    }
}

} // verus!
