//! Calls into code that is not verified here: std functions that vstd gives
//! no specification, and the outside crates. Every item states what it
//! claims of the called function; nothing else in the crate is trusted.
use vstd::prelude::*;
use crate::text::{all_ldh, dns_shaped, is_nice_char, nice_text, is_stamp_char, string_views};

verus! {

/// `String::push`: appends one character.
#[verifier::external_body]
pub fn push_char(s: &mut String, c: char)
    ensures
        final(s)@ == old(s)@.push(c),
{
    s.push(c);
}

/// `String::try_reserve`: asks the allocator for room for `additional`
/// more bytes, its failure reported as a `core::fmt::Error`. Whether it
/// succeeds depends on the machine; either way the text is unchanged.
#[verifier::external_body]
pub fn string_try_reserve(s: &mut String, additional: usize) -> (r: Result<(), core::fmt::Error>)
    ensures
        final(s)@ == old(s)@,
{
    s.try_reserve(additional).map_err(|_| core::fmt::Error)
}

/// `dactyl::NiceU64::from(n).as_str()`. Claimed: `n` in decimal with the
/// default thousands separator, the comma ([`nice_text`]; the crate's
/// documentation shows `54321` as `54,321` and `1234` as `1,234`), so made of
/// ASCII digits and commas.
#[verifier::external_body]
pub fn nice_u64(n: u64) -> (r: String)
    ensures
        r@ == nice_text(n as nat),
        forall|i: int| 0 <= i < r@.len() ==> is_nice_char(#[trigger] r@[i]),
{
    dactyl::NiceU64::from(n).as_str().to_owned()
}

/// `utc2k::FmtUtc2k::now()`: the current UTC time as `YYYY-MM-DD hh:mm:ss`.
/// It depends on the clock; only its shape is claimed: nineteen characters
/// (the type is an array of nineteen), each a digit, `-`, `:` or a space
/// (the characters the type can hold besides `+`, which the format does not
/// use).
#[verifier::external_body]
pub fn utc_now() -> (r: String)
    ensures
        r@.len() == 19,
        forall|i: int| 0 <= i < r@.len() ==> is_stamp_char(#[trigger] r@[i]),
{
    utc2k::FmtUtc2k::now().as_str().to_owned()
}

/// `core::fmt::Error`.
#[verifier::external_type_specification]
#[verifier::external_body]
pub struct ExFmtError(core::fmt::Error);

/// `char::from_u32`: the character with the given code point, or `None`
/// when the value is not a Unicode scalar value (above `0x10FFFF` or a
/// surrogate in `0xD800..=0xDFFF`).
#[verifier::external_body]
pub fn char_from_u32(n: u32) -> (r: Option<char>)
    ensures
        r is Some <==> (n <= 0xD7FF || (0xE000 <= n && n <= 0x10FFFF)),
        r matches Some(c) ==> c as u32 == n,
{
    char::from_u32(n)
}

/// The error type of `idna::domain_to_ascii_strict`.
#[verifier::external_type_specification]
#[verifier::external_body]
pub struct ExIdnaErrors(idna::Errors);

/// What `idna::domain_to_ascii_strict` makes of a domain: the ASCII form, or
/// `None` where it reports an error. UTS #46 processing takes pages to state;
/// it depends on its argument alone.
pub uninterp spec fn idna_ascii_strict(domain: Seq<char>) -> Option<Seq<char>>;

/// `idna::domain_to_ascii_strict`: UTS #46 to-ASCII with the STD3 deny list,
/// hyphen checks and DNS length checks. Claimed: the outcome is the one
/// [`idna_ascii_strict`] names for the argument, and a result holds only
/// lowercase ASCII letters, digits, `-` and `.`: the STD3 deny list refuses
/// every other ASCII character but the upper-case letters, which it folds to
/// lower case, as the mapping step does; what is not ASCII comes out as
/// Punycode, whose digits are lowercase. And the result passes the DNS
/// length check (`verify_dns_length`, no trailing dot allowed): it is not
/// empty, has no empty label, so no leading or trailing dot, holds at most
/// 253 characters and no label longer than 63.
#[verifier::external_body]
pub fn domain_to_ascii_strict(domain: &str) -> (r: Result<String, idna::Errors>)
    ensures
        match r {
            Ok(s) => idna_ascii_strict(domain@) == Some(s@) && all_ldh(s@) && dns_shaped(s@),
            Err(_) => idna_ascii_strict(domain@) is None,
        },
{
    idna::domain_to_ascii_strict(domain)
}

/// `regex::RegexSet`.
#[verifier::external_type_specification]
#[verifier::external_body]
pub struct ExRegexSet(regex::RegexSet);

/// `regex::Error`.
#[verifier::external_type_specification]
#[verifier::external_body]
pub struct ExRegexError(regex::Error);

/// # Pattern Set.
///
/// A `regex::RegexSet` built by `RegexSet::new`, that is with the default
/// options. Its field is private: [`regex_set_new`] is the only way to make
/// one, so how it matches is fixed by its patterns. Its view is those
/// patterns, in order (what `RegexSet::patterns` gives back).
pub struct PatternSet {
    set: regex::RegexSet,
    patterns: Ghost<Seq<Seq<char>>>,
}

impl View for PatternSet {
    type V = Seq<Seq<char>>;

    closed spec fn view(&self) -> Seq<Seq<char>> {
        self.patterns@
    }
}

/// Whether `RegexSet::new` accepts the patterns: each must be a valid
/// expression, and the compiled set must fit the default size limits. This
/// depends on the patterns alone.
pub uninterp spec fn regex_set_builds(patterns: Seq<Seq<char>>) -> bool;

/// Whether one of the patterns, compiled with the default options, matches
/// somewhere in the haystack (`RegexSet::is_match` on a set that
/// `RegexSet::new` built; matches are unanchored unless a pattern anchors).
pub uninterp spec fn regex_set_matches(patterns: Seq<Seq<char>>, haystack: Seq<char>) -> bool;

/// `regex::RegexSet::new`, the set wrapped as a [`PatternSet`]. Claimed: it
/// succeeds exactly where [`regex_set_builds`] says so, and the set it gives
/// holds the patterns given, in order (the documentation of
/// `RegexSet::patterns`).
#[verifier::external_body]
pub fn regex_set_new(patterns: &Vec<String>) -> (r: Result<PatternSet, regex::Error>)
    ensures
        r is Ok <==> regex_set_builds(string_views(patterns@)),
        r matches Ok(set) ==> set@ == string_views(patterns@),
{
    match regex::RegexSet::new(patterns) {
        Ok(set) => Ok(PatternSet { set, patterns: Ghost(string_views(patterns@)) }),
        Err(e) => Err(e),
    }
}

/// `regex::RegexSet::is_empty`. Claimed: true exactly when the set holds no
/// pattern.
#[verifier::external_body]
pub fn regex_set_is_empty(set: &PatternSet) -> (r: bool)
    ensures
        r == (set@.len() == 0),
{
    set.set.is_empty()
}

/// `regex::RegexSet::is_match`. Claimed: the answer is the one
/// [`regex_set_matches`] names for the set's patterns and the haystack (the
/// set was built by `RegexSet::new`, with the default options, so nothing
/// else decides it), and a set without patterns matches nothing (as its
/// documentation says).
#[verifier::external_body]
pub fn regex_set_is_match(set: &PatternSet, haystack: &str) -> (r: bool)
    ensures
        r == regex_set_matches(set@, haystack@),
        set@.len() == 0 ==> !r,
{
    set.set.is_match(haystack)
}

/// The message of a `regex::Error` (its `Display`). Nothing is claimed of
/// its text.
#[verifier::external_body]
pub fn regex_error_message(e: &regex::Error) -> (r: String) {
    format!("{e}")
}

} // verus!
