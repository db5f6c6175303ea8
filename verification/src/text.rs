//! Character-level helpers shared by the parsers.
//!
//! Everything here works on `Seq<char>` in specifications and on `Vec<char>`
//! (or `&str` viewed as characters) in executable code.
use vstd::prelude::*;
use vstd::std_specs::iter::IteratorSpec;
use crate::outside::push_char;

verus! {

broadcast use vstd::string::group_string_axioms;

/// Three-way comparison result.
#[derive(Clone, Copy, PartialEq, Eq, Debug, Structural)]
pub enum Order {
    /// Strictly before.
    Less,
    /// Equal.
    Equal,
    /// Strictly after.
    Greater,
}

/// ASCII whitespace as `char::is_ascii_whitespace` defines it.
pub open spec fn is_ascii_ws(c: char) -> bool {
    c == ' ' || c == '\t' || c == '\n' || c == '\x0C' || c == '\r'
}

/// Unicode `White_Space`, as `char::is_whitespace` defines it.
pub open spec fn is_ws(c: char) -> bool {
    ('\t' <= c && c <= '\r') || c == ' ' || c == '\u{85}' || c == '\u{A0}' || c == '\u{1680}'
        || ('\u{2000}' <= c && c <= '\u{200A}') || c == '\u{2028}' || c == '\u{2029}'
        || c == '\u{202F}' || c == '\u{205F}' || c == '\u{3000}'
}

/// A character that domain parsing trims from both ends.
pub open spec fn is_trim_char(c: char) -> bool {
    c == '.' || is_ascii_ws(c)
}

/// Lowercase ASCII: every character is ASCII and none is an uppercase letter.
pub open spec fn is_lower_ascii(s: Seq<char>) -> bool {
    forall|i: int| 0 <= i < s.len() ==> (s[i] as u32) < 128 && !('A' <= #[trigger] s[i] && s[i] <= 'Z')
}

/// A character a normalised host name can hold: a lowercase ASCII letter,
/// a digit, `-` or `.`.
pub open spec fn is_ldh_char(c: char) -> bool {
    ('a' <= c && c <= 'z') || ('0' <= c && c <= '9') || c == '-' || c == '.'
}

/// Every character is one a host name can hold.
pub open spec fn all_ldh(s: Seq<char>) -> bool {
    forall|i: int| 0 <= i < s.len() ==> is_ldh_char(#[trigger] s[i])
}

/// Every dot-separated label is non-empty: the text is not empty, neither
/// starts nor ends with a dot, and holds no two dots in a row.
pub open spec fn labels_nonempty(h: Seq<char>) -> bool {
    &&& h.len() > 0
    &&& h[0] != '.'
    &&& h[h.len() - 1] != '.'
    &&& forall|i: int, j: int| 0 <= i && j == i + 1 && j < h.len() ==> !(#[trigger] h[i] == '.' && #[trigger] h[j] == '.')
}

/// What the DNS length rules accept: non-empty labels (see
/// [`labels_nonempty`]), at most 253 characters in all, and no run of more
/// than 63 characters without a dot.
pub open spec fn dns_shaped(h: Seq<char>) -> bool {
    &&& labels_nonempty(h)
    &&& h.len() <= 253
    &&& forall|i: int, j: int| 0 <= i <= j < h.len() && #[trigger] dot_free(h, i, j) ==> j - i < 63
}

/// No dot from position `i` through position `j`.
pub open spec fn dot_free(h: Seq<char>, i: int, j: int) -> bool {
    forall|k: int| i <= k <= j ==> h[k] != '.'
}

/// The decimal digit of a value below ten.
pub open spec fn decimal_digit(d: nat) -> char {
    ((d + 48) as u8) as char
}

/// The decimal digits of `n`, most significant first, without leading
/// zeros (`0` for zero).
pub open spec fn decimal_text(n: nat) -> Seq<char>
    decreases n,
{
    if n < 10 {
        seq![decimal_digit(n)]
    } else {
        decimal_text(n / 10).push(decimal_digit(n % 10))
    }
}

/// `n` in decimal with a comma between each group of three digits, counted
/// from the right: `54321` is `54,321`.
pub open spec fn nice_text(n: nat) -> Seq<char>
    decreases n,
{
    if n < 1000 {
        decimal_text(n)
    } else {
        let g = (n % 1000) as nat;
        nice_text(n / 1000) + seq![
            ',',
            decimal_digit(g / 100),
            decimal_digit((g / 10) % 10),
            decimal_digit(g % 10),
        ]
    }
}

/// A character of a `YYYY-MM-DD hh:mm:ss` time stamp.
pub open spec fn is_stamp_char(c: char) -> bool {
    ('0' <= c && c <= '9') || c == '-' || c == ':' || c == ' '
}

/// A character of a number with thousands separators.
pub open spec fn is_nice_char(c: char) -> bool {
    ('0' <= c && c <= '9') || c == ','
}

/// Number of leading characters satisfying [`is_trim_char`].
pub open spec fn lead_trim(s: Seq<char>) -> nat
    decreases s.len(),
{
    if s.len() > 0 && is_trim_char(s[0]) {
        1 + lead_trim(s.drop_first())
    } else {
        0
    }
}

/// Number of trailing characters satisfying [`is_trim_char`].
pub open spec fn trail_trim(s: Seq<char>) -> nat
    decreases s.len(),
{
    if s.len() > 0 && is_trim_char(s.last()) {
        1 + trail_trim(s.drop_last())
    } else {
        0
    }
}

/// `s` with leading and trailing dots and ASCII whitespace removed.
pub open spec fn trim_dots(s: Seq<char>) -> Seq<char> {
    let a = lead_trim(s) as int;
    if a == s.len() {
        Seq::empty()
    } else {
        s.subrange(a, s.len() - trail_trim(s))
    }
}

/// Lexicographic order on characters by code point.
pub open spec fn lex_lt(a: Seq<char>, b: Seq<char>) -> bool
    decreases a.len(),
{
    if a.len() == 0 {
        b.len() > 0
    } else if b.len() == 0 {
        false
    } else if a[0] != b[0] {
        a[0] < b[0]
    } else {
        lex_lt(a.drop_first(), b.drop_first())
    }
}

/// Strictly increasing under [`lex_lt`].
pub open spec fn strictly_sorted(s: Seq<Seq<char>>) -> bool {
    forall|i: int, j: int| 0 <= i < j < s.len() ==> lex_lt(#[trigger] s[i], #[trigger] s[j])
}

/// The lines of `rest`, the first of which starts with `cur`.
///
/// A line ends at `'\n'`; a final line without terminator counts only when it
/// is not empty.
pub open spec fn split_lines_from(cur: Seq<char>, rest: Seq<char>) -> Seq<Seq<char>>
    decreases rest.len(),
{
    if rest.len() == 0 {
        if cur.len() == 0 {
            Seq::empty()
        } else {
            seq![cur]
        }
    } else if rest[0] == '\n' {
        seq![cur] + split_lines_from(Seq::empty(), rest.drop_first())
    } else {
        split_lines_from(cur.push(rest[0]), rest.drop_first())
    }
}

/// The character views of a vector of character vectors.
pub open spec fn views(v: Seq<Vec<char>>) -> Seq<Seq<char>> {
    v.map_values(|x: Vec<char>| x@)
}

/// The character views of strings.
pub open spec fn string_views(v: Seq<String>) -> Seq<Seq<char>> {
    v.map_values(|x: String| x@)
}

/// The lines of `s`.
pub open spec fn lines(s: Seq<char>) -> Seq<Seq<char>> {
    split_lines_from(Seq::empty(), s)
}

/// A line without its trailing carriage return, if any.
pub open spec fn strip_cr(l: Seq<char>) -> Seq<char> {
    if l.len() > 0 && l.last() == '\r' {
        l.drop_last()
    } else {
        l
    }
}

/// The lines of `s` as `str::lines` yields them: split at `\n`, with a
/// `\r` just before the `\n` dropped, and no empty final line. A final line
/// without `\n` keeps any `\r` it ends with.
pub open spec fn str_lines(s: Seq<char>) -> Seq<Seq<char>> {
    let ls = lines(s);
    if s.len() > 0 && s.last() != '\n' {
        ls.drop_last().map_values(|l: Seq<char>| strip_cr(l)).push(ls.last())
    } else {
        ls.map_values(|l: Seq<char>| strip_cr(l))
    }
}

/// Text that does not end at a line break has a line.
pub proof fn lemma_lines_nonempty(cur: Seq<char>, rest: Seq<char>)
    requires
        cur.len() > 0 || rest.len() > 0,
    ensures
        split_lines_from(cur, rest).len() > 0,
    decreases rest.len(),
{
    if rest.len() > 0 && rest[0] != '\n' {
        lemma_lines_nonempty(cur.push(rest[0]), rest.drop_first());
    }
}

/// Number of leading characters satisfying [`is_ws`].
pub open spec fn lead_ws(s: Seq<char>) -> nat
    decreases s.len(),
{
    if s.len() > 0 && is_ws(s[0]) {
        1 + lead_ws(s.drop_first())
    } else {
        0
    }
}

/// Number of trailing characters satisfying [`is_ws`].
pub open spec fn trail_ws(s: Seq<char>) -> nat
    decreases s.len(),
{
    if s.len() > 0 && is_ws(s.last()) {
        1 + trail_ws(s.drop_last())
    } else {
        0
    }
}

/// `str::trim_start`.
pub open spec fn trim_start(s: Seq<char>) -> Seq<char> {
    s.skip(lead_ws(s) as int)
}

/// `str::trim_end`.
pub open spec fn trim_end(s: Seq<char>) -> Seq<char> {
    s.take(s.len() - trail_ws(s))
}

/// `str::trim`.
pub open spec fn trim(s: Seq<char>) -> Seq<char> {
    trim_end(trim_start(s))
}

/// The position of the first `c` in `s`, if any.
pub open spec fn find_char(s: Seq<char>, c: char) -> Option<int>
    decreases s.len(),
{
    if s.len() == 0 {
        None
    } else if s[0] == c {
        Some(0)
    } else {
        match find_char(s.drop_first(), c) {
            Some(i) => Some(i + 1),
            None => None,
        }
    }
}

/// `s` up to (not including) its first `c`, or all of it.
pub open spec fn before_char(s: Seq<char>, c: char) -> Seq<char> {
    match find_char(s, c) {
        Some(i) => s.take(i),
        None => s,
    }
}

/// The first position at or after `i` where `pat` occurs in `s`.
pub open spec fn find_from(s: Seq<char>, pat: Seq<char>, i: int) -> Option<int>
    decreases s.len() + 1 - i,
{
    if i < 0 || i + pat.len() > s.len() {
        None
    } else if s.subrange(i, i + pat.len()) == pat {
        Some(i)
    } else {
        find_from(s, pat, i + 1)
    }
}

/// The first position where `pat` occurs in `s` (`str::find`).
pub open spec fn find_seq(s: Seq<char>, pat: Seq<char>) -> Option<int> {
    find_from(s, pat, 0)
}

/// Does `c` separate words? Unicode whitespace when `unicode`, else ASCII.
pub open spec fn is_sep(c: char, unicode: bool) -> bool {
    if unicode {
        is_ws(c)
    } else {
        is_ascii_ws(c)
    }
}

/// The words of `rest`, the first of which continues `cur`: pieces between
/// separators, empty ones skipped.
pub open spec fn words_from(cur: Seq<char>, rest: Seq<char>, unicode: bool) -> Seq<Seq<char>>
    decreases rest.len(),
{
    if rest.len() == 0 {
        if cur.len() == 0 {
            Seq::empty()
        } else {
            seq![cur]
        }
    } else if is_sep(rest[0], unicode) {
        (if cur.len() == 0 {
            Seq::empty()
        } else {
            seq![cur]
        }) + words_from(Seq::empty(), rest.drop_first(), unicode)
    } else {
        words_from(cur.push(rest[0]), rest.drop_first(), unicode)
    }
}

/// `str::split_ascii_whitespace` (`unicode` false) or
/// `str::split_whitespace` (`unicode` true).
pub open spec fn words(s: Seq<char>, unicode: bool) -> Seq<Seq<char>> {
    words_from(Seq::empty(), s, unicode)
}

/// Filtering a sequence that starts with `c` keeps `c` in front exactly
/// when it passes.
proof fn lemma_filter_cons(c: char, rest: Seq<char>, keep: spec_fn(char) -> bool)
    ensures
        (seq![c] + rest).filter(keep) == (if keep(c) {
            seq![c]
        } else {
            Seq::<char>::empty()
        }) + rest.filter(keep),
{
    Seq::filter_distributes_over_add(seq![c], rest, keep);
    reveal(Seq::filter);
    assert(seq![c].drop_last() =~= Seq::<char>::empty());
    assert(Seq::<char>::empty().filter(keep) =~= Seq::<char>::empty());
    if keep(c) {
        assert(seq![c].filter(keep) =~= Seq::<char>::empty().push(c));
    } else {
        assert(seq![c].filter(keep) =~= Seq::<char>::empty());
    }
}

proof fn lemma_words_from(cur: Seq<char>, rest: Seq<char>, unicode: bool)
    requires
        forall|k: int| 0 <= k < cur.len() ==> !(#[trigger] cur[k] == ' ' || cur[k] == '\t' || cur[k] == '\n'
            || cur[k] == '\x0C' || cur[k] == '\r') && (unicode ==> !is_ws(cur[k])),
    ensures
        forall|i: int| 0 <= i < words_from(cur, rest, unicode).len() ==> (#[trigger] words_from(cur, rest, unicode)[i]).len() > 0,
        forall|i: int, k: int|
            0 <= i < words_from(cur, rest, unicode).len() && 0 <= k < words_from(cur, rest, unicode)[i].len()
                ==> !(#[trigger] words_from(cur, rest, unicode)[i][k] == ' ' || words_from(cur, rest, unicode)[i][k] == '\t'
                || words_from(cur, rest, unicode)[i][k] == '\n' || words_from(cur, rest, unicode)[i][k] == '\x0C'
                || words_from(cur, rest, unicode)[i][k] == '\r') && (unicode ==> !is_ws(words_from(cur, rest, unicode)[i][k])),
        words_from(cur, rest, unicode).flatten() == cur + rest.filter(
            |c: char|
                !(if unicode {
                    is_ws(c)
                } else {
                    c == ' ' || c == '\t' || c == '\n' || c == '\x0C' || c == '\r'
                }),
        ),
    decreases rest.len(),
{
    let keep = |c: char|
        !(if unicode {
            is_ws(c)
        } else {
            c == ' ' || c == '\t' || c == '\n' || c == '\x0C' || c == '\r'
        });
    let w = words_from(cur, rest, unicode);
    if rest.len() == 0 {
        reveal(Seq::filter);
        assert(rest.filter(keep) =~= Seq::<char>::empty());
        if cur.len() == 0 {
            assert(w.flatten() =~= Seq::<char>::empty());
        } else {
            assert(w =~= seq![cur]);
            assert(w.drop_first() =~= Seq::<Seq<char>>::empty());
            assert(w.drop_first().flatten() == Seq::<char>::empty());
            assert(w.flatten() == w.first() + w.drop_first().flatten());
            assert(w.flatten() =~= cur);
        }
        assert(cur + rest.filter(keep) =~= cur);
    } else {
        let c = rest[0];
        let tail = rest.drop_first();
        assert(rest =~= seq![c] + tail);
        lemma_filter_cons(c, tail, keep);
        if is_sep(c, unicode) {
            assert(!keep(c));
            lemma_words_from(Seq::empty(), tail, unicode);
            let w2 = words_from(Seq::empty(), tail, unicode);
            if cur.len() == 0 {
                assert(w =~= w2);
                assert(cur + rest.filter(keep) =~= tail.filter(keep));
                assert(Seq::<char>::empty() + tail.filter(keep) =~= tail.filter(keep));
            } else {
                assert(w =~= seq![cur] + w2);
                assert(w.first() == cur);
                assert(w.drop_first() =~= w2);
                assert(Seq::<char>::empty() + tail.filter(keep) =~= tail.filter(keep));
                assert(cur + rest.filter(keep) =~= cur + tail.filter(keep));
                assert forall|i: int, k: int| 0 <= i < w.len() && 0 <= k < w[i].len() implies !(#[trigger] w[i][k] == ' '
                    || w[i][k] == '\t' || w[i][k] == '\n' || w[i][k] == '\x0C' || w[i][k] == '\r') && (unicode ==> !is_ws(w[i][k])) by {
                    if i > 0 {
                        assert(w[i] == w2[i - 1]);
                    }
                }
                assert forall|i: int| 0 <= i < w.len() implies (#[trigger] w[i]).len() > 0 by {
                    if i > 0 {
                        assert(w[i] == w2[i - 1]);
                    }
                }
            }
        } else {
            assert(keep(c));
            assert forall|k: int| 0 <= k < cur.push(c).len() implies !(#[trigger] cur.push(c)[k] == ' '
                || cur.push(c)[k] == '\t' || cur.push(c)[k] == '\n' || cur.push(c)[k] == '\x0C'
                || cur.push(c)[k] == '\r') && (unicode ==> !is_ws(cur.push(c)[k])) by {
                if k < cur.len() {
                    assert(cur.push(c)[k] == cur[k]);
                }
            }
            lemma_words_from(cur.push(c), tail, unicode);
            assert(cur.push(c) + tail.filter(keep) =~= cur + (seq![c] + tail.filter(keep)));
        }
    }
}

/// # Words.
///
/// Splitting at white space (`str::split_ascii_whitespace` when `unicode`
/// is false, `str::split_whitespace` when it is true) gives the non-empty
/// runs between separators: no word is empty; no word holds a space, tab,
/// line feed, form feed or carriage return, nor, when splitting by Unicode,
/// any Unicode white space; and the words, one after another, are exactly
/// the characters of `s` that are no separator, in order.
pub proof fn lemma_words(s: Seq<char>, unicode: bool)
    ensures
        forall|i: int| 0 <= i < words(s, unicode).len() ==> (#[trigger] words(s, unicode)[i]).len() > 0,
        forall|i: int, k: int|
            0 <= i < words(s, unicode).len() && 0 <= k < words(s, unicode)[i].len() ==> !(
            #[trigger] words(s, unicode)[i][k] == ' ' || words(s, unicode)[i][k] == '\t' || words(s, unicode)[i][k]
                == '\n' || words(s, unicode)[i][k] == '\x0C' || words(s, unicode)[i][k] == '\r') && (unicode
                ==> !is_ws(words(s, unicode)[i][k])),
        words(s, unicode).flatten() == s.filter(
            |c: char|
                !(if unicode {
                    is_ws(c)
                } else {
                    c == ' ' || c == '\t' || c == '\n' || c == '\x0C' || c == '\r'
                }),
        ),
{
    lemma_words_from(Seq::empty(), s, unicode);
    let keep = |c: char|
        !(if unicode {
            is_ws(c)
        } else {
            c == ' ' || c == '\t' || c == '\n' || c == '\x0C' || c == '\r'
        });
    assert(Seq::<char>::empty() + s.filter(keep) =~= s.filter(keep));
}

/// White space by code point: ASCII white space is space (32), tab (9),
/// line feed (10), form feed (12) and carriage return (13); Unicode white
/// space (the `White_Space` property) is those, the vertical tab (11), and
/// 0x85, 0xA0, 0x1680, 0x2000 to 0x200A, 0x2028, 0x2029, 0x202F, 0x205F and
/// 0x3000.
pub proof fn lemma_ws_chars(c: char)
    ensures
        is_ascii_ws(c) <==> {
            let u = c as u32;
            u == 32 || u == 9 || u == 10 || u == 12 || u == 13
        },
        is_ws(c) <==> {
            let u = c as u32;
            (9 <= u <= 13) || u == 32 || u == 0x85 || u == 0xA0 || u == 0x1680 || (0x2000 <= u <= 0x200A)
                || u == 0x2028 || u == 0x2029 || u == 0x202F || u == 0x205F || u == 0x3000
        },
{
}

/// Where [`find_from`] finds something, it is there, at or after `i`.
pub proof fn lemma_find_from(s: Seq<char>, pat: Seq<char>, i: int)
    ensures
        find_from(s, pat, i) matches Some(k) ==> i <= k && 0 <= k && k + pat.len() <= s.len()
            && s.subrange(k, k + pat.len()) == pat,
    decreases s.len() + 1 - i,
{
    if i < 0 || i + pat.len() > s.len() {
    } else if s.subrange(i, i + pat.len()) == pat {
    } else {
        lemma_find_from(s, pat, i + 1);
    }
}

/// Join `list` with `sep` between neighbours.
pub open spec fn join(list: Seq<Seq<char>>, sep: Seq<char>) -> Seq<char>
    decreases list.len(),
{
    if list.len() == 0 {
        Seq::empty()
    } else if list.len() == 1 {
        list[0]
    } else {
        join(list.drop_last(), sep) + sep + list.last()
    }
}

/// No text comes before itself.
pub proof fn lemma_lex_irreflexive(a: Seq<char>)
    ensures
        !lex_lt(a, a),
    decreases a.len(),
{
    if a.len() > 0 {
        lemma_lex_irreflexive(a.drop_first());
    }
}

/// Of two different texts, exactly one comes before the other.
pub proof fn lemma_lex_total(a: Seq<char>, b: Seq<char>)
    ensures
        a != b ==> (lex_lt(a, b) || lex_lt(b, a)),
        !(lex_lt(a, b) && lex_lt(b, a)),
    decreases a.len(),
{
    if a.len() > 0 && b.len() > 0 {
        lemma_lex_total(a.drop_first(), b.drop_first());
        if a[0] == b[0] && a != b {
            assert(a =~= seq![a[0]] + a.drop_first());
            assert(b =~= seq![b[0]] + b.drop_first());
        }
    } else if a.len() == 0 && b.len() == 0 {
        assert(a =~= b);
    }
}

/// Coming before is transitive.
pub proof fn lemma_lex_transitive(a: Seq<char>, b: Seq<char>, c: Seq<char>)
    requires
        lex_lt(a, b),
        lex_lt(b, c),
    ensures
        lex_lt(a, c),
    decreases a.len(),
{
    if a.len() > 0 && b.len() > 0 && c.len() > 0 {
        if a[0] == b[0] && b[0] == c[0] {
            lemma_lex_transitive(a.drop_first(), b.drop_first(), c.drop_first());
        }
    }
}

/// Two strictly increasing sequences with the same members are equal.
pub proof fn lemma_sorted_unique(a: Seq<Seq<char>>, b: Seq<Seq<char>>)
    requires
        strictly_sorted(a),
        strictly_sorted(b),
        forall|k: Seq<char>| a.contains(k) <==> b.contains(k),
    ensures
        a == b,
    decreases a.len(),
{
    if a.len() == 0 {
        if b.len() > 0 {
            assert(b.contains(b[0]));
        }
        assert(a =~= b);
    } else if b.len() == 0 {
        assert(a.contains(a[0]));
    } else {
        assert(a.contains(a[0]));
        assert(b.contains(b[0]));
        let i = choose|i: int| 0 <= i < b.len() && b[i] == a[0];
        let j = choose|j: int| 0 <= j < a.len() && a[j] == b[0];
        if a[0] != b[0] {
            assert(i > 0 && j > 0);
            assert(lex_lt(b[0], b[i]));
            assert(lex_lt(a[0], a[j]));
            lemma_lex_total(a[0], b[0]);
        }
        let a1 = a.drop_first();
        let b1 = b.drop_first();
        assert forall|k: Seq<char>| a1.contains(k) <==> b1.contains(k) by {
            if a1.contains(k) {
                let m = choose|m: int| 0 <= m < a1.len() && a1[m] == k;
                assert(a[m + 1] == k);
                assert(lex_lt(a[0], a[m + 1]));
                lemma_lex_irreflexive(k);
                assert(b.contains(k));
                let n = choose|n: int| 0 <= n < b.len() && b[n] == k;
                assert(n != 0);
                assert(b1[n - 1] == k);
            }
            if b1.contains(k) {
                let m = choose|m: int| 0 <= m < b1.len() && b1[m] == k;
                assert(b[m + 1] == k);
                assert(lex_lt(b[0], b[m + 1]));
                lemma_lex_irreflexive(k);
                assert(a.contains(k));
                let n = choose|n: int| 0 <= n < a.len() && a[n] == k;
                assert(n != 0);
                assert(a1[n - 1] == k);
            }
        }
        assert forall|x: int, y: int| 0 <= x < y < a1.len() implies lex_lt(#[trigger] a1[x], #[trigger] a1[y]) by {
            assert(a1[x] == a[x + 1]);
            assert(a1[y] == a[y + 1]);
        }
        assert forall|x: int, y: int| 0 <= x < y < b1.len() implies lex_lt(#[trigger] b1[x], #[trigger] b1[y]) by {
            assert(b1[x] == b[x + 1]);
            assert(b1[y] == b[y + 1]);
        }
        lemma_sorted_unique(a1, b1);
        assert(a[0] == b[0]);
        assert(a.len() == b.len());
        assert forall|k: int| 0 <= k < a.len() implies a[k] == b[k] by {
            if k > 0 {
                assert(a[k] == a1[k - 1]);
                assert(b[k] == b1[k - 1]);
            }
        }
        assert(a =~= b);
    }
}

/// Equal prefixes do not change the order.
proof fn lemma_lex_skip(a: Seq<char>, b: Seq<char>, i: int)
    requires
        0 <= i <= a.len(),
        i <= b.len(),
        a.subrange(0, i) == b.subrange(0, i),
    ensures
        lex_lt(a, b) == lex_lt(a.skip(i), b.skip(i)),
    decreases i,
{
    if i > 0 {
        assert(a[0] == a.subrange(0, i)[0]);
        assert(b[0] == b.subrange(0, i)[0]);
        assert(a.drop_first().subrange(0, i - 1) =~= a.subrange(0, i).drop_first());
        assert(b.drop_first().subrange(0, i - 1) =~= b.subrange(0, i).drop_first());
        lemma_lex_skip(a.drop_first(), b.drop_first(), i - 1);
        assert(a.drop_first().skip(i - 1) =~= a.skip(i));
        assert(b.drop_first().skip(i - 1) =~= b.skip(i));
    } else {
        assert(a.skip(0) =~= a);
        assert(b.skip(0) =~= b);
    }
}

/// Unicode whitespace test.
pub fn is_ws_exec(c: char) -> (r: bool)
    ensures
        r == is_ws(c),
{
    ('\t' <= c && c <= '\r') || c == ' ' || c == '\u{85}' || c == '\u{A0}' || c == '\u{1680}'
        || ('\u{2000}' <= c && c <= '\u{200A}') || c == '\u{2028}' || c == '\u{2029}'
        || c == '\u{202F}' || c == '\u{205F}' || c == '\u{3000}'
}

proof fn lemma_lead_ws_is(s: Seq<char>, a: int)
    requires
        0 <= a <= s.len(),
        forall|k: int| 0 <= k < a ==> is_ws(#[trigger] s[k]),
        a < s.len() ==> !is_ws(s[a]),
    ensures
        lead_ws(s) == a,
    decreases a,
{
    if a > 0 {
        assert forall|k: int| 0 <= k < a - 1 implies is_ws(#[trigger] s.drop_first()[k]) by {
            assert(s.drop_first()[k] == s[k + 1]);
        }
        lemma_lead_ws_is(s.drop_first(), a - 1);
    }
}

proof fn lemma_trail_ws_is(s: Seq<char>, b: int)
    requires
        0 <= b <= s.len(),
        forall|k: int| b <= k < s.len() ==> is_ws(#[trigger] s[k]),
        b > 0 ==> !is_ws(s[b - 1]),
    ensures
        trail_ws(s) == s.len() - b,
    decreases s.len() - b,
{
    if b < s.len() {
        assert forall|k: int| b <= k < s.drop_last().len() implies is_ws(#[trigger] s.drop_last()[k]) by {
            assert(s.drop_last()[k] == s[k]);
        }
        lemma_trail_ws_is(s.drop_last(), b);
    }
}

/// `str::trim` on characters.
pub fn trim_chars(v: &[char]) -> (r: Vec<char>)
    ensures
        r@ == trim(v@),
{
    let ghost s = v@;
    let mut a: usize = 0;
    while a < v.len() && is_ws_exec(v[a])
        invariant
            a <= v@.len(),
            forall|k: int| 0 <= k < a ==> is_ws(#[trigger] v@[k]),
        decreases v@.len() - a,
    {
        a = a + 1;
    }
    proof {
        lemma_lead_ws_is(s, a as int);
    }
    let ghost t = s.skip(a as int);
    let mut b: usize = v.len();
    while b > a && is_ws_exec(v[b - 1])
        invariant
            a <= b <= v@.len(),
            forall|k: int| b <= k < v@.len() ==> is_ws(#[trigger] v@[k]),
        decreases b,
    {
        b = b - 1;
    }
    proof {
        assert forall|k: int| b - a <= k < t.len() implies is_ws(#[trigger] t[k]) by {
            assert(t[k] == s[k + a]);
        }
        if b > a {
            assert(t[b - a - 1] == s[b - 1]);
        }
        lemma_trail_ws_is(t, b - a);
        assert(t.take(b - a) =~= s.subrange(a as int, b as int));
    }
    sub_chars(v, a, b)
}

/// `str::trim_start` on characters.
pub fn trim_start_chars(v: &[char]) -> (r: Vec<char>)
    ensures
        r@ == trim_start(v@),
{
    let mut a: usize = 0;
    while a < v.len() && is_ws_exec(v[a])
        invariant
            a <= v@.len(),
            forall|k: int| 0 <= k < a ==> is_ws(#[trigger] v@[k]),
        decreases v@.len() - a,
    {
        a = a + 1;
    }
    proof {
        lemma_lead_ws_is(v@, a as int);
    }
    sub_chars(v, a, v.len())
}

/// `str::trim_end` on characters.
pub fn trim_end_chars(v: &[char]) -> (r: Vec<char>)
    ensures
        r@ == trim_end(v@),
{
    let mut b: usize = v.len();
    while b > 0 && is_ws_exec(v[b - 1])
        invariant
            b <= v@.len(),
            forall|k: int| b <= k < v@.len() ==> is_ws(#[trigger] v@[k]),
        decreases b,
    {
        b = b - 1;
    }
    proof {
        lemma_trail_ws_is(v@, b as int);
    }
    sub_chars(v, 0, b)
}

/// The position of the first `c` in `v`, if any.
pub fn find_char_exec(v: &[char], c: char) -> (r: Option<usize>)
    ensures
        r matches Some(i) ==> find_char(v@, c) == Some(i as int),
        r is None ==> find_char(v@, c) is None,
{
    let mut i: usize = 0;
    assert(v@.skip(0) =~= v@);
    while i < v.len()
        invariant
            i <= v@.len(),
            find_char(v@, c) == match find_char(v@.skip(i as int), c) {
                Some(j) => Some(j + i),
                None => None,
            },
        decreases v@.len() - i,
    {
        assert(v@.skip(i as int).drop_first() =~= v@.skip(i + 1));
        if v[i] == c {
            return Some(i);
        }
        i = i + 1;
    }
    None
}

/// `s` up to its first `c`, or all of it.
pub fn before_char_exec(v: &[char], c: char) -> (r: Vec<char>)
    ensures
        r@ == before_char(v@, c),
{
    proof {
        lemma_find_char(v@, c);
    }
    match find_char_exec(v, c) {
        Some(i) => sub_chars(v, 0, i),
        None => sub_chars(v, 0, v.len()),
    }
}

/// Where [`find_char`] lands.
pub proof fn lemma_find_char(s: Seq<char>, c: char)
    ensures
        find_char(s, c) matches Some(i) ==> 0 <= i < s.len() && s[i] == c && forall|k: int|
            0 <= k < i ==> s[k] != c,
        find_char(s, c) is None ==> forall|k: int| 0 <= k < s.len() ==> s[k] != c,
    decreases s.len(),
{
    if s.len() > 0 && s[0] != c {
        lemma_find_char(s.drop_first(), c);
        assert forall|k: int| 0 < k < s.len() implies s[k] == s.drop_first()[k - 1] by {}
    }
    if s.len() == 0 {
        assert(s.take(0) =~= s);
    }
    if find_char(s, c) is None && s.len() > 0 {
        assert(s.take(s.len() as int) =~= s);
    }
}

/// Split characters into lines as `str::lines` does (see [`str_lines`]).
pub fn split_str_lines_chars(v: &[char]) -> (out: Vec<Vec<char>>)
    ensures
        views(out@) == str_lines(v@),
{
    let ghost s = v@;
    let raw = split_lines_chars(v);
    let open_end = v.len() > 0 && v[v.len() - 1] != '\n';
    proof {
        if open_end {
            lemma_lines_nonempty(Seq::empty(), s);
        }
    }
    let ghost stripped = if open_end {
        views(raw@).drop_last()
    } else {
        views(raw@)
    };
    let count = if open_end {
        raw.len() - 1
    } else {
        raw.len()
    };
    let mut out: Vec<Vec<char>> = Vec::new();
    let mut i: usize = 0;
    while i < count
        invariant
            i <= count,
            count == stripped.len(),
            count <= raw@.len(),
            stripped == views(raw@).take(count as int),
            views(out@) == stripped.take(i as int).map_values(|l: Seq<char>| strip_cr(l)),
        decreases count - i,
    {
        let l = &raw[i];
        let ghost od = out@;
        let x;
        if l.len() > 0 && l[l.len() - 1] == '\r' {
            x = sub_chars(l.as_slice(), 0, l.len() - 1);
            assert(l@.subrange(0, l@.len() - 1) =~= l@.drop_last());
        } else {
            x = sub_chars(l.as_slice(), 0, l.len());
            assert(l@.subrange(0, l@.len() as int) =~= l@);
        }
        assert(x@ == strip_cr(l@));
        out.push(x);
        assert(views(out@) =~= views(od).push(x@));
        assert(stripped[i as int] == l@);
        assert(views(out@) =~= stripped.take(i + 1).map_values(|l: Seq<char>| strip_cr(l)));
        i = i + 1;
    }
    assert(stripped.take(count as int) =~= stripped);
    if open_end {
        let last = &raw[raw.len() - 1];
        let x = sub_chars(last.as_slice(), 0, last.len());
        assert(x@ =~= last@);
        let ghost od = views(out@);
        out.push(x);
        assert(views(out@) =~= od.push(x@));
        assert(views(raw@).last() == last@);
    }
    assert(views(raw@) == lines(s));
    assert(views(out@) =~= str_lines(s));
    out
}

/// Join `list` with the separator `sep` between neighbours.
pub fn join_chars(list: &Vec<Vec<char>>, sep: char) -> (r: Vec<char>)
    ensures
        r@ == join(views(list@), seq![sep]),
{
    let mut r: Vec<char> = Vec::new();
    let mut i: usize = 0;
    while i < list.len()
        invariant
            i <= list@.len(),
            r@ == join(views(list@).take(i as int), seq![sep]),
        decreases list@.len() - i,
    {
        let ghost before = r@;
        if i > 0 {
            r.push(sep);
        }
        let mut k: usize = 0;
        let item = &list[i];
        let ghost mid = r@;
        while k < item.len()
            invariant
                k <= item@.len(),
                r@ == mid + item@.take(k as int),
            decreases item@.len() - k,
        {
            r.push(item[k]);
            k = k + 1;
            assert(r@ =~= mid + item@.take(k as int));
        }
        let ghost t = views(list@).take(i + 1);
        assert(t.drop_last() =~= views(list@).take(i as int));
        assert(t.last() == item@);
        assert(item@.take(item@.len() as int) =~= item@);
        if i == 0 {
            assert(r@ =~= t[0]);
        } else {
            assert(r@ =~= before + seq![sep] + item@);
        }
        i = i + 1;
    }
    assert(views(list@).take(list@.len() as int) =~= views(list@));
    r
}

/// Append all of `src` to `dst`.
pub fn extend_chars(dst: &mut Vec<char>, src: &[char])
    ensures
        final(dst)@ == old(dst)@ + src@,
{
    let mut k: usize = 0;
    while k < src.len()
        invariant
            k <= src@.len(),
            dst@ == old(dst)@ + src@.take(k as int),
        decreases src@.len() - k,
    {
        dst.push(src[k]);
        k = k + 1;
        assert(dst@ =~= old(dst)@ + src@.take(k as int));
    }
    assert(src@.take(src@.len() as int) =~= src@);
}

/// Does `v` start with `p`?
pub fn starts_with_chars(v: &[char], p: &[char]) -> (r: bool)
    ensures
        r == (p@.len() <= v@.len() && v@.take(p@.len() as int) == p@),
{
    if p.len() > v.len() {
        return false;
    }
    let mut k: usize = 0;
    while k < p.len()
        invariant
            p@.len() <= v@.len(),
            k <= p@.len(),
            v@.take(k as int) == p@.take(k as int),
        decreases p@.len() - k,
    {
        if v[k] != p[k] {
            assert(v@.take(p@.len() as int)[k as int] != p@[k as int]);
            return false;
        }
        k = k + 1;
        assert(v@.take(k as int) =~= p@.take(k as int));
    }
    assert(p@.take(p@.len() as int) =~= p@);
    true
}

/// Collect the characters of a string slice.
pub fn str_chars(s: &str) -> (v: Vec<char>)
    ensures
        v@ == s@,
{
    let mut v: Vec<char> = Vec::new();
    let mut it = s.chars();
    loop
        invariant
            it.obeys_prophetic_iter_laws(),
            v@ + it.remaining() == s@,
        decreases s@.len() - v@.len(),
    {
        match it.next() {
            Some(c) => {
                v.push(c);
            },
            None => {
                assert(v@ =~= s@);
                return v;
            },
        }
    }
}

/// Build a string from characters.
pub fn chars_to_string(v: &[char]) -> (s: String)
    ensures
        s@ == v@,
{
    let mut s = String::new();
    let mut i: usize = 0;
    while i < v.len()
        invariant
            i <= v@.len(),
            s@ == v@.subrange(0, i as int),
        decreases v@.len() - i,
    {
        push_char(&mut s, v[i]);
        i = i + 1;
        assert(s@ =~= v@.subrange(0, i as int));
    }
    s
}

/// Copy `v[from..to]` into a new vector.
pub fn sub_chars(v: &[char], from: usize, to: usize) -> (out: Vec<char>)
    requires
        from <= to <= v@.len(),
    ensures
        out@ == v@.subrange(from as int, to as int),
{
    let mut out: Vec<char> = Vec::new();
    let mut i = from;
    while i < to
        invariant
            from <= i <= to <= v@.len(),
            out@ == v@.subrange(from as int, i as int),
        decreases to - i,
    {
        out.push(v[i]);
        i = i + 1;
        assert(out@ =~= v@.subrange(from as int, i as int));
    }
    out
}

/// ASCII whitespace test.
pub fn is_ascii_ws_exec(c: char) -> (r: bool)
    ensures
        r == is_ascii_ws(c),
{
    c == ' ' || c == '\t' || c == '\n' || c == '\x0C' || c == '\r'
}

proof fn lemma_lead_trim_bound(s: Seq<char>)
    ensures
        lead_trim(s) <= s.len(),
        forall|k: int| 0 <= k < lead_trim(s) ==> is_trim_char(#[trigger] s[k]),
        lead_trim(s) < s.len() ==> !is_trim_char(s[lead_trim(s) as int]),
    decreases s.len(),
{
    if s.len() > 0 && is_trim_char(s[0]) {
        lemma_lead_trim_bound(s.drop_first());
        assert forall|k: int| 0 <= k < lead_trim(s) implies is_trim_char(#[trigger] s[k]) by {
            if k > 0 {
                assert(s[k] == s.drop_first()[k - 1]);
            }
        }
    }
}

proof fn lemma_trail_trim_bound(s: Seq<char>)
    ensures
        trail_trim(s) <= s.len(),
        forall|k: int| s.len() - trail_trim(s) <= k < s.len() ==> is_trim_char(#[trigger] s[k]),
        trail_trim(s) < s.len() ==> !is_trim_char(s[s.len() - trail_trim(s) - 1]),
    decreases s.len(),
{
    if s.len() > 0 && is_trim_char(s.last()) {
        lemma_trail_trim_bound(s.drop_last());
        assert forall|k: int| s.len() - trail_trim(s) <= k < s.len() implies is_trim_char(
            #[trigger] s[k],
        ) by {
            if k < s.len() - 1 {
                assert(s[k] == s.drop_last()[k]);
            }
        }
    }
}

/// The leading count is the first non-trimmed position.
proof fn lemma_lead_trim_is(s: Seq<char>, a: int)
    requires
        0 <= a <= s.len(),
        forall|k: int| 0 <= k < a ==> is_trim_char(#[trigger] s[k]),
        a < s.len() ==> !is_trim_char(s[a]),
    ensures
        lead_trim(s) == a,
    decreases a,
{
    if a > 0 {
        assert(is_trim_char(s[0]));
        assert forall|k: int| 0 <= k < a - 1 implies is_trim_char(#[trigger] s.drop_first()[k]) by {
            assert(s.drop_first()[k] == s[k + 1]);
        }
        lemma_lead_trim_is(s.drop_first(), a - 1);
    } else if s.len() > 0 {
        assert(!is_trim_char(s[0]));
    }
}

/// The trailing count is the last non-trimmed position.
proof fn lemma_trail_trim_is(s: Seq<char>, b: int)
    requires
        0 <= b <= s.len(),
        forall|k: int| b <= k < s.len() ==> is_trim_char(#[trigger] s[k]),
        b > 0 ==> !is_trim_char(s[b - 1]),
    ensures
        trail_trim(s) == s.len() - b,
    decreases s.len() - b,
{
    if b < s.len() {
        assert(is_trim_char(s.last()));
        assert forall|k: int| b <= k < s.drop_last().len() implies is_trim_char(
            #[trigger] s.drop_last()[k],
        ) by {
            assert(s.drop_last()[k] == s[k]);
        }
        lemma_trail_trim_is(s.drop_last(), b);
    } else if s.len() > 0 {
        assert(!is_trim_char(s.last()));
    }
}

/// The bounds of [`trim_dots`]: `(start, end)` with `v[start..end]` the trimmed text.
pub fn trim_bounds(v: &[char]) -> (r: (usize, usize))
    ensures
        r.0 <= r.1 <= v@.len(),
        v@.subrange(r.0 as int, r.1 as int) == trim_dots(v@),
{
    let ghost s = v@;
    let mut a: usize = 0;
    while a < v.len() && (v[a] == '.' || is_ascii_ws_exec(v[a]))
        invariant
            a <= v@.len(),
            forall|k: int| 0 <= k < a ==> is_trim_char(#[trigger] v@[k]),
        decreases v@.len() - a,
    {
        a = a + 1;
    }
    proof {
        lemma_lead_trim_is(s, a as int);
    }
    if a == v.len() {
        assert(v@.subrange(a as int, a as int) =~= Seq::<char>::empty());
        return (a, a);
    }
    let mut b: usize = v.len();
    while b > a && (v[b - 1] == '.' || is_ascii_ws_exec(v[b - 1]))
        invariant
            a < v@.len(),
            !is_trim_char(v@[a as int]),
            a <= b <= v@.len(),
            forall|k: int| b <= k < v@.len() ==> is_trim_char(#[trigger] v@[k]),
        decreases b,
    {
        b = b - 1;
    }
    proof {
        lemma_trail_trim_is(s, b as int);
    }
    (a, b)
}

/// Compare `a` with the suffix `b[start..]`.
pub fn compare_at(a: &[char], b: &[char], start: usize) -> (r: Order)
    requires
        start <= b@.len(),
    ensures
        r == Order::Equal <==> a@ == b@.skip(start as int),
        r == Order::Less <==> lex_lt(a@, b@.skip(start as int)),
        r == Order::Greater <==> lex_lt(b@.skip(start as int), a@),
{
    let ghost bb = b@.skip(start as int);
    let blen = b.len() - start;
    let mut i: usize = 0;
    let btot = b.len();
    while i < a.len() && i < blen && a[i] == b[start + i]
        invariant
            btot == b@.len(),
            blen == bb.len(),
            start + blen == btot,
            i <= a@.len(),
            i <= blen,
            bb == b@.skip(start as int),
            start <= b@.len(),
            a@.subrange(0, i as int) == bb.subrange(0, i as int),
        decreases a@.len() - i,
    {
        assert(bb[i as int] == b@[start + i]);
        i = i + 1;
        assert(a@.subrange(0, i as int) =~= bb.subrange(0, i as int));
    }
    proof {
        lemma_lex_skip(a@, bb, i as int);
        lemma_lex_total(a@, bb);
        lemma_lex_irreflexive(a@);
    }
    if i == a.len() && i == blen {
        assert(a@ =~= a@.subrange(0, i as int));
        assert(bb =~= bb.subrange(0, i as int));
        Order::Equal
    } else if i == a.len() {
        assert(a@.skip(i as int).len() == 0);
        assert(a@ != bb);
        Order::Less
    } else if i == blen {
        assert(bb.skip(i as int).len() == 0);
        assert(a@ != bb);
        Order::Greater
    } else {
        assert(a@.skip(i as int)[0] == a@[i as int]);
        assert(bb.skip(i as int)[0] == b@[start + i]);
        assert(a@[i as int] != bb[i as int]);
        if a[i] < b[start + i] {
            Order::Less
        } else {
            Order::Greater
        }
    }
}

/// Split text into its lines (see [`lines`]).
pub fn split_lines(s: &str) -> (out: Vec<Vec<char>>)
    ensures
        views(out@) == lines(s@),
{
    let v = str_chars(s);
    split_lines_chars(v.as_slice())
}

/// Split characters into lines (see [`lines`]).
pub fn split_lines_chars(v: &[char]) -> (out: Vec<Vec<char>>)
    ensures
        views(out@) == lines(v@),
{
    let ghost s = v@;
    let mut out: Vec<Vec<char>> = Vec::new();
    let mut cur: Vec<char> = Vec::new();
    let mut i: usize = 0;
    assert(views(out@) =~= Seq::<Seq<char>>::empty());
    assert(v@.skip(0) =~= v@);
    assert(views(out@) + split_lines_from(cur@, v@.skip(0)) =~= lines(s));
    while i < v.len()
        invariant
            i <= v@.len(),
            v@ == s,
            views(out@) + split_lines_from(cur@, v@.skip(i as int)) == lines(s),
        decreases v@.len() - i,
    {
        let ghost rest = v@.skip(i as int);
        assert(rest.drop_first() =~= v@.skip(i + 1));
        let c = v[i];
        if c == '\n' {
            let ghost od = views(out@);
            let ghost oc = cur@;
            out.push(cur);
            assert(views(out@) =~= od.push(oc));
            cur = Vec::new();
            assert(cur@ =~= Seq::<char>::empty());
            assert(od.push(oc) + split_lines_from(cur@, v@.skip(i + 1)) =~= od + (seq![oc]
                + split_lines_from(Seq::empty(), v@.skip(i + 1))));
        } else {
            cur.push(c);
        }
        i = i + 1;
    }
    assert(v@.skip(i as int) =~= Seq::<char>::empty());
    if cur.len() > 0 {
        let ghost od = views(out@);
        let ghost oc = cur@;
        out.push(cur);
        assert(views(out@) =~= od.push(oc));
        assert(od.push(oc) =~= od + seq![oc]);
    } else {
        assert(views(out@) =~= views(out@) + Seq::<Seq<char>>::empty());
    }
    out
}

/// Does `pat` occur in `v` at `i`?
fn occurs_at(v: &[char], pat: &[char], i: usize) -> (r: bool)
    requires
        i + pat@.len() <= v@.len(),
    ensures
        r == (v@.subrange(i as int, i + pat@.len()) == pat@),
{
    let n = v.len();
    let mut k: usize = 0;
    while k < pat.len()
        invariant
            n == v@.len(),
            i + pat@.len() <= v@.len(),
            k <= pat@.len(),
            v@.subrange(i as int, i + k) == pat@.take(k as int),
        decreases pat@.len() - k,
    {
        assert(i + k < v@.len());
        if v[i + k] != pat[k] {
            assert(v@.subrange(i as int, i + pat@.len())[k as int] != pat@[k as int]);
            return false;
        }
        k = k + 1;
        assert(v@.subrange(i as int, i + k) =~= pat@.take(k as int));
    }
    assert(pat@.take(pat@.len() as int) =~= pat@);
    true
}

/// The first position at or after `from` where `pat` occurs in `v`.
pub fn find_sub(v: &[char], pat: &[char], from: usize) -> (r: Option<usize>)
    ensures
        r matches Some(k) ==> find_from(v@, pat@, from as int) == Some(k as int),
        r is None ==> find_from(v@, pat@, from as int) is None,
        r matches Some(k) ==> k + pat@.len() <= v@.len() && from <= k,
{
    proof {
        lemma_find_from(v@, pat@, from as int);
    }
    if pat.len() > v.len() {
        return None;
    }
    let last = v.len() - pat.len();
    if from > last {
        return None;
    }
    let mut i = from;
    loop
        invariant
            last + pat@.len() == v@.len(),
            from <= i <= last,
            find_from(v@, pat@, from as int) == find_from(v@, pat@, i as int),
        decreases last - i,
    {
        if occurs_at(v, pat, i) {
            return Some(i);
        }
        if i == last {
            assert(find_from(v@, pat@, i + 1) is None);
            return None;
        }
        i = i + 1;
    }
}

/// Split into words as `str::split_ascii_whitespace` (`unicode` false) or
/// `str::split_whitespace` (`unicode` true) does.
pub fn split_words(v: &[char], unicode: bool) -> (out: Vec<Vec<char>>)
    ensures
        views(out@) == words(v@, unicode),
{
    let ghost s = v@;
    let mut out: Vec<Vec<char>> = Vec::new();
    let mut cur: Vec<char> = Vec::new();
    let mut i: usize = 0;
    assert(v@.skip(0) =~= v@);
    assert(views(out@) + words_from(cur@, v@.skip(0), unicode) =~= words(s, unicode));
    while i < v.len()
        invariant
            i <= v@.len(),
            v@ == s,
            views(out@) + words_from(cur@, v@.skip(i as int), unicode) == words(s, unicode),
        decreases v@.len() - i,
    {
        let ghost rest = v@.skip(i as int);
        assert(rest.drop_first() =~= v@.skip(i + 1));
        let c = v[i];
        let sep = if unicode {
            is_ws_exec(c)
        } else {
            is_ascii_ws_exec(c)
        };
        if sep {
            if cur.len() > 0 {
                let ghost od = views(out@);
                let ghost oc = cur@;
                out.push(cur);
                assert(views(out@) =~= od.push(oc));
                cur = Vec::new();
                assert(od.push(oc) + words_from(cur@, v@.skip(i + 1), unicode) =~= od + (seq![oc]
                    + words_from(Seq::empty(), v@.skip(i + 1), unicode)));
            } else {
                assert(cur@ =~= Seq::<char>::empty());
                assert(views(out@) + words_from(cur@, v@.skip(i + 1), unicode) =~= views(out@) + (
                Seq::<Seq<char>>::empty() + words_from(Seq::empty(), v@.skip(i + 1), unicode)));
            }
        } else {
            cur.push(c);
        }
        i = i + 1;
    }
    assert(v@.skip(i as int) =~= Seq::<char>::empty());
    if cur.len() > 0 {
        let ghost od = views(out@);
        let ghost oc = cur@;
        out.push(cur);
        assert(views(out@) =~= od.push(oc));
        assert(od.push(oc) =~= od + seq![oc]);
    } else {
        assert(views(out@) =~= views(out@) + Seq::<Seq<char>>::empty());
    }
    out
}

} // verus!
