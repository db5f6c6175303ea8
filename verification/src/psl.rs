//! Public Suffix List: suffix lookup and domain parsing.
//!
//! A [`Domain`] is a host that IDNA normalisation turns into lowercase ASCII
//! and that ends in a listed public suffix with at least one label before it.
//! Hosts with unknown or missing suffixes are rejected.
use vstd::prelude::*;
use vstd::string::StrSliceExecFns;
use crate::outside::{domain_to_ascii_strict, idna_ascii_strict};
use crate::psl_data::{
    PSL_EXCEPTION_KEYS, PSL_EXCEPTION_LABELS, PSL_MAIN_0, PSL_MAIN_1, PSL_MAIN_2, PSL_MAIN_3,
    PSL_MAIN_4, PSL_MAIN_5, PSL_MAIN_6, PSL_MAIN_7, PSL_MAIN_8, PSL_MAIN_9, PSL_WILD,
};
use crate::text::{
    all_ldh, dns_shaped, is_ldh_char, labels_nonempty, compare_at, is_lower_ascii, lemma_lex_irreflexive, lemma_lex_transitive,
    lex_lt, lines, split_lines, str_chars, strictly_sorted, sub_chars, trim_bounds, trim_dots,
    views, Order,
};

verus! {

broadcast use vstd::string::group_string_axioms;

/// The rules of a suffix list.
pub struct SuffixRules {
    /// Normal suffixes.
    pub main: Seq<Seq<char>>,
    /// Wildcard suffixes.
    pub wild: Seq<Seq<char>>,
    /// Exempt labels, parallel to `exception_keys`.
    pub exception_labels: Seq<Seq<char>>,
    /// The wildcard suffixes the exempt labels belong to.
    pub exception_keys: Seq<Seq<char>>,
}

/// How a suffix is listed.
#[derive(Clone, Copy, PartialEq, Eq, Debug, Structural)]
pub enum SuffixKind {
    /// A normal suffix.
    Tld,
    /// A wildcard suffix: itself, and itself with any one label before it.
    Wild,
}

/// How `s` is listed, if at all. Wildcard entries are consulted first.
pub open spec fn kind_of(r: SuffixRules, s: Seq<char>) -> Option<SuffixKind> {
    if r.wild.contains(s) {
        Some(SuffixKind::Wild)
    } else if r.main.contains(s) {
        Some(SuffixKind::Tld)
    } else {
        None
    }
}

/// Is `label` exempt from the wildcard suffix `key`?
pub open spec fn is_exception(r: SuffixRules, key: Seq<char>, label: Seq<char>) -> bool {
    exists|i: int|
        0 <= i < r.exception_labels.len() && i < r.exception_keys.len()
            && #[trigger] r.exception_labels[i] == label && r.exception_keys[i] == key
}

/// Is position `i` of `h` a dot followed by a listed suffix?
pub open spec fn is_match_dot(r: SuffixRules, h: Seq<char>, i: int) -> bool {
    0 <= i < h.len() && h[i] == '.' && kind_of(r, h.skip(i + 1)) is Some
}

/// The first position at or after `i` that [`is_match_dot`].
pub open spec fn first_match(r: SuffixRules, h: Seq<char>, i: nat) -> Option<int>
    decreases h.len() - i,
{
    if i >= h.len() {
        None
    } else if is_match_dot(r, h, i as int) {
        Some(i as int)
    } else {
        first_match(r, h, i + 1)
    }
}

/// The position of the last dot before `i`, or `0` when there is none.
pub open spec fn prev_dot(h: Seq<char>, i: int) -> int
    decreases i,
{
    if i <= 0 {
        0
    } else if h[i - 1] == '.' {
        i - 1
    } else {
        prev_dot(h, i - 1)
    }
}

/// The position of the last dot before `end`, if any.
pub open spec fn last_dot_before(h: Seq<char>, end: int) -> Option<int>
    decreases end,
{
    if end <= 0 {
        None
    } else if h[end - 1] == '.' {
        Some(end - 1)
    } else {
        last_dot_before(h, end - 1)
    }
}

/// Where the public suffix of `h` starts (just after its leading dot).
///
/// The suffix is the longest listed tail of `h` that leaves something before
/// it. A wildcard suffix takes in the label before it unless that label is an
/// exception, and needs a further label in front.
pub open spec fn suffix_start(r: SuffixRules, h: Seq<char>) -> Option<int> {
    if h.len() < 3 || kind_of(r, h) is Some {
        None
    } else {
        match first_match(r, h, 0) {
            None => None,
            Some(i) => if kind_of(r, h.skip(i + 1)) == Some(SuffixKind::Wild) {
                let d = prev_dot(h, i);
                let after = if d == 0 {
                    0
                } else {
                    d + 1
                };
                if is_exception(r, h.skip(i + 1), h.subrange(after, i)) {
                    Some(i + 1)
                } else if d == 0 {
                    None
                } else {
                    Some(after)
                }
            } else {
                Some(i + 1)
            },
        }
    }
}

/// The parts of a host: `(root_start, root_end, suffix_start)`.
///
/// The root runs from just after the last dot before the suffix's dot (or
/// from the start) up to that dot; the suffix runs to the end.
pub open spec fn domain_parts(r: SuffixRules, h: Seq<char>) -> Option<(int, int, int)> {
    match suffix_start(r, h) {
        None => None,
        Some(s) => {
            let rs = match last_dot_before(h, s - 1) {
                Some(d) => d + 1,
                None => 0,
            };
            Some((rs, s - 1, s))
        },
    }
}

/// What parsing makes of `src` under `r`: the host and its parts.
pub open spec fn parse_spec(r: SuffixRules, src: Seq<char>) -> Option<(Seq<char>, int, int, int)> {
    match idna_ascii_strict(trim_dots(src)) {
        None => None,
        Some(h) => match domain_parts(r, h) {
            None => None,
            Some(p) => Some((h, p.0, p.1, p.2)),
        },
    }
}

/// The rules held in [`crate::psl_data`].
pub open spec fn builtin_rules() -> SuffixRules {
    SuffixRules {
        main: lines(PSL_MAIN_0@) + lines(PSL_MAIN_1@) + lines(PSL_MAIN_2@) + lines(PSL_MAIN_3@)
            + lines(PSL_MAIN_4@) + lines(PSL_MAIN_5@) + lines(PSL_MAIN_6@) + lines(PSL_MAIN_7@)
            + lines(PSL_MAIN_8@) + lines(PSL_MAIN_9@),
        wild: lines(PSL_WILD@),
        exception_labels: lines(PSL_EXCEPTION_LABELS@),
        exception_keys: lines(PSL_EXCEPTION_KEYS@),
    }
}

proof fn lemma_prev_dot(h: Seq<char>, i: int)
    requires
        0 <= i <= h.len(),
    ensures
        0 <= prev_dot(h, i),
        i > 0 ==> prev_dot(h, i) < i,
        prev_dot(h, i) > 0 ==> h[prev_dot(h, i)] == '.',
        forall|k: int| prev_dot(h, i) < k < i ==> h[k] != '.',
        prev_dot(h, i) == 0 ==> forall|k: int| 0 < k < i ==> h[k] != '.',
    decreases i,
{
    if i > 0 && h[i - 1] != '.' {
        lemma_prev_dot(h, i - 1);
    }
}

proof fn lemma_last_dot_before(h: Seq<char>, end: int)
    requires
        0 <= end <= h.len(),
    ensures
        match last_dot_before(h, end) {
            Some(d) => 0 <= d < end && h[d] == '.' && forall|k: int| d < k < end ==> h[k] != '.',
            None => forall|k: int| 0 <= k < end ==> h[k] != '.',
        },
    decreases end,
{
    if end > 0 && h[end - 1] != '.' {
        lemma_last_dot_before(h, end - 1);
    }
}

proof fn lemma_first_match(r: SuffixRules, h: Seq<char>, i: nat)
    ensures
        first_match(r, h, i) matches Some(j) ==> i <= j < h.len() && is_match_dot(r, h, j)
            && forall|k: int| i <= k < j ==> !is_match_dot(r, h, k),
        first_match(r, h, i) is None ==> forall|k: int| i <= k < h.len() ==> !is_match_dot(r, h, k),
    decreases h.len() - i,
{
    if i < h.len() && !is_match_dot(r, h, i as int) {
        lemma_first_match(r, h, i + 1);
    }
}

/// The suffix start is just after a dot inside the host.
pub proof fn lemma_suffix_start(r: SuffixRules, h: Seq<char>)
    ensures
        suffix_start(r, h) matches Some(s) ==> 1 <= s <= h.len() && h[s - 1] == '.',
{
    if h.len() >= 3 && kind_of(r, h) is None {
        lemma_first_match(r, h, 0);
        if let Some(i) = first_match(r, h, 0) {
            lemma_prev_dot(h, i);
        }
    }
}

/// The parts of a host are ordered and delimited by dots.
pub proof fn lemma_domain_parts(r: SuffixRules, h: Seq<char>)
    ensures
        domain_parts(r, h) matches Some((a, b, c)) ==> {
            &&& 0 <= a <= b
            &&& b + 1 == c
            &&& c <= h.len()
            &&& h[b] == '.'
            &&& (a == 0 || h[a - 1] == '.')
            &&& forall|k: int| a <= k < b ==> h[k] != '.'
        },
{
    lemma_suffix_start(r, h);
    if let Some(s) = suffix_start(r, h) {
        lemma_last_dot_before(h, s - 1);
    }
}

/// The suffix of a parsed host is listed: either as it stands, or as a
/// wildcard suffix after one more dot-free label. No longer tail of the host
/// that leaves a root is listed, and the host itself is not a suffix.
pub proof fn lemma_suffix_listed(r: SuffixRules, h: Seq<char>)
    ensures
        domain_parts(r, h) matches Some((a, b, c)) ==> {
            &&& kind_of(r, h) is None
            &&& (kind_of(r, h.skip(c)) is Some || exists|j: int|
                c <= j < h.len() && h[j] == '.' && kind_of(r, h.skip(j + 1)) == Some(
                    SuffixKind::Wild,
                ) && forall|k: int| c <= k < j ==> h[k] != '.')
            &&& forall|j: int| 0 <= j < b && h[j] == '.' ==> kind_of(r, #[trigger] h.skip(j + 1)) is None
        },
{
    if h.len() >= 3 && kind_of(r, h) is None {
        lemma_first_match(r, h, 0);
        if let Some(i) = first_match(r, h, 0) {
            lemma_prev_dot(h, i);
            let d = prev_dot(h, i);
            if let Some(c) = suffix_start(r, h) {
                let b = c - 1;
                assert(b <= i);
                assert forall|j: int| 0 <= j < b && h[j] == '.' implies kind_of(
                    r,
                    #[trigger] h.skip(j + 1),
                ) is None by {
                    assert(!is_match_dot(r, h, j));
                }
                if c != i + 1 {
                    assert(c == d + 1);
                    assert(forall|k: int| c <= k < i ==> h[k] != '.');
                    assert(c <= i < h.len() && h[i] == '.' && kind_of(r, h.skip(i + 1)) == Some(
                        SuffixKind::Wild,
                    ) && forall|k: int| c <= k < i ==> h[k] != '.');
                }
            }
        }
    }
}

/// Splitting a parsed host again, as [`Domain::from_ascii`] does, finds the
/// same root and suffix: parsing is stable past the IDNA step.
pub proof fn lemma_resplit(r: SuffixRules, src: Seq<char>)
    ensures
        parse_spec(r, src) matches Some((h, a, b, c)) ==> domain_parts(r, h) == Some((a, b, c)),
{
}

/// The suffix of a parsed host is no host in its own right: splitting it
/// alone finds no root before a suffix.
pub proof fn lemma_suffix_alone(r: SuffixRules, h: Seq<char>)
    ensures
        domain_parts(r, h) matches Some((a, b, c)) ==> domain_parts(r, h.skip(c)) is None,
{
    if let Some(c) = suffix_start(r, h) {
        lemma_suffix_start(r, h);
        lemma_first_match(r, h, 0);
        let i = first_match(r, h, 0).unwrap();
        let s2 = h.skip(c);
        if kind_of(r, s2) is None {
            let d = prev_dot(h, i);
            lemma_prev_dot(h, i);
            assert(kind_of(r, h.skip(i + 1)) == Some(SuffixKind::Wild) && d != 0 && c == d + 1);
            assert(!is_exception(r, h.skip(i + 1), h.subrange(c, i)));
            let i2 = i - c;
            assert(s2.skip(i2 + 1) =~= h.skip(i + 1));
            assert(s2[i2] == h[i]);
            assert(is_match_dot(r, s2, i2));
            lemma_first_match(r, s2, 0);
            assert forall|k: int| 0 <= k < i2 implies !is_match_dot(r, s2, k) by {
                assert(s2[k] == h[c + k]);
            }
            assert(first_match(r, s2, 0) == Some(i2));
            lemma_prev_dot(s2, i2);
            if prev_dot(s2, i2) > 0 {
                assert(s2[prev_dot(s2, i2)] == h[c + prev_dot(s2, i2)]);
            }
            assert(prev_dot(s2, i2) == 0);
            assert(s2.subrange(0, i2) =~= h.subrange(c, i));
        }
    }
}

/// An executable suffix list.
pub struct SuffixTable {
    main: Vec<Vec<char>>,
    main_sorted: bool,
    wild: Vec<Vec<char>>,
    exception_labels: Vec<Vec<char>>,
    exception_keys: Vec<Vec<char>>,
}

impl View for SuffixTable {
    type V = SuffixRules;

    closed spec fn view(&self) -> SuffixRules {
        SuffixRules {
            main: views(self.main@),
            wild: views(self.wild@),
            exception_labels: views(self.exception_labels@),
            exception_keys: views(self.exception_keys@),
        }
    }
}

/// Does `list` hold `h[start..]`? Binary search when `sorted`, else a scan.
fn list_contains(list: &Vec<Vec<char>>, sorted: bool, h: &Vec<char>, start: usize) -> (r: bool)
    requires
        start <= h@.len(),
        sorted ==> strictly_sorted(views(list@)),
    ensures
        r == views(list@).contains(h@.skip(start as int)),
{
    let ghost key = h@.skip(start as int);
    let ghost vs = views(list@);
    if sorted {
        let mut lo: usize = 0;
        let mut hi: usize = list.len();
        while lo < hi
            invariant
                lo <= hi <= list@.len(),
                vs == views(list@),
                key == h@.skip(start as int),
                start <= h@.len(),
                strictly_sorted(vs),
                forall|k: int| 0 <= k < lo ==> lex_lt(#[trigger] vs[k], key),
                forall|k: int| hi <= k < vs.len() ==> lex_lt(key, #[trigger] vs[k]),
            decreases hi - lo,
        {
            let mid = lo + (hi - lo) / 2;
            assert(vs[mid as int] == list@[mid as int]@);
            match compare_at(&list[mid], h, start) {
                Order::Equal => {
                    assert(vs[mid as int] == key);
                    return true;
                },
                Order::Less => {
                    assert forall|k: int| 0 <= k < mid + 1 implies lex_lt(#[trigger] vs[k], key) by {
                        if k < mid {
                            lemma_lex_transitive(vs[k], vs[mid as int], key);
                        }
                    }
                    lo = mid + 1;
                },
                Order::Greater => {
                    assert forall|k: int| mid <= k < vs.len() implies lex_lt(key, #[trigger] vs[k]) by {
                        if k > mid {
                            lemma_lex_transitive(key, vs[mid as int], vs[k]);
                        }
                    }
                    hi = mid;
                },
            }
        }
        assert forall|k: int| 0 <= k < vs.len() implies #[trigger] vs[k] != key by {
            if k < lo {
                lemma_lex_irreflexive(key);
            } else {
                lemma_lex_irreflexive(key);
            }
        }
        false
    } else {
        let mut i: usize = 0;
        while i < list.len()
            invariant
                i <= list@.len(),
                vs == views(list@),
                key == h@.skip(start as int),
                start <= h@.len(),
                forall|k: int| 0 <= k < i ==> #[trigger] vs[k] != key,
            decreases list@.len() - i,
        {
            assert(vs[i as int] == list@[i as int]@);
            if compare_at(&list[i], h, start) == Order::Equal {
                return true;
            }
            i = i + 1;
        }
        false
    }
}

/// Is every entry of `list` strictly before the next one?
fn check_sorted(list: &Vec<Vec<char>>) -> (r: bool)
    ensures
        r ==> strictly_sorted(views(list@)),
{
    let ghost vs = views(list@);
    if list.len() == 0 {
        return true;
    }
    let mut i: usize = 1;
    while i < list.len()
        invariant
            1 <= i <= list@.len(),
            vs == views(list@),
            forall|a: int, b: int| 0 <= a < b < i ==> lex_lt(#[trigger] vs[a], #[trigger] vs[b]),
        decreases list@.len() - i,
    {
        assert(vs[i - 1] == list@[i - 1]@);
        assert(vs[i as int] == list@[i as int]@);
        assert(list@[i as int]@.skip(0) =~= list@[i as int]@);
        if compare_at(&list[i - 1], &list[i], 0) != Order::Less {
            return false;
        }
        assert forall|a: int, b: int| 0 <= a < b < i + 1 implies lex_lt(
            #[trigger] vs[a],
            #[trigger] vs[b],
        ) by {
            if b == i && a < i - 1 {
                lemma_lex_transitive(vs[a], vs[i - 1], vs[b]);
            }
        }
        i = i + 1;
    }
    true
}

/// Append the lines of `text` to `list`.
fn push_lines(list: &mut Vec<Vec<char>>, text: &str)
    ensures
        views(final(list)@) == views(old(list)@) + lines(text@),
{
    let mut more = split_lines(text);
    let ghost a = list@;
    let ghost b = more@;
    list.append(&mut more);
    assert(views(a + b) =~= views(a) + views(b));
}

impl SuffixTable {
    /// Well-formed: the sorted flag is truthful.
    pub closed spec fn wf(&self) -> bool {
        self.main_sorted ==> strictly_sorted(views(self.main@))
    }

    /// The table built from the bundled Public Suffix List data.
    pub fn builtin() -> (t: SuffixTable)
        ensures
            t.wf(),
            t@ == builtin_rules(),
    {
        let mut main: Vec<Vec<char>> = Vec::new();
        push_lines(&mut main, PSL_MAIN_0);
        push_lines(&mut main, PSL_MAIN_1);
        push_lines(&mut main, PSL_MAIN_2);
        push_lines(&mut main, PSL_MAIN_3);
        push_lines(&mut main, PSL_MAIN_4);
        push_lines(&mut main, PSL_MAIN_5);
        push_lines(&mut main, PSL_MAIN_6);
        push_lines(&mut main, PSL_MAIN_7);
        push_lines(&mut main, PSL_MAIN_8);
        push_lines(&mut main, PSL_MAIN_9);
        assert(views(main@) =~= builtin_rules().main);
        let main_sorted = check_sorted(&main);
        SuffixTable {
            main,
            main_sorted,
            wild: split_lines(PSL_WILD),
            exception_labels: split_lines(PSL_EXCEPTION_LABELS),
            exception_keys: split_lines(PSL_EXCEPTION_KEYS),
        }
    }

    /// Is `label` exempt from the wildcard suffix `key`?
    fn exception(&self, key: &Vec<char>, label: &Vec<char>) -> (r: bool)
        ensures
            r == is_exception(self@, key@, label@),
    {
        let ghost ls = self@.exception_labels;
        let ghost ks = self@.exception_keys;
        let mut i: usize = 0;
        assert(key@.skip(0) =~= key@);
        assert(label@.skip(0) =~= label@);
        while i < self.exception_labels.len() && i < self.exception_keys.len()
            invariant
                ls == self@.exception_labels,
                ks == self@.exception_keys,
                ls.len() == self.exception_labels@.len(),
                ks.len() == self.exception_keys@.len(),
                key@.skip(0) == key@,
                label@.skip(0) == label@,
                forall|k: int|
                    0 <= k < i && k < ls.len() && k < ks.len() ==> !(#[trigger] ls[k] == label@
                        && ks[k] == key@),
            decreases self.exception_labels@.len() - i,
        {
            assert(ls[i as int] == self.exception_labels@[i as int]@);
            assert(ks[i as int] == self.exception_keys@[i as int]@);
            if compare_at(&self.exception_labels[i], label, 0) == Order::Equal && compare_at(
                &self.exception_keys[i],
                key,
                0,
            ) == Order::Equal {
                return true;
            }
            i = i + 1;
        }
        false
    }
}

impl SuffixKind {
    /// How the tail `h[start..]` is listed in `table`, if at all.
    pub fn from_slice(table: &SuffixTable, h: &Vec<char>, start: usize) -> (r: Option<SuffixKind>)
        requires
            table.wf(),
            start <= h@.len(),
        ensures
            r == kind_of(table@, h@.skip(start as int)),
    {
        if list_contains(&table.wild, false, h, start) {
            Some(SuffixKind::Wild)
        } else if list_contains(&table.main, table.main_sorted, h, start) {
            Some(SuffixKind::Tld)
        } else {
            None
        }
    }
}

/// Find where the public suffix of the host `h` starts (see [`suffix_start`]).
pub fn parse_suffix(table: &SuffixTable, h: &Vec<char>) -> (r: Option<usize>)
    requires
        table.wf(),
    ensures
        r matches Some(s) ==> suffix_start(table@, h@) == Some(s as int),
        r is None ==> suffix_start(table@, h@) is None,
{
    let ghost rr = table@;
    let len = h.len();
    assert(h@.skip(0) =~= h@);
    if len < 3 || SuffixKind::from_slice(table, h, 0).is_some() {
        return None;
    }
    let mut idx: usize = 0;
    let mut dot: usize = 0;
    while idx < len
        invariant
            len == h@.len(),
            len >= 3,
            rr == table@,
            table.wf(),
            kind_of(rr, h@) is None,
            idx <= len,
            first_match(rr, h@, 0) == first_match(rr, h@, idx as nat),
            dot as int == prev_dot(h@, idx as int),
        decreases len - idx,
    {
        if h[idx] != '.' {
            assert(!is_match_dot(rr, h@, idx as int));
            idx = idx + 1;
            continue;
        }
        let kind = SuffixKind::from_slice(table, h, idx + 1);
        if kind.is_some() {
            assert(is_match_dot(rr, h@, idx as int));
            assert(first_match(rr, h@, idx as nat) == Some(idx as int));
            proof {
                lemma_prev_dot(h@, idx as int);
            }
            if kind == Some(SuffixKind::Wild) {
                let after: usize = if dot == 0 {
                    0
                } else {
                    dot + 1
                };
                let key = sub_chars(h.as_slice(), idx + 1, len);
                let label = sub_chars(h.as_slice(), after, idx);
                assert(key@ =~= h@.skip(idx + 1));
                if table.exception(&key, &label) {
                    return Some(idx + 1);
                } else if dot == 0 {
                    return None;
                } else {
                    return Some(after);
                }
            } else {
                return Some(idx + 1);
            }
        }
        assert(!is_match_dot(rr, h@, idx as int));
        dot = idx;
        idx = idx + 1;
    }
    None
}

/// The hosts of a list of domains.
pub open spec fn hosts_of(ds: Seq<Domain>) -> Seq<Seq<char>> {
    ds.map_values(|d: Domain| d@)
}

/// A parsed domain: a lowercase ASCII host with a known public suffix.
#[derive(Clone, Debug, PartialEq, Eq, Hash, PartialOrd, Ord)]
pub struct Domain {
    host: String,
    root_start: usize,
    root_end: usize,
    suffix_start: usize,
    len: usize,
}

impl View for Domain {
    type V = Seq<char>;

    /// The host.
    closed spec fn view(&self) -> Seq<char> {
        self.host@
    }
}

impl core::ops::Deref for Domain {
    type Target = str;

    /// The host.
    fn deref(&self) -> (r: &str)
        ensures
            r@ == self@,
    {
        self.host.as_str()
    }
}

impl Domain {
    /// Where the root starts.
    pub closed spec fn spec_root_start(&self) -> int {
        self.root_start as int
    }

    /// Where the root ends (the position of the dot before the suffix).
    pub closed spec fn spec_root_end(&self) -> int {
        self.root_end as int
    }

    /// Where the suffix starts.
    pub closed spec fn spec_suffix_start(&self) -> int {
        self.suffix_start as int
    }

    /// The parts line up with the host.
    pub closed spec fn wf(&self) -> bool {
        &&& self.host@.len() == self.len
        &&& self.root_start <= self.root_end
        &&& self.root_end + 1 == self.suffix_start
        &&& self.suffix_start <= self.len
        &&& self.host@[self.root_end as int] == '.'
        &&& (self.root_start == 0 || self.host@[self.root_start - 1] == '.')
        &&& forall|k: int| self.root_start <= k < self.root_end ==> self.host@[k] != '.'
        &&& is_lower_ascii(self.host@)
        &&& all_ldh(self.host@)
        &&& labels_nonempty(self.host@)
    }

    /// The host splits into its parts: the TLD is the root, a dot and the
    /// suffix; the host is the subdomain, a dot and the TLD when there is a
    /// subdomain, and the TLD alone otherwise. The root holds no dot.
    pub proof fn lemma_parts(&self)
        requires
            self.wf(),
        ensures
            self@.skip(self.spec_root_start()) == self@.subrange(
                self.spec_root_start(),
                self.spec_root_end(),
            ) + seq!['.'] + self@.skip(self.spec_suffix_start()),
            self.spec_root_start() > 0 ==> self@ == self@.subrange(0, self.spec_root_start() - 1)
                + seq!['.'] + self@.skip(self.spec_root_start()),
            self.spec_root_start() == 0 ==> self@.skip(self.spec_root_start()) == self@,
            forall|k: int| self.spec_root_start() <= k < self.spec_root_end() ==> self@[k] != '.',
    {
        let h = self@;
        let a = self.spec_root_start();
        let b = self.spec_root_end();
        let c = self.spec_suffix_start();
        assert(h.skip(a) =~= h.subrange(a, b) + seq!['.'] + h.skip(c));
        if a > 0 {
            assert(h =~= h.subrange(0, a - 1) + seq!['.'] + h.skip(a));
        } else {
            assert(h.skip(a) =~= h);
        }
    }

    /// What the well-formedness of a domain says, in terms of its parts.
    pub proof fn lemma_wf(&self)
        requires
            self.wf(),
        ensures
            0 <= self.spec_root_start() <= self.spec_root_end(),
            self.spec_root_end() + 1 == self.spec_suffix_start(),
            self.spec_suffix_start() <= self@.len(),
            self@[self.spec_root_end()] == '.',
            self.spec_root_start() == 0 || self@[self.spec_root_start() - 1] == '.',
            forall|k: int| self.spec_root_start() <= k < self.spec_root_end() ==> self@[k] != '.',
            is_lower_ascii(self@),
            all_ldh(self@),
            labels_nonempty(self@),
    {
    }

    /// The parts of a domain are what their names promise: the host is not
    /// empty and neither starts nor ends with a dot; the root is not empty,
    /// holds no dot, and starts the TLD; the suffix is not empty, does not
    /// start with a dot, and ends the host after a dot; a subdomain, where
    /// there is one, is not empty, neither starts nor ends with a dot, and
    /// the host is the subdomain, a dot and the TLD; without one, the host
    /// is the TLD.
    pub proof fn lemma_shape(&self)
        requires
            self.wf(),
        ensures
            self@.len() > 0,
            self@[0] != '.',
            self@[self@.len() - 1] != '.',
            ({
                let root = self@.subrange(self.spec_root_start(), self.spec_root_end());
                let tld = self@.skip(self.spec_root_start());
                &&& root.len() > 0
                &&& forall|k: int| 0 <= k < root.len() ==> root[k] != '.'
                &&& tld.take(root.len() as int) == root
            }),
            ({
                let suffix = self@.skip(self.spec_suffix_start());
                &&& suffix.len() > 0
                &&& suffix[0] != '.'
                &&& self@ == self@.take(self.spec_suffix_start() - 1) + seq!['.'] + suffix
            }),
            self.spec_root_start() > 0 ==> ({
                let sub = self@.subrange(0, self.spec_root_start() - 1);
                &&& sub.len() > 0
                &&& sub[0] != '.'
                &&& sub[sub.len() - 1] != '.'
                &&& self@ == sub + seq!['.'] + self@.skip(self.spec_root_start())
            }),
            self.spec_root_start() == 0 ==> self@ == self@.skip(self.spec_root_start()),
    {
        let h = self@;
        let a = self.spec_root_start();
        let b = self.spec_root_end();
        let c = self.spec_suffix_start();
        if a == b {
            if a > 0 {
                assert(!(h[a - 1] == '.' && h[a] == '.'));
            }
        }
        if c == h.len() {
            assert(h[h.len() - 1] == '.');
        }
        if c < h.len() {
            assert(!(h[b] == '.' && h[c] == '.'));
        }
        let root = h.subrange(a, b);
        assert(h.skip(a).take(root.len() as int) =~= root);
        assert(h =~= h.take(c - 1) + seq!['.'] + h.skip(c));
        if a > 0 {
            let sub = h.subrange(0, a - 1);
            if a - 1 == 0 {
                assert(h[0] == '.');
            }
            assert(!(h[a - 2] == '.' && h[a - 1] == '.'));
            assert(h =~= sub + seq!['.'] + h.skip(a));
        } else {
            assert(h.skip(a) =~= h);
        }
    }

    /// # From ASCII Host.
    ///
    /// Split the public suffix off a host that is already in its normalised
    /// ASCII form (lowercase letters, digits, `-` and `.`, no empty label),
    /// as IDNA gives it back, and find the root before it. Hosts with
    /// unknown or missing suffixes are rejected.
    pub fn from_ascii(table: &SuffixTable, host: String) -> (r: Option<Domain>)
        requires
            table.wf(),
            all_ldh(host@),
            labels_nonempty(host@),
        ensures
            match domain_parts(table@, host@) {
                None => r is None,
                Some(p) => r matches Some(d) && d.wf() && d@ == host@ && d.spec_root_start() == p.0
                    && d.spec_root_end() == p.1 && d.spec_suffix_start() == p.2,
            },
    {
        let h = str_chars(host.as_str());
        assert forall|i: int| 0 <= i < h@.len() implies (h@[i] as u32) < 128 && !('A' <= #[trigger] h@[i]
            && h@[i] <= 'Z') by {
            assert(is_ldh_char(h@[i]));
        }
        match parse_suffix(table, &h) {
            None => None,
            Some(s) => {
                proof {
                    lemma_suffix_start(table@, h@);
                    lemma_domain_parts(table@, h@);
                }
                let root_end = s - 1;
                let mut k = root_end;
                while k > 0 && h[k - 1] != '.'
                    invariant
                        k <= root_end < h@.len(),
                        last_dot_before(h@, root_end as int) == last_dot_before(h@, k as int),
                    decreases k,
                {
                    k = k - 1;
                }
                let len = h.len();
                Some(Domain { host, root_start: k, root_end, suffix_start: s, len })
            },
        }
    }

    /// # Parse Host (with a given suffix table).
    ///
    /// Trim dots and ASCII whitespace from both ends, normalise through IDNA,
    /// and split off the public suffix. Hosts with unknown or missing suffixes
    /// are rejected.
    pub fn parse_with(table: &SuffixTable, src: &str) -> (r: Option<Domain>)
        requires
            table.wf(),
        ensures
            match parse_spec(table@, src@) {
                None => r is None,
                Some((h, a, b, c)) => r matches Some(d) && d.wf() && d@ == h
                    && d.spec_root_start() == a && d.spec_root_end() == b
                    && d.spec_suffix_start() == c,
            },
            r matches Some(d) ==> dns_shaped(d@),
    {
        let chars = str_chars(src);
        let (a, b) = trim_bounds(chars.as_slice());
        let trimmed = src.substring_char(a, b);
        match domain_to_ascii_strict(trimmed) {
            Err(_) => None,
            Ok(host) => Domain::from_ascii(table, host),
        }
    }

    /// # Parse Host.
    ///
    /// [`Domain::parse_with`] on the bundled Public Suffix List. If the result
    /// has both a known suffix and a root before it, a `Domain` is returned;
    /// its values are normalised to lowercase ASCII.
    pub fn parse(src: &str) -> (r: Option<Domain>)
        ensures
            match parse_spec(builtin_rules(), src@) {
                None => r is None,
                Some((h, a, b, c)) => r matches Some(d) && d.wf() && d@ == h
                    && d.spec_root_start() == a && d.spec_root_end() == b
                    && d.spec_suffix_start() == c,
            },
            r matches Some(d) ==> dns_shaped(d@),
    {
        let table = SuffixTable::builtin();
        Domain::parse_with(&table, src)
    }

    /// # Strip Leading WWW.
    ///
    /// If this host has a leading `www.` subdomain, remove it and return
    /// `true`; otherwise change nothing and return `false`.
    pub fn strip_www(&mut self) -> (r: bool)
        requires
            old(self).wf(),
        ensures
            final(self).wf(),
            r == (old(self).spec_root_start() >= 4 && old(self)@.subrange(0, 4) == seq![
                'w',
                'w',
                'w',
                '.',
            ]),
            r ==> final(self)@ == old(self)@.skip(4) && final(self).spec_root_start()
                == old(self).spec_root_start() - 4 && final(self).spec_root_end()
                == old(self).spec_root_end() - 4 && final(self).spec_suffix_start()
                == old(self).spec_suffix_start() - 4,
            !r ==> *final(self) == *old(self),
    {
        if self.root_start < 4 {
            return false;
        }
        let h = str_chars(self.host.as_str());
        if h[0] == 'w' && h[1] == 'w' && h[2] == 'w' && h[3] == '.' {
            assert(h@.subrange(0, 4) =~= seq!['w', 'w', 'w', '.']);
            let rest = self.host.as_str().substring_char(4, self.len).to_owned();
            assert(rest@ =~= h@.skip(4));
            self.host = rest;
            self.root_start = self.root_start - 4;
            self.root_end = self.root_end - 4;
            self.suffix_start = self.suffix_start - 4;
            self.len = self.len - 4;
            assert forall|k: int| 0 <= k < self.host@.len() implies self.host@[k] == h@[k + 4] by {}
            true
        } else {
            assert(h@.subrange(0, 4)[0] == h@[0]);
            assert(h@.subrange(0, 4)[1] == h@[1]);
            assert(h@.subrange(0, 4)[2] == h@[2]);
            assert(h@.subrange(0, 4)[3] == h@[3]);
            false
        }
    }

    /// # Duplicate.
    ///
    /// A copy of the domain (what the derived `Clone` gives, with its
    /// contract stated).
    pub fn duplicate(&self) -> (r: Domain)
        ensures
            r@ == self@,
            r.spec_root_start() == self.spec_root_start(),
            r.spec_root_end() == self.spec_root_end(),
            r.spec_suffix_start() == self.spec_suffix_start(),
            self.wf() ==> r.wf(),
    {
        Domain {
            host: self.host.clone(),
            root_start: self.root_start,
            root_end: self.root_end,
            suffix_start: self.suffix_start,
            len: self.len,
        }
    }

    /// # Into String.
    ///
    /// Consume the domain, returning the host.
    pub fn take(self) -> (r: String)
        ensures
            r@ == self@,
    {
        self.host
    }

    /// # Equal to a Host?
    ///
    /// Whether the host is exactly the given text (the comparison of a
    /// domain with a string).
    pub fn eq_str(&self, other: &str) -> (r: bool)
        ensures
            r == (self@ == other@),
    {
        let a = str_chars(self.host.as_str());
        let b = str_chars(other);
        if a.len() != b.len() {
            return false;
        }
        let mut i: usize = 0;
        while i < a.len()
            invariant
                a@ == self@,
                b@ == other@,
                a@.len() == b@.len(),
                i <= a@.len(),
                a@.take(i as int) == b@.take(i as int),
            decreases a@.len() - i,
        {
            if a[i] != b[i] {
                assert(a@[i as int] != b@[i as int]);
                return false;
            }
            i = i + 1;
            assert(a@.take(i as int) =~= b@.take(i as int));
        }
        assert(a@.take(a@.len() as int) =~= a@);
        assert(b@.take(b@.len() as int) =~= b@);
        true
    }

    /// # Host.
    pub fn host(&self) -> (r: &str)
        ensures
            r@ == self@,
    {
        self.host.as_str()
    }

    /// # Root.
    ///
    /// The label just before the suffix, without dots.
    pub fn root(&self) -> (r: &str)
        requires
            self.wf(),
        ensures
            r@ == self@.subrange(self.spec_root_start(), self.spec_root_end()),
    {
        self.host.as_str().substring_char(self.root_start, self.root_end)
    }

    /// # Subdomain(s).
    ///
    /// Everything before the root, without the trailing dot, if anything.
    pub fn subdomain(&self) -> (r: Option<&str>)
        requires
            self.wf(),
        ensures
            self.spec_root_start() > 0 ==> (r matches Some(s) && s@ == self@.subrange(
                0,
                self.spec_root_start() - 1,
            )),
            self.spec_root_start() == 0 ==> r is None,
    {
        if self.root_start > 0 {
            Some(self.host.as_str().substring_char(0, self.root_start - 1))
        } else {
            None
        }
    }

    /// # Suffix.
    ///
    /// The public suffix, without its leading dot.
    pub fn suffix(&self) -> (r: &str)
        requires
            self.wf(),
        ensures
            r@ == self@.skip(self.spec_suffix_start()),
    {
        self.host.as_str().substring_char(self.suffix_start, self.len)
    }

    /// # TLD.
    ///
    /// Everything but the subdomain(s): the root, a dot, and the suffix.
    pub fn tld(&self) -> (r: &str)
        requires
            self.wf(),
        ensures
            r@ == self@.skip(self.spec_root_start()),
    {
        self.host.as_str().substring_char(self.root_start, self.len)
    }
}

} // verus!
