//! Runtime settings, and the blocklist they describe.
use vstd::prelude::*;
use crate::error::AdbyssError;
use crate::outside::{
    regex_error_message, regex_set_builds, regex_set_is_empty, regex_set_is_match,
    regex_set_matches, regex_set_new, PatternSet,
};
use crate::psl::{builtin_rules, hosts_of, Domain, SuffixTable};
use crate::sort::{contains_key, keys_of, lemma_keys_push, sort_dedup};
use crate::sources::{line_yields, source_prefix, Source};
use crate::text::{
    chars_to_string, is_ws, is_ws_exec, split_str_lines_chars, starts_with_chars, str_chars,
    str_lines, strictly_sorted, string_views, sub_chars, trim, trim_chars, trim_start,
    trim_start_chars, views, lead_ws,
};
use crate::write::{all_wf, appended, names_yield, Shitlist};
use crate::MAX_LINE;

verus! {

broadcast use vstd::string::group_string_axioms;

/// # Default Hostfile.
pub const DEFAULT_HOSTFILE: &'static str = "/etc/hosts";

/// # Default Config Location.
pub const DEFAULT_CONFIG: &'static str = "/etc/adbyss.yaml";

/// How long the first word of `s` is: up to its first `#` or whitespace.
pub open spec fn word_len(s: Seq<char>) -> nat
    decreases s.len(),
{
    if s.len() == 0 || s[0] == '#' || is_ws(s[0]) {
        0
    } else {
        1 + word_len(s.drop_first())
    }
}

/// What [`snip_domain_line`] leaves of a line: nothing unless the line
/// starts with `prefix`; otherwise what follows it, with leading whitespace
/// trimmed, up to the first `#` or whitespace.
pub open spec fn snip_spec(line: Seq<char>, prefix: Seq<char>) -> Option<Seq<char>> {
    if prefix.len() <= line.len() && line.take(prefix.len() as int) == prefix {
        let rest = trim_start(line.skip(prefix.len() as int));
        Some(rest.take(word_len(rest) as int))
    } else {
        None
    }
}

proof fn lemma_lead_ws_ends(s: Seq<char>)
    ensures
        lead_ws(s) <= s.len(),
        forall|k: int| 0 <= k < lead_ws(s) ==> is_ws(#[trigger] s[k]),
        lead_ws(s) < s.len() ==> !is_ws(s[lead_ws(s) as int]),
    decreases s.len(),
{
    if s.len() > 0 && is_ws(s[0]) {
        lemma_lead_ws_ends(s.drop_first());
        assert forall|k: int| 0 <= k < lead_ws(s) implies is_ws(#[trigger] s[k]) by {
            if k > 0 {
                assert(s[k] == s.drop_first()[k - 1]);
            }
        }
    }
}

proof fn lemma_word_len_ends(s: Seq<char>)
    ensures
        word_len(s) <= s.len(),
        forall|k: int| 0 <= k < word_len(s) ==> #[trigger] s[k] != '#' && !is_ws(s[k]),
        word_len(s) < s.len() ==> (s[word_len(s) as int] == '#' || is_ws(s[word_len(s) as int])),
    decreases s.len(),
{
    if !(s.len() == 0 || s[0] == '#' || is_ws(s[0])) {
        lemma_word_len_ends(s.drop_first());
        assert forall|k: int| 0 <= k < word_len(s) implies #[trigger] s[k] != '#' && !is_ws(s[k]) by {
            if k > 0 {
                assert(s[k] == s.drop_first()[k - 1]);
            }
        }
    }
}

/// Does `d` stand in `line` at `a`, after the prefix and all the white
/// space that follows it, as a run with no `#` and no white space that goes
/// up to a `#`, a white space or the end of the line?
pub open spec fn snipped_at(line: Seq<char>, prefix: Seq<char>, d: Seq<char>, a: int) -> bool {
    &&& prefix.len() <= a
    &&& a + d.len() <= line.len()
    &&& forall|k: int| prefix.len() <= k < a ==> is_ws(#[trigger] line[k])
    &&& a < line.len() ==> !is_ws(line[a])
    &&& line.subrange(a, a + d.len()) == d
    &&& forall|k: int| 0 <= k < d.len() ==> #[trigger] d[k] != '#' && !is_ws(d[k])
    &&& a + d.len() < line.len() ==> (line[a + d.len()] == '#' || is_ws(line[a + d.len()]))
}

/// # Snipping a Line.
///
/// A line gives something exactly when it starts with the prefix; then
/// what it gives is the run that follows the prefix and the white space
/// after it (all of that white space), up to the first `#` or white space
/// or the end of the line: it holds neither, and stands in the line at that
/// place.
pub proof fn lemma_snip(line: Seq<char>, prefix: Seq<char>)
    ensures
        snip_spec(line, prefix) is Some <==> (prefix.len() <= line.len() && line.take(prefix.len() as int)
            == prefix),
        snip_spec(line, prefix) matches Some(d) ==> exists|a: int| #[trigger] snipped_at(line, prefix, d, a),
{
    if prefix.len() <= line.len() && line.take(prefix.len() as int) == prefix {
        let p = prefix.len() as int;
        let rest = line.skip(p);
        lemma_lead_ws_ends(rest);
        let lw = lead_ws(rest) as int;
        let t = trim_start(rest);
        lemma_word_len_ends(t);
        let wl = word_len(t) as int;
        let d = t.take(wl);
        let a = p + lw;
        assert forall|k: int| p <= k < a implies is_ws(#[trigger] line[k]) by {
            assert(line[k] == rest[k - p]);
        }
        if a < line.len() {
            assert(line[a] == rest[lw]);
        }
        assert(line.subrange(a, a + d.len()) =~= d);
        if a + d.len() < line.len() {
            assert(line[a + d.len()] == t[wl]);
        }
        assert(line.subrange(a, a + d.len()) == d);
        assert(snip_spec(line, prefix) == Some(d));
        assert(d.len() == wl && t.len() == rest.len() - lw);
        assert(a + d.len() <= line.len());
        assert forall|k: int| 0 <= k < d.len() implies #[trigger] d[k] != '#' && !is_ws(d[k]) by {
            assert(d[k] == t[k]);
        }
        assert(snipped_at(line, prefix, d, a));
        assert(exists|a2: int| #[trigger] snipped_at(line, prefix, d, a2));
        assert(snip_spec(line, prefix) matches Some(d2) && d2 == d);
    }
}

/// `www.`
pub open spec fn www() -> Seq<char> {
    seq!['w', 'w', 'w', '.']
}

/// The domain-like strings one line of a source gives: the trimmed line,
/// snipped after the source's prefix when it has one; nothing when that is
/// empty; a `www.` host is followed by the host without it.
pub open spec fn line_domains(line: Seq<char>, prefix: Seq<char>) -> Seq<Seq<char>> {
    let l = trim(line);
    let m = if prefix.len() == 0 {
        Some(l)
    } else {
        snip_spec(l, prefix)
    };
    match m {
        Some(d) => if d.len() == 0 {
            Seq::empty()
        } else if d.len() >= 4 && d.take(4) == www() {
            seq![d, d.skip(4)]
        } else {
            seq![d]
        },
        None => Seq::empty(),
    }
}

/// The domain-like strings of the lines `ls`, in order.
pub open spec fn domains_of_lines(ls: Seq<Seq<char>>, prefix: Seq<char>) -> Seq<Seq<char>>
    decreases ls.len(),
{
    if ls.len() == 0 {
        Seq::empty()
    } else {
        domains_of_lines(ls.drop_last(), prefix) + line_domains(ls.last(), prefix)
    }
}

/// The domain-like strings of a source's text.
pub open spec fn text_domains(text: Seq<char>, prefix: Seq<char>) -> Seq<Seq<char>> {
    domains_of_lines(str_lines(text), prefix)
}

proof fn lemma_word_len_is(s: Seq<char>, n: int)
    requires
        0 <= n <= s.len(),
        forall|k: int| 0 <= k < n ==> s[k] != '#' && !is_ws(#[trigger] s[k]),
        n < s.len() ==> (s[n] == '#' || is_ws(s[n])),
    ensures
        word_len(s) == n,
    decreases n,
{
    if n > 0 {
        assert forall|k: int| 0 <= k < n - 1 implies s.drop_first()[k] != '#' && !is_ws(
            #[trigger] s.drop_first()[k],
        ) by {
            assert(s.drop_first()[k] == s[k + 1]);
        }
        lemma_word_len_is(s.drop_first(), n - 1);
    }
}

/// The length of the first word of `v` (see [`word_len`]).
fn word_len_exec(v: &[char]) -> (r: usize)
    ensures
        r == word_len(v@),
{
    let mut i: usize = 0;
    while i < v.len() && v[i] != '#' && !is_ws_exec(v[i])
        invariant
            i <= v@.len(),
            forall|k: int| 0 <= k < i ==> v@[k] != '#' && !is_ws(#[trigger] v@[k]),
        decreases v@.len() - i,
    {
        i = i + 1;
    }
    proof {
        lemma_word_len_is(v@, i as int);
    }
    i
}

/// [`snip_domain_line`] on characters.
fn snip_chars(line: &[char], prefix: &[char]) -> (r: Option<Vec<char>>)
    ensures
        match snip_spec(line@, prefix@) {
            None => r is None,
            Some(d) => r matches Some(x) && x@ == d,
        },
{
    if !starts_with_chars(line, prefix) {
        return None;
    }
    let rest = sub_chars(line, prefix.len(), line.len());
    assert(rest@ =~= line@.skip(prefix@.len() as int));
    let t = trim_start_chars(rest.as_slice());
    let n = word_len_exec(t.as_slice());
    assert(n <= t@.len()) by {
        lemma_word_len_bound(t@);
    }
    let w = sub_chars(t.as_slice(), 0, n);
    assert(w@ =~= t@.take(n as int));
    Some(w)
}

proof fn lemma_word_len_bound(s: Seq<char>)
    ensures
        word_len(s) <= s.len(),
    decreases s.len(),
{
    if s.len() > 0 {
        lemma_word_len_bound(s.drop_first());
    }
}

/// # Snip Domain Line.
///
/// Strip the given address prefix from the start, then leading whitespace,
/// and cut at the first comment or whitespace. What is left should be a
/// domain. Lines without the prefix give nothing.
pub fn snip_domain_line(line: &str, prefix: &str) -> (r: Option<String>)
    ensures
        match snip_spec(line@, prefix@) {
            None => r is None,
            Some(d) => r matches Some(s) && s@ == d,
        },
{
    let l = str_chars(line);
    let p = str_chars(prefix);
    match snip_chars(l.as_slice(), p.as_slice()) {
        Some(w) => Some(chars_to_string(w.as_slice())),
        None => None,
    }
}

/// [`line_domains`] on characters.
fn line_domain_chars(line: &[char], prefix: &[char]) -> (r: Vec<Vec<char>>)
    ensures
        views(r@) == line_domains(line@, prefix@),
{
    let l = trim_chars(line);
    let m = if prefix.len() == 0 {
        Some(l)
    } else {
        snip_chars(l.as_slice(), prefix)
    };
    let mut out: Vec<Vec<char>> = Vec::new();
    match m {
        Some(d) => {
            if d.len() == 0 {
            } else if d.len() >= 4 && d[0] == 'w' && d[1] == 'w' && d[2] == 'w' && d[3] == '.' {
                assert(d@.take(4) =~= www());
                let rest = sub_chars(d.as_slice(), 4, d.len());
                assert(rest@ =~= d@.skip(4));
                out.push(d);
                out.push(rest);
            } else {
                proof {
                    if d@.len() >= 4 {
                        assert(d@.take(4)[0] == d@[0]);
                        assert(d@.take(4)[1] == d@[1]);
                        assert(d@.take(4)[2] == d@[2]);
                        assert(d@.take(4)[3] == d@[3]);
                    }
                }
                out.push(d);
            }
        },
        None => {},
    }
    assert(views(out@) =~= line_domains(line@, prefix@));
    out
}

/// [`source_domains`] on characters.
fn source_domain_chars(text: &[char], prefix: &[char]) -> (r: Vec<Vec<char>>)
    ensures
        views(r@) == text_domains(text@, prefix@),
{
    let lines = split_str_lines_chars(text);
    let ghost ls = str_lines(text@);
    let mut out: Vec<Vec<char>> = Vec::new();
    let mut i: usize = 0;
    while i < lines.len()
        invariant
            i <= lines@.len(),
            views(lines@) == ls,
            views(out@) == domains_of_lines(ls.take(i as int), prefix@),
        decreases lines@.len() - i,
    {
        let ghost o0 = views(out@);
        let ds = line_domain_chars(lines[i].as_slice(), prefix);
        let mut k: usize = 0;
        while k < ds.len()
            invariant
                k <= ds@.len(),
                views(out@) == o0 + views(ds@).take(k as int),
            decreases ds@.len() - k,
        {
            let ghost before = views(out@);
            let x = sub_chars(ds[k].as_slice(), 0, ds[k].len());
            assert(x@ =~= ds@[k as int]@);
            out.push(x);
            assert(views(out@) =~= before.push(x@));
            assert(views(out@) =~= o0 + views(ds@).take(k + 1));
            k = k + 1;
        }
        assert(views(ds@).take(ds@.len() as int) =~= views(ds@));
        assert(ls.take(i + 1).drop_last() =~= ls.take(i as int));
        assert(ls.take(i + 1).last() == lines@[i as int]@);
        i = i + 1;
    }
    assert(ls.take(lines@.len() as int) =~= ls);
    out
}

/// # Source Domains.
///
/// The domain-like strings of a source's raw text, line by line (see
/// [`line_domains`]).
pub fn source_domains(list: &str, prefix: &str) -> (r: Vec<String>)
    ensures
        string_views(r@) == text_domains(list@, prefix@),
{
    let t = str_chars(list);
    let p = str_chars(prefix);
    let ds = source_domain_chars(t.as_slice(), p.as_slice());
    let mut out: Vec<String> = Vec::new();
    let mut i: usize = 0;
    while i < ds.len()
        invariant
            i <= ds@.len(),
            string_views(out@) == views(ds@).take(i as int),
        decreases ds@.len() - i,
    {
        let ghost before = string_views(out@);
        let x = chars_to_string(ds[i].as_slice());
        out.push(x);
        assert(string_views(out@) =~= before.push(x@));
        assert(string_views(out@) =~= views(ds@).take(i + 1));
        i = i + 1;
    }
    assert(views(ds@).take(ds@.len() as int) =~= views(ds@));
    out
}

/// # Settings.
///
/// The user's runtime preferences.
pub struct Settings {
    /// # Hosts File Path.
    pub hostfile: String,
    /// # Back Up the Hosts File?
    pub backup: bool,
    /// # Join Hosts by TLD?
    pub compact: bool,
    /// # Use Adaway Sources?
    pub source_adaway: bool,
    /// # Use Adbyss Sources?
    pub source_adbyss: bool,
    /// # Use Steven Black Sources?
    pub source_stevenblack: bool,
    /// # Use Yoyo Sources?
    pub source_yoyo: bool,
    /// # Domains to Exclude.
    pub exclude: Vec<Domain>,
    /// # Patterns to Exclude.
    pub regexclude: Option<PatternSet>,
    /// # Domains to Include.
    pub extras: Vec<String>,
}

/// Is `c` a candidate: a domain-like string of one of the fetched lists
/// (each read with its source's prefix), or a manual extra?
pub open spec fn is_candidate(lists: Seq<(Source, String)>, extras: Seq<String>, c: Seq<char>) -> bool {
    ||| exists|i: int|
        0 <= i < lists.len() && #[trigger] text_domains(lists[i].1@, source_prefix(lists[i].0)).contains(c)
    ||| string_views(extras).contains(c)
}

/// Does the pattern exclusion, if there is one, match the host?
pub open spec fn regex_excludes(re: Option<PatternSet>, h: Seq<char>) -> bool {
    match re {
        Some(set) => regex_set_matches(set@, h),
        None => false,
    }
}

/// Does the blocklist these settings describe hold the host `h`? It must be
/// what some candidate parses to, fit on a line, and be neither excluded by
/// name nor matched by an exclusion pattern.
pub open spec fn blocks(s: Settings, lists: Seq<(Source, String)>, h: Seq<char>) -> bool {
    &&& exists|c: Seq<char>| #[trigger] is_candidate(lists, s.extras@, c) && line_yields(c, h)
    &&& h.len() <= MAX_LINE
    &&& !hosts_of(s.exclude@).contains(h)
    &&& !regex_excludes(s.regexclude, h)
}

/// The sources the settings enable, in order.
pub open spec fn enabled_sources(s: Settings) -> Seq<Source> {
    (if s.source_adaway {
        seq![Source::AdAway]
    } else {
        Seq::empty()
    }) + (if s.source_adbyss {
        seq![Source::Adbyss]
    } else {
        Seq::empty()
    }) + (if s.source_stevenblack {
        seq![Source::StevenBlack]
    } else {
        Seq::empty()
    }) + (if s.source_yoyo {
        seq![Source::Yoyo]
    } else {
        Seq::empty()
    })
}

/// Is `list` the blocklist these settings describe, sorted by host, each
/// host once?
pub open spec fn is_blocklist(s: Settings, lists: Seq<(Source, String)>, list: Seq<Domain>) -> bool {
    &&& all_wf(list)
    &&& strictly_sorted(hosts_of(list))
    &&& forall|i: int| 0 <= i < list.len() ==> (#[trigger] list[i])@.len() <= MAX_LINE
    &&& forall|h: Seq<char>| #[trigger] hosts_of(list).contains(h) <==> blocks(s, lists, h)
}

impl Default for Settings {
    /// The defaults: `/etc/hosts`, backups on, flat output, every source,
    /// and no exclusions or inclusions.
    fn default() -> (r: Self)
        ensures
            r.hostfile@ == DEFAULT_HOSTFILE@,
            r.backup,
            !r.compact,
            r.source_adaway,
            r.source_adbyss,
            r.source_stevenblack,
            r.source_yoyo,
            r.exclude@.len() == 0,
            r.regexclude is None,
            r.extras@.len() == 0,
    {
        Settings {
            hostfile: DEFAULT_HOSTFILE.to_owned(),
            backup: true,
            compact: false,
            source_adaway: true,
            source_adbyss: true,
            source_stevenblack: true,
            source_yoyo: true,
            exclude: Vec::new(),
            regexclude: None,
            extras: Vec::new(),
        }
    }
}

/// Every candidate of the lists and includes, keyed by itself.
fn collect_candidates(lists: &Vec<(Source, String)>, extras: &Vec<String>) -> (r: Vec<(Vec<char>, ())>)
    ensures
        forall|c: Seq<char>| #[trigger] keys_of(r@).contains(c) <==> is_candidate(lists@, extras@, c),
{
    let mut out: Vec<(Vec<char>, ())> = Vec::new();
    let mut i: usize = 0;
    while i < lists.len()
        invariant
            i <= lists@.len(),
            forall|c: Seq<char>| #[trigger] keys_of(out@).contains(c) <==> exists|j: int|
                0 <= j < i && #[trigger] text_domains(lists@[j].1@, source_prefix(lists@[j].0)).contains(c),
        decreases lists@.len() - i,
    {
        let (src, text) = &lists[i];
        let p = str_chars(src.line_prefix());
        let t = str_chars(text.as_str());
        let ds = source_domain_chars(t.as_slice(), p.as_slice());
        let ghost td = text_domains(lists@[i as int].1@, source_prefix(lists@[i as int].0));
        assert(views(ds@) == td);
        let ghost o0 = out@;
        let mut k: usize = 0;
        while k < ds.len()
            invariant
                k <= ds@.len(),
                views(ds@) == td,
                forall|c: Seq<char>| #[trigger] keys_of(out@).contains(c) <==> (keys_of(o0).contains(c)
                    || td.take(k as int).contains(c)),
            decreases ds@.len() - k,
        {
            let x = sub_chars(ds[k].as_slice(), 0, ds[k].len());
            assert(x@ =~= td[k as int]);
            let ghost ob = out@;
            out.push((x, ()));
            proof {
                assert forall|c: Seq<char>| #[trigger] keys_of(out@).contains(c) <==> (keys_of(o0).contains(c)
                    || td.take(k + 1).contains(c)) by {
                    lemma_keys_push(ob, (x, ()), c);
                    assert(td.take(k + 1) =~= td.take(k as int).push(x@));
                    let t1 = td.take(k + 1);
                    let t0 = td.take(k as int);
                    if t1.contains(c) && c != x@ {
                        let m = choose|m: int| 0 <= m < t1.len() && t1[m] == c;
                        assert(t0[m] == c);
                    }
                    if t0.contains(c) {
                        let m = choose|m: int| 0 <= m < t0.len() && t0[m] == c;
                        assert(t1[m] == c);
                    }
                    if c == x@ {
                        assert(td.take(k + 1)[k as int] == c);
                    }
                }
            }
            k = k + 1;
        }
        proof {
            assert(td.take(ds@.len() as int) =~= td);
            assert forall|c: Seq<char>| #[trigger] keys_of(out@).contains(c) <==> exists|j: int|
                0 <= j < i + 1 && #[trigger] text_domains(lists@[j].1@, source_prefix(lists@[j].0)).contains(c) by {
                if exists|j: int|
                    0 <= j < i + 1 && #[trigger] text_domains(lists@[j].1@, source_prefix(lists@[j].0)).contains(c) {
                    let j = choose|j: int|
                        0 <= j < i + 1 && #[trigger] text_domains(lists@[j].1@, source_prefix(lists@[j].0)).contains(c);
                    if j < i {
                        assert(keys_of(o0).contains(c));
                    }
                }
            }
        }
        i = i + 1;
    }
    let ghost o1 = out@;
    let mut k: usize = 0;
    while k < extras.len()
        invariant
            k <= extras@.len(),
            forall|c: Seq<char>| #[trigger] keys_of(out@).contains(c) <==> (keys_of(o1).contains(c)
                || string_views(extras@).take(k as int).contains(c)),
        decreases extras@.len() - k,
    {
        let x = str_chars(extras[k].as_str());
        let ghost ob = out@;
        let ghost sv = string_views(extras@);
        out.push((x, ()));
        proof {
            assert forall|c: Seq<char>| #[trigger] keys_of(out@).contains(c) <==> (keys_of(o1).contains(c)
                || sv.take(k + 1).contains(c)) by {
                lemma_keys_push(ob, (x, ()), c);
                assert(sv.take(k + 1) =~= sv.take(k as int).push(x@));
                let t1 = sv.take(k + 1);
                let t0 = sv.take(k as int);
                if t1.contains(c) && c != x@ {
                    let m = choose|m: int| 0 <= m < t1.len() && t1[m] == c;
                    assert(t0[m] == c);
                }
                if t0.contains(c) {
                    let m = choose|m: int| 0 <= m < t0.len() && t0[m] == c;
                    assert(t1[m] == c);
                }
                if c == x@ {
                    assert(sv.take(k + 1)[k as int] == c);
                }
            }
        }
        k = k + 1;
    }
    assert(string_views(extras@).take(extras@.len() as int) =~= string_views(extras@));
    out
}

/// Parse every candidate, keeping the domains that fit on a line, keyed by
/// host.
fn parse_candidates(cands: &Vec<(Vec<char>, ())>) -> (r: Vec<(Vec<char>, Domain)>)
    ensures
        forall|j: int| 0 <= j < r@.len() ==> (#[trigger] r@[j]).1.wf() && r@[j].0@ == r@[j].1@
            && r@[j].1@.len() <= MAX_LINE,
        forall|h: Seq<char>| #[trigger] keys_of(r@).contains(h) <==> (h.len() <= MAX_LINE && exists|c: Seq<char>|
            #[trigger] keys_of(cands@).contains(c) && line_yields(c, h)),
{
    let table = SuffixTable::builtin();
    let mut out: Vec<(Vec<char>, Domain)> = Vec::new();
    let mut i: usize = 0;
    while i < cands.len()
        invariant
            i <= cands@.len(),
            table.wf(),
            table@ == builtin_rules(),
            forall|j: int| 0 <= j < out@.len() ==> (#[trigger] out@[j]).1.wf() && out@[j].0@ == out@[j].1@
                && out@[j].1@.len() <= MAX_LINE,
            forall|h: Seq<char>| #[trigger] keys_of(out@).contains(h) <==> (h.len() <= MAX_LINE && exists|j: int|
                0 <= j < i && line_yields(#[trigger] keys_of(cands@)[j], h)),
        decreases cands@.len() - i,
    {
        let s = chars_to_string(cands[i].0.as_slice());
        let ghost c = keys_of(cands@)[i as int];
        assert(s@ == c);
        let ghost ob = out@;
        match Domain::parse_with(&table, s.as_str()) {
            Some(d) => {
                let key = str_chars(d.host());
                if key.len() <= MAX_LINE {
                    let ghost x = (key, d);
                    out.push((key, d));
                    proof {
                        assert(out@ == ob.push(x));
                        assert forall|h: Seq<char>| #[trigger] keys_of(out@).contains(h) <==> (h.len()
                            <= MAX_LINE && exists|j: int|
                            0 <= j < i + 1 && line_yields(#[trigger] keys_of(cands@)[j], h)) by {
                            lemma_keys_push(ob, x, h);
                            if h.len() <= MAX_LINE && exists|j: int|
                                0 <= j < i + 1 && line_yields(#[trigger] keys_of(cands@)[j], h) {
                                let j = choose|j: int|
                                    0 <= j < i + 1 && line_yields(#[trigger] keys_of(cands@)[j], h);
                                if j == i {
                                    assert(h == x.0@);
                                }
                            }
                        }
                    }
                } else {
                    proof {
                        assert forall|h: Seq<char>| #[trigger] keys_of(out@).contains(h) <==> (h.len()
                            <= MAX_LINE && exists|j: int|
                            0 <= j < i + 1 && line_yields(#[trigger] keys_of(cands@)[j], h)) by {
                            if h.len() <= MAX_LINE && exists|j: int|
                                0 <= j < i + 1 && line_yields(#[trigger] keys_of(cands@)[j], h) {
                                let j = choose|j: int|
                                    0 <= j < i + 1 && line_yields(#[trigger] keys_of(cands@)[j], h);
                                if j == i {
                                    assert(h == d@);
                                }
                            }
                        }
                    }
                }
            },
            None => {
                proof {
                    assert forall|h: Seq<char>| #[trigger] keys_of(out@).contains(h) <==> (h.len()
                        <= MAX_LINE && exists|j: int|
                        0 <= j < i + 1 && line_yields(#[trigger] keys_of(cands@)[j], h)) by {
                        if h.len() <= MAX_LINE && exists|j: int|
                            0 <= j < i + 1 && line_yields(#[trigger] keys_of(cands@)[j], h) {
                            let j = choose|j: int|
                                0 <= j < i + 1 && line_yields(#[trigger] keys_of(cands@)[j], h);
                            assert(j != i);
                        }
                    }
                }
            },
        }
        i = i + 1;
    }
    proof {
        assert forall|h: Seq<char>| #[trigger] keys_of(out@).contains(h) <==> (h.len() <= MAX_LINE && exists|c: Seq<char>|
            #[trigger] keys_of(cands@).contains(c) && line_yields(c, h)) by {
            if h.len() <= MAX_LINE && exists|c: Seq<char>| #[trigger] keys_of(cands@).contains(c) && line_yields(c, h) {
                let c = choose|c: Seq<char>| #[trigger] keys_of(cands@).contains(c) && line_yields(c, h);
                let j = choose|j: int| 0 <= j < keys_of(cands@).len() && keys_of(cands@)[j] == c;
                assert(line_yields(keys_of(cands@)[j], h));
            }
            if keys_of(out@).contains(h) {
                let j = choose|j: int| 0 <= j < cands@.len() && line_yields(#[trigger] keys_of(cands@)[j], h);
                assert(keys_of(cands@).contains(keys_of(cands@)[j]));
            }
        }
    }
    out
}

/// The hosts of `ds`, sorted, each once, as keys.
pub(crate) fn keyed_hosts(ds: &Vec<Domain>) -> (r: Vec<(Vec<char>, ())>)
    ensures
        strictly_sorted(keys_of(r@)),
        forall|h: Seq<char>| #[trigger] keys_of(r@).contains(h) <==> hosts_of(ds@).contains(h),
{
    let mut out: Vec<(Vec<char>, ())> = Vec::new();
    let mut i: usize = 0;
    while i < ds.len()
        invariant
            i <= ds@.len(),
            keys_of(out@) == hosts_of(ds@).take(i as int),
        decreases ds@.len() - i,
    {
        let k = str_chars(ds[i].host());
        let ghost ob = out@;
        out.push((k, ()));
        assert(keys_of(out@) =~= keys_of(ob).push(k@));
        assert(keys_of(out@) =~= hosts_of(ds@).take(i + 1));
        i = i + 1;
    }
    assert(hosts_of(ds@).take(ds@.len() as int) =~= hosts_of(ds@));
    sort_dedup(out)
}

impl Settings {
    /// # Back Up the Hosts File?
    pub fn backup(&self) -> (r: bool)
        ensures
            r == self.backup,
    {
        self.backup
    }

    /// # Compact Output?
    pub fn compact(&self) -> (r: bool)
        ensures
            r == self.compact,
    {
        self.compact
    }

    /// # Needs Internet?
    ///
    /// Every source but Adbyss' own is fetched from the network.
    pub fn needs_internet(&self) -> (r: bool)
        ensures
            r == (self.source_adaway || self.source_stevenblack || self.source_yoyo),
    {
        self.source_adaway || self.source_stevenblack || self.source_yoyo
    }

    /// # Enabled Sources.
    ///
    /// The sources to fetch, in order.
    pub fn sources(&self) -> (r: Vec<Source>)
        ensures
            r@ == enabled_sources(*self),
    {
        let mut out: Vec<Source> = Vec::new();
        if self.source_adaway {
            out.push(Source::AdAway);
        }
        if self.source_adbyss {
            out.push(Source::Adbyss);
        }
        if self.source_stevenblack {
            out.push(Source::StevenBlack);
        }
        if self.source_yoyo {
            out.push(Source::Yoyo);
        }
        assert(out@ =~= enabled_sources(*self));
        out
    }

    /// # The Shitlist.
    ///
    /// Crunch and merge the fetched lists and the user includes, filter out
    /// the user excludes (by name and by pattern), sort, dedupe, and return
    /// the result, compact or flat as the settings say.
    pub fn shitlist(&self, lists: &Vec<(Source, String)>) -> (r: Shitlist)
        ensures
            r.is_compact() == self.compact,
            is_blocklist(*self, lists@, r.list()),
    {
        let cands = collect_candidates(lists, &self.extras);
        let uniq = sort_dedup(cands);
        let parsed = parse_candidates(&uniq);
        let sorted = sort_dedup(parsed);
        let excl = keyed_hosts(&self.exclude);
        let ghost sv = sorted@;
        let ghost n = sv.len();
        let ghost ks = keys_of(sv);
        proof {
            assert forall|j: int| 0 <= j < n implies (#[trigger] sv[j]).1.wf() && sv[j].0@ == sv[j].1@
                && sv[j].1@.len() <= MAX_LINE by {
                assert(sv.contains(sv[j]));
                let m = choose|m: int| 0 <= m < parsed@.len() && parsed@[m] == sv[j];
                assert(parsed@[m].1.wf());
            }
        }
        let mut rev = crate::sort::reverse_vec(sorted);
        let mut out: Vec<Domain> = Vec::new();
        let ghost mut idx: Seq<int> = Seq::empty();
        while rev.len() > 0
            invariant
                rev@.len() <= n,
                n == sv.len(),
                ks == keys_of(sv),
                strictly_sorted(ks),
                strictly_sorted(keys_of(excl@)),
                forall|h: Seq<char>| #[trigger] keys_of(excl@).contains(h) <==> hosts_of(self.exclude@).contains(h),
                forall|j: int| 0 <= j < n ==> (#[trigger] sv[j]).1.wf() && sv[j].0@ == sv[j].1@
                    && sv[j].1@.len() <= MAX_LINE,
                forall|j: int| 0 <= j < rev@.len() ==> rev@[j] == sv[n - 1 - j],
                out@.len() == idx.len(),
                forall|m: int| 0 <= m < idx.len() ==> 0 <= #[trigger] idx[m] < n - rev@.len(),
                forall|a: int, b: int| 0 <= a < b < idx.len() ==> #[trigger] idx[a] < #[trigger] idx[b],
                forall|m: int| 0 <= m < idx.len() ==> #[trigger] out@[m] == sv[idx[m]].1,
                forall|j: int| 0 <= j < n - rev@.len() ==> ((exists|m: int| 0 <= m < idx.len() && #[trigger] idx[m] == j)
                    <==> (!keys_of(excl@).contains(#[trigger] ks[j]) && !regex_excludes(self.regexclude, ks[j]))),
            decreases rev@.len(),
        {
            let ghost i = n - rev@.len();
            let (k, d) = rev.pop().unwrap();
            assert((k, d) == sv[i]);
            assert(ks[i] == k@);
            let ghost ib = idx;
            let keep = if contains_key(&excl, k.as_slice()) {
                false
            } else {
                match &self.regexclude {
                    Some(re) => !regex_set_is_match(re, d.host()),
                    None => true,
                }
            };
            assert(keep == (!keys_of(excl@).contains(ks[i]) && !regex_excludes(self.regexclude, ks[i])));
            if keep {
                out.push(d);
                proof {
                    idx = idx.push(i);
                }
            }
            proof {
                assert forall|j: int| 0 <= j < n - rev@.len() implies ((exists|m: int|
                    0 <= m < idx.len() && #[trigger] idx[m] == j) <==> (!keys_of(excl@).contains(
                    #[trigger] ks[j],
                ) && !regex_excludes(self.regexclude, ks[j]))) by {
                    if j < i {
                        if exists|m: int| 0 <= m < idx.len() && #[trigger] idx[m] == j {
                            let m = choose|m: int| 0 <= m < idx.len() && #[trigger] idx[m] == j;
                            if m < ib.len() {
                                assert(ib[m] == j);
                            }
                        }
                        if exists|m: int| 0 <= m < ib.len() && #[trigger] ib[m] == j {
                            let m = choose|m: int| 0 <= m < ib.len() && #[trigger] ib[m] == j;
                            assert(idx[m] == j);
                        }
                    } else {
                        if keep {
                            assert(idx[ib.len() as int] == j);
                        } else {
                            if exists|m: int| 0 <= m < idx.len() && #[trigger] idx[m] == j {
                                let m = choose|m: int| 0 <= m < idx.len() && #[trigger] idx[m] == j;
                                assert(ib[m] < i);
                            }
                        }
                    }
                }
            }
        }
        proof {
            let hs = hosts_of(out@);
            assert forall|a: int, b: int| 0 <= a < b < hs.len() implies crate::text::lex_lt(
                #[trigger] hs[a],
                #[trigger] hs[b],
            ) by {
                assert(hs[a] == ks[idx[a]]);
                assert(hs[b] == ks[idx[b]]);
                assert(idx[a] < idx[b]);
            }
            assert forall|m: int| 0 <= m < out@.len() implies (#[trigger] out@[m]).wf() && out@[m]@.len()
                <= MAX_LINE by {
                assert(out@[m] == sv[idx[m]].1);
            }
            assert forall|h: Seq<char>| #[trigger] hosts_of(out@).contains(h) <==> blocks(*self, lists@, h) by {
                if hosts_of(out@).contains(h) {
                    let m = choose|m: int| 0 <= m < hosts_of(out@).len() && hosts_of(out@)[m] == h;
                    let j = idx[m];
                    assert(ks[j] == h);
                    assert(exists|q: int| 0 <= q < idx.len() && #[trigger] idx[q] == j);
                    assert(ks.contains(h));
                    assert(keys_of(parsed@).contains(h));
                    let c = choose|c: Seq<char>| #[trigger] keys_of(uniq@).contains(c) && line_yields(c, h);
                    assert(keys_of(cands@).contains(c));
                    assert(is_candidate(lists@, self.extras@, c));
                }
                if blocks(*self, lists@, h) {
                    let c = choose|c: Seq<char>| #[trigger] is_candidate(lists@, self.extras@, c) && line_yields(c, h);
                    assert(keys_of(cands@).contains(c));
                    assert(keys_of(uniq@).contains(c));
                    assert(keys_of(parsed@).contains(h));
                    assert(ks.contains(h));
                    let j = choose|j: int| 0 <= j < ks.len() && ks[j] == h;
                    let m = choose|m: int| 0 <= m < idx.len() && #[trigger] idx[m] == j;
                    assert(hosts_of(out@)[m] == h);
                }
            }
        }
        if self.compact {
            Shitlist::Compact(out)
        } else {
            Shitlist::Flat(out)
        }
    }
}

/// A character in ASCII lowercase.
pub open spec fn lower_char(c: char) -> char {
    match c {
        'A' => 'a',
        'B' => 'b',
        'C' => 'c',
        'D' => 'd',
        'E' => 'e',
        'F' => 'f',
        'G' => 'g',
        'H' => 'h',
        'I' => 'i',
        'J' => 'j',
        'K' => 'k',
        'L' => 'l',
        'M' => 'm',
        'N' => 'n',
        'O' => 'o',
        'P' => 'p',
        'Q' => 'q',
        'R' => 'r',
        'S' => 's',
        'T' => 't',
        'U' => 'u',
        'V' => 'v',
        'W' => 'w',
        'X' => 'x',
        'Y' => 'y',
        'Z' => 'z',
        _ => c,
    }
}

/// `str::to_ascii_lowercase`.
pub open spec fn ascii_lower(s: Seq<char>) -> Seq<char> {
    s.map_values(|c: char| lower_char(c))
}

/// Is `x` one of the normalised includes: an entry in lowercase, or, for an
/// entry starting with `www.`, the rest of it?
pub open spec fn is_include_entry(list: Seq<String>, x: Seq<char>) -> bool {
    exists|i: int|
        0 <= i < list.len() && {
            let l = ascii_lower(#[trigger] list[i]@);
            x == l || (l.len() >= 4 && l.take(4) == www() && x == l.skip(4))
        }
}

/// Is `list` the blocklist of the settings without the hosts that one of
/// the `custom` names parses to?
pub open spec fn is_pruned_blocklist(
    s: Settings,
    lists: Seq<(Source, String)>,
    custom: Seq<String>,
    list: Seq<Domain>,
) -> bool {
    exists|base: Seq<Domain>|
        #[trigger] is_blocklist(s, lists, base) && list == base.filter(|d: Domain| !names_yield(custom, d@))
}

/// Is `text` the hosts file the settings build from the user part `stub`:
/// the pruned blocklist (of `n` hosts) appended to it when not empty, the
/// stub alone otherwise?
pub open spec fn built_hosts(
    s: Settings,
    lists: Seq<(Source, String)>,
    custom: Seq<String>,
    stub: Seq<char>,
    text: Seq<char>,
    n: nat,
) -> bool {
    exists|list: Seq<Domain>|
        #[trigger] is_pruned_blocklist(s, lists, custom, list) && n == list.len() && (n == 0 ==> text == stub)
            && (n > 0 ==> appended(stub, s.compact, list, text))
}

/// Does every host the settings block point at one of the custom entries,
/// leaving nothing to add to the hosts file?
pub open spec fn nothing_blocked(s: Settings, lists: Seq<(Source, String)>, custom: Seq<String>) -> bool {
    forall|h: Seq<char>| #[trigger] blocks(s, lists, h) ==> names_yield(custom, h)
}

/// ASCII lowercase of characters.
fn ascii_lower_chars(v: &[char]) -> (r: Vec<char>)
    ensures
        r@ == ascii_lower(v@),
{
    let mut out: Vec<char> = Vec::new();
    let mut i: usize = 0;
    while i < v.len()
        invariant
            i <= v@.len(),
            out@ == ascii_lower(v@.take(i as int)),
        decreases v@.len() - i,
    {
        let c = v[i];
        let l = match c {
            'A' => 'a',
            'B' => 'b',
            'C' => 'c',
            'D' => 'd',
            'E' => 'e',
            'F' => 'f',
            'G' => 'g',
            'H' => 'h',
            'I' => 'i',
            'J' => 'j',
            'K' => 'k',
            'L' => 'l',
            'M' => 'm',
            'N' => 'n',
            'O' => 'o',
            'P' => 'p',
            'Q' => 'q',
            'R' => 'r',
            'S' => 's',
            'T' => 't',
            'U' => 'u',
            'V' => 'v',
            'W' => 'w',
            'X' => 'x',
            'Y' => 'y',
            'Z' => 'z',
            _ => c,
        };
        assert(l == lower_char(c));
        out.push(l);
        assert(out@ =~= ascii_lower(v@.take(i + 1)));
        i = i + 1;
    }
    assert(v@.take(v@.len() as int) =~= v@);
    out
}

/// # Normalize Includes.
///
/// Lowercase the manual includes; for each one that starts with `www.`, add
/// it without that too. The result is sorted, each entry once.
pub fn normalize_includes(list: Vec<String>) -> (r: Vec<String>)
    ensures
        strictly_sorted(string_views(r@)),
        forall|x: Seq<char>| #[trigger] string_views(r@).contains(x) <==> is_include_entry(list@, x),
{
    let mut keyed: Vec<(Vec<char>, ())> = Vec::new();
    let mut i: usize = 0;
    while i < list.len()
        invariant
            i <= list@.len(),
            forall|x: Seq<char>| #[trigger] keys_of(keyed@).contains(x) <==> is_include_entry(list@.take(i as int), x),
        decreases list@.len() - i,
    {
        let raw = str_chars(list[i].as_str());
        let l = ascii_lower_chars(raw.as_slice());
        let ghost k0 = keyed@;
        let ghost li = ascii_lower(list@[i as int]@);
        let www_rest: Option<Vec<char>> = if l.len() >= 4 && l[0] == 'w' && l[1] == 'w' && l[2] == 'w'
            && l[3] == '.' {
            assert(l@.take(4) =~= www());
            let rest = sub_chars(l.as_slice(), 4, l.len());
            assert(rest@ =~= l@.skip(4));
            Some(rest)
        } else {
            proof {
                if l@.len() >= 4 {
                    assert(l@.take(4)[0] == l@[0]);
                    assert(l@.take(4)[1] == l@[1]);
                    assert(l@.take(4)[2] == l@[2]);
                    assert(l@.take(4)[3] == l@[3]);
                }
            }
            None
        };
        let ghost lx = l@;
        keyed.push((l, ()));
        let ghost k1 = keyed@;
        match www_rest {
            Some(rest) => {
                let ghost rx = rest@;
                keyed.push((rest, ()));
                proof {
                    assert forall|x: Seq<char>| #[trigger] keys_of(keyed@).contains(x) <==> is_include_entry(
                        list@.take(i + 1),
                        x,
                    ) by {
                        lemma_keys_push(k0, (k1.last().0, ()), x);
                        lemma_keys_push(k1, (keyed@.last().0, ()), x);
                        assert(k1 == k0.push(k1.last()));
                        lemma_include_entry_push(list@, i as int, x);
                    }
                }
            },
            None => {
                proof {
                    assert forall|x: Seq<char>| #[trigger] keys_of(keyed@).contains(x) <==> is_include_entry(
                        list@.take(i + 1),
                        x,
                    ) by {
                        lemma_keys_push(k0, (k1.last().0, ()), x);
                        assert(k1 == k0.push(k1.last()));
                        lemma_include_entry_push(list@, i as int, x);
                    }
                }
            },
        }
        i = i + 1;
    }
    assert(list@.take(list@.len() as int) =~= list@);
    let sorted = sort_dedup(keyed);
    let mut out: Vec<String> = Vec::new();
    let mut k: usize = 0;
    while k < sorted.len()
        invariant
            k <= sorted@.len(),
            string_views(out@) == keys_of(sorted@).take(k as int),
        decreases sorted@.len() - k,
    {
        let ghost before = string_views(out@);
        let x = chars_to_string(sorted[k].0.as_slice());
        out.push(x);
        assert(string_views(out@) =~= before.push(x@));
        assert(string_views(out@) =~= keys_of(sorted@).take(k + 1));
        k = k + 1;
    }
    assert(keys_of(sorted@).take(sorted@.len() as int) =~= keys_of(sorted@));
    out
}

/// What one more entry adds to the normalised includes.
proof fn lemma_include_entry_push(list: Seq<String>, i: int, x: Seq<char>)
    requires
        0 <= i < list.len(),
    ensures
        is_include_entry(list.take(i + 1), x) <==> (is_include_entry(list.take(i), x) || {
            let l = ascii_lower(list[i]@);
            x == l || (l.len() >= 4 && l.take(4) == www() && x == l.skip(4))
        }),
{
    let a = list.take(i + 1);
    let b = list.take(i);
    if is_include_entry(a, x) {
        let j = choose|j: int|
            0 <= j < a.len() && {
                let l = ascii_lower(#[trigger] a[j]@);
                x == l || (l.len() >= 4 && l.take(4) == www() && x == l.skip(4))
            };
        if j < i {
            assert(b[j] == a[j]);
        }
    }
    if is_include_entry(b, x) {
        let j = choose|j: int|
            0 <= j < b.len() && {
                let l = ascii_lower(#[trigger] b[j]@);
                x == l || (l.len() >= 4 && l.take(4) == www() && x == l.skip(4))
            };
        assert(a[j] == b[j]);
    }
    assert(a[i] == list[i]);
}

/// # Compile Exclusion Patterns.
///
/// Build the pattern set; no patterns means no set. Patterns that do not
/// compile are a parse error.
pub fn compile_regexclude(patterns: &Vec<String>) -> (r: Result<Option<PatternSet>, AdbyssError>)
    ensures
        r is Err <==> !regex_set_builds(string_views(patterns@)),
        r matches Err(e) ==> e is Parse,
        r matches Ok(None) ==> patterns@.len() == 0,
        r matches Ok(Some(set)) ==> patterns@.len() > 0 && set@ == string_views(patterns@),
        regex_set_builds(string_views(patterns@)) && patterns@.len() == 0 ==> r matches Ok(None),
{
    match regex_set_new(patterns) {
        Err(e) => Err(AdbyssError::Parse(regex_error_message(&e))),
        Ok(set) => {
            if regex_set_is_empty(&set) {
                Ok(None)
            } else {
                Ok(Some(set))
            }
        },
    }
}

impl Settings {
    /// # Build Hosts File.
    ///
    /// The new hosts file, and the number of hosts blocked, without saving
    /// it anywhere: the blocklist, less the hosts of the custom entries
    /// (`custom`, the names the user's own entries point at), appended to
    /// `stub` (the hosts file without its Adbyss parts) when it is not
    /// empty. The only error is a failure to reserve room for the text,
    /// which is only asked for when there is something to add: with nothing
    /// to add, the stub comes back unchanged with a count of zero.
    pub fn build(&self, stub: String, lists: &Vec<(Source, String)>, custom: &Vec<String>) -> (r: Result<
        (String, usize),
        AdbyssError,
    >)
        ensures
            r matches Err(e) ==> e matches AdbyssError::Write(p) && p@ == self.hostfile@,
            r is Err ==> !nothing_blocked(*self, lists@, custom@),
            nothing_blocked(*self, lists@, custom@) ==> (r matches Ok((text, n)) && text@ == stub@ && n == 0),
            r matches Ok((text, n)) ==> built_hosts(*self, lists@, custom@, stub@, text@, n as nat),
    {
        let mut list = self.shitlist(lists);
        let ghost base = list.list();
        list.prune_hosts(custom);
        let ghost pruned = list.list();
        assert(is_pruned_blocklist(*self, lists@, custom@, pruned));
        let n = list.len();
        let mut out = stub;
        if n != 0 {
            proof {
                let d = pruned[0];
                let pred = |d: Domain| !names_yield(custom@, d@);
                broadcast use vstd::seq_lib::group_filter_ensures;
                assert(pruned.contains(d));
                base.lemma_filter_contains_rev(pred, d);
                let j = choose|j: int| 0 <= j < base.len() && base[j] == d;
                assert(hosts_of(base)[j] == d@);
                assert(hosts_of(base).contains(d@));
                assert(blocks(*self, lists@, d@));
                assert(!names_yield(custom@, d@));
            }
            proof {
                assert forall|i: int| 0 <= i < pruned.len() implies (#[trigger] pruned[i]).wf() && pruned[i]@.len()
                    < usize::MAX by {
                    assert(pruned.contains(pruned[i]));
                    base.lemma_filter_contains_rev(|d: Domain| !names_yield(custom@, d@), pruned[i]);
                    let j = choose|j: int| 0 <= j < base.len() && base[j] == pruned[i];
                    assert(base[j].wf());
                }
            }
            match list.append(&mut out) {
                Ok(()) => {},
                Err(_) => {
                    return Err(AdbyssError::Write(self.hostfile.clone()));
                },
            }
        }
        Ok((out, n))
    }
}

} // verus!
