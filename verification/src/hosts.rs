//! The blocklist builder: the user's part of a hosts file, followed by an
//! Adbyss section of blackholed hosts from the selected sources.
use vstd::prelude::*;
use crate::text::{join, nice_text};
use crate::error::AdbyssError;
use crate::outside::{
    nice_u64, regex_set_builds, regex_set_is_empty, regex_set_is_match, regex_set_new,
    utc_now, PatternSet,
};
use crate::psl::{builtin_rules, hosts_of, Domain, SuffixTable};
use crate::settings::{keyed_hosts, regex_excludes, DEFAULT_HOSTFILE};
use crate::write::{at_positions, group_by_tld, is_tld_index, members, tld_of};
use crate::{FLAG_BACKUP, FLAG_COMPACT, FLAG_Y, MAX_LINE};
use crate::sort::{contains_key, keys_of, lemma_keys_push, sort_dedup, values_of};
use crate::sources::{fetched_yields, fetches_ok, first_fetch_error, line_yields, Source};
use crate::text::{lex_lt, strictly_sorted,
    before_char, before_char_exec, chars_to_string, extend_chars, split_str_lines_chars,
    split_words, str_chars, str_lines, string_views, sub_chars, trim, trim_chars, trim_end,
    trim_end_chars, views, words,
};

verus! {

broadcast use vstd::string::group_string_axioms;

/// # Watermark.
///
/// How much of the marker that opens the Adbyss section has been seen, line
/// by line.
#[derive(Clone, Copy, Debug, PartialEq, Eq, Structural)]
pub enum Watermark {
    /// Nothing yet.
    Zero,
    /// The first line.
    One,
    /// The first two lines.
    Two,
    /// All three.
    Three,
}

/// The step after `w`.
pub open spec fn wm_next(w: Watermark) -> Watermark {
    match w {
        Watermark::Zero => Watermark::One,
        Watermark::One => Watermark::Two,
        Watermark::Two | Watermark::Three => Watermark::Three,
    }
}

/// The marker line of a step.
pub open spec fn wm_text(w: Watermark) -> Seq<char> {
    match w {
        Watermark::Zero => ""@,
        Watermark::One | Watermark::Three => "##########"@,
        Watermark::Two => "# ADBYSS #"@,
    }
}

/// The step after seeing `line`: the next one if the line is its marker,
/// otherwise back to the start.
pub open spec fn wm_match(w: Watermark, line: Seq<char>) -> Watermark {
    if line == wm_text(wm_next(w)) {
        wm_next(w)
    } else {
        Watermark::Zero
    }
}

impl Watermark {
    /// The Next Entry.
    pub fn next(self) -> (r: Self)
        ensures
            r == wm_next(self),
    {
        match self {
            Watermark::Zero => Watermark::One,
            Watermark::One => Watermark::Two,
            Watermark::Two | Watermark::Three => Watermark::Three,
        }
    }

    /// The Line.
    pub fn as_str(self) -> (r: &'static str)
        ensures
            r@ == wm_text(self),
    {
        match self {
            Watermark::Zero => "",
            Watermark::One | Watermark::Three => "##########",
            Watermark::Two => "# ADBYSS #",
        }
    }

    /// Match the Watermark.
    ///
    /// If the line is the next expected marker line, the next step is
    /// returned, otherwise it resets to zero.
    pub fn is_match(self, line: &str) -> (r: Self)
        ensures
            r == wm_match(self, line@),
    {
        let next = self.next();
        let a = str_chars(line);
        let b = str_chars(next.as_str());
        if same_chars(a.as_slice(), b.as_slice()) {
            next
        } else {
            Watermark::Zero
        }
    }
}

/// Are the two equal?
fn same_chars(a: &[char], b: &[char]) -> (r: bool)
    ensures
        r == (a@ == b@),
{
    if a.len() != b.len() {
        return false;
    }
    let mut i: usize = 0;
    while i < a.len()
        invariant
            a@.len() == b@.len(),
            i <= a@.len(),
            a@.take(i as int) == b@.take(i as int),
        decreases a@.len() - i,
    {
        if a[i] != b[i] {
            return false;
        }
        i = i + 1;
        assert(a@.take(i as int) =~= b@.take(i as int));
    }
    assert(a@.take(a@.len() as int) =~= a@);
    assert(b@.take(b@.len() as int) =~= b@);
    true
}

/// The length of the text the marker's first two lines leave at the end of
/// the stub, with the line break before them.
pub open spec fn marker_tail_len() -> int {
    23
}

/// The user part of the lines `ls`, continuing from step `w` with the text
/// `txt` so far: each line trimmed and ended by a line break, up to the
/// marker that opens the Adbyss section. When the marker is complete its
/// first two lines, and the line break before them, are taken off again,
/// the end trimmed, and one line break added. Where the marker opens the
/// file there is no line break before it, and the user part is empty: a
/// single line break.
pub open spec fn stub_scan(ls: Seq<Seq<char>>, w: Watermark, txt: Seq<char>) -> Seq<char>
    decreases ls.len(),
{
    if ls.len() == 0 {
        txt
    } else {
        let next = wm_match(w, ls[0]);
        if next == Watermark::Three {
            if txt.len() < marker_tail_len() {
                seq!['\n']
            } else {
                trim_end(txt.take(txt.len() - marker_tail_len())).push('\n')
            }
        } else {
            stub_scan(ls.drop_first(), next, txt + trim(ls[0]).push('\n'))
        }
    }
}

/// The user part of a hosts file, given its lines (see [`stub_scan`]).
pub open spec fn stub_text(ls: Seq<Seq<char>>) -> Seq<char> {
    stub_scan(ls, Watermark::Zero, Seq::empty())
}

/// # Stub.
///
/// The user part of a hosts file, given its lines: every line before the
/// Adbyss marker, trimmed (see [`stub_text`]).
pub fn hostfile_stub(lines: &Vec<String>) -> (r: String)
    ensures
        r@ == stub_text(string_views(lines@)),
{
    let ghost ls = string_views(lines@);
    let mut txt: Vec<char> = Vec::new();
    let mut w = Watermark::Zero;
    let mut i: usize = 0;
    assert(ls.skip(0) =~= ls);
    assert(txt@ =~= Seq::<char>::empty());
    while i < lines.len()
        invariant
            i <= lines@.len(),
            ls == string_views(lines@),
            stub_scan(ls, Watermark::Zero, Seq::empty()) == stub_scan(ls.skip(i as int), w, txt@),
        decreases lines@.len() - i,
    {
        let ghost rest = ls.skip(i as int);
        assert(rest[0] == lines@[i as int]@);
        assert(rest.drop_first() =~= ls.skip(i + 1));
        w = w.is_match(lines[i].as_str());
        if w == Watermark::Three {
            if txt.len() < 23 {
                let mut out: Vec<char> = Vec::new();
                out.push('\n');
                assert(out@ =~= seq!['\n']);
                return chars_to_string(out.as_slice());
            }
            let cut = sub_chars(txt.as_slice(), 0, txt.len() - 23);
            assert(cut@ =~= txt@.take(txt@.len() - marker_tail_len()));
            let mut out = trim_end_chars(cut.as_slice());
            out.push('\n');
            return chars_to_string(out.as_slice());
        }
        let l = str_chars(lines[i].as_str());
        let t = trim_chars(l.as_slice());
        let ghost t0 = txt@;
        extend_chars(&mut txt, t.as_slice());
        txt.push('\n');
        assert(txt@ =~= t0 + trim(rest[0]).push('\n'));
        i = i + 1;
    }
    assert(ls.skip(i as int) =~= Seq::<Seq<char>>::empty());
    chars_to_string(txt.as_slice())
}

/// The words of a line of the stub: up to its first `#`, split at
/// whitespace.
pub open spec fn stub_line_words(line: Seq<char>) -> Seq<Seq<char>> {
    words(before_char(line, '#'), true)
}

/// # Stub Entry Lines.
///
/// The words of each line of the stub (see [`stub_line_words`]). Which
/// lines are custom entries depends on whether their first word is an IP
/// address, which the caller decides.
pub fn stub_entry_lines(raw: &str) -> (r: Vec<Vec<String>>)
    ensures
        r@.len() == str_lines(raw@).len(),
        forall|i: int| 0 <= i < r@.len() ==> string_views(#[trigger] r@[i]@) == stub_line_words(str_lines(raw@)[i]),
{
    let chars = str_chars(raw);
    let lines = split_str_lines_chars(chars.as_slice());
    let ghost ls = str_lines(raw@);
    let mut out: Vec<Vec<String>> = Vec::new();
    let mut i: usize = 0;
    while i < lines.len()
        invariant
            i <= lines@.len(),
            views(lines@) == ls,
            out@.len() == i,
            forall|k: int| 0 <= k < i ==> string_views(#[trigger] out@[k]@) == stub_line_words(ls[k]),
        decreases lines@.len() - i,
    {
        assert(views(lines@)[i as int] == lines@[i as int]@);
        let cut = before_char_exec(lines[i].as_slice(), '#');
        let ws = split_words(cut.as_slice(), true);
        let mut strs: Vec<String> = Vec::new();
        let mut k: usize = 0;
        while k < ws.len()
            invariant
                k <= ws@.len(),
                strs@.len() == k,
                forall|q: int| 0 <= q < k ==> (#[trigger] strs@[q])@ == ws@[q]@,
            decreases ws@.len() - k,
        {
            strs.push(chars_to_string(ws[k].as_slice()));
            k = k + 1;
        }
        assert(string_views(strs@) =~= views(ws@));
        out.push(strs);
        i = i + 1;
    }
    out
}

/// `www.` as the first label of a domain's subdomain.
pub open spec fn strips_www(d: Domain) -> bool {
    d.spec_root_start() >= 4 && d@.subrange(0, 4) == seq!['w', 'w', 'w', '.']
}

/// Is `h` the host of some domain of `ds` without its leading `www.`?
pub open spec fn www_stripped(ds: Seq<Domain>, h: Seq<char>) -> bool {
    exists|i: int| 0 <= i < ds.len() && strips_www(#[trigger] ds[i]) && ds[i]@.skip(4) == h
}

/// Every domain is well formed.
pub open spec fn all_ok(ds: Seq<Domain>) -> bool {
    forall|i: int| 0 <= i < ds.len() ==> (#[trigger] ds[i]).wf()
}

/// Well formed, sorted by host, each host once.
pub open spec fn domain_set(ds: Seq<Domain>) -> bool {
    all_ok(ds) && strictly_sorted(hosts_of(ds))
}

/// Does one of `names` parse to the host `h`?
pub open spec fn names_give(names: Seq<Seq<char>>, h: Seq<char>) -> bool {
    exists|i: int| 0 <= i < names.len() && line_yields(#[trigger] names[i], h)
}

/// Pair each domain with its host.
fn keyed(ds: Vec<Domain>) -> (r: Vec<(Vec<char>, Domain)>)
    requires
        all_ok(ds@),
    ensures
        keys_of(r@) == hosts_of(ds@),
        forall|j: int| 0 <= j < r@.len() ==> (#[trigger] r@[j]).0@ == r@[j].1@ && r@[j].1.wf(),
{
    let ghost d0 = ds@;
    let mut rev = crate::sort::reverse_vec(ds);
    let mut out: Vec<(Vec<char>, Domain)> = Vec::new();
    while rev.len() > 0
        invariant
            out@.len() + rev@.len() == d0.len(),
            all_ok(d0),
            forall|j: int| 0 <= j < rev@.len() ==> rev@[j] == d0[d0.len() - 1 - j],
            forall|j: int| 0 <= j < out@.len() ==> (#[trigger] out@[j]).1 == d0[j] && out@[j].0@ == d0[j]@,
        decreases rev@.len(),
    {
        let d = rev.pop().unwrap();
        let k = str_chars(d.host());
        out.push((k, d));
    }
    assert(keys_of(out@) =~= hosts_of(d0));
    out
}

/// Sort keyed domains by host, keeping one per host.
fn domains_of_pairs(v: Vec<(Vec<char>, Domain)>) -> (r: Vec<Domain>)
    requires
        forall|j: int| 0 <= j < v@.len() ==> (#[trigger] v@[j]).0@ == v@[j].1@ && v@[j].1.wf(),
    ensures
        domain_set(r@),
        forall|h: Seq<char>| #[trigger] hosts_of(r@).contains(h) <==> keys_of(v@).contains(h),
{
    let ghost v0 = v@;
    let sorted = sort_dedup(v);
    let ghost sv = sorted@;
    let out = values_of(sorted);
    proof {
        assert forall|j: int| 0 <= j < sv.len() implies sv[j].0@ == sv[j].1@ && sv[j].1.wf() by {
            assert(sv.contains(sv[j]));
            let m = choose|m: int| 0 <= m < v0.len() && v0[m] == sv[j];
        }
        assert(hosts_of(out@) =~= keys_of(sv));
        assert forall|j: int| 0 <= j < out@.len() implies (#[trigger] out@[j]).wf() by {
            assert(out@[j] == sv[j].1);
        }
    }
    out
}

/// The union of two domain lists, sorted by host, each host once.
fn merge_domains(a: Vec<Domain>, b: Vec<Domain>) -> (r: Vec<Domain>)
    requires
        all_ok(a@),
        all_ok(b@),
    ensures
        domain_set(r@),
        forall|h: Seq<char>| #[trigger] hosts_of(r@).contains(h) <==> (hosts_of(a@).contains(h)
            || hosts_of(b@).contains(h)),
{
    let ghost ha = hosts_of(a@);
    let ghost hb = hosts_of(b@);
    let mut ka = keyed(a);
    let mut kb = keyed(b);
    let ghost pa = ka@;
    let ghost pb = kb@;
    ka.append(&mut kb);
    assert(ka@ == pa + pb);
    proof {
        assert forall|j: int| 0 <= j < ka@.len() implies (#[trigger] ka@[j]).0@ == ka@[j].1@ && ka@[j].1.wf() by {
            if j < pa.len() {
                assert(ka@[j] == pa[j]);
            } else {
                assert(ka@[j] == pb[j - pa.len()]);
            }
        }
        assert(keys_of(ka@) =~= ha + hb);
        assert forall|h: Seq<char>| #[trigger] keys_of(ka@).contains(h) <==> (ha.contains(h) || hb.contains(h)) by {
            let k = keys_of(ka@);
            if k.contains(h) {
                let j = choose|j: int| 0 <= j < k.len() && k[j] == h;
                if j < ha.len() {
                    assert(ha[j] == h);
                } else {
                    assert(hb[j - ha.len()] == h);
                }
            }
            if ha.contains(h) {
                let j = choose|j: int| 0 <= j < ha.len() && ha[j] == h;
                assert(k[j] == h);
            }
            if hb.contains(h) {
                let j = choose|j: int| 0 <= j < hb.len() && hb[j] == h;
                assert(k[j + ha.len()] == h);
            }
        }
    }
    domains_of_pairs(ka)
}

/// The domains that `names` parse to, sorted by host, each host once.
pub fn parse_names(names: &Vec<String>) -> (r: Vec<Domain>)
    ensures
        domain_set(r@),
        forall|h: Seq<char>| #[trigger] hosts_of(r@).contains(h) <==> names_give(string_views(names@), h),
{
    let table = SuffixTable::builtin();
    let ghost ns = string_views(names@);
    let mut pairs: Vec<(Vec<char>, Domain)> = Vec::new();
    let mut i: usize = 0;
    while i < names.len()
        invariant
            i <= names@.len(),
            ns == string_views(names@),
            table.wf(),
            table@ == builtin_rules(),
            forall|j: int| 0 <= j < pairs@.len() ==> (#[trigger] pairs@[j]).0@ == pairs@[j].1@ && pairs@[j].1.wf(),
            forall|h: Seq<char>| #[trigger] keys_of(pairs@).contains(h) <==> names_give(ns.take(i as int), h),
        decreases names@.len() - i,
    {
        let ghost p0 = pairs@;
        let ghost t1 = ns.take(i + 1);
        let ghost t0 = ns.take(i as int);
        assert(t1 =~= t0.push(ns[i as int]));
        assert(ns[i as int] == names@[i as int]@);
        match Domain::parse_with(&table, names[i].as_str()) {
            Some(d) => {
                let k = str_chars(d.host());
                let ghost x = (k, d);
                pairs.push((k, d));
                proof {
                    assert forall|h: Seq<char>| #[trigger] keys_of(pairs@).contains(h) <==> names_give(t1, h) by {
                        lemma_keys_push(p0, x, h);
                        lemma_names_give_push(t0, ns[i as int], h);
                    }
                }
            },
            None => {
                proof {
                    assert forall|h: Seq<char>| #[trigger] keys_of(pairs@).contains(h) <==> names_give(t1, h) by {
                        lemma_names_give_push(t0, ns[i as int], h);
                    }
                }
            },
        }
        i = i + 1;
    }
    assert(ns.take(names@.len() as int) =~= ns);
    domains_of_pairs(pairs)
}

/// One more name gives what the others give and what it parses to.
proof fn lemma_names_give_push(ns: Seq<Seq<char>>, n: Seq<char>, h: Seq<char>)
    ensures
        names_give(ns.push(n), h) <==> (names_give(ns, h) || line_yields(n, h)),
{
    let a = ns.push(n);
    if names_give(a, h) {
        let i = choose|i: int| 0 <= i < a.len() && line_yields(#[trigger] a[i], h);
        if i < ns.len() {
            assert(ns[i] == a[i]);
        }
    }
    if names_give(ns, h) {
        let i = choose|i: int| 0 <= i < ns.len() && line_yields(#[trigger] ns[i], h);
        assert(a[i] == ns[i]);
    }
    if line_yields(n, h) {
        assert(a[ns.len() as int] == n);
    }
}

/// The `www.`-less twins of the domains that have a leading `www.`
/// subdomain.
fn www_twins(ds: &Vec<Domain>) -> (r: Vec<Domain>)
    requires
        all_ok(ds@),
    ensures
        all_ok(r@),
        forall|h: Seq<char>| #[trigger] hosts_of(r@).contains(h) <==> www_stripped(ds@, h),
{
    let mut out: Vec<Domain> = Vec::new();
    let mut i: usize = 0;
    while i < ds.len()
        invariant
            i <= ds@.len(),
            all_ok(ds@),
            all_ok(out@),
            forall|h: Seq<char>| #[trigger] hosts_of(out@).contains(h) <==> www_stripped(ds@.take(i as int), h),
        decreases ds@.len() - i,
    {
        let ghost o0 = out@;
        let ghost t1 = ds@.take(i + 1);
        let ghost t0 = ds@.take(i as int);
        assert(t1 =~= t0.push(ds@[i as int]));
        assert(ds@[i as int].wf());
        let mut d = ds[i].duplicate();
        let ghost d0 = d;
        if d.strip_www() {
            let ghost dd = d;
            out.push(d);
            proof {
                assert(hosts_of(out@) =~= hosts_of(o0).push(dd@));
                assert forall|h: Seq<char>| #[trigger] hosts_of(out@).contains(h) <==> www_stripped(t1, h) by {
                    lemma_www_stripped_push(t0, ds@[i as int], h);
                    lemma_seq_push_contains(hosts_of(o0), dd@, h);
                }
            }
        } else {
            proof {
                assert forall|h: Seq<char>| #[trigger] hosts_of(out@).contains(h) <==> www_stripped(t1, h) by {
                    lemma_www_stripped_push(t0, ds@[i as int], h);
                }
            }
        }
        i = i + 1;
    }
    assert(ds@.take(ds@.len() as int) =~= ds@);
    out
}

/// What one more element adds to a sequence's contents.
proof fn lemma_seq_push_contains<A>(s: Seq<A>, x: A, y: A)
    ensures
        s.push(x).contains(y) <==> (s.contains(y) || x == y),
{
    if s.push(x).contains(y) {
        let j = choose|j: int| 0 <= j < s.push(x).len() && s.push(x)[j] == y;
        if j < s.len() {
            assert(s[j] == y);
        }
    }
    if s.contains(y) {
        let j = choose|j: int| 0 <= j < s.len() && s[j] == y;
        assert(s.push(x)[j] == y);
    }
    if x == y {
        assert(s.push(x)[s.len() as int] == y);
    }
}

proof fn lemma_www_stripped_push(ds: Seq<Domain>, d: Domain, h: Seq<char>)
    ensures
        www_stripped(ds.push(d), h) <==> (www_stripped(ds, h) || (strips_www(d) && d@.skip(4) == h)),
{
    let a = ds.push(d);
    if www_stripped(a, h) {
        let i = choose|i: int| 0 <= i < a.len() && strips_www(#[trigger] a[i]) && a[i]@.skip(4) == h;
        if i < ds.len() {
            assert(ds[i] == a[i]);
        }
    }
    if www_stripped(ds, h) {
        let i = choose|i: int| 0 <= i < ds.len() && strips_www(#[trigger] ds[i]) && ds[i]@.skip(4) == h;
        assert(a[i] == ds[i]);
    }
    if strips_www(d) && d@.skip(4) == h {
        assert(a[ds.len() as int] == d);
    }
}

/// Does the host `y` fit on the line being built: alone on an empty line,
/// or after a space on a started one, within [`MAX_LINE`]?
pub open spec fn fits_line(line: Seq<char>, y: Seq<char>) -> bool {
    if line.len() == 0 {
        y.len() <= MAX_LINE
    } else {
        line.len() + 1 + y.len() <= MAX_LINE
    }
}

/// The lines a group of hosts packs into, the current line being `line`:
/// a host joins the line (after a space, unless the line is empty) while it
/// fits (see [`fits_line`]); otherwise the line is done and the host starts
/// the next one, or is dropped when it alone is longer than [`MAX_LINE`].
pub open spec fn core_pack(ms: Seq<Seq<char>>, line: Seq<char>) -> Seq<Seq<char>>
    decreases ms.len(),
{
    if ms.len() == 0 {
        if line.len() == 0 {
            Seq::empty()
        } else {
            seq![line]
        }
    } else {
        let y = ms[0];
        if fits_line(line, y) {
            core_pack(
                ms.drop_first(),
                if line.len() == 0 {
                    y
                } else {
                    line + seq![' '] + y
                },
            )
        } else if line.len() > 0 {
            seq![line] + core_pack(
                ms.drop_first(),
                if y.len() <= MAX_LINE {
                    y
                } else {
                    Seq::empty()
                },
            )
        } else {
            core_pack(ms.drop_first(), line)
        }
    }
}

/// The lines of the hosts of `found` with the TLD `t`, in order.
pub open spec fn group_lines(found: Seq<Domain>, t: Seq<char>) -> Seq<Seq<char>> {
    core_pack(hosts_of(members(found, t)), Seq::empty())
}

/// Is `l` a line of the compact list: one of the lines of the TLD of some
/// domain of `found`?
pub open spec fn is_compact_line(found: Seq<Domain>, l: Seq<char>) -> bool {
    exists|i: int| 0 <= i < found.len() && #[trigger] group_lines(found, tld_of(found[i])).contains(l)
}

/// The hosts of `found` that fit on a line, in order.
pub open spec fn separate_lines(found: Seq<Domain>) -> Seq<Seq<char>> {
    hosts_of(found).filter(|h: Seq<char>| h.len() <= MAX_LINE)
}

/// Pack the hosts of `found` at the positions `idx` (see [`core_pack`]).
fn pack_group(found: &Vec<Domain>, idx: &Vec<usize>) -> (r: Vec<Vec<char>>)
    requires
        forall|k: int| 0 <= k < idx@.len() ==> #[trigger] idx@[k] < found@.len(),
    ensures
        views(r@) == core_pack(hosts_of(at_positions(found@, idx@)), Seq::empty()),
{
    let ghost ms = hosts_of(at_positions(found@, idx@));
    let mut out: Vec<Vec<char>> = Vec::new();
    let mut line: Vec<char> = Vec::new();
    let mut k: usize = 0;
    assert(ms.skip(0) =~= ms);
    assert(views(out@) + core_pack(ms.skip(0), line@) =~= core_pack(ms, Seq::empty()));
    while k < idx.len()
        invariant
            k <= idx@.len(),
            ms == hosts_of(at_positions(found@, idx@)),
            forall|q: int| 0 <= q < idx@.len() ==> #[trigger] idx@[q] < found@.len(),
            line@.len() <= MAX_LINE,
            views(out@) + core_pack(ms.skip(k as int), line@) == core_pack(ms, Seq::empty()),
        decreases idx@.len() - k,
    {
        let ghost rest = ms.skip(k as int);
        assert(rest.drop_first() =~= ms.skip(k + 1));
        let j = idx[k];
        assert(idx@[k as int] < found@.len());
        let y = str_chars(found[j].host());
        assert(rest[0] == y@);
        let ghost l0 = line@;
        let ghost o0 = views(out@);
        if (line.len() == 0 && y.len() <= MAX_LINE) || (line.len() > 0 && line.len() < MAX_LINE && y.len()
            <= MAX_LINE - 1 - line.len()) {
            if line.len() > 0 {
                line.push(' ');
            }
            extend_chars(&mut line, y.as_slice());
            assert(line@ =~= if l0.len() == 0 {
                y@
            } else {
                l0 + seq![' '] + y@
            });
        } else if line.len() > 0 {
            let next = if y.len() <= MAX_LINE {
                y
            } else {
                Vec::new()
            };
            assert(next@ =~= if y@.len() <= MAX_LINE {
                y@
            } else {
                Seq::<char>::empty()
            });
            out.push(line);
            line = next;
            assert(views(out@) =~= o0.push(l0));
            assert(o0.push(l0) + core_pack(rest.drop_first(), line@) =~= o0 + (seq![l0] + core_pack(
                rest.drop_first(),
                line@,
            )));
        }
        k = k + 1;
    }
    assert(ms.skip(k as int) =~= Seq::<Seq<char>>::empty());
    if line.len() > 0 {
        let ghost o0 = views(out@);
        let ghost l0 = line@;
        out.push(line);
        assert(views(out@) =~= o0 + seq![l0]);
    } else {
        assert(views(out@) =~= views(out@) + Seq::<Seq<char>>::empty());
    }
    out
}

/// Every line a group packs into holds something and fits within
/// [`MAX_LINE`], when the line being built does.
pub proof fn lemma_core_pack_fits(ms: Seq<Seq<char>>, line: Seq<char>)
    requires
        line.len() <= MAX_LINE,
    ensures
        forall|k: int| 0 <= k < core_pack(ms, line).len() ==> 0 < (#[trigger] core_pack(ms, line)[k]).len() <= MAX_LINE,
    decreases ms.len(),
{
    if ms.len() > 0 {
        let y = ms[0];
        let rest = ms.drop_first();
        if fits_line(line, y) {
            let nl = if line.len() == 0 { y } else { line + seq![' '] + y };
            assert(core_pack(ms, line) == core_pack(rest, nl));
            lemma_core_pack_fits(rest, nl);
        } else if line.len() > 0 {
            let next = if y.len() <= MAX_LINE { y } else { Seq::empty() };
            lemma_core_pack_fits(rest, next);
            let tail = core_pack(rest, next);
            assert forall|k: int| 0 <= k < core_pack(ms, line).len() implies 0 < (#[trigger] core_pack(ms, line)[k]).len() <= MAX_LINE by {
                if k > 0 {
                    assert(core_pack(ms, line)[k] == tail[k - 1]);
                }
            }
        } else {
            assert(core_pack(ms, line) == core_pack(rest, line));
            lemma_core_pack_fits(rest, line);
        }
    } else {
        assert(core_pack(ms, line) == if line.len() == 0 { Seq::<Seq<char>>::empty() } else { seq![line] });
    }
}

/// # Compact Lines Fit.
///
/// Every line of the compact list holds something and is at most
/// [`MAX_LINE`] long: merging by TLD never goes overboard.
pub proof fn lemma_compact_lines_fit(found: Seq<Domain>, l: Seq<char>)
    requires
        is_compact_line(found, l),
    ensures
        0 < l.len() <= MAX_LINE,
{
    let i = choose|i: int| 0 <= i < found.len() && #[trigger] group_lines(found, tld_of(found[i])).contains(l);
    let gl = group_lines(found, tld_of(found[i]));
    lemma_core_pack_fits(hosts_of(members(found, tld_of(found[i]))), Seq::empty());
    let k = choose|k: int| 0 <= k < gl.len() && gl[k] == l;
}

/// The hosts of each line a group packs into (see [`core_pack`]), the
/// hosts of the line being built being `cur`.
pub open spec fn pack_groups(ms: Seq<Seq<char>>, cur: Seq<Seq<char>>) -> Seq<Seq<Seq<char>>>
    decreases ms.len(),
{
    if ms.len() == 0 {
        if cur.len() == 0 {
            Seq::empty()
        } else {
            seq![cur]
        }
    } else {
        let y = ms[0];
        if fits_line(join(cur, seq![' ']), y) {
            pack_groups(ms.drop_first(), cur.push(y))
        } else if cur.len() > 0 {
            seq![cur] + pack_groups(
                ms.drop_first(),
                if y.len() <= MAX_LINE {
                    seq![y]
                } else {
                    Seq::empty()
                },
            )
        } else {
            pack_groups(ms.drop_first(), cur)
        }
    }
}

/// All the hosts of a list of groups, in order.
pub open spec fn concat_groups(gs: Seq<Seq<Seq<char>>>) -> Seq<Seq<char>>
    decreases gs.len(),
{
    if gs.len() == 0 {
        Seq::empty()
    } else {
        concat_groups(gs.drop_last()) + gs.last()
    }
}

/// A line of hosts: the hosts joined by spaces.
pub open spec fn line_of(g: Seq<Seq<char>>) -> Seq<char> {
    join(g, seq![' '])
}

proof fn lemma_concat_single(g: Seq<Seq<char>>)
    ensures
        concat_groups(seq![g]) == g,
{
    let s = seq![g];
    assert(s.drop_last() =~= Seq::<Seq<Seq<char>>>::empty());
    assert(concat_groups(s.drop_last()) == Seq::<Seq<char>>::empty());
    assert(s.last() == g);
    assert(concat_groups(s) == concat_groups(s.drop_last()) + s.last());
    assert(Seq::<Seq<char>>::empty() + g =~= g);
}

proof fn lemma_concat_groups_add(a: Seq<Seq<Seq<char>>>, b: Seq<Seq<Seq<char>>>)
    ensures
        concat_groups(a + b) == concat_groups(a) + concat_groups(b),
    decreases b.len(),
{
    if b.len() == 0 {
        assert(a + b =~= a);
    } else {
        lemma_concat_groups_add(a, b.drop_last());
        assert((a + b).drop_last() =~= a + b.drop_last());
        assert((a + b).last() == b.last());
    }
}

proof fn lemma_filter_front(ms: Seq<Seq<char>>)
    requires
        ms.len() > 0,
    ensures
        ms.filter(|y: Seq<char>| y.len() <= MAX_LINE) == (if ms[0].len() <= MAX_LINE {
            seq![ms[0]]
        } else {
            Seq::empty()
        }) + ms.drop_first().filter(|y: Seq<char>| y.len() <= MAX_LINE),
{
    let pred = |y: Seq<char>| y.len() <= MAX_LINE;
    assert(ms =~= seq![ms[0]] + ms.drop_first());
    Seq::filter_distributes_over_add(seq![ms[0]], ms.drop_first(), pred);
    crate::write::lemma_filter_push(Seq::<Seq<char>>::empty(), ms[0], pred);
    assert(Seq::<Seq<char>>::empty().push(ms[0]) =~= seq![ms[0]]);
    reveal(Seq::filter);
    assert(Seq::<Seq<char>>::empty().filter(pred) =~= Seq::<Seq<char>>::empty());
    assert(Seq::<Seq<char>>::empty().push(ms[0]) =~= seq![ms[0]]);
}

/// Packing keeps every host that fits on a line, once and in order: the
/// hosts of the lines, one after another, are those being built on, then
/// those given that are at most [`MAX_LINE`] long.
pub proof fn lemma_pack_keeps_hosts(ms: Seq<Seq<char>>, cur: Seq<Seq<char>>)
    ensures
        concat_groups(pack_groups(ms, cur)) == cur + ms.filter(|y: Seq<char>| y.len() <= MAX_LINE),
    decreases ms.len(),
{
    let pred = |y: Seq<char>| y.len() <= MAX_LINE;
    if ms.len() == 0 {
        reveal(Seq::filter);
        if cur.len() > 0 {
            lemma_concat_single(cur);
        } else {
            assert(cur =~= Seq::<Seq<char>>::empty());
        }
        assert(ms.filter(pred) =~= Seq::<Seq<char>>::empty());
        assert(cur + ms.filter(pred) =~= cur);
    } else {
        let y = ms[0];
        let rest = ms.drop_first();
        lemma_filter_front(ms);
        if fits_line(join(cur, seq![' ']), y) {
            lemma_pack_keeps_hosts(rest, cur.push(y));
            assert(cur.push(y) + rest.filter(pred) =~= cur + (seq![y] + rest.filter(pred)));
        } else if cur.len() > 0 {
            let next: Seq<Seq<char>> = if y.len() <= MAX_LINE {
                seq![y]
            } else {
                Seq::empty()
            };
            lemma_pack_keeps_hosts(rest, next);
            lemma_concat_groups_add(seq![cur], pack_groups(rest, next));
            lemma_concat_single(cur);
            assert(cur + (next + rest.filter(pred)) =~= cur + next + rest.filter(pred));
        } else {
            lemma_pack_keeps_hosts(rest, cur);
        }
    }
}

/// A line of non-empty hosts is empty only when it holds no host, and one
/// more host joins it after a space, or alone.
proof fn lemma_line_push(cur: Seq<Seq<char>>, y: Seq<char>)
    requires
        forall|k: int| 0 <= k < cur.len() ==> (#[trigger] cur[k]).len() > 0,
    ensures
        (line_of(cur).len() == 0) == (cur.len() == 0),
        line_of(cur.push(y)) == if cur.len() == 0 {
            y
        } else {
            line_of(cur) + seq![' '] + y
        },
{
    assert(cur.push(y).drop_last() =~= cur);
    if cur.len() > 1 {
        assert(line_of(cur).len() >= cur.last().len());
    } else if cur.len() == 1 {
        assert(cur[0].len() > 0);
    }
}

/// The lines packed from non-empty hosts are those host groups, each
/// joined by spaces.
pub proof fn lemma_pack_lines(ms: Seq<Seq<char>>, cur: Seq<Seq<char>>)
    requires
        forall|k: int| 0 <= k < ms.len() ==> (#[trigger] ms[k]).len() > 0,
        forall|k: int| 0 <= k < cur.len() ==> (#[trigger] cur[k]).len() > 0,
    ensures
        core_pack(ms, line_of(cur)) == pack_groups(ms, cur).map_values(|g: Seq<Seq<char>>| line_of(g)),
    decreases ms.len(),
{
    let f = |g: Seq<Seq<char>>| line_of(g);
    lemma_line_push(cur, Seq::empty());
    if ms.len() == 0 {
        if cur.len() > 0 {
            assert(seq![cur].map_values(f) =~= seq![line_of(cur)]);
        } else {
            assert(Seq::<Seq<Seq<char>>>::empty().map_values(f) =~= Seq::<Seq<char>>::empty());
        }
    } else {
        let y = ms[0];
        let rest = ms.drop_first();
        assert forall|k: int| 0 <= k < rest.len() implies (#[trigger] rest[k]).len() > 0 by {
            assert(rest[k] == ms[k + 1]);
        }
        lemma_line_push(cur, y);
        if fits_line(line_of(cur), y) {
            assert forall|k: int| 0 <= k < cur.push(y).len() implies (#[trigger] cur.push(y)[k]).len() > 0 by {
                if k == cur.len() {
                    assert(ms[0].len() > 0);
                }
            }
            lemma_pack_lines(rest, cur.push(y));
        } else if cur.len() > 0 {
            let next: Seq<Seq<char>> = if y.len() <= MAX_LINE {
                seq![y]
            } else {
                Seq::empty()
            };
            assert forall|k: int| 0 <= k < next.len() implies (#[trigger] next[k]).len() > 0 by {
                assert(ms[0].len() > 0);
            }
            lemma_pack_lines(rest, next);
            if y.len() <= MAX_LINE {
                assert(line_of(next) == y);
            } else {
                assert(line_of(next) =~= Seq::<char>::empty());
            }
            let p = pack_groups(rest, next);
            assert((seq![cur] + p).map_values(f) =~= seq![line_of(cur)] + p.map_values(f));
        } else {
            lemma_pack_lines(rest, cur);
        }
    }
}

/// # Compact Keeps Every Host.
///
/// The lines of a TLD group are its hosts packed into groups, each joined
/// by spaces; and those groups, one after another, hold exactly the hosts
/// of the group that are at most [`MAX_LINE`] long, in order, each as often
/// as it occurs (once, in a set of found hosts).
pub proof fn lemma_compact_keeps_hosts(found: Seq<Domain>, t: Seq<char>)
    requires
        all_ok(found),
    ensures
        group_lines(found, t) == pack_groups(hosts_of(members(found, t)), Seq::empty()).map_values(
            |g: Seq<Seq<char>>| line_of(g),
        ),
        concat_groups(pack_groups(hosts_of(members(found, t)), Seq::empty())) == hosts_of(
            members(found, t),
        ).filter(|y: Seq<char>| y.len() <= MAX_LINE),
{
    let ms = hosts_of(members(found, t));
    let pred = |d: Domain| tld_of(d) == t;
    assert forall|k: int| 0 <= k < ms.len() implies (#[trigger] ms[k]).len() > 0 by {
        let d = members(found, t)[k];
        assert(members(found, t).contains(d));
        found.lemma_filter_contains_rev(pred, d);
        let i = choose|i: int| 0 <= i < found.len() && found[i] == d;
        assert(found[i].wf());
        d.lemma_wf();
    }
    assert(line_of(Seq::<Seq<char>>::empty()) =~= Seq::<char>::empty());
    lemma_pack_lines(ms, Seq::empty());
    lemma_pack_keeps_hosts(ms, Seq::empty());
    assert(Seq::<Seq<char>>::empty() + ms.filter(|y: Seq<char>| y.len() <= MAX_LINE) =~= ms.filter(
        |y: Seq<char>| y.len() <= MAX_LINE,
    ));
}

/// # Found: Compact.
///
/// The hosts merged into lines by TLD (see [`core_pack`]), to reduce the
/// number of lines without going overboard; the lines sorted. The found
/// hosts are a set, sorted, so each line lists its hosts in order, and
/// every host of at most [`MAX_LINE`] characters is on exactly one line
/// (see [`lemma_compact_keeps_hosts`]).
pub fn found_compact(found: &Vec<Domain>) -> (r: Vec<String>)
    requires
        domain_set(found@),
    ensures
        strictly_sorted(string_views(r@)),
        forall|l: Seq<char>| #[trigger] string_views(r@).contains(l) <==> is_compact_line(found@, l),
        forall|t: Seq<char>|
            #[trigger] group_lines(found@, t) == pack_groups(hosts_of(members(found@, t)), Seq::empty()).map_values(
                |g: Seq<Seq<char>>| line_of(g),
            ) && concat_groups(pack_groups(hosts_of(members(found@, t)), Seq::empty())) == hosts_of(
                members(found@, t),
            ).filter(|y: Seq<char>| y.len() <= MAX_LINE),
{
    proof {
        assert forall|t: Seq<char>|
            #[trigger] group_lines(found@, t) == pack_groups(hosts_of(members(found@, t)), Seq::empty()).map_values(
                |g: Seq<Seq<char>>| line_of(g),
            ) && concat_groups(pack_groups(hosts_of(members(found@, t)), Seq::empty())) == hosts_of(
                members(found@, t),
            ).filter(|y: Seq<char>| y.len() <= MAX_LINE) by {
            lemma_compact_keeps_hosts(found@, t);
        }
    }
    proof {
        assert forall|i: int| 0 <= i < found@.len() implies (#[trigger] found@[i]).wf() by {}
    }
    let (tlds, groups) = group_by_tld(found);
    let ghost ks = keys_of(tlds@);
    let mut pairs: Vec<(Vec<char>, ())> = Vec::new();
    let mut g: usize = 0;
    while g < groups.len()
        invariant
            g <= groups@.len(),
            groups@.len() == ks.len(),
            ks == keys_of(tlds@),
            forall|x: int|
                0 <= x < groups@.len() ==> at_positions(found@, #[trigger] groups@[x]@) == members(found@, ks[x]),
            forall|x: int, k: int|
                0 <= x < groups@.len() && 0 <= k < groups@[x]@.len() ==> #[trigger] groups@[x]@[k] < found@.len(),
            forall|l: Seq<char>| #[trigger] keys_of(pairs@).contains(l) <==> exists|x: int|
                0 <= x < g && #[trigger] group_lines(found@, ks[x]).contains(l),
        decreases groups@.len() - g,
    {
        let lines = pack_group(found, &groups[g]);
        let ghost gl = group_lines(found@, ks[g as int]);
        assert(views(lines@) == gl);
        let ghost p0 = pairs@;
        let mut k: usize = 0;
        while k < lines.len()
            invariant
                k <= lines@.len(),
                views(lines@) == gl,
                forall|l: Seq<char>| #[trigger] keys_of(pairs@).contains(l) <==> (keys_of(p0).contains(l)
                    || gl.take(k as int).contains(l)),
            decreases lines@.len() - k,
        {
            let x = sub_chars(lines[k].as_slice(), 0, lines[k].len());
            assert(x@ =~= gl[k as int]);
            let ghost pb = pairs@;
            pairs.push((x, ()));
            proof {
                assert(gl.take(k + 1) =~= gl.take(k as int).push(x@));
                assert forall|l: Seq<char>| #[trigger] keys_of(pairs@).contains(l) <==> (keys_of(p0).contains(l)
                    || gl.take(k + 1).contains(l)) by {
                    lemma_keys_push(pb, (x, ()), l);
                    lemma_seq_push_contains(gl.take(k as int), x@, l);
                }
            }
            k = k + 1;
        }
        proof {
            assert(gl.take(lines@.len() as int) =~= gl);
            assert forall|l: Seq<char>| #[trigger] keys_of(pairs@).contains(l) <==> exists|x: int|
                0 <= x < g + 1 && #[trigger] group_lines(found@, ks[x]).contains(l) by {
                if exists|x: int| 0 <= x < g + 1 && #[trigger] group_lines(found@, ks[x]).contains(l) {
                    let x = choose|x: int| 0 <= x < g + 1 && #[trigger] group_lines(found@, ks[x]).contains(l);
                    if x < g {
                        assert(keys_of(p0).contains(l));
                    }
                }
            }
        }
        g = g + 1;
    }
    let sorted = sort_dedup(pairs);
    let mut out: Vec<String> = Vec::new();
    let mut k: usize = 0;
    while k < sorted.len()
        invariant
            k <= sorted@.len(),
            string_views(out@) == keys_of(sorted@).take(k as int),
        decreases sorted@.len() - k,
    {
        let ghost before = string_views(out@);
        let x = chars_to_string(sorted[k].0.as_slice());
        out.push(x);
        assert(string_views(out@) =~= before.push(x@));
        assert(string_views(out@) =~= keys_of(sorted@).take(k + 1));
        k = k + 1;
    }
    assert(keys_of(sorted@).take(sorted@.len() as int) =~= keys_of(sorted@));
    proof {
        assert forall|l: Seq<char>| #[trigger] string_views(out@).contains(l) <==> is_compact_line(found@, l) by {
            if string_views(out@).contains(l) {
                assert(keys_of(pairs@).contains(l));
                let x = choose|x: int| 0 <= x < groups@.len() && #[trigger] group_lines(found@, ks[x]).contains(l);
                assert(ks.contains(ks[x]));
                let i = choose|i: int| 0 <= i < found@.len() && #[trigger] tld_of(found@[i]) == ks[x];
                assert(group_lines(found@, tld_of(found@[i])).contains(l));
            }
            if is_compact_line(found@, l) {
                let i = choose|i: int| 0 <= i < found@.len() && #[trigger] group_lines(found@, tld_of(found@[i])).contains(l);
                assert(ks.contains(tld_of(found@[i])));
                let x = choose|x: int| 0 <= x < ks.len() && ks[x] == tld_of(found@[i]);
                assert(group_lines(found@, ks[x]).contains(l));
                assert(keys_of(pairs@).contains(l));
                assert(keys_of(sorted@).contains(l));
            }
        }
    }
    out
}

/// # Found: Straight Sort.
///
/// Each host that fits on a line, one per line, in order.
pub fn found_separate(found: &Vec<Domain>) -> (r: Vec<String>)
    ensures
        string_views(r@) == separate_lines(found@),
{
    let ghost pred = |h: Seq<char>| h.len() <= MAX_LINE;
    let mut out: Vec<String> = Vec::new();
    let mut i: usize = 0;
    assert(hosts_of(found@).take(0).filter(pred) =~= Seq::<Seq<char>>::empty()) by {
        reveal(Seq::filter);
    }
    while i < found.len()
        invariant
            i <= found@.len(),
            string_views(out@) == hosts_of(found@).take(i as int).filter(pred),
            forall|h: Seq<char>| #[trigger] pred(h) == (h.len() <= MAX_LINE),
        decreases found@.len() - i,
    {
        let ghost hs = hosts_of(found@);
        let h = found[i].host();
        assert(hs.take(i + 1) =~= hs.take(i as int).push(h@));
        proof {
            crate::write::lemma_filter_push(hs.take(i as int), h@, pred);
        }
        let ghost before = string_views(out@);
        let c = str_chars(h);
        if c.len() <= MAX_LINE {
            let x = h.to_owned();
            out.push(x);
            assert(string_views(out@) =~= before.push(h@));
        }
        i = i + 1;
    }
    assert(hosts_of(found@).take(found@.len() as int) =~= hosts_of(found@));
    out
}

/// The header of the Adbyss section: the marker and notes with the update
/// time and the number of hosts.
pub open spec fn core_header_text(count: nat, now: Seq<char>) -> Seq<char> {
    "##########\n# ADBYSS #\n##########\n#\n# This section is automatically generated. Any changes you make here will just\n# be removed the next time Adbyss is run.\n#\n# If you have custom host entries to add, place them at the top of this file\n# instead. (Anywhere before the start of this section will do.)\n#\n# Updated: "@
        + now + " UTC\n# Blocked: "@ + nice_text(count as nat) + " garbage hosts\n#\n# Eat the rich.\n#\n##########\n"@
}

/// Each line as a blackhole entry, each on a line of its own after a line
/// break.
pub open spec fn entries_text(lines: Seq<Seq<char>>) -> Seq<char>
    decreases lines.len(),
{
    if lines.len() == 0 {
        Seq::empty()
    } else {
        entries_text(lines.drop_last()) + "\n0.0.0.0 "@ + lines.last()
    }
}

/// The header of the Adbyss section (see [`core_header_text`]).
fn core_header(count: usize, now: &String) -> (r: Vec<char>)
    ensures
        r@ == core_header_text(count as nat, now@),
{
    let mut out = str_chars("##########\n# ADBYSS #\n##########\n#\n# This section is automatically generated. Any changes you make here will just\n# be removed the next time Adbyss is run.\n#\n# If you have custom host entries to add, place them at the top of this file\n# instead. (Anywhere before the start of this section will do.)\n#\n# Updated: ");
    let n = str_chars(now.as_str());
    extend_chars(&mut out, n.as_slice());
    let b = str_chars(" UTC\n# Blocked: ");
    extend_chars(&mut out, b.as_slice());
    let nice = nice_u64(count as u64);
    let c = str_chars(nice.as_str());
    extend_chars(&mut out, c.as_slice());
    let d = str_chars(" garbage hosts\n#\n# Eat the rich.\n#\n##########\n");
    extend_chars(&mut out, d.as_slice());
    out
}

/// Append each line as a blackhole entry (see [`entries_text`]).
fn push_entries(out: &mut Vec<char>, lines: &Vec<String>)
    ensures
        final(out)@ == old(out)@ + entries_text(string_views(lines@)),
{
    let prefix = str_chars("\n0.0.0.0 ");
    let ghost o0 = out@;
    let ghost ls = string_views(lines@);
    let mut i: usize = 0;
    while i < lines.len()
        invariant
            i <= lines@.len(),
            ls == string_views(lines@),
            prefix@ == "\n0.0.0.0 "@,
            out@ == o0 + entries_text(ls.take(i as int)),
        decreases lines@.len() - i,
    {
        extend_chars(out, prefix.as_slice());
        let l = str_chars(lines[i].as_str());
        extend_chars(out, l.as_slice());
        assert(ls.take(i + 1).drop_last() =~= ls.take(i as int));
        assert(ls.take(i + 1).last() == l@);
        i = i + 1;
    }
    assert(ls.take(lines@.len() as int) =~= ls);
}

/// What the builder needs of the hosts file: the user part of it (see
/// [`hostfile_stub`]), and the names the user's own entries point at.
pub struct HostsStub {
    /// # The User Part.
    pub text: String,
    /// # Names of the User's Entries.
    pub custom: Vec<String>,
}

/// # Shitlist.
///
/// The shitlist data from the specified sources. It follows a builder
/// pattern: set it up with the `with_*` methods, then
/// [`build`](Shitlist::build) it. Results are cumulative.
pub struct Shitlist {
    hostfile: String,
    flags: u8,
    exclude: Vec<Domain>,
    regexclude: Option<PatternSet>,
    found: Vec<Domain>,
    out: String,
}

/// Does a pattern set, if any, match the host? (The same test as
/// [`regex_excludes`].)
fn pattern_hit(re: &Option<PatternSet>, host: &str) -> (r: bool)
    ensures
        r == regex_excludes(*re, host@),
{
    match re {
        Some(set) => regex_set_is_match(set, host),
        None => false,
    }
}

impl Shitlist {
    /// The hostfile path.
    pub closed spec fn spec_hostfile(&self) -> Seq<char> {
        self.hostfile@
    }

    /// The flags.
    pub closed spec fn spec_flags(&self) -> u8 {
        self.flags
    }

    /// The excluded domains.
    pub closed spec fn spec_exclude(&self) -> Seq<Domain> {
        self.exclude@
    }

    /// The exclusion patterns.
    pub closed spec fn spec_regexclude(&self) -> Option<PatternSet> {
        self.regexclude
    }

    /// The domains found so far.
    pub closed spec fn spec_found(&self) -> Seq<Domain> {
        self.found@
    }

    /// The compiled output.
    pub closed spec fn spec_out(&self) -> Seq<char> {
        self.out@
    }

    /// The found and excluded domains are well formed, sorted by host, each
    /// host once.
    pub open spec fn wf(&self) -> bool {
        domain_set(self.spec_found()) && domain_set(self.spec_exclude())
    }

    /// Is `h` excluded, by name or by pattern?
    pub open spec fn excludes(&self, h: Seq<char>) -> bool {
        hosts_of(self.spec_exclude()).contains(h) || regex_excludes(self.spec_regexclude(), h)
    }

    /// The lines of the output: one host per line, or compact when the
    /// flags say so.
    pub open spec fn out_lines(&self, l: Seq<Seq<char>>) -> bool {
        if self.spec_flags() & FLAG_COMPACT == 0 {
            l == separate_lines(self.spec_found())
        } else {
            strictly_sorted(l) && forall|x: Seq<char>| #[trigger] l.contains(x) <==> is_compact_line(
                self.spec_found(),
                x,
            )
        }
    }

    /// Is `out` the output for the user part `stub` of the hosts file: the
    /// stub, a line break, the header and the entries?
    pub open spec fn is_output(&self, stub: Seq<char>, out: Seq<char>) -> bool {
        exists|now: Seq<char>, lines: Seq<Seq<char>>|
            #![trigger self.out_lines(lines), core_header_text(self.spec_found().len(), now)]
            now.len() == 19 && self.out_lines(lines) && out == stub.push('\n') + core_header_text(
                self.spec_found().len(),
                now,
            ) + entries_text(lines) + seq!['\n']
    }
}

impl Default for Shitlist {
    /// An empty builder for `/etc/hosts` with no flags.
    fn default() -> (r: Self)
        ensures
            r.wf(),
            r.spec_hostfile() == DEFAULT_HOSTFILE@,
            r.spec_flags() == 0,
            r.spec_exclude().len() == 0,
            r.spec_regexclude() is None,
            r.spec_found().len() == 0,
            r.spec_out().len() == 0,
    {
        let r = Shitlist {
            hostfile: DEFAULT_HOSTFILE.to_owned(),
            flags: 0,
            exclude: Vec::new(),
            regexclude: None,
            found: Vec::new(),
            out: String::new(),
        };
        proof {
            crate::text::lemma_lex_irreflexive(Seq::empty());
        }
        r
    }
}

/// # Builder methods.
impl Shitlist {
    /// # With Flags.
    ///
    /// Enable one or more flags.
    pub fn with_flags(self, flags: u8) -> (r: Self)
        ensures
            r.spec_flags() == self.spec_flags() | flags,
            r.spec_hostfile() == self.spec_hostfile(),
            r.spec_exclude() == self.spec_exclude(),
            r.spec_regexclude() == self.spec_regexclude(),
            r.spec_found() == self.spec_found(),
            r.spec_out() == self.spec_out(),
    {
        let mut s = self;
        s.set_flags(flags);
        s
    }

    /// # With Hostfile.
    ///
    /// Use a hostfile other than `/etc/hosts`, given by its canonical path.
    /// Anything before the Adbyss section of it is kept.
    pub fn with_hostfile(self, src: String) -> (r: Self)
        ensures
            r.spec_hostfile() == src@,
            r.spec_flags() == self.spec_flags(),
            r.spec_exclude() == self.spec_exclude(),
            r.spec_regexclude() == self.spec_regexclude(),
            r.spec_found() == self.spec_found(),
            r.spec_out() == self.spec_out(),
    {
        let mut s = self;
        s.set_hostfile(src);
        s
    }

    /// # With Manual Entries.
    ///
    /// Add arbitrary domains to the shitlist (see [`Shitlist::include_hosts`]).
    pub fn with(self, extras: &Vec<String>, stub: &Option<HostsStub>) -> (r: Self)
        requires
            self.wf(),
        ensures
            r.wf(),
            r.spec_hostfile() == self.spec_hostfile(),
            r.spec_flags() == self.spec_flags(),
            r.spec_regexclude() == self.spec_regexclude(),
            stub is None ==> r.spec_out().len() == 0 && r.spec_exclude() == self.spec_exclude() && forall|h: Seq<char>|
                #[trigger] hosts_of(r.spec_found()).contains(h) <==> (hosts_of(self.spec_found()).contains(h)
                    || names_give(string_views(extras@), h)),
            stub matches Some(st) ==> r.built_from(
                self.spec_found(),
                |h: Seq<char>| names_give(string_views(extras@), h),
                self.spec_exclude(),
                *st,
            ),
    {
        let mut s = self;
        s.include_hosts(extras, stub);
        s
    }

    /// # Exclude Entries.
    ///
    /// Exclude arbitrary domains from the shitlist (see
    /// [`Shitlist::exclude`]).
    pub fn without(self, excludes: &Vec<String>) -> (r: Self)
        requires
            self.wf(),
        ensures
            r.wf(),
            r.spec_hostfile() == self.spec_hostfile(),
            r.spec_flags() == self.spec_flags(),
            r.spec_regexclude() == self.spec_regexclude(),
            r.spec_found() == self.spec_found(),
            r.spec_out() == self.spec_out(),
            forall|h: Seq<char>| #[trigger] hosts_of(r.spec_exclude()).contains(h) <==> (hosts_of(
                self.spec_exclude(),
            ).contains(h) || names_give(string_views(excludes@), h)),
    {
        let mut s = self;
        s.exclude(excludes);
        s
    }

    /// # Exclude Entries (Patterns).
    ///
    /// Replace the exclusion patterns (see [`Shitlist::regexclude`]).
    pub fn without_regex(self, patterns: &Vec<String>) -> (r: Self)
        ensures
            r.spec_hostfile() == self.spec_hostfile(),
            r.spec_flags() == self.spec_flags(),
            r.spec_exclude() == self.spec_exclude(),
            r.spec_found() == self.spec_found(),
            r.spec_out() == self.spec_out(),
            match r.spec_regexclude() {
                Some(set) => regex_set_builds(string_views(patterns@)) && patterns@.len() > 0
                    && set@ == string_views(patterns@),
                None => !regex_set_builds(string_views(patterns@)) || patterns@.len() == 0,
            },
    {
        let mut s = self;
        s.regexclude(patterns);
        s
    }
}

/// # Setters.
impl Shitlist {
    /// # Disable Flags.
    pub fn disable_flags(&mut self, flags: u8)
        ensures
            final(self).spec_flags() == old(self).spec_flags() & !flags,
            final(self).spec_hostfile() == old(self).spec_hostfile(),
            final(self).spec_exclude() == old(self).spec_exclude(),
            final(self).spec_regexclude() == old(self).spec_regexclude(),
            final(self).spec_found() == old(self).spec_found(),
            final(self).spec_out() == old(self).spec_out(),
    {
        self.flags = self.flags & !flags;
    }

    /// # Set Flags.
    pub fn set_flags(&mut self, flags: u8)
        ensures
            final(self).spec_flags() == old(self).spec_flags() | flags,
            final(self).spec_hostfile() == old(self).spec_hostfile(),
            final(self).spec_exclude() == old(self).spec_exclude(),
            final(self).spec_regexclude() == old(self).spec_regexclude(),
            final(self).spec_found() == old(self).spec_found(),
            final(self).spec_out() == old(self).spec_out(),
    {
        self.flags = self.flags | flags;
    }

    /// # Set Hostfile.
    ///
    /// Use a hostfile other than `/etc/hosts`, given by its canonical path.
    pub fn set_hostfile(&mut self, src: String)
        ensures
            final(self).spec_hostfile() == src@,
            final(self).spec_flags() == old(self).spec_flags(),
            final(self).spec_exclude() == old(self).spec_exclude(),
            final(self).spec_regexclude() == old(self).spec_regexclude(),
            final(self).spec_found() == old(self).spec_found(),
            final(self).spec_out() == old(self).spec_out(),
    {
        self.hostfile = src;
    }

    /// # Exclude Entries.
    ///
    /// Add the domains that `excludes` parse to to the exclusions; the rest
    /// are ignored.
    pub fn exclude(&mut self, excludes: &Vec<String>)
        requires
            old(self).wf(),
        ensures
            final(self).wf(),
            final(self).spec_hostfile() == old(self).spec_hostfile(),
            final(self).spec_flags() == old(self).spec_flags(),
            final(self).spec_regexclude() == old(self).spec_regexclude(),
            final(self).spec_found() == old(self).spec_found(),
            final(self).spec_out() == old(self).spec_out(),
            forall|h: Seq<char>| #[trigger] hosts_of(final(self).spec_exclude()).contains(h) <==> (hosts_of(
                old(self).spec_exclude(),
            ).contains(h) || names_give(string_views(excludes@), h)),
    {
        let extra = parse_names(excludes);
        let mut cur: Vec<Domain> = Vec::new();
        std::mem::swap(&mut cur, &mut self.exclude);
        self.exclude = merge_domains(cur, extra);
    }

    /// # Exclude Entries (Patterns).
    ///
    /// Replace the exclusion patterns. Patterns that do not compile, or no
    /// patterns at all, leave none.
    pub fn regexclude(&mut self, patterns: &Vec<String>)
        ensures
            final(self).spec_hostfile() == old(self).spec_hostfile(),
            final(self).spec_flags() == old(self).spec_flags(),
            final(self).spec_exclude() == old(self).spec_exclude(),
            final(self).spec_found() == old(self).spec_found(),
            final(self).spec_out() == old(self).spec_out(),
            match final(self).spec_regexclude() {
                Some(set) => regex_set_builds(string_views(patterns@)) && patterns@.len() > 0
                    && set@ == string_views(patterns@),
                None => !regex_set_builds(string_views(patterns@)) || patterns@.len() == 0,
            },
    {
        self.regexclude = match regex_set_new(patterns) {
            Ok(set) => {
                if regex_set_is_empty(&set) {
                    None
                } else {
                    Some(set)
                }
            },
            Err(_) => None,
        };
    }
}

/// Keep the domains that are neither excluded by name (`ex`, keyed hosts)
/// nor matched by the patterns.
fn retain_unexcluded(ds: Vec<Domain>, ex: &Vec<(Vec<char>, ())>, re: &Option<PatternSet>) -> (r: Vec<Domain>)
    requires
        all_ok(ds@),
        strictly_sorted(keys_of(ex@)),
    ensures
        domain_set(r@),
        forall|h: Seq<char>| #[trigger] hosts_of(r@).contains(h) <==> (hosts_of(ds@).contains(h)
            && !keys_of(ex@).contains(h) && !regex_excludes(*re, h)),
{
    let ghost d0 = ds@;
    let kd = keyed(ds);
    let ghost kv = kd@;
    let mut rev = crate::sort::reverse_vec(kd);
    let mut kept: Vec<(Vec<char>, Domain)> = Vec::new();
    let ghost n = kv.len();
    while rev.len() > 0
        invariant
            rev@.len() <= n,
            n == kv.len(),
            keys_of(kv) == hosts_of(d0),
            strictly_sorted(keys_of(ex@)),
            forall|j: int| 0 <= j < kv.len() ==> (#[trigger] kv[j]).0@ == kv[j].1@ && kv[j].1.wf(),
            forall|j: int| 0 <= j < rev@.len() ==> rev@[j] == kv[n - 1 - j],
            forall|j: int| 0 <= j < kept@.len() ==> (#[trigger] kept@[j]).0@ == kept@[j].1@ && kept@[j].1.wf(),
            forall|h: Seq<char>| #[trigger] keys_of(kept@).contains(h) <==> (keys_of(kv.take(n - rev@.len())).contains(h)
                && !keys_of(ex@).contains(h) && !regex_excludes(*re, h)),
        decreases rev@.len(),
    {
        let ghost i = n - rev@.len();
        let ghost k0 = kept@;
        let (k, d) = rev.pop().unwrap();
        assert((k, d) == kv[i]);
        assert(kv.take(i + 1) =~= kv.take(i).push(kv[i]));
        assert(keys_of(kv.take(i + 1)) =~= keys_of(kv.take(i)).push(k@));
        let hit = contains_key(ex, k.as_slice()) || pattern_hit(re, d.host());
        if !hit {
            let ghost x = (k, d);
            kept.push((k, d));
            proof {
                assert forall|h: Seq<char>| #[trigger] keys_of(kept@).contains(h) <==> (keys_of(kv.take(i + 1)).contains(h)
                    && !keys_of(ex@).contains(h) && !regex_excludes(*re, h)) by {
                    lemma_keys_push(k0, x, h);
                    lemma_seq_push_contains(keys_of(kv.take(i)), k@, h);
                }
            }
        } else {
            proof {
                assert forall|h: Seq<char>| #[trigger] keys_of(kept@).contains(h) <==> (keys_of(kv.take(i + 1)).contains(h)
                    && !keys_of(ex@).contains(h) && !regex_excludes(*re, h)) by {
                    lemma_seq_push_contains(keys_of(kv.take(i)), k@, h);
                }
            }
        }
    }
    assert(kv.take(n as int) =~= kv);
    domains_of_pairs(kept)
}

impl Shitlist {
    /// Is this the state `build_out` leaves, from the found domains `found0`
    /// and the excluded ones `exclude0`, for the hosts file `st`? The names
    /// of the user's own entries join the exclusions; the `www.`-less twins
    /// of found domains join them; whatever is excluded leaves; the output
    /// is compiled anew.
    pub open spec fn rebuilt(&self, found0: Seq<Domain>, exclude0: Seq<Domain>, st: HostsStub) -> bool {
        &&& forall|h: Seq<char>| #[trigger] hosts_of(self.spec_exclude()).contains(h) <==> (hosts_of(
            exclude0,
        ).contains(h) || names_give(string_views(st.custom@), h))
        &&& forall|h: Seq<char>| #[trigger] hosts_of(self.spec_found()).contains(h) <==> ((hosts_of(
            found0,
        ).contains(h) || www_stripped(found0, h)) && !self.excludes(h))
        &&& self.is_output(st.text@, self.spec_out())
    }

    /// Is this what [`Shitlist::include_hosts`] (or [`Shitlist::build`])
    /// leaves, from the found domains `found0`, with the extra hosts `more`
    /// added first?
    pub open spec fn built_from(
        &self,
        found0: Seq<Domain>,
        more: spec_fn(Seq<char>) -> bool,
        exclude0: Seq<Domain>,
        st: HostsStub,
    ) -> bool {
        exists|found1: Seq<Domain>|
            #![trigger self.rebuilt(found1, exclude0, st)]
            domain_set(found1) && (forall|h: Seq<char>| #[trigger] hosts_of(found1).contains(h) <==> (hosts_of(
                found0,
            ).contains(h) || more(h))) && self.rebuilt(found1, exclude0, st)
    }

    /// # Compile Output.
    ///
    /// The new hosts file: the user part of the current one, then the
    /// Adbyss section. The names of the user's own entries join the
    /// exclusions, `www.`-less twins join the found domains, and excluded
    /// domains leave them. Without the hosts file the output stays empty
    /// and a read error is returned.
    fn build_out(&mut self, stub: &Option<HostsStub>) -> (r: Result<(), AdbyssError>)
        requires
            old(self).wf(),
        ensures
            final(self).wf(),
            final(self).spec_hostfile() == old(self).spec_hostfile(),
            final(self).spec_flags() == old(self).spec_flags(),
            final(self).spec_regexclude() == old(self).spec_regexclude(),
            stub is None ==> final(self).spec_out().len() == 0 && final(self).spec_found() == old(self).spec_found()
                && final(self).spec_exclude() == old(self).spec_exclude(),
            stub is None ==> (r matches Err(AdbyssError::Read(p)) && p@ == old(self).spec_hostfile()),
            stub matches Some(st) ==> r is Ok && final(self).rebuilt(old(self).spec_found(), old(self).spec_exclude(), *st),
    {
        self.out = String::new();
        match stub {
            None => Err(AdbyssError::Read(self.hostfile.clone())),
            Some(st) => {
                let ghost f0 = self.found@;
                let ghost e0 = self.exclude@;
                let custom = parse_names(&st.custom);
                let mut cur: Vec<Domain> = Vec::new();
                std::mem::swap(&mut cur, &mut self.exclude);
                self.exclude = merge_domains(cur, custom);
                let twins = www_twins(&self.found);
                let mut fo: Vec<Domain> = Vec::new();
                std::mem::swap(&mut fo, &mut self.found);
                let grown = merge_domains(fo, twins);
                let ex = keyed_hosts(&self.exclude);
                let kept = retain_unexcluded(grown, &ex, &self.regexclude);
                self.found = kept;
                let now = utc_now();
                let mut text = str_chars(st.text.as_str());
                text.push('\n');
                let header = core_header(self.found.len(), &now);
                extend_chars(&mut text, header.as_slice());
                let lines = if self.flags & FLAG_COMPACT == 0 {
                    found_separate(&self.found)
                } else {
                    found_compact(&self.found)
                };
                push_entries(&mut text, &lines);
                text.push('\n');
                self.out = chars_to_string(text.as_slice());
                proof {
                    assert(self.out_lines(string_views(lines@)));
                    assert(self.out@ =~= st.text@.push('\n') + core_header_text(self.found@.len(), now@)
                        + entries_text(string_views(lines@)) + seq!['\n']);
                    assert(self.is_output(st.text@, self.out@));
                }
                Ok(())
            },
        }
    }

    /// # Set Manual Entries.
    ///
    /// Add the domains that `extras` parse to to the shitlist (the rest are
    /// ignored), and compile the output anew; if the hosts file is missing,
    /// the output is left empty.
    pub fn include_hosts(&mut self, extras: &Vec<String>, stub: &Option<HostsStub>)
        requires
            old(self).wf(),
        ensures
            final(self).wf(),
            final(self).spec_hostfile() == old(self).spec_hostfile(),
            final(self).spec_flags() == old(self).spec_flags(),
            final(self).spec_regexclude() == old(self).spec_regexclude(),
            stub is None ==> final(self).spec_out().len() == 0 && final(self).spec_exclude() == old(self).spec_exclude()
                && forall|h: Seq<char>| #[trigger] hosts_of(final(self).spec_found()).contains(h) <==> (hosts_of(
                old(self).spec_found(),
            ).contains(h) || names_give(string_views(extras@), h)),
            stub matches Some(st) ==> final(self).built_from(
                old(self).spec_found(),
                |h: Seq<char>| names_give(string_views(extras@), h),
                old(self).spec_exclude(),
                *st,
            ),
    {
        let extra = parse_names(extras);
        let mut cur: Vec<Domain> = Vec::new();
        std::mem::swap(&mut cur, &mut self.found);
        self.found = merge_domains(cur, extra);
        let ghost f1 = self.found@;
        let _res = self.build_out(stub);
        proof {
            if let Some(st) = stub {
                assert(self.rebuilt(f1, old(self).spec_exclude(), *st));
            }
        }
    }
}

impl Shitlist {
    /// # Build.
    ///
    /// Turn the fetched data of the sources the flags enable into domains
    /// (see [`Source::fetch_many`]), add them, and compile the output. A
    /// failed fetch gives its error, a missing hosts file a read error.
    pub fn build(self, fetched: &Vec<(Source, Result<String, AdbyssError>)>, stub: &Option<HostsStub>) -> (r: Result<
        Self,
        AdbyssError,
    >)
        requires
            self.wf(),
        ensures
            !fetches_ok(self.spec_flags(), fetched@) ==> (r matches Err(e) && first_fetch_error(
                self.spec_flags(),
                fetched@,
                e,
            )),
            fetches_ok(self.spec_flags(), fetched@) && stub is None ==> (r matches Err(AdbyssError::Read(p))
                && p@ == self.spec_hostfile()),
            fetches_ok(self.spec_flags(), fetched@) && stub is Some ==> r is Ok,
            r matches Ok(s) ==> s.wf() && s.spec_hostfile() == self.spec_hostfile() && s.spec_flags()
                == self.spec_flags() && s.spec_regexclude() == self.spec_regexclude() && (stub matches Some(st)
                && s.built_from(
                self.spec_found(),
                |h: Seq<char>| fetched_yields(self.spec_flags(), fetched@, h),
                self.spec_exclude(),
                *st,
            )),
    {
        let mut s = self;
        match Source::fetch_many(s.flags, fetched) {
            Err(e) => Err(e),
            Ok(ds) => {
                proof {
                    assert(all_ok(ds@));
                }
                let mut cur: Vec<Domain> = Vec::new();
                std::mem::swap(&mut cur, &mut s.found);
                s.found = merge_domains(cur, ds);
                let ghost f1 = s.found@;
                match s.build_out(stub) {
                    Err(e) => Err(e),
                    Ok(()) => {
                        proof {
                            if let Some(st) = stub {
                                assert(s.rebuilt(f1, self.spec_exclude(), *st));
                            }
                        }
                        Ok(s)
                    },
                }
            },
        }
    }
}

/// # Conversion.
impl Shitlist {
    /// # As Str.
    ///
    /// The output.
    pub fn as_str(&self) -> (r: &str)
        ensures
            r@ == self.spec_out(),
    {
        self.out.as_str()
    }

    /// # As Bytes.
    ///
    /// The output, UTF-8 encoded.
    pub fn as_bytes(&self) -> (r: &[u8])
        ensures
            r@ == vstd::utf8::encode_utf8(self.spec_out()),
    {
        self.out.as_str().as_bytes()
    }

    /// # Take Found.
    ///
    /// Consume the builder and return the hosts found that fit on a line,
    /// sorted.
    pub fn into_vec(self) -> (r: Vec<String>)
        ensures
            string_views(r@) == separate_lines(self.spec_found()),
    {
        found_separate(&self.found)
    }
}

/// # Details.
impl Shitlist {
    /// # Is Empty.
    ///
    /// Have no hosts been found?
    pub fn is_empty(&self) -> (r: bool)
        ensures
            r == (self.spec_found().len() == 0),
    {
        self.found.len() == 0
    }

    /// # Length.
    ///
    /// The number of hosts found.
    pub fn len(&self) -> (r: usize)
        ensures
            r == self.spec_found().len(),
    {
        self.found.len()
    }

    /// # Hostfile.
    ///
    /// The path of the hosts file read and written.
    pub fn hostfile(&self) -> (r: &str)
        ensures
            r@ == self.spec_hostfile(),
    {
        self.hostfile.as_str()
    }

    /// # Needs Confirmation?
    ///
    /// Writes ask first unless the non-interactive flag is set.
    pub fn needs_confirmation(&self) -> (r: bool)
        ensures
            r == (self.spec_flags() & FLAG_Y == 0),
    {
        self.flags & FLAG_Y == 0
    }

    /// # Backs Up?
    ///
    /// An existing file is copied before it is written when the backup flag
    /// is set.
    pub fn backs_up(&self) -> (r: bool)
        ensures
            r == (self.spec_flags() & FLAG_BACKUP != 0),
    {
        self.flags & FLAG_BACKUP != 0
    }
}

} // verus!
