//! The Adbyss section of a hosts file: rendering, pruning, and removal.
use vstd::prelude::*;
use crate::outside::{nice_u64, string_try_reserve, utc_now};
use crate::text::nice_text;
use crate::psl::{hosts_of, Domain, SuffixTable};
use crate::sort::{contains_key, find_key, keys_of, reverse_vec, sort_dedup};
use crate::sources::line_yields;
use crate::text::{
    before_char, before_char_exec, chars_to_string, extend_chars, find_seq, find_sub,
    lemma_find_from, lemma_lex_irreflexive, lemma_sorted_unique, lex_lt, split_str_lines_chars,
    is_nice_char, is_stamp_char, split_words, str_chars, str_lines, strictly_sorted, string_views,
    sub_chars, trim, trim_chars, trim_end, trim_end_chars, views, words,
};
use crate::MAX_LINE;

verus! {

broadcast use vstd::string::group_string_axioms;

/// # Start Marker.
pub const MARKER_START: &'static str = "##########\n# ADBYSS #\n##########";

/// # End Marker.
pub const MARKER_END: &'static str = "## End of Adbyss Rules ##\n";

/// The address every blackholed host is sent to, with its separator.
pub const BLACKHOLE: &'static str = "0.0.0.0 ";

/// The blackhole address alone.
pub const BLACKHOLE_ADDR: &'static str = "0.0.0.0";

/// # Shitlist.
pub enum Shitlist {
    /// # Flat List: One Domain Per Line.
    Flat(Vec<Domain>),
    /// # Compact List: Grouped by TLD.
    Compact(Vec<Domain>),
}

/// The TLD of a domain: its root, a dot and its suffix.
pub open spec fn tld_of(d: Domain) -> Seq<char> {
    d@.skip(d.spec_root_start())
}

/// Every domain is well formed.
pub open spec fn all_wf(list: Seq<Domain>) -> bool {
    forall|i: int| 0 <= i < list.len() ==> (#[trigger] list[i]).wf()
}

/// One line per domain.
pub open spec fn flat_text(list: Seq<Domain>) -> Seq<char>
    decreases list.len(),
{
    if list.len() == 0 {
        Seq::empty()
    } else {
        flat_text(list.drop_last()) + BLACKHOLE@ + list.last()@ + seq!['\n']
    }
}

/// The rest of a compact group's text, the current line being `line_len`
/// long: hosts join the line while it stays within [`MAX_LINE`], otherwise
/// they start a new one.
pub open spec fn pack(ms: Seq<Domain>, line_len: int) -> Seq<char>
    decreases ms.len(),
{
    if ms.len() == 0 {
        Seq::empty()
    } else {
        let m = ms[0];
        let n = line_len + m@.len() + 1;
        if n <= MAX_LINE {
            seq![' '] + m@ + pack(ms.drop_first(), n)
        } else {
            seq!['\n'] + BLACKHOLE@ + m@ + pack(ms.drop_first(), m@.len() + 1int)
        }
    }
}

/// The text of one compact group.
pub open spec fn group_text(ms: Seq<Domain>) -> Seq<char> {
    BLACKHOLE_ADDR@ + pack(ms, 0) + seq!['\n']
}

/// The domains of `list` with the TLD `t`, in order.
pub open spec fn members(list: Seq<Domain>, t: Seq<char>) -> Seq<Domain> {
    list.filter(|d: Domain| tld_of(d) == t)
}

/// The groups for the TLDs `tlds`, in order.
pub open spec fn compact_text(list: Seq<Domain>, tlds: Seq<Seq<char>>) -> Seq<char>
    decreases tlds.len(),
{
    if tlds.len() == 0 {
        Seq::empty()
    } else {
        compact_text(list, tlds.drop_last()) + group_text(members(list, tlds.last()))
    }
}

/// `tlds` is the sorted list of the distinct TLDs in `list`.
pub open spec fn is_tld_index(list: Seq<Domain>, tlds: Seq<Seq<char>>) -> bool {
    &&& strictly_sorted(tlds)
    &&& forall|t: Seq<char>|
        tlds.contains(t) <==> exists|i: int| 0 <= i < list.len() && #[trigger] tld_of(list[i]) == t
}

/// The distinct TLDs of a list, sorted, are unique.
pub proof fn lemma_tld_index_unique(list: Seq<Domain>, a: Seq<Seq<char>>, b: Seq<Seq<char>>)
    requires
        is_tld_index(list, a),
        is_tld_index(list, b),
    ensures
        a == b,
{
    lemma_sorted_unique(a, b);
}

/// Is `r` what a list prints as? Flat: [`flat_text`]. Compact:
/// [`compact_text`] over the sorted distinct TLDs (unique, by
/// [`lemma_tld_index_unique`]).
pub open spec fn renders_list(compact: bool, list: Seq<Domain>, r: Seq<char>) -> bool {
    if compact {
        exists|tlds: Seq<Seq<char>>| is_tld_index(list, tlds) && r == compact_text(list, tlds)
    } else {
        r == flat_text(list)
    }
}

/// Every character is a digit or a comma.
pub open spec fn all_nice(s: Seq<char>) -> bool {
    forall|i: int| 0 <= i < s.len() ==> is_nice_char(#[trigger] s[i])
}

/// Every character is one of a time stamp.
pub open spec fn all_stamp(s: Seq<char>) -> bool {
    forall|i: int| 0 <= i < s.len() ==> is_stamp_char(#[trigger] s[i])
}

/// The hosts file made of the user part `s` and a section: a line break,
/// the header for `n` hosts at the time `now`, a line break, the rendered
/// list `body`, a line break and the end marker.
pub open spec fn written(s: Seq<char>, n: nat, now: Seq<char>, body: Seq<char>) -> Seq<char> {
    s + seq!['\n'] + header_text(n, now) + seq!['\n'] + body + seq!['\n'] + MARKER_END@
}

/// Is `t` what appending the section for `list` (compact or flat) to `s`
/// makes, at some time?
pub open spec fn appended(s: Seq<char>, compact: bool, list: Seq<Domain>, t: Seq<char>) -> bool {
    &&& list.len() > 0 ==> all_nice(nice_text(list.len() as nat))
    &&& exists|now: Seq<char>, body: Seq<char>|
        #![trigger written(s, list.len(), now, body), renders_list(compact, list, body)]
        now.len() == 19 && all_stamp(now) && renders_list(compact, list, body) && t == written(
            s,
            list.len(),
            now,
            body,
        )
}

/// The section header: the start marker, and, for a non-empty list, notes
/// with the update time and the number of hosts.
pub open spec fn header_text(count: nat, now: Seq<char>) -> Seq<char> {
    if count == 0 {
        MARKER_START@ + seq!['\n']
    } else {
        MARKER_START@ + "\n#\n# This section is automatically generated. Don't make any changes here or\n# they'll just get blown away the next time Adbyss is run.\n#\n# If you have custom host entries, add them before or after this section.\n#\n# Updated: "@
            + now + " UTC\n# Blocked: "@ + nice_text(count as nat)
            + " garbage hosts\n#\n# Eat the rich.\n#\n##########\n"@
    }
}

/// The bytes [`Shitlist::estimate_byte_len`] reserves for a list.
pub open spec fn byte_estimate(list: Seq<Domain>) -> int
    decreases list.len(),
{
    if list.len() == 0 {
        400
    } else {
        byte_estimate(list.drop_last()) + list.last()@.len() + 9
    }
}

/// Does some name parse to the host `h`?
pub open spec fn names_yield(names: Seq<String>, h: Seq<char>) -> bool {
    exists|i: int| 0 <= i < names.len() && line_yields(#[trigger] names[i]@, h)
}

/// Filtering a sequence with one more item at its end gives the filtered
/// sequence, with that item at its end where it passes the filter.
pub proof fn lemma_filter_push<A>(s: Seq<A>, x: A, pred: spec_fn(A) -> bool)
    ensures
        s.push(x).filter(pred) == if pred(x) {
            s.filter(pred).push(x)
        } else {
            s.filter(pred)
        },
{
    reveal(Seq::filter);
    assert(s.push(x).drop_last() =~= s);
}

impl Shitlist {
    /// The domains.
    pub open spec fn list(&self) -> Seq<Domain> {
        match self {
            Shitlist::Flat(v) => v@,
            Shitlist::Compact(v) => v@,
        }
    }

    /// Is this the compact form?
    pub open spec fn is_compact(&self) -> bool {
        self is Compact
    }

    /// Is `r` what the list prints as? See [`renders_list`].
    pub open spec fn renders(&self, r: Seq<char>) -> bool {
        renders_list(self.is_compact(), self.list(), r)
    }

    /// # Into Vec.
    ///
    /// Return the inner domain list. Note this is always "flat".
    pub fn into_vec(self) -> (r: Vec<Domain>)
        ensures
            r@ == self.list(),
    {
        match self {
            Shitlist::Flat(s) => s,
            Shitlist::Compact(s) => s,
        }
    }

    /// # Length.
    pub fn len(&self) -> (r: usize)
        ensures
            r == self.list().len(),
    {
        match self {
            Shitlist::Flat(s) => s.len(),
            Shitlist::Compact(s) => s.len(),
        }
    }

    /// # Estimate Write Length.
    ///
    /// The approximate number of bytes required to write all the entries:
    /// 400 for the header, plus each host and nine more for its line; a sum
    /// beyond `usize::MAX` counts as `usize::MAX`.
    pub fn estimate_byte_len(&self) -> (r: usize)
        ensures
            r == if byte_estimate(self.list()) <= usize::MAX {
                byte_estimate(self.list())
            } else {
                usize::MAX as int
            },
    {
        let raw: &Vec<Domain> = match self {
            Shitlist::Flat(s) => s,
            Shitlist::Compact(s) => s,
        };
        let mut acc: usize = 400;
        let mut i: usize = 0;
        while i < raw.len()
            invariant
                i <= raw@.len(),
                raw@ == self.list(),
                acc == if byte_estimate(raw@.take(i as int)) <= usize::MAX {
                    byte_estimate(raw@.take(i as int))
                } else {
                    usize::MAX as int
                },
            decreases raw@.len() - i,
        {
            assert(raw@.take(i + 1).drop_last() =~= raw@.take(i as int));
            assert(raw@.take(i + 1).last() == raw@[i as int]);
            let len = raw[i].host().unicode_len();
            if len <= usize::MAX - 9 && acc <= usize::MAX - 9 - len {
                acc = acc + len + 9;
            } else {
                acc = usize::MAX;
            }
            i = i + 1;
        }
        assert(raw@.take(raw@.len() as int) =~= raw@);
        acc
    }

    /// # Prune Hosts.
    ///
    /// Remove every domain that one of `names` parses to. The order of the
    /// rest is kept.
    pub fn prune_hosts(&mut self, names: &Vec<String>)
        ensures
            final(self).is_compact() == old(self).is_compact(),
            final(self).list() == old(self).list().filter(|d: Domain| !names_yield(names@, d@)),
    {
        let table = SuffixTable::builtin();
        let mut found: Vec<(Vec<char>, ())> = Vec::new();
        let mut i: usize = 0;
        while i < names.len()
            invariant
                i <= names@.len(),
                table.wf(),
                table@ == crate::psl::builtin_rules(),
                forall|h: Seq<char>|
                    #[trigger] keys_of(found@).contains(h) <==> names_yield(names@.take(i as int), h),
            decreases names@.len() - i,
        {
            let ghost f0 = found@;
            let ghost n = names@[i as int];
            assert(names@.take(i + 1) =~= names@.take(i as int).push(n));
            match Domain::parse_with(&table, names[i].as_str()) {
                Some(d) => {
                    let key = str_chars(d.host());
                    found.push((key, ()));
                },
                None => {},
            }
            proof {
                assert forall|h: Seq<char>|
                    #[trigger] keys_of(found@).contains(h) <==> names_yield(names@.take(i + 1), h) by {
                    lemma_names_yield_push(names@.take(i as int), n, h);
                    if keys_of(found@).contains(h) {
                        let j = choose|j: int| 0 <= j < keys_of(found@).len() && keys_of(found@)[j] == h;
                        if j < f0.len() {
                            assert(keys_of(f0)[j] == h);
                        }
                    }
                    if keys_of(f0).contains(h) {
                        let j = choose|j: int| 0 <= j < keys_of(f0).len() && keys_of(f0)[j] == h;
                        assert(keys_of(found@)[j] == h);
                    }
                    if line_yields(n@, h) {
                        assert(keys_of(found@)[f0.len() as int] == h);
                    }
                }
            }
            i = i + 1;
        }
        assert(names@.take(names@.len() as int) =~= names@);
        let set = sort_dedup(found);
        let ghost pred = |d: Domain| !names_yield(names@, d@);
        let v: &mut Vec<Domain> = match self {
            Shitlist::Flat(s) => s,
            Shitlist::Compact(s) => s,
        };
        let mut old: Vec<Domain> = Vec::new();
        std::mem::swap(&mut old, v);
        let ghost o = old@;
        let mut rev = reverse_vec(old);
        assert(v@ =~= o.take(0).filter(pred)) by {
            reveal(Seq::filter);
        }
        while rev.len() > 0
            invariant
                rev@.len() <= o.len(),
                forall|j: int| 0 <= j < rev@.len() ==> rev@[j] == o[o.len() - 1 - j],
                v@ == o.take(o.len() - rev@.len()).filter(pred),
                forall|x: Domain| #[trigger] pred(x) == !names_yield(names@, x@),
                strictly_sorted(keys_of(set@)),
                forall|h: Seq<char>| #[trigger] keys_of(set@).contains(h) <==> names_yield(names@, h),
            decreases rev@.len(),
        {
            let ghost k = o.len() - rev@.len();
            let d = rev.pop().unwrap();
            assert(d == o[k]);
            assert(o.take(k + 1) =~= o.take(k).push(d));
            proof {
                lemma_filter_push(o.take(k), d, pred);
            }
            let key = str_chars(d.host());
            let hit = contains_key(&set, key.as_slice());
            assert(hit == !pred(d));
            if !hit {
                v.push(d);
            }
        }
        assert(o.take(o.len() as int) =~= o);
    }

    /// # Render.
    ///
    /// The list as hosts-file lines. Flat: one `0.0.0.0 host` line per
    /// domain. Compact: one group per TLD, in TLD order, holding that TLD's
    /// hosts in list order on `0.0.0.0` lines of at most [`MAX_LINE`]
    /// characters (a longer host gets a line of its own).
    pub fn render(&self) -> (r: String)
        requires
            all_wf(self.list()),
            forall|i: int| 0 <= i < self.list().len() ==> (#[trigger] self.list()[i])@.len() < usize::MAX,
        ensures
            self.renders(r@),
    {
        match self {
            Shitlist::Flat(list) => {
                let mut out: Vec<char> = Vec::new();
                let bh = str_chars(BLACKHOLE);
                let mut i: usize = 0;
                while i < list.len()
                    invariant
                        i <= list@.len(),
                        bh@ == BLACKHOLE@,
                        out@ == flat_text(list@.take(i as int)),
                    decreases list@.len() - i,
                {
                    assert(list@.take(i + 1).drop_last() =~= list@.take(i as int));
                    let h = str_chars(list[i].host());
                    extend_chars(&mut out, bh.as_slice());
                    extend_chars(&mut out, h.as_slice());
                    out.push('\n');
                    i = i + 1;
                }
                assert(list@.take(list@.len() as int) =~= list@);
                chars_to_string(out.as_slice())
            },
            Shitlist::Compact(list) => {
                let (tlds, groups) = group_by_tld(list);
                let out = render_groups(list, &tlds, &groups);
                assert(is_tld_index(list@, keys_of(tlds@)));
                chars_to_string(out.as_slice())
            },
        }
    }

    /// # Append to String.
    ///
    /// Append the section header, the list and the end marker to `hosts`.
    /// If room for them cannot be reserved, `hosts` is left alone and an
    /// error returned.
    pub fn append(&self, hosts: &mut String) -> (r: Result<(), core::fmt::Error>)
        requires
            all_wf(self.list()),
            forall|i: int| 0 <= i < self.list().len() ==> (#[trigger] self.list()[i])@.len() < usize::MAX,
        ensures
            r is Err ==> final(hosts)@ == old(hosts)@,
            r is Ok ==> appended(old(hosts)@, self.is_compact(), self.list(), final(hosts)@),
    {
        let need = self.estimate_byte_len();
        match string_try_reserve(hosts, need) {
            Err(e) => {
                return Err(e);
            },
            Ok(()) => {},
        }
        let now = utc_now();
        let header = header(self.len(), &now);
        let body = self.render();
        let mut out = str_chars(hosts.as_str());
        out.push('\n');
        let hc = str_chars(header.as_str());
        extend_chars(&mut out, hc.as_slice());
        out.push('\n');
        let bc = str_chars(body.as_str());
        extend_chars(&mut out, bc.as_slice());
        out.push('\n');
        let ec = str_chars(MARKER_END);
        extend_chars(&mut out, ec.as_slice());
        let ghost h0 = hosts@;
        *hosts = chars_to_string(out.as_slice());
        proof {
            assert(h0 == old(hosts)@);
            assert(hosts@ =~= written(old(hosts)@, self.list().len(), now@, body@));
            assert(now@.len() == 19 && all_stamp(now@) && self.renders(body@));
        }
        Ok(())
    }
}

/// The text with every Adbyss section removed: from a start marker through
/// the next end marker after it, or, where none follows, to the end.
pub open spec fn strip_sections(s: Seq<char>) -> Seq<char>
    decreases s.len(),
{
    match find_seq(s, MARKER_START@) {
        None => s,
        Some(i) => {
            let after = s.skip(i + MARKER_START@.len());
            match find_seq(after, MARKER_END@) {
                Some(j) => {
                    proof {
                        lemma_find_from(s, MARKER_START@, 0);
                        lemma_find_from(after, MARKER_END@, 0);
                        reveal_strlit("## End of Adbyss Rules ##\n");
                    }
                    strip_sections(s.take(i) + after.skip(j + MARKER_END@.len()))
                },
                None => s.take(i),
            }
        },
    }
}

/// The text with every stray end marker removed.
pub open spec fn strip_end_markers(s: Seq<char>) -> Seq<char>
    decreases s.len(),
{
    match find_seq(s, MARKER_END@) {
        None => s,
        Some(i) => {
            proof {
                lemma_find_from(s, MARKER_END@, 0);
                reveal_strlit("## End of Adbyss Rules ##\n");
            }
            strip_end_markers(s.take(i) + s.skip(i + MARKER_END@.len()))
        },
    }
}

/// A hosts file without its Adbyss parts: sections and stray end markers
/// removed, trailing whitespace trimmed, and one line break added.
pub open spec fn stripped_hosts(s: Seq<char>) -> Seq<char> {
    trim_end(strip_end_markers(strip_sections(s))).push('\n')
}

/// Did the hosts file hold any Adbyss part (a start marker, or an end marker
/// left once the sections are gone)?
pub open spec fn had_adbyss(s: Seq<char>) -> bool {
    find_seq(s, MARKER_START@) is Some || find_seq(strip_sections(s), MARKER_END@) is Some
}

/// The words of a hosts-file line: the line trimmed, cut at the first `#`,
/// trimmed at the end again, and split at ASCII whitespace.
pub open spec fn entry_words(line: Seq<char>) -> Seq<Seq<char>> {
    words(trim_end(before_char(trim(line), '#')), false)
}

/// The words of each line of the (trimmed) hosts text.
pub open spec fn entry_lines(raw: Seq<char>) -> Seq<Seq<Seq<char>>> {
    str_lines(trim(raw)).map_values(|l: Seq<char>| entry_words(l))
}

/// The names that custom entries point at: every word after the first on
/// the lines whose first word is an address (`ip[i]` for line `i`).
pub open spec fn entry_names(lines: Seq<Seq<Seq<char>>>, ip: Seq<bool>) -> Seq<Seq<char>>
    decreases lines.len(),
{
    if lines.len() == 0 {
        Seq::empty()
    } else {
        let rest = entry_names(lines.drop_last(), ip.take(lines.len() - 1));
        let l = lines.last();
        if ip[lines.len() - 1] && l.len() > 0 {
            rest + l.skip(1)
        } else {
            rest
        }
    }
}

/// # Strip Adbyss.
///
/// Remove the Adbyss parts of a hosts file's text: every section (from the
/// start marker through the next end marker, or to the end where none
/// follows) and then every stray end marker; trailing whitespace is trimmed
/// and a single line break added. The flag tells whether anything was found.
pub fn strip_adbyss(text: &str) -> (r: (String, bool))
    ensures
        r.0@ == stripped_hosts(text@),
        r.1 == had_adbyss(text@),
{
    let start = str_chars(MARKER_START);
    let end = str_chars(MARKER_END);
    proof {
        reveal_strlit("## End of Adbyss Rules ##\n");
        reveal_strlit("##########\n# ADBYSS #\n##########");
    }
    let mut out = str_chars(text);
    let mut any = false;
    let ghost target = strip_sections(text@);
    loop
        invariant_except_break
            start@ == MARKER_START@,
            end@ == MARKER_END@,
            start@.len() > 0,
            strip_sections(out@) == target,
            !any ==> out@ == text@,
            any ==> find_seq(text@, MARKER_START@) is Some,
        ensures
            out@ == target,
            any == (find_seq(text@, MARKER_START@) is Some),
            end@ == MARKER_END@,
        decreases out@.len(),
    {
        match find_sub(out.as_slice(), start.as_slice(), 0) {
            None => {
                break;
            },
            Some(i) => {
                any = true;
                let n = out.len();
                let from = i + start.len();
                let after = sub_chars(out.as_slice(), from, n);
                assert(after@ =~= out@.skip(from as int));
                assert(find_seq(out@, MARKER_START@) == Some(i as int));
                match find_sub(after.as_slice(), end.as_slice(), 0) {
                    Some(j) => {
                        let mut next = sub_chars(out.as_slice(), 0, i);
                        let tail = sub_chars(after.as_slice(), j + end.len(), after.len());
                        extend_chars(&mut next, tail.as_slice());
                        assert(next@ =~= out@.take(i as int) + after@.skip(j + MARKER_END@.len()));
                        assert(find_seq(after@, MARKER_END@) == Some(j as int));
                        assert(strip_sections(out@) == strip_sections(next@));
                        out = next;
                    },
                    None => {
                        assert(find_seq(after@, MARKER_END@) is None);
                        let ghost before = out@;
                        assert(strip_sections(before) == before.take(i as int));
                        out.truncate(i);
                        assert(out@ =~= before.take(i as int));
                        break;
                    },
                }
            },
        }
    }
    let mut found_end = false;
    let ghost base = out@;
    let ghost target2 = strip_end_markers(base);
    loop
        invariant_except_break
            end@ == MARKER_END@,
            end@.len() > 0,
            strip_end_markers(out@) == target2,
            !found_end ==> out@ == base,
            found_end ==> find_seq(base, MARKER_END@) is Some,
        ensures
            out@ == target2,
            found_end == (find_seq(base, MARKER_END@) is Some),
        decreases out@.len(),
    {
        match find_sub(out.as_slice(), end.as_slice(), 0) {
            None => {
                break;
            },
            Some(i) => {
                found_end = true;
                let n = out.len();
                let mut next = sub_chars(out.as_slice(), 0, i);
                let tail = sub_chars(out.as_slice(), i + end.len(), n);
                extend_chars(&mut next, tail.as_slice());
                assert(next@ =~= out@.take(i as int) + out@.skip(i + MARKER_END@.len()));
                assert(find_seq(out@, MARKER_END@) == Some(i as int));
                assert(strip_end_markers(out@) == strip_end_markers(next@));
                out = next;
            },
        }
    }
    let mut cleaned = trim_end_chars(out.as_slice());
    cleaned.push('\n');
    (chars_to_string(cleaned.as_slice()), any || found_end)
}

/// # Custom Entry Lines.
///
/// The words of each line of a (stripped) hosts file, as [`entry_lines`]
/// describes them. Which lines are custom entries depends on whether their
/// first word is an IP address, which the caller decides.
pub fn custom_host_lines(raw: &str) -> (r: Vec<Vec<String>>)
    ensures
        r@.len() == entry_lines(raw@).len(),
        forall|i: int| 0 <= i < r@.len() ==> string_views(#[trigger] r@[i]@) == entry_lines(raw@)[i],
{
    let chars = str_chars(raw);
    let trimmed = trim_chars(chars.as_slice());
    let lines = split_str_lines_chars(trimmed.as_slice());
    let ghost ls = str_lines(trim(raw@));
    let mut out: Vec<Vec<String>> = Vec::new();
    let mut i: usize = 0;
    while i < lines.len()
        invariant
            i <= lines@.len(),
            views(lines@) == ls,
            ls == str_lines(trim(raw@)),
            out@.len() == i,
            forall|k: int| 0 <= k < i ==> string_views(#[trigger] out@[k]@) == entry_words(ls[k]),
        decreases lines@.len() - i,
    {
        assert(views(lines@)[i as int] == lines@[i as int]@);
        let line = trim_chars(lines[i].as_slice());
        let cut = before_char_exec(line.as_slice(), '#');
        let clean = trim_end_chars(cut.as_slice());
        let ws = split_words(clean.as_slice(), false);
        let mut strs: Vec<String> = Vec::new();
        let mut k: usize = 0;
        while k < ws.len()
            invariant
                k <= ws@.len(),
                strs@.len() == k,
                forall|q: int| 0 <= q < k ==> (#[trigger] strs@[q])@ == ws@[q]@,
            decreases ws@.len() - k,
        {
            strs.push(chars_to_string(ws[k].as_slice()));
            k = k + 1;
        }
        assert(string_views(strs@) =~= views(ws@));
        out.push(strs);
        i = i + 1;
    }
    proof {
        assert forall|k: int| 0 <= k < out@.len() implies string_views(#[trigger] out@[k]@) == entry_lines(raw@)[k] by {
        }
    }
    out
}

/// # Custom Entry Names.
///
/// The names the custom entries point at: every word after the first on the
/// lines of `lines` whose first word is an IP address, as `ip` tells for
/// each line.
pub fn custom_host_names(lines: &Vec<Vec<String>>, ip: &Vec<bool>) -> (r: Vec<String>)
    requires
        ip@.len() == lines@.len(),
    ensures
        string_views(r@) == entry_names(lines@.map_values(|l: Vec<String>| string_views(l@)), ip@),
{
    let ghost ls = lines@.map_values(|l: Vec<String>| string_views(l@));
    let mut out: Vec<String> = Vec::new();
    let mut i: usize = 0;
    while i < lines.len()
        invariant
            i <= lines@.len(),
            ip@.len() == lines@.len(),
            ls == lines@.map_values(|l: Vec<String>| string_views(l@)),
            string_views(out@) == entry_names(ls.take(i as int), ip@.take(i as int)),
        decreases lines@.len() - i,
    {
        let ghost o0 = string_views(out@);
        let l = &lines[i];
        assert(ls.take(i + 1).drop_last() =~= ls.take(i as int));
        assert(ip@.take(i + 1).take(i as int) =~= ip@.take(i as int));
        assert(ls.take(i + 1).last() == string_views(l@));
        if ip[i] && l.len() > 0 {
            let mut k: usize = 1;
            while k < l.len()
                invariant
                    1 <= k <= l@.len(),
                    string_views(out@) == o0 + string_views(l@).subrange(1, k as int),
                decreases l@.len() - k,
            {
                let ghost before = string_views(out@);
                out.push(l[k].clone());
                assert(string_views(out@) =~= before.push(l@[k as int]@));
                k = k + 1;
                assert(string_views(out@) =~= o0 + string_views(l@).subrange(1, k as int));
            }
            assert(string_views(l@).subrange(1, l@.len() as int) =~= string_views(l@).skip(1));
        }
        i = i + 1;
    }
    assert(ls.take(lines@.len() as int) =~= ls);
    assert(ip@.take(lines@.len() as int) =~= ip@);
    out
}

/// # Shitlist Header.
pub fn header(count: usize, now: &String) -> (r: String)
    ensures
        r@ == header_text(count as nat, now@),
        count > 0 ==> all_nice(nice_text(count as nat)),
{
    let mut out = str_chars(MARKER_START);
    if count == 0 {
        out.push('\n');
    } else {
        let a = str_chars("\n#\n# This section is automatically generated. Don't make any changes here or\n# they'll just get blown away the next time Adbyss is run.\n#\n# If you have custom host entries, add them before or after this section.\n#\n# Updated: ");
        extend_chars(&mut out, a.as_slice());
        let n = str_chars(now.as_str());
        extend_chars(&mut out, n.as_slice());
        let b = str_chars(" UTC\n# Blocked: ");
        extend_chars(&mut out, b.as_slice());
        let nice = nice_u64(count as u64);
        let c = str_chars(nice.as_str());
        extend_chars(&mut out, c.as_slice());
        let d = str_chars(" garbage hosts\n#\n# Eat the rich.\n#\n##########\n");
        extend_chars(&mut out, d.as_slice());
    }
    chars_to_string(out.as_slice())
}

proof fn lemma_names_yield_push(names: Seq<String>, n: String, h: Seq<char>)
    ensures
        names_yield(names.push(n), h) <==> (names_yield(names, h) || line_yields(n@, h)),
{
    if names_yield(names.push(n), h) {
        let i = choose|i: int| 0 <= i < names.push(n).len() && line_yields(#[trigger] names.push(n)[i]@, h);
        if i < names.len() {
            assert(names[i] == names.push(n)[i]);
        }
    }
    if names_yield(names, h) {
        let i = choose|i: int| 0 <= i < names.len() && line_yields(#[trigger] names[i]@, h);
        assert(names.push(n)[i] == names[i]);
    }
    if line_yields(n@, h) {
        assert(names.push(n)[names.len() as int] == n);
    }
}

/// The domains at the given positions.
pub open spec fn at_positions(list: Seq<Domain>, idx: Seq<usize>) -> Seq<Domain> {
    idx.map_values(|j: usize| list[j as int])
}

/// Group the domains by TLD: the sorted distinct TLDs (as keys), and for
/// each of them the positions of its domains, in list order.
pub(crate) fn group_by_tld(list: &Vec<Domain>) -> (r: (Vec<(Vec<char>, ())>, Vec<Vec<usize>>))
    requires
        all_wf(list@),
    ensures
        is_tld_index(list@, keys_of(r.0@)),
        r.1@.len() == r.0@.len(),
        forall|g: int|
            0 <= g < r.1@.len() ==> at_positions(list@, #[trigger] r.1@[g]@) == members(
                list@,
                keys_of(r.0@)[g],
            ),
        forall|g: int, k: int|
            0 <= g < r.1@.len() && 0 <= k < r.1@[g]@.len() ==> #[trigger] r.1@[g]@[k] < list@.len(),
{
    let n = list.len();
    let mut pairs: Vec<(Vec<char>, ())> = Vec::new();
    let mut i: usize = 0;
    while i < n
        invariant
            n == list@.len(),
            i <= n,
            all_wf(list@),
            pairs@.len() == i,
            forall|j: int| 0 <= j < i ==> (#[trigger] pairs@[j]).0@ == tld_of(list@[j]),
        decreases n - i,
    {
        let t = str_chars(list[i].tld());
        pairs.push((t, ()));
        i = i + 1;
    }
    let ghost pv = pairs@;
    let sorted = sort_dedup(pairs);
    let ghost ks = keys_of(sorted@);
    proof {
        assert forall|t: Seq<char>|
            ks.contains(t) <==> exists|j: int| 0 <= j < list@.len() && #[trigger] tld_of(list@[j]) == t by {
            if ks.contains(t) {
                assert(keys_of(pv).contains(t));
                let j = choose|j: int| 0 <= j < keys_of(pv).len() && keys_of(pv)[j] == t;
                assert(tld_of(list@[j]) == t);
            }
            if exists|j: int| 0 <= j < list@.len() && #[trigger] tld_of(list@[j]) == t {
                let j = choose|j: int| 0 <= j < list@.len() && #[trigger] tld_of(list@[j]) == t;
                assert(keys_of(pv)[j] == t);
                assert(keys_of(pv).contains(t));
            }
        }
    }
    let g_count = sorted.len();
    let mut groups: Vec<Vec<usize>> = Vec::new();
    let mut g: usize = 0;
    while g < g_count
        invariant
            g <= g_count,
            groups@.len() == g,
            forall|x: int| 0 <= x < g ==> (#[trigger] groups@[x])@.len() == 0,
        decreases g_count - g,
    {
        groups.push(Vec::new());
        g = g + 1;
    }
    let mut i: usize = 0;
    assert forall|x: int| 0 <= x < groups@.len() implies at_positions(list@, #[trigger] groups@[x]@)
        == members(list@.take(0), ks[x]) by {
        assert(list@.take(0) =~= Seq::<Domain>::empty());
        reveal(Seq::filter);
        assert(at_positions(list@, groups@[x]@) =~= Seq::<Domain>::empty());
    }
    while i < n
        invariant
            n == list@.len(),
            i <= n,
            all_wf(list@),
            ks == keys_of(sorted@),
            strictly_sorted(ks),
            forall|t: Seq<char>|
                ks.contains(t) <==> exists|j: int| 0 <= j < list@.len() && #[trigger] tld_of(list@[j]) == t,
            groups@.len() == ks.len(),
            forall|x: int|
                0 <= x < groups@.len() ==> at_positions(list@, #[trigger] groups@[x]@) == members(
                    list@.take(i as int),
                    ks[x],
                ),
            forall|x: int, k: int|
                0 <= x < groups@.len() && 0 <= k < groups@[x]@.len() ==> #[trigger] groups@[x]@[k] < i,
        decreases n - i,
    {
        let t = str_chars(list[i].tld());
        assert(tld_of(list@[i as int]) == t@);
        assert(ks.contains(t@));
        let gi = find_key(&sorted, t.as_slice()).unwrap();
        let ghost g0 = groups@;
        groups[gi].push(i);
        proof {
            let d = list@[i as int];
            let pred = |e: Domain| tld_of(e) == ks[gi as int];
            assert(list@.take(i + 1) =~= list@.take(i as int).push(d));
            assert forall|x: int|
                0 <= x < groups@.len() implies at_positions(list@, #[trigger] groups@[x]@) == members(
                    list@.take(i + 1),
                    ks[x],
                ) by {
                let px = |e: Domain| tld_of(e) == ks[x];
                lemma_filter_push(list@.take(i as int), d, px);
                if x == gi {
                    assert(groups@[x]@ == g0[x]@.push(i));
                    assert(at_positions(list@, groups@[x]@) =~= at_positions(list@, g0[x]@).push(d));
                } else {
                    assert(groups@[x] == g0[x]);
                    if tld_of(d) == ks[x] {
                        lemma_lex_distinct(ks, x, gi as int);
                    }
                }
            }
        }
        i = i + 1;
    }
    assert(list@.take(n as int) =~= list@);
    (sorted, groups)
}

/// Distinct positions of a strictly increasing sequence hold distinct items.
proof fn lemma_lex_distinct(s: Seq<Seq<char>>, x: int, y: int)
    requires
        strictly_sorted(s),
        0 <= x < s.len(),
        0 <= y < s.len(),
        x != y,
    ensures
        s[x] != s[y],
{
    if x < y {
        assert(lex_lt(s[x], s[y]));
        lemma_lex_irreflexive(s[x]);
    } else {
        assert(lex_lt(s[y], s[x]));
        lemma_lex_irreflexive(s[y]);
    }
}

/// The compact text of the groups.
fn render_groups(list: &Vec<Domain>, tlds: &Vec<(Vec<char>, ())>, groups: &Vec<Vec<usize>>) -> (r: Vec<char>)
    requires
        all_wf(list@),
        forall|i: int| 0 <= i < list@.len() ==> (#[trigger] list@[i])@.len() < usize::MAX,
        groups@.len() == tlds@.len(),
        forall|g: int|
            0 <= g < groups@.len() ==> at_positions(list@, #[trigger] groups@[g]@) == members(
                list@,
                keys_of(tlds@)[g],
            ),
        forall|g: int, k: int|
            0 <= g < groups@.len() && 0 <= k < groups@[g]@.len() ==> #[trigger] groups@[g]@[k] < list@.len(),
    ensures
        r@ == compact_text(list@, keys_of(tlds@)),
{
    let ghost ks = keys_of(tlds@);
    let addr = str_chars(BLACKHOLE_ADDR);
    let bh = str_chars(BLACKHOLE);
    let mut out: Vec<char> = Vec::new();
    let mut g: usize = 0;
    while g < groups.len()
        invariant
            g <= groups@.len(),
            groups@.len() == ks.len(),
            ks == keys_of(tlds@),
            addr@ == BLACKHOLE_ADDR@,
            bh@ == BLACKHOLE@,
            all_wf(list@),
            forall|i: int| 0 <= i < list@.len() ==> (#[trigger] list@[i])@.len() < usize::MAX,
            forall|x: int|
                0 <= x < groups@.len() ==> at_positions(list@, #[trigger] groups@[x]@) == members(list@, ks[x]),
            forall|x: int, k: int|
                0 <= x < groups@.len() && 0 <= k < groups@[x]@.len() ==> #[trigger] groups@[x]@[k] < list@.len(),
            out@ == compact_text(list@, ks.take(g as int)),
        decreases groups@.len() - g,
    {
        let members_idx = &groups[g];
        let ghost ms = at_positions(list@, members_idx@);
        let ghost start = out@;
        extend_chars(&mut out, addr.as_slice());
        let mut line_len: usize = 0;
        let mut k: usize = 0;
        let ghost mut done: Seq<char> = Seq::empty();
        assert(ms.skip(0) =~= ms);
        assert(done + pack(ms.skip(0), 0) =~= pack(ms, 0));
        while k < members_idx.len()
            invariant
                k <= members_idx@.len(),
                ms == at_positions(list@, members_idx@),
                bh@ == BLACKHOLE@,
                forall|i: int| 0 <= i < list@.len() ==> (#[trigger] list@[i])@.len() < usize::MAX,
                forall|q: int| 0 <= q < members_idx@.len() ==> #[trigger] members_idx@[q] < list@.len(),
                out@ == start + BLACKHOLE_ADDR@ + done,
                done + pack(ms.skip(k as int), line_len as int) == pack(ms, 0),
            decreases members_idx@.len() - k,
        {
            let idx = members_idx[k];
            assert(members_idx@[k as int] < list@.len());
            let d = &list[idx];
            assert(ms[k as int] == *d);
            let h = str_chars(d.host());
            let len = h.len();
            let ghost rest = ms.skip(k as int);
            assert(rest[0] == *d);
            assert(rest.drop_first() =~= ms.skip(k + 1));
            let ghost done0 = done;
            let ghost old_len = line_len;
            if len < MAX_LINE && line_len < MAX_LINE - len {
                out.push(' ');
                extend_chars(&mut out, h.as_slice());
                line_len = line_len + len + 1;
                proof {
                    done = done0 + seq![' '] + h@;
                }
                assert(out@ =~= start + BLACKHOLE_ADDR@ + done);
            } else {
                out.push('\n');
                extend_chars(&mut out, bh.as_slice());
                extend_chars(&mut out, h.as_slice());
                line_len = len + 1;
                proof {
                    done = done0 + seq!['\n'] + BLACKHOLE@ + h@;
                }
                assert(out@ =~= start + BLACKHOLE_ADDR@ + done);
            }
            assert(done + pack(ms.skip(k + 1), line_len as int) =~= done0 + pack(rest, old_len as int));
            k = k + 1;
        }
        out.push('\n');
        proof {
            assert(ms.skip(k as int) =~= Seq::<Domain>::empty());
            assert(done == pack(ms, 0));
            assert(ks.take(g + 1).drop_last() =~= ks.take(g as int));
            assert(ms == members(list@, ks[g as int]));
            assert(out@ =~= compact_text(list@, ks.take(g as int)) + group_text(ms));
        }
        g = g + 1;
    }
    assert(ks.take(groups@.len() as int) =~= ks);
    out
}

} // verus!

