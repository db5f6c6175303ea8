//! Removing a written Adbyss section gives the user's part of the hosts file
//! back.
use vstd::prelude::*;
use crate::text::nice_text;
use crate::psl::Domain;
use crate::text::{find_from, find_seq, is_ws, trail_ws, trim_end};
use crate::settings::{built_hosts, is_blocklist, is_pruned_blocklist, Settings};
use crate::sources::Source;
use crate::text::{all_ldh, is_nice_char, is_stamp_char};
use crate::write::{
    all_nice, all_stamp, all_wf, appended, compact_text, flat_text, group_text, had_adbyss, header_text,
    members, names_yield, pack, renders_list, strip_end_markers, strip_sections, stripped_hosts,
    written, BLACKHOLE, BLACKHOLE_ADDR, MARKER_END, MARKER_START,
};

verus! {

/// The text holds no `c`.
pub open spec fn lacks(s: Seq<char>, c: char) -> bool {
    forall|i: int| 0 <= i < s.len() ==> s[i] != c
}

/// Every `E` of the text has something other than `#` three places before
/// it: the end marker (`## E…`) cannot start anywhere in it.
pub open spec fn e_guarded(s: Seq<char>) -> bool {
    forall|i: int| 0 <= i < s.len() && #[trigger] s[i] == 'E' ==> 3 <= i && s[i - 3] != '#'
}

/// A hosts file's user part as stripping leaves it: ending in one line
/// break after its last non-blank character, with neither marker in it (nor
/// made by the line break that follows it in a written file).
pub open spec fn is_clean_stub(s: Seq<char>) -> bool {
    &&& s == trim_end(s).push('\n')
    &&& find_seq(s.push('\n'), MARKER_START@) is None
    &&& find_seq(s.push('\n'), MARKER_END@) is None
}

proof fn lemma_lacks_concat(a: Seq<char>, b: Seq<char>, c: char)
    requires
        lacks(a, c),
        lacks(b, c),
    ensures
        lacks(a + b, c),
{
    assert forall|i: int| 0 <= i < (a + b).len() implies (a + b)[i] != c by {
        if i < a.len() {
            assert((a + b)[i] == a[i]);
        } else {
            assert((a + b)[i] == b[i - a.len()]);
        }
    }
}

proof fn lemma_guard_then_lacks(a: Seq<char>, b: Seq<char>)
    requires
        e_guarded(a),
        lacks(b, 'E'),
    ensures
        e_guarded(a + b),
{
    assert forall|i: int| 0 <= i < (a + b).len() && #[trigger] (a + b)[i] == 'E' implies 3 <= i && (a + b)[i - 3]
        != '#' by {
        if i < a.len() {
            assert((a + b)[i] == a[i]);
            assert((a + b)[i - 3] == a[i - 3]);
        } else {
            assert((a + b)[i] == b[i - a.len()]);
        }
    }
}

proof fn lemma_lacks_then_guard(a: Seq<char>, b: Seq<char>)
    requires
        lacks(a, 'E'),
        e_guarded(b),
    ensures
        e_guarded(a + b),
{
    assert forall|i: int| 0 <= i < (a + b).len() && #[trigger] (a + b)[i] == 'E' implies 3 <= i && (a + b)[i - 3]
        != '#' by {
        if i < a.len() {
            assert((a + b)[i] == a[i]);
        } else {
            assert((a + b)[i] == b[i - a.len()]);
            assert((a + b)[i - 3] == b[i - a.len() - 3]);
        }
    }
}

/// A well-formed domain's host has no uppercase letter.
proof fn lemma_host_lacks_e(d: Domain)
    requires
        d.wf(),
    ensures
        lacks(d@, 'E'),
{
    d.lemma_wf();
    assert forall|i: int| 0 <= i < d@.len() implies d@[i] != 'E' by {
        assert(!('A' <= d@[i] && d@[i] <= 'Z'));
    }
}

proof fn lemma_flat_lacks(list: Seq<Domain>)
    requires
        all_wf(list),
    ensures
        lacks(flat_text(list), 'E'),
    decreases list.len(),
{
    reveal_strlit("0.0.0.0 ");
    if list.len() > 0 {
        let init = list.drop_last();
        assert forall|i: int| 0 <= i < init.len() implies (#[trigger] init[i]).wf() by {
            assert(init[i] == list[i]);
        }
        lemma_flat_lacks(init);
        lemma_host_lacks_e(list.last());
        lemma_lacks_concat(flat_text(init), BLACKHOLE@, 'E');
        lemma_lacks_concat(flat_text(init) + BLACKHOLE@, list.last()@, 'E');
        lemma_lacks_concat(flat_text(init) + BLACKHOLE@ + list.last()@, seq!['\n'], 'E');
    }
}

proof fn lemma_pack_lacks(ms: Seq<Domain>, line_len: int)
    requires
        all_wf(ms),
    ensures
        lacks(pack(ms, line_len), 'E'),
    decreases ms.len(),
{
    reveal_strlit("0.0.0.0 ");
    if ms.len() > 0 {
        let rest = ms.drop_first();
        assert forall|i: int| 0 <= i < rest.len() implies (#[trigger] rest[i]).wf() by {
            assert(rest[i] == ms[i + 1]);
        }
        let m = ms[0];
        lemma_host_lacks_e(m);
        let n = line_len + m@.len() + 1;
        if n <= crate::MAX_LINE {
            lemma_pack_lacks(rest, n);
            lemma_lacks_concat(seq![' '], m@, 'E');
            lemma_lacks_concat(seq![' '] + m@, pack(rest, n), 'E');
        } else {
            lemma_pack_lacks(rest, m@.len() + 1int);
            lemma_lacks_concat(seq!['\n'], BLACKHOLE@, 'E');
            lemma_lacks_concat(seq!['\n'] + BLACKHOLE@, m@, 'E');
            lemma_lacks_concat(seq!['\n'] + BLACKHOLE@ + m@, pack(rest, m@.len() + 1int), 'E');
        }
    }
}

proof fn lemma_compact_lacks(list: Seq<Domain>, tlds: Seq<Seq<char>>)
    requires
        all_wf(list),
    ensures
        lacks(compact_text(list, tlds), 'E'),
    decreases tlds.len(),
{
    reveal_strlit("0.0.0.0");
    if tlds.len() > 0 {
        lemma_compact_lacks(list, tlds.drop_last());
        let t = tlds.last();
        let ms = members(list, t);
        let pred = |d: Domain| crate::write::tld_of(d) == t;
        assert forall|i: int| 0 <= i < ms.len() implies (#[trigger] ms[i]).wf() by {
            assert(ms.contains(ms[i]));
            list.lemma_filter_contains_rev(pred, ms[i]);
            let j = choose|j: int| 0 <= j < list.len() && list[j] == ms[i];
            assert(list[j].wf());
        }
        lemma_pack_lacks(ms, 0);
        lemma_lacks_concat(BLACKHOLE_ADDR@, pack(ms, 0), 'E');
        lemma_lacks_concat(BLACKHOLE_ADDR@ + pack(ms, 0), seq!['\n'], 'E');
        lemma_lacks_concat(compact_text(list, tlds.drop_last()), group_text(ms), 'E');
    }
}

/// A rendered list of well-formed domains has no uppercase `E`.
pub proof fn lemma_rendered_lacks_e(compact: bool, list: Seq<Domain>, body: Seq<char>)
    requires
        all_wf(list),
        renders_list(compact, list, body),
    ensures
        lacks(body, 'E'),
{
    if compact {
        let tlds = choose|tlds: Seq<Seq<char>>|
            crate::write::is_tld_index(list, tlds) && body == compact_text(list, tlds);
        lemma_compact_lacks(list, tlds);
    } else {
        lemma_flat_lacks(list);
    }
}

/// Does `pat` occur in `s` at `p`?
pub open spec fn occurs_at(s: Seq<char>, pat: Seq<char>, p: int) -> bool {
    0 <= p && p + pat.len() <= s.len() && s.subrange(p, p + pat.len()) == pat
}

/// Where `pat` occurs at `k` and nowhere before, that is where it is found.
proof fn lemma_find_first(s: Seq<char>, pat: Seq<char>, i: int, k: int)
    requires
        0 <= i <= k,
        k + pat.len() <= s.len(),
        s.subrange(k, k + pat.len()) == pat,
        forall|p: int| i <= p < k ==> !#[trigger] occurs_at(s, pat, p),
    ensures
        find_from(s, pat, i) == Some(k),
    decreases k - i,
{
    if i < k {
        assert(!occurs_at(s, pat, i));
        lemma_find_first(s, pat, i + 1, k);
    }
}

/// Where nothing is found, nothing occurs.
proof fn lemma_find_none(s: Seq<char>, pat: Seq<char>, i: int, k: int)
    requires
        find_from(s, pat, i) is None,
        0 <= i <= k,
        k + pat.len() <= s.len(),
    ensures
        s.subrange(k, k + pat.len()) != pat,
    decreases k - i,
{
    if i < k {
        lemma_find_none(s, pat, i + 1, k);
    }
}

/// Trailing whitespace added is trimmed again.
proof fn lemma_trim_end_push(x: Seq<char>, c: char)
    requires
        is_ws(c),
    ensures
        trim_end(x.push(c)) == trim_end(x),
{
    lemma_trail_ws_bound(x);
    assert(x.push(c).drop_last() =~= x);
    assert(trail_ws(x.push(c)) == trail_ws(x) + 1);
    assert(trim_end(x.push(c)) =~= trim_end(x));
}

proof fn lemma_trail_ws_bound(x: Seq<char>)
    ensures
        trail_ws(x) <= x.len(),
        trail_ws(x) < x.len() ==> !is_ws(x[x.len() - trail_ws(x) - 1]),
    decreases x.len(),
{
    if x.len() > 0 && is_ws(x.last()) {
        lemma_trail_ws_bound(x.drop_last());
        if trail_ws(x) < x.len() {
            assert(x.drop_last()[x.len() - trail_ws(x) - 1] == x[x.len() - trail_ws(x) - 1]);
        }
    }
}

/// Trimming twice is trimming once.
proof fn lemma_trim_end_idem(x: Seq<char>)
    ensures
        trim_end(trim_end(x)) == trim_end(x),
{
    lemma_trail_ws_bound(x);
    let t = trim_end(x);
    if t.len() > 0 {
        assert(t.last() == x[x.len() - trail_ws(x) - 1]);
    }
    assert(trail_ws(t) == 0);
    assert(t.take(t.len() as int) =~= t);
}

/// # Unwrite After Write.
///
/// Stripping the Adbyss parts from a hosts file written by appending a
/// section to a clean user part gives that user part back, and says that
/// there was a section: `--disable` undoes a write. The section is any that
/// [`crate::write::Shitlist::append`] can make: a header with a time stamp
/// and a count (neither holds an uppercase `E`), and a list rendered from
/// well-formed domains.
pub proof fn lemma_strip_written(s: Seq<char>, n: nat, now: Seq<char>, body: Seq<char>)
    requires
        is_clean_stub(s),
        lacks(now, 'E'),
        n > 0 ==> lacks(nice_text(n as nat), 'E'),
        lacks(body, 'E'),
    ensures
        stripped_hosts(written(s, n, now, body)) == s,
        had_adbyss(written(s, n, now, body)),
{
    reveal_strlit("##########\n# ADBYSS #\n##########");
    reveal_strlit("## End of Adbyss Rules ##\n");
    reveal_strlit("\n#\n# This section is automatically generated. Don't make any changes here or\n# they'll just get blown away the next time Adbyss is run.\n#\n# If you have custom host entries, add them before or after this section.\n#\n# Updated: ");
    reveal_strlit(" UTC\n# Blocked: ");
    reveal_strlit(" garbage hosts\n#\n# Eat the rich.\n#\n##########\n");
    let start = MARKER_START@;
    let end = MARKER_END@;
    let l1 = "\n#\n# This section is automatically generated. Don't make any changes here or\n# they'll just get blown away the next time Adbyss is run.\n#\n# If you have custom host entries, add them before or after this section.\n#\n# Updated: "@;
    let l2 = " UTC\n# Blocked: "@;
    let l3 = " garbage hosts\n#\n# Eat the rich.\n#\n##########\n"@;
    let nice = nice_text(n as nat);
    let t = written(s, n, now, body);
    let h = header_text(n, now);
    assert(start.len() == 32);
    assert(end.len() == 26);
    // The header starts with the start marker; the rest of it.
    let r = if n == 0 {
        seq!['\n']
    } else {
        l1 + now + l2 + nice + l3
    };
    assert(h =~= start + r);
    let ls = s.len() as int;
    // The start marker is first found right after the user part.
    assert(t =~= s.push('\n') + start + (r + seq!['\n'] + body + seq!['\n'] + end));
    assert(t.subrange(ls + 1, ls + 33) =~= start);
    assert(s.last() == '\n') by {
        assert(s == trim_end(s).push('\n'));
    }
    assert forall|p: int| 0 <= p < ls + 1 implies !#[trigger] occurs_at(t, start, p) by {
        if p + 32 <= ls + 1 {
            lemma_find_none(s.push('\n'), start, 0, p);
            assert(t.subrange(p, p + 32) =~= s.push('\n').subrange(p, p + 32));
        } else if p == ls {
            assert(t.subrange(p, p + 32)[0] == '\n');
        } else {
            assert(t.subrange(p, p + 32)[ls - 1 - p] == '\n');
            assert(t.subrange(p, p + 32)[ls - p] == '\n');
        }
    }
    lemma_find_first(t, start, 0, ls + 1);
    assert(find_seq(t, start) == Some(ls + 1));
    // After it, the end marker is first found at the very end.
    let x = r + seq!['\n'] + body + seq!['\n'];
    let after = t.skip(ls + 33);
    assert(after =~= x + end);
    reveal_strlit("\n");
    assert(e_guarded(x)) by {
        if n == 0 {
            lemma_lacks_concat(seq!['\n'], seq!['\n'], 'E');
            lemma_lacks_concat(seq!['\n', '\n'], body, 'E');
            lemma_lacks_concat(seq!['\n', '\n'] + body, seq!['\n'], 'E');
            assert(x =~= seq!['\n', '\n'] + body + seq!['\n']);
        } else {
            assert(lacks(l1, 'E'));
            assert(lacks(l2, 'E'));
            assert(e_guarded(l3));
            lemma_lacks_concat(l1, now, 'E');
            lemma_lacks_concat(l1 + now, l2, 'E');
            lemma_lacks_concat(l1 + now + l2, nice, 'E');
            lemma_lacks_then_guard(l1 + now + l2 + nice, l3);
            lemma_lacks_concat(seq!['\n'], body, 'E');
            lemma_lacks_concat(seq!['\n'] + body, seq!['\n'], 'E');
            lemma_guard_then_lacks(r, seq!['\n'] + body + seq!['\n']);
            assert(x =~= r + (seq!['\n'] + body + seq!['\n']));
        }
    }
    let lx = x.len() as int;
    assert(after.subrange(lx, lx + 26) =~= end);
    assert forall|p: int| 0 <= p < lx implies !#[trigger] occurs_at(after, end, p) by {
        if p + 26 <= lx {
            if after.subrange(p, p + 26) == end {
                assert(after.subrange(p, p + 26)[3] == 'E');
                assert(after.subrange(p, p + 26)[0] == '#');
                assert(after[p + 3] == x[p + 3]);
                assert(after[p] == x[p]);
                assert(x[p + 3] == 'E');
                assert(x[p] == '#');
            }
        } else {
            assert(x[lx - 1] == '\n');
            assert(after.subrange(p, p + 26)[lx - 1 - p] == '\n');
        }
    }
    lemma_find_first(after, end, 0, lx);
    assert(find_seq(after, end) == Some(lx));
    // So the section goes, and nothing else.
    assert(t.take(ls + 1) + after.skip(lx + 26) =~= s.push('\n'));
    assert(strip_sections(t) == strip_sections(s.push('\n')));
    assert(strip_sections(s.push('\n')) == s.push('\n'));
    assert(strip_end_markers(s.push('\n')) == s.push('\n'));
    lemma_trim_end_push(s, '\n');
    lemma_trim_end_push(trim_end(s), '\n');
    lemma_trim_end_idem(s);
    assert(stripped_hosts(t) == trim_end(s.push('\n')).push('\n'));
}

/// A clean user part is its own stripped form, with nothing to strip.
pub proof fn lemma_clean_stub_fixed(s: Seq<char>)
    requires
        is_clean_stub(s),
    ensures
        stripped_hosts(s) == s,
        !had_adbyss(s),
{
    assert(s.last() == '\n') by {
        assert(s == trim_end(s).push('\n'));
    }
    let t = s.push('\n');
    assert forall|p: int| 0 <= p && p + MARKER_START@.len() <= s.len() implies !occurs_at(s, MARKER_START@, p) by {
        lemma_find_none(t, MARKER_START@, 0, p);
        assert(t.subrange(p, p + MARKER_START@.len()) =~= s.subrange(p, p + MARKER_START@.len()));
    }
    assert forall|p: int| 0 <= p && p + MARKER_END@.len() <= s.len() implies !occurs_at(s, MARKER_END@, p) by {
        lemma_find_none(t, MARKER_END@, 0, p);
        assert(t.subrange(p, p + MARKER_END@.len()) =~= s.subrange(p, p + MARKER_END@.len()));
    }
    lemma_find_nowhere(s, MARKER_START@, 0);
    lemma_find_nowhere(s, MARKER_END@, 0);
    lemma_trim_end_idem(s);
    lemma_trim_end_push(trim_end(s), '\n');
}

/// Where `pat` occurs nowhere from `i` on, nothing is found.
proof fn lemma_find_nowhere(s: Seq<char>, pat: Seq<char>, i: int)
    requires
        0 <= i,
        forall|p: int| i <= p ==> !#[trigger] occurs_at(s, pat, p),
    ensures
        find_from(s, pat, i) is None,
    decreases s.len() + 1 - i,
{
    if i + pat.len() <= s.len() {
        assert(!occurs_at(s, pat, i));
        lemma_find_nowhere(s, pat, i + 1);
    }
}

/// # Unwrite After Append.
///
/// Stripping the Adbyss parts from what appending a section for a list of
/// well-formed domains to a clean user part makes gives the user part back,
/// and reports that there was a section.
pub proof fn lemma_unwrite_after_append(s: Seq<char>, compact: bool, list: Seq<Domain>, t: Seq<char>)
    requires
        is_clean_stub(s),
        all_wf(list),
        appended(s, compact, list, t),
    ensures
        stripped_hosts(t) == s,
        had_adbyss(t),
{
    let (now, body) = choose|now: Seq<char>, body: Seq<char>|
        #![trigger written(s, list.len(), now, body), renders_list(compact, list, body)]
        now.len() == 19 && all_stamp(now) && renders_list(compact, list, body) && t == written(
            s,
            list.len(),
            now,
            body,
        );
    lemma_rendered_lacks_e(compact, list, body);
    assert forall|i: int| 0 <= i < now.len() implies now[i] != 'E' by {
        assert(is_stamp_char(now[i]));
    }
    let nice = nice_text(list.len() as nat);
    if list.len() > 0 {
        assert forall|i: int| 0 <= i < nice.len() implies nice[i] != 'E' by {
            assert(is_nice_char(nice[i]));
        }
    }
    lemma_strip_written(s, list.len(), now, body);
}

/// # Unwrite After Build.
///
/// What the settings build from a clean user part of the hosts file
/// strips back to that user part; there was a section exactly when some
/// hosts were blocked.
pub proof fn lemma_unwrite_after_build(
    st: Settings,
    lists: Seq<(Source, String)>,
    custom: Seq<String>,
    stub: Seq<char>,
    text: Seq<char>,
    n: nat,
)
    requires
        is_clean_stub(stub),
        built_hosts(st, lists, custom, stub, text, n),
    ensures
        stripped_hosts(text) == stub,
        had_adbyss(text) == (n > 0),
{
    let list = choose|list: Seq<Domain>|
        #[trigger] is_pruned_blocklist(st, lists, custom, list) && n == list.len() && (n == 0 ==> text == stub)
            && (n > 0 ==> appended(stub, st.compact, list, text));
    if n == 0 {
        lemma_clean_stub_fixed(stub);
    } else {
        let base = choose|base: Seq<Domain>|
            #[trigger] is_blocklist(st, lists, base) && list == base.filter(|d: Domain| !names_yield(custom, d@));
        assert forall|i: int| 0 <= i < list.len() implies (#[trigger] list[i]).wf() by {
            assert(list.contains(list[i]));
            base.lemma_filter_contains_rev(|d: Domain| !names_yield(custom, d@), list[i]);
            let j = choose|j: int| 0 <= j < base.len() && base[j] == list[i];
            assert(base[j].wf());
        }
        lemma_unwrite_after_append(stub, st.compact, list, text);
    }
}

} // verus!
