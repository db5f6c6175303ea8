//! Blocklist sources, and turning their raw text into domains.
use vstd::prelude::*;
use crate::error::AdbyssError;
use crate::psl::{builtin_rules, hosts_of, parse_spec, Domain, SuffixTable};
use crate::sort::{keys_of, lemma_keys_push, sort_dedup};
use crate::text::{
    before_char, before_char_exec, chars_to_string, join, join_chars, split_str_lines_chars,
    starts_with_chars, str_chars, str_lines, strictly_sorted, sub_chars, trim, trim_chars, views,
};
use crate::{FLAG_ADAWAY, FLAG_ADBYSS, FLAG_STEVENBLACK, FLAG_YOYO};

verus! {

broadcast use vstd::string::group_string_axioms;

/// Adbyss' own blocklist.
pub const ADBYSS_LIST: &'static str = "api.triptease.io
collect.snitcher.com
ct.pinterest.com
guest-experience.triptease.io
js.trendmd.com
medtargetsystem.com
onboard.triptease.io
rum-static.pingdom.net
s.pinimg.com
shareasale-analytics.com
snid.snitcher.com
snitcher.com
static-meta.triptease.io
static.triptease.io
trendmd.com
triptease.io
www.medtargetsystem.com
www.snitcher.com
www.trendmd.com
www.triptease.io
";

/// # Shitlist Sources.
#[derive(Debug, Clone, Copy, Hash, PartialEq, Eq, Structural)]
pub enum Source {
    /// AdAway.
    AdAway,
    /// Adbyss.
    Adbyss,
    /// StevenBlack.
    StevenBlack,
    /// Yoyo.
    Yoyo,
}

/// The flag that enables a source.
pub open spec fn source_flag(s: Source) -> u8 {
    match s {
        Source::AdAway => FLAG_ADAWAY,
        Source::Adbyss => FLAG_ADBYSS,
        Source::StevenBlack => FLAG_STEVENBLACK,
        Source::Yoyo => FLAG_YOYO,
    }
}

/// Is `s` enabled by `flags`?
pub open spec fn source_enabled(flags: u8, s: Source) -> bool {
    flags & source_flag(s) != 0
}

/// The display name of a source.
pub open spec fn source_name(s: Source) -> Seq<char> {
    match s {
        Source::AdAway => "AdAway"@,
        Source::Adbyss => "Adbyss"@,
        Source::StevenBlack => "Steven Black"@,
        Source::Yoyo => "Yoyo"@,
    }
}

/// The address a source prefixes its lines with, if any.
pub open spec fn source_prefix(s: Source) -> Seq<char> {
    match s {
        Source::AdAway | Source::Yoyo => "127.0.0.1 "@,
        Source::StevenBlack => "0.0.0.0 "@,
        Source::Adbyss => ""@,
    }
}

/// What a prefixed line contributes: the text after the prefix, cut at the
/// first `#` and trimmed, when the line has the prefix and that is not empty.
pub open spec fn patch_line(prefix: Seq<char>, line: Seq<char>) -> Option<Seq<char>> {
    if prefix.len() <= line.len() && line.take(prefix.len() as int) == prefix {
        let rest = trim(before_char(line.skip(prefix.len() as int), '#'));
        if rest.len() == 0 {
            None
        } else {
            Some(rest)
        }
    } else {
        None
    }
}

/// The contributions of `lines`, in order.
pub open spec fn patch_lines(prefix: Seq<char>, lines: Seq<Seq<char>>) -> Seq<Seq<char>>
    decreases lines.len(),
{
    if lines.len() == 0 {
        Seq::empty()
    } else {
        let p = patch_lines(prefix, lines.drop_last());
        match patch_line(prefix, lines.last()) {
            Some(l) => p.push(l),
            None => p,
        }
    }
}

/// What [`Source::patch`] makes of raw source data.
pub open spec fn patch_spec(s: Source, src: Seq<char>) -> Seq<char> {
    if s == Source::Adbyss {
        src
    } else {
        join(patch_lines(source_prefix(s), str_lines(src)), seq!['\n'])
    }
}

/// Does parsing `line` give the host `h`?
pub open spec fn line_yields(line: Seq<char>, h: Seq<char>) -> bool {
    parse_spec(builtin_rules(), line) matches Some(p) && p.0 == h
}

/// Does some line of `ls` parse to the host `h`?
pub open spec fn lines_yield(ls: Seq<Seq<char>>, h: Seq<char>) -> bool {
    exists|line: Seq<char>| #[trigger] ls.contains(line) && line_yields(line, h)
}

/// Does some line of the (trimmed) text parse to the host `h`?
pub open spec fn text_yields(text: Seq<char>, h: Seq<char>) -> bool {
    lines_yield(str_lines(trim(text)), h)
}

/// Is `e` the error of the first failed fetch among the sources `src`
/// enables?
pub open spec fn first_fetch_error(src: u8, fetched: Seq<(Source, Result<String, AdbyssError>)>, e: AdbyssError) -> bool {
    exists|i: int|
        0 <= i < fetched.len() && source_enabled(src, fetched[i].0) && fetched[i].1 == Err::<String, AdbyssError>(e)
            && forall|j: int| 0 <= j < i && source_enabled(src, fetched[j].0) ==> fetched[j].1 is Ok
}

/// Did every fetch of a source `src` enables succeed?
pub open spec fn fetches_ok(src: u8, fetched: Seq<(Source, Result<String, AdbyssError>)>) -> bool {
    forall|i: int| 0 <= i < fetched.len() && source_enabled(src, fetched[i].0) ==> fetched[i].1 is Ok
}

/// Does a line of the text fetched for a source `src` enables parse to the
/// host `h`?
pub open spec fn fetched_yields(src: u8, fetched: Seq<(Source, Result<String, AdbyssError>)>, h: Seq<char>) -> bool {
    exists|i: int|
        0 <= i < fetched.len() && source_enabled(src, fetched[i].0) && (#[trigger] fetched[i].1 matches Ok(t)
            && text_yields(t@, h))
}

proof fn lemma_lines_yield_push(ls: Seq<Seq<char>>, x: Seq<char>, h: Seq<char>)
    ensures
        lines_yield(ls.push(x), h) <==> (lines_yield(ls, h) || line_yields(x, h)),
{
    if lines_yield(ls.push(x), h) {
        let l = choose|l: Seq<char>| #[trigger] ls.push(x).contains(l) && line_yields(l, h);
        let m = choose|m: int| 0 <= m < ls.push(x).len() && ls.push(x)[m] == l;
        if m < ls.len() {
            assert(ls[m] == l);
            assert(ls.contains(l));
        }
    }
    if lines_yield(ls, h) {
        let l = choose|l: Seq<char>| #[trigger] ls.contains(l) && line_yields(l, h);
        let m = choose|m: int| 0 <= m < ls.len() && ls[m] == l;
        assert(ls.push(x)[m] == l);
        assert(ls.push(x).contains(l));
    }
    if line_yields(x, h) {
        assert(ls.push(x)[ls.len() as int] == x);
        assert(ls.push(x).contains(x));
    }
}

impl Source {
    /// The four sources, in order.
    pub fn all() -> (r: Vec<Source>)
        ensures
            r@ == seq![Source::AdAway, Source::Adbyss, Source::StevenBlack, Source::Yoyo],
    {
        vec![Source::AdAway, Source::Adbyss, Source::StevenBlack, Source::Yoyo]
    }

    /// # As Flag.
    pub fn as_flag(self) -> (r: u8)
        ensures
            r == source_flag(self),
    {
        match self {
            Source::AdAway => FLAG_ADAWAY,
            Source::Adbyss => FLAG_ADBYSS,
            Source::StevenBlack => FLAG_STEVENBLACK,
            Source::Yoyo => FLAG_YOYO,
        }
    }

    /// # As Str.
    pub fn as_str(self) -> (r: &'static str)
        ensures
            r@ == source_name(self),
    {
        match self {
            Source::AdAway => "AdAway",
            Source::Adbyss => "Adbyss",
            Source::StevenBlack => "Steven Black",
            Source::Yoyo => "Yoyo",
        }
    }

    /// # Cache File Name.
    ///
    /// The name of the file, in the temporary directory, that caches the
    /// source's data.
    pub fn cache_name(self) -> (r: &'static str)
        ensures
            r@ == match self {
                Source::AdAway => "_adbyss-adaway.tmp"@,
                Source::Adbyss => "_adbyss.tmp"@,
                Source::StevenBlack => "_adbyss-sb.tmp"@,
                Source::Yoyo => "_adbyss-yoyo.tmp"@,
            },
    {
        match self {
            Source::AdAway => "_adbyss-adaway.tmp",
            Source::Adbyss => "_adbyss.tmp",
            Source::StevenBlack => "_adbyss-sb.tmp",
            Source::Yoyo => "_adbyss-yoyo.tmp",
        }
    }

    /// # Line Prefix.
    pub fn line_prefix(self) -> (r: &'static str)
        ensures
            r@ == source_prefix(self),
    {
        match self {
            Source::AdAway | Source::Yoyo => "127.0.0.1 ",
            Source::StevenBlack => "0.0.0.0 ",
            Source::Adbyss => "",
        }
    }

    /// # Source URL.
    ///
    /// For remote sources, the URL where the data is found; empty for
    /// Adbyss' own list.
    pub fn url(self) -> (r: &'static str)
        ensures
            r@ == match self {
                Source::AdAway => "https://adaway.org/hosts.txt"@,
                Source::Adbyss => ""@,
                Source::StevenBlack => "https://raw.githubusercontent.com/StevenBlack/hosts/master/hosts"@,
                Source::Yoyo => "https://pgl.yoyo.org/adservers/serverlist.php?hostformat=hosts&showintro=0&mimetype=plaintext"@,
            },
    {
        match self {
            Source::AdAway => "https://adaway.org/hosts.txt",
            Source::Adbyss => "",
            Source::StevenBlack => "https://raw.githubusercontent.com/StevenBlack/hosts/master/hosts",
            Source::Yoyo => "https://pgl.yoyo.org/adservers/serverlist.php?hostformat=hosts&showintro=0&mimetype=plaintext",
        }
    }

    /// # Static Data.
    ///
    /// Adbyss' own list ships with the library; the others must be fetched.
    pub fn static_data(self) -> (r: Option<&'static str>)
        ensures
            self == Source::Adbyss ==> r == Some(ADBYSS_LIST),
            self != Source::Adbyss ==> r is None,
    {
        match self {
            Source::Adbyss => Some(ADBYSS_LIST),
            _ => None,
        }
    }

    /// # Patch Raw.
    ///
    /// Some sources return a straight domain list, while others are formatted
    /// like a hosts file, with address prefixes, comments, etc. This keeps
    /// only the prefixed lines, stripped of the prefix, comments and
    /// surrounding whitespace, joined by newlines.
    pub fn patch(self, src: String) -> (r: String)
        ensures
            r@ == patch_spec(self, src@),
    {
        if self == Source::Adbyss {
            return src;
        }
        let prefix = str_chars(self.line_prefix());
        let chars = str_chars(src.as_str());
        let lines = split_str_lines_chars(chars.as_slice());
        let mut kept: Vec<Vec<char>> = Vec::new();
        let mut i: usize = 0;
        while i < lines.len()
            invariant
                i <= lines@.len(),
                prefix@ == source_prefix(self),
                views(lines@) == str_lines(src@),
                views(kept@) == patch_lines(source_prefix(self), views(lines@).take(i as int)),
            decreases lines@.len() - i,
        {
            let line = &lines[i];
            let ghost t = views(lines@).take(i + 1);
            assert(t.drop_last() =~= views(lines@).take(i as int));
            assert(t.last() == line@);
            if starts_with_chars(line.as_slice(), prefix.as_slice()) {
                let rest = sub_chars(line.as_slice(), prefix.len(), line.len());
                assert(rest@ =~= line@.skip(prefix@.len() as int));
                let cut = before_char_exec(rest.as_slice(), '#');
                let clean = trim_chars(cut.as_slice());
                if clean.len() > 0 {
                    let ghost k = views(kept@);
                    kept.push(clean);
                    assert(views(kept@) =~= k.push(clean@));
                }
            }
            i = i + 1;
        }
        assert(views(lines@).take(lines@.len() as int) =~= views(lines@));
        let joined = join_chars(&kept, '\n');
        chars_to_string(joined.as_slice())
    }

    /// # Fetch Many.
    ///
    /// Turn the fetched data of the sources `src` enables into domains. Each
    /// entry of `fetched` pairs a source with what fetching it gave; entries
    /// of sources that `src` does not enable are ignored. If any enabled
    /// fetch failed, its error is returned (the first in order). Otherwise
    /// every line of every (trimmed) text is tried as a domain, and the
    /// parsed domains are returned sorted by host, each host once.
    pub fn fetch_many(src: u8, fetched: &Vec<(Source, Result<String, AdbyssError>)>) -> (r: Result<
        Vec<Domain>,
        AdbyssError,
    >)
        ensures
            match r {
                Err(e) => first_fetch_error(src, fetched@, e),
                Ok(ds) => {
                    &&& fetches_ok(src, fetched@)
                    &&& forall|i: int| 0 <= i < ds@.len() ==> (#[trigger] ds@[i]).wf()
                    &&& strictly_sorted(hosts_of(ds@))
                    &&& forall|h: Seq<char>| #[trigger] hosts_of(ds@).contains(h) <==> fetched_yields(src, fetched@, h)
                },
            },
    {
        let table = SuffixTable::builtin();
        let mut pairs: Vec<(Vec<char>, Domain)> = Vec::new();
        let mut i: usize = 0;
        while i < fetched.len()
            invariant
                i <= fetched@.len(),
                table.wf(),
                table@ == builtin_rules(),
                forall|j: int| 0 <= j < i && source_enabled(src, fetched@[j].0) ==> fetched@[j].1 is Ok,
                forall|j: int| 0 <= j < pairs@.len() ==> (#[trigger] pairs@[j]).1.wf() && pairs@[j].0@ == pairs@[j].1@,
                forall|h: Seq<char>|
                    #[trigger] keys_of(pairs@).contains(h) <==> exists|j: int|
                        0 <= j < i && source_enabled(src, fetched@[j].0) && (
                        #[trigger] fetched@[j].1 matches Ok(t) && text_yields(t@, h)),
            decreases fetched@.len() - i,
        {
            let (s, res) = &fetched[i];
            let ghost p0 = pairs@;
            let f = s.as_flag();
            if f & src != 0 {
                assert(src & f != 0) by (bit_vector)
                    requires
                        f & src != 0,
                ;
                match res {
                    Err(e) => {
                        return Err(e.duplicate());
                    },
                    Ok(text) => {
                        let chars = str_chars(text.as_str());
                        let trimmed = trim_chars(chars.as_slice());
                        let lines = split_str_lines_chars(trimmed.as_slice());
                        let mut k: usize = 0;
                        while k < lines.len()
                            invariant
                                k <= lines@.len(),
                                table.wf(),
                                table@ == builtin_rules(),
                                views(lines@) == str_lines(trim(text@)),
                                forall|j: int| 0 <= j < pairs@.len() ==> (#[trigger] pairs@[j]).1.wf() && pairs@[j].0@ == pairs@[j].1@,
                                forall|h: Seq<char>|
                                    #[trigger] keys_of(pairs@).contains(h) <==> (keys_of(p0).contains(h)
                                        || lines_yield(views(lines@).take(k as int), h)),
                            decreases lines@.len() - k,
                        {
                            let ls = chars_to_string(lines[k].as_slice());
                            let ghost pk = pairs@;
                            let ghost line = lines@[k as int]@;
                            assert(views(lines@)[k as int] == line);
                            let ghost tk = views(lines@).take(k as int);
                            assert(views(lines@).take(k + 1) =~= tk.push(line));
                            match Domain::parse_with(&table, ls.as_str()) {
                                Some(d) => {
                                    let key = str_chars(d.host());
                                    let ghost x = (key, d);
                                    pairs.push((key, d));
                                    proof {
                                        assert(pairs@ == pk.push(x));
                                        assert forall|h: Seq<char>|
                                            #[trigger] keys_of(pairs@).contains(h) <==> (keys_of(p0).contains(h)
                                                || lines_yield(tk.push(line), h)) by {
                                            lemma_keys_push(pk, x, h);
                                            lemma_lines_yield_push(tk, line, h);
                                        }
                                    }
                                },
                                None => {
                                    proof {
                                        assert forall|h: Seq<char>|
                                            #[trigger] keys_of(pairs@).contains(h) <==> (keys_of(p0).contains(h)
                                                || lines_yield(tk.push(line), h)) by {
                                            lemma_lines_yield_push(tk, line, h);
                                        }
                                    }
                                },
                            }
                            k = k + 1;
                        }
                        assert(views(lines@).take(lines@.len() as int) =~= views(lines@));
                    },
                }
            } else {
                assert(src & f == 0) by (bit_vector)
                    requires
                        f & src == 0,
                ;
            }
            proof {
                assert forall|h: Seq<char>|
                    #[trigger] keys_of(pairs@).contains(h) <==> exists|j: int|
                        0 <= j < i + 1 && source_enabled(src, fetched@[j].0) && (
                        #[trigger] fetched@[j].1 matches Ok(t) && text_yields(t@, h)) by {
                    if exists|j: int| 0 <= j < i + 1 && source_enabled(src, fetched@[j].0) && (
                        #[trigger] fetched@[j].1 matches Ok(t) && text_yields(t@, h)) {
                        let j = choose|j: int| 0 <= j < i + 1 && source_enabled(src, fetched@[j].0) && (
                            #[trigger] fetched@[j].1 matches Ok(t) && text_yields(t@, h));
                        if j < i {
                            assert(keys_of(p0).contains(h));
                        }
                    }
                    if keys_of(p0).contains(h) {
                        let j = choose|j: int| 0 <= j < i && source_enabled(src, fetched@[j].0) && (
                            #[trigger] fetched@[j].1 matches Ok(t) && text_yields(t@, h));
                        assert(0 <= j < i + 1);
                    }
                }
            }
            i = i + 1;
        }
        let ghost pv = pairs@;
        let sorted = sort_dedup(pairs);
        let mut out: Vec<Domain> = Vec::new();
        let mut sorted = sorted;
        let ghost sv = sorted@;
        let mut rev: Vec<Domain> = Vec::new();
        while sorted.len() > 0
            invariant
                sorted@ == sv.take(sorted@.len() as int),
                rev@.len() + sorted@.len() == sv.len(),
                forall|j: int| 0 <= j < rev@.len() ==> rev@[j] == sv[sv.len() - 1 - j].1,
            decreases sorted@.len(),
        {
            let (_, d) = sorted.pop().unwrap();
            rev.push(d);
            assert(sorted@ =~= sv.take(sorted@.len() as int));
        }
        while rev.len() > 0
            invariant
                out@.len() + rev@.len() == sv.len(),
                forall|j: int| 0 <= j < rev@.len() ==> rev@[j] == sv[sv.len() - 1 - j].1,
                forall|j: int| 0 <= j < out@.len() ==> out@[j] == sv[j].1,
            decreases rev@.len(),
        {
            let d = rev.pop().unwrap();
            out.push(d);
        }
        proof {
            assert forall|j: int| 0 <= j < sv.len() implies sv[j].0@ == sv[j].1@ && sv[j].1.wf() by {
                assert(sv.contains(sv[j]));
                assert(pv.contains(sv[j]));
                let m = choose|m: int| 0 <= m < pv.len() && pv[m] == sv[j];
                assert(pv[m].0@ == pv[m].1@);
            }
            assert(hosts_of(out@) =~= keys_of(sv));
            assert forall|j: int| 0 <= j < out@.len() implies (#[trigger] out@[j]).wf() by {
                assert(out@[j] == sv[j].1);
            }
        }
        Ok(out)
    }
}

} // verus!
