use vstd::prelude::*;

verus! {

/// `needle` occurs in `hay` as a contiguous run of characters.
pub open spec fn is_substring(needle: Seq<char>, hay: Seq<char>) -> bool {
    exists|i: int|
        0 <= i && i + needle.len() <= hay.len() && #[trigger] hay.subrange(i, i + needle.len())
            == needle
}

/// The lowercase form of a text, character by character, as `str::to_lowercase`
/// gives it.
pub uninterp spec fn lower_of(s: Seq<char>) -> Seq<char>;

/// Relies on `str::to_lowercase`: its result depends on the characters of `s`
/// alone.
#[verifier::external_body]
fn lowercase(s: &str) -> (r: String)
    ensures
        r@ == lower_of(s@),
{
    s.to_lowercase()
}

/// The runs of `s` between newline characters, in order: always one more run
/// than `s` has newlines.
pub open spec fn pieces(s: Seq<char>) -> Seq<Seq<char>>
    decreases s.len(),
{
    if s.len() == 0 {
        seq![seq![]]
    } else {
        let p = pieces(s.drop_last());
        if s.last() == '\n' {
            p.push(seq![])
        } else {
            p.update(p.len() - 1, p.last().push(s.last()))
        }
    }
}

/// A run ended by a newline, without the carriage return just before it.
pub open spec fn strip_cr(s: Seq<char>) -> Seq<char> {
    if s.len() > 0 && s.last() == '\r' {
        s.drop_last()
    } else {
        s
    }
}

/// The lines of `s`: split at each `\n` or `\r\n`, with no terminator kept; a
/// last line ending does not open an empty line, so the empty text has none.
pub open spec fn lines_of(s: Seq<char>) -> Seq<Seq<char>> {
    let p = pieces(s);
    let ended = p.drop_last().map_values(|l: Seq<char>| strip_cr(l));
    if p.last().len() == 0 {
        ended
    } else {
        ended.push(p.last())
    }
}

/// The character sequences of a list of string slices.
pub open spec fn views_of(v: Seq<&str>) -> Seq<Seq<char>> {
    v.map_values(|l: &str| l@)
}

/// Holds of a line that contains `query`.
pub open spec fn holds_query(query: Seq<char>) -> spec_fn(Seq<char>) -> bool {
    |l: Seq<char>| is_substring(query, l)
}

/// The lines of `contents` that contain `query`, in order.
pub open spec fn matching_lines(query: Seq<char>, contents: Seq<char>) -> Seq<Seq<char>> {
    lines_of(contents).filter(holds_query(query))
}

/// Holds of a line that contains `query` once both are in lowercase.
pub open spec fn holds_query_folded(query: Seq<char>) -> spec_fn(Seq<char>) -> bool {
    |l: Seq<char>| is_substring(lower_of(query), lower_of(l))
}

/// The lines of `contents` that contain `query` regardless of case, in order.
pub open spec fn matching_lines_folded(query: Seq<char>, contents: Seq<char>) -> Seq<
    Seq<char>,
> {
    lines_of(contents).filter(holds_query_folded(query))
}

/// The lines of `contents`, as slices of it.
fn split_lines<'a>(contents: &'a str) -> (r: Vec<&'a str>)
    ensures
        views_of(r@) == lines_of(contents@),
{
    let cs = chars_of(contents);
    let n: usize = cs.len();
    let mut lines: Vec<&'a str> = Vec::new();
    let ghost mut done: Seq<Seq<char>> = seq![];
    let mut start: usize = 0;
    let mut i: usize = 0;
    proof {
        assert(cs@.take(0) =~= seq![]);
        assert(cs@.subrange(0, 0) =~= seq![]);
    }
    while i < n
        invariant
            n == cs@.len(),
            cs@ == contents@,
            start <= i <= n,
            pieces(cs@.take(i as int)) == done.push(cs@.subrange(start as int, i as int)),
            views_of(lines@) == done.map_values(|l: Seq<char>| strip_cr(l)),
        decreases n - i,
    {
        let ghost before = cs@.take(i as int);
        proof {
            assert(cs@.take(i + 1).drop_last() =~= before);
        }
        if cs[i] == '\n' {
            let end: usize = if i > start && cs[i - 1] == '\r' {
                i - 1
            } else {
                i
            };
            let line = contents.substring_char(start, end);
            proof {
                let run = cs@.subrange(start as int, i as int);
                assert(line@ =~= strip_cr(run));
            }
            let ghost earlier = lines@;
            lines.push(line);
            proof {
                let run = cs@.subrange(start as int, i as int);
                assert(views_of(lines@) =~= views_of(earlier).push(line@));
                assert(views_of(lines@) =~= done.push(run).map_values(|l: Seq<char>| strip_cr(l)));
                done = done.push(run);
                assert(cs@.subrange(i + 1, i + 1) =~= seq![]);
            }
            start = i + 1;
        } else {
            proof {
                let run = cs@.subrange(start as int, i as int);
                assert(run.push(cs@[i as int]) =~= cs@.subrange(start as int, i + 1));
                assert(done.push(run).update(done.len() as int, run.push(cs@[i as int]))
                    =~= done.push(cs@.subrange(start as int, i + 1)));
            }
        }
        i = i + 1;
    }
    proof {
        assert(cs@.take(n as int) =~= cs@);
    }
    if start < n {
        let line = contents.substring_char(start, n);
        let ghost earlier = lines@;
        lines.push(line);
        proof {
            assert(views_of(lines@) =~= views_of(earlier).push(line@));
        }
        proof {
            assert(views_of(lines@) =~= done.map_values(|l: Seq<char>| strip_cr(l)).push(
                cs@.subrange(start as int, n as int),
            ));
            assert(done.push(cs@.subrange(start as int, n as int)).drop_last() =~= done);
        }
    } else {
        proof {
            assert(done.push(cs@.subrange(start as int, n as int)).drop_last() =~= done);
        }
    }
    lines
}

/// The characters of `s`, one per element.
fn chars_of(s: &str) -> (r: Vec<char>)
    ensures
        r@ == s@,
{
    broadcast use vstd::string::axiom_spec_iter;

    let mut out: Vec<char> = Vec::new();
    for c in it: s.chars()
        invariant
            out@ == it.seq().take(it.index() as int),
    {
        out.push(c);
    }
    assert(out@ =~= s@);
    out
}

/// Whether `needle[..]` matches `hay` starting at position `at`.
fn matches_at(hay: &Vec<char>, needle: &Vec<char>, at: usize) -> (r: bool)
    requires
        at + needle@.len() <= hay@.len(),
    ensures
        r == (hay@.subrange(at as int, at + needle@.len()) == needle@),
{
    let n: usize = hay.len();
    let mut k: usize = 0;
    while k < needle.len()
        invariant
            n == hay@.len(),
            k <= needle@.len(),
            at + needle@.len() <= hay@.len(),
            forall|j: int| 0 <= j < k ==> hay@[at + j] == needle@[j],
        decreases needle@.len() - k,
    {
        if hay[at + k] != needle[k] {
            assert(hay@.subrange(at as int, at + needle@.len())[k as int] != needle@[k as int]);
            return false;
        }
        k = k + 1;
    }
    assert(hay@.subrange(at as int, at + needle@.len()) =~= needle@);
    true
}

/// Whether `needle` occurs anywhere in `haystack`; the empty needle occurs in
/// every text.
pub fn contains(haystack: &str, needle: &str) -> (r: bool)
    ensures
        r == is_substring(needle@, haystack@),
{
    let hay = chars_of(haystack);
    let pat = chars_of(needle);
    if pat.len() > hay.len() {
        return false;
    }
    let n: usize = hay.len();
    let last: usize = n - pat.len();
    let mut at: usize = 0;
    loop
        invariant
            at <= last,
            n == hay@.len(),
            last + pat@.len() == n,
            hay@ == haystack@,
            pat@ == needle@,
            forall|i: int|
                0 <= i < at ==> #[trigger] hay@.subrange(i, i + pat@.len()) != pat@,
        decreases last - at,
    {
        if matches_at(&hay, &pat, at) {
            return true;
        }
        if at == last {
            return false;
        }
        at = at + 1;
    }
}

/// The lines of `contents` that contain `query`, in order of appearance.
pub fn search<'a>(query: &'a str, contents: &'a str) -> (r: Vec<&'a str>)
    ensures
        views_of(r@) == matching_lines(query@, contents@),
{
    let lines = split_lines(contents);
    let mut out: Vec<&'a str> = Vec::new();
    let mut j: usize = 0;
    while j < lines.len()
        invariant
            j <= lines@.len(),
            views_of(lines@) == lines_of(contents@),
            views_of(out@) == views_of(lines@).take(j as int).filter(holds_query(query@)),
        decreases lines@.len() - j,
    {
        let line = lines[j];
        proof {
            let all = views_of(lines@);
            assert(all.take(j + 1) =~= all.take(j as int).push(line@));
            all.take(j as int).lemma_filter_push(line@, holds_query(query@));
        }
        let ghost earlier = out@;
        if contains(line, query) {
            out.push(line);
            proof {
                assert(views_of(out@) =~= views_of(earlier).push(line@));
            }
        }
        j = j + 1;
    }
    proof {
        assert(views_of(lines@).take(j as int) =~= views_of(lines@));
    }
    out
}

/// The lines of `contents` that contain `query` once both are in lowercase, in
/// order of appearance; the lines come back as they stand in `contents`.
pub fn search_case_insnesitive<'a>(query: &'a str, contents: &'a str) -> (r: Vec<&'a str>)
    ensures
        views_of(r@) == matching_lines_folded(query@, contents@),
{
    let ghost query_view = query@;
    let folded_query = lowercase(query);
    let lines = split_lines(contents);
    let mut out: Vec<&'a str> = Vec::new();
    let mut j: usize = 0;
    while j < lines.len()
        invariant
            j <= lines@.len(),
            views_of(lines@) == lines_of(contents@),
            query_view == query@,
            folded_query@ == lower_of(query@),
            views_of(out@) == views_of(lines@).take(j as int).filter(
                holds_query_folded(query_view),
            ),
        decreases lines@.len() - j,
    {
        let line = lines[j];
        proof {
            let all = views_of(lines@);
            assert(all.take(j + 1) =~= all.take(j as int).push(line@));
            all.take(j as int).lemma_filter_push(line@, holds_query_folded(query_view));
        }
        let folded = lowercase(line);
        let ghost earlier = out@;
        if contains(folded.as_str(), folded_query.as_str()) {
            out.push(line);
            proof {
                assert(views_of(out@) =~= views_of(earlier).push(line@));
            }
        }
        j = j + 1;
    }
    proof {
        assert(views_of(lines@).take(j as int) =~= views_of(lines@));
    }
    out
}

} // verus!
