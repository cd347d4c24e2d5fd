use vstd::prelude::*;
use vstd::string::*;

verus! {

/// Splitting a character sequence on `'\n'`, one character at a time: an
/// empty input yields a single empty segment, a leading newline closes an
/// empty segment, and any other character extends the first segment of the
/// rest. Every segment is kept, empty ones included.
pub open spec fn split_lines_spec(s: Seq<char>) -> Seq<Seq<char>>
    decreases s.len(),
{
    if s.len() == 0 {
        seq![s]
    } else if s[0] == '\n' {
        seq![Seq::<char>::empty()] + split_lines_spec(s.skip(1))
    } else {
        let rest = split_lines_spec(s.skip(1));
        seq![seq![s[0]] + rest[0]] + rest.skip(1)
    }
}

/// Splitting always yields at least one segment.
pub proof fn lemma_split_lines_len(s: Seq<char>)
    ensures
        split_lines_spec(s).len() >= 1,
    decreases s.len(),
{
    if s.len() == 0 {
    } else {
        lemma_split_lines_len(s.skip(1));
    }
}

/// A sequence without newlines splits into itself alone.
pub proof fn lemma_split_lines_whole(s: Seq<char>)
    requires
        forall|j: int| 0 <= j < s.len() ==> s[j] != '\n',
    ensures
        split_lines_spec(s) == seq![s],
    decreases s.len(),
{
    if s.len() == 0 {
    } else {
        lemma_split_lines_whole(s.skip(1));
        lemma_split_lines_len(s.skip(1));
        assert(seq![s[0]] + s.skip(1) =~= s);
        assert(split_lines_spec(s) =~= seq![s]);
    }
}

/// The first newline closes the first segment: splitting
/// `a + '\n' + t`, for a newline-free `a`, yields `a` followed by the
/// segments of `t`.
pub proof fn lemma_split_lines_break(a: Seq<char>, t: Seq<char>)
    requires
        forall|j: int| 0 <= j < a.len() ==> a[j] != '\n',
    ensures
        split_lines_spec(a + seq!['\n'] + t) == seq![a] + split_lines_spec(t),
    decreases a.len(),
{
    let s = a + seq!['\n'] + t;
    if a.len() == 0 {
        assert(s[0] == '\n');
        assert(s.skip(1) =~= t);
        assert(a =~= Seq::<char>::empty());
        assert(split_lines_spec(s) =~= seq![a] + split_lines_spec(t));
    } else {
        assert(s[0] == a[0]);
        assert(s.skip(1) =~= a.skip(1) + seq!['\n'] + t);
        lemma_split_lines_break(a.skip(1), t);
        lemma_split_lines_len(t);
        let rest = split_lines_spec(s.skip(1));
        assert(rest == seq![a.skip(1)] + split_lines_spec(t));
        assert(rest[0] == a.skip(1));
        assert(seq![s[0]] + rest[0] =~= a);
        assert(rest.skip(1) =~= split_lines_spec(t));
        assert(split_lines_spec(s) =~= seq![a] + split_lines_spec(t));
    }
}

/// The views of a list of strings, in order.
pub open spec fn line_views(ls: Seq<String>) -> Seq<Seq<char>> {
    ls.map_values(|l: String| l@)
}

/// Splits a response body on newline characters, keeping empty segments.
/// An empty body yields one empty string.
pub fn split_lines(s: &str) -> (r: Vec<String>)
    ensures
        line_views(r@) == split_lines_spec(s@),
{
    let n: usize = s.unicode_len();
    let mut out: Vec<String> = Vec::new();
    let mut start: usize = 0;
    let mut i: usize = 0;
    proof {
        assert(line_views(out@) =~= Seq::<Seq<char>>::empty());
        assert(s@.skip(0) =~= s@);
        assert(line_views(out@) + split_lines_spec(s@) =~= split_lines_spec(s@));
    }
    while i < n
        invariant
            n == s@.len(),
            start <= i <= n,
            forall|j: int| start <= j < i ==> s@[j] != '\n',
            line_views(out@) + split_lines_spec(s@.skip(start as int)) == split_lines_spec(s@),
        decreases n - i,
    {
        if s.get_char(i) == '\n' {
            let seg = s.substring_char(start, i).to_owned();
            proof {
                let a = s@.subrange(start as int, i as int);
                let t = s@.skip(i as int + 1);
                assert(s@.skip(start as int) =~= a + seq!['\n'] + t);
                lemma_split_lines_break(a, t);
                assert(line_views(out@.push(seg)) =~= line_views(out@) + seq![a]);
                assert((line_views(out@) + seq![a]) + split_lines_spec(t) =~= line_views(out@)
                    + split_lines_spec(s@.skip(start as int)));
            }
            out.push(seg);
            start = i + 1;
        }
        i = i + 1;
    }
    let tail = s.substring_char(start, n).to_owned();
    proof {
        let a = s@.subrange(start as int, n as int);
        assert(a =~= s@.skip(start as int));
        lemma_split_lines_whole(a);
        assert(line_views(out@.push(tail)) =~= line_views(out@) + seq![a]);
        assert(line_views(out@) + seq![a] =~= line_views(out@) + split_lines_spec(
            s@.skip(start as int),
        ));
    }
    out.push(tail);
    out
}

} // verus!
