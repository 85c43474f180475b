use vstd::prelude::*;

verus! {

/// Relies on String::push: appends one character.
#[verifier::external_body]
pub(crate) fn push_char(s: &mut String, c: char)
    ensures
        final(s)@ == old(s)@.push(c),
{
    s.push(c)
}

/// The text of a file read line by line and joined with single line feeds:
/// a line ends at a line feed, or at a carriage return and line feed, and the
/// terminator of the last line leaves no empty line behind.
pub open spec fn joined_lines(s: Seq<char>) -> Seq<char>
    decreases s.len(),
{
    if s.len() == 0 {
        seq![]
    } else {
        let skip: int = if s[0] == '\n' {
            1
        } else if s[0] == '\r' && s.len() >= 2 && s[1] == '\n' {
            2
        } else {
            0
        };
        if skip == 0 {
            seq![s[0]] + joined_lines(s.drop_first())
        } else if s.len() == skip {
            seq![]
        } else {
            seq!['\n'] + joined_lines(s.subrange(skip, s.len() as int))
        }
    }
}

/// The length of the first line of `s`: the characters before its first line
/// feed, or all of `s` when it has none.
pub open spec fn line_end(s: Seq<char>) -> nat
    decreases s.len(),
{
    if s.len() == 0 || s[0] == '\n' {
        0
    } else {
        1 + line_end(s.drop_first())
    }
}

/// A line without the carriage return that ended it, if any.
pub open spec fn strip_cr(line: Seq<char>) -> Seq<char> {
    if line.len() > 0 && line.last() == '\r' {
        line.drop_last()
    } else {
        line
    }
}

/// The lines of `s`: it is split at each line feed, a carriage return before
/// a line feed is dropped, and a final line feed ends the last line without
/// starting an empty one.
pub open spec fn file_lines(s: Seq<char>) -> Seq<Seq<char>>
    decreases s.len(),
{
    if s.len() == 0 {
        seq![]
    } else {
        let i = line_end(s);
        if i < s.len() {
            seq![strip_cr(s.subrange(0, i as int))] + file_lines(s.subrange(i + 1int, s.len() as int))
        } else {
            seq![s]
        }
    }
}

/// Lines joined with a single line feed between neighbours.
pub open spec fn join_with_lf(lines: Seq<Seq<char>>) -> Seq<char>
    decreases lines.len(),
{
    if lines.len() == 0 {
        seq![]
    } else if lines.len() == 1 {
        lines[0]
    } else {
        lines[0] + seq!['\n'] + join_with_lf(lines.drop_first())
    }
}

/// `joined_lines` taken one line at a time: the first line, then the rest.
proof fn lemma_first_line(s: Seq<char>)
    requires
        s.len() > 0,
    ensures
        line_end(s) <= s.len(),
        line_end(s) == s.len() ==> joined_lines(s) == s,
        line_end(s) < s.len() ==> joined_lines(s) == strip_cr(s.subrange(0, line_end(s) as int))
            + if line_end(s) + 1 == s.len() {
            Seq::<char>::empty()
        } else {
            seq!['\n'] + joined_lines(s.subrange(line_end(s) + 1int, s.len() as int))
        },
    decreases s.len(),
{
    let t = s.drop_first();
    if s[0] == '\n' {
        assert(s.subrange(0, 0) =~= Seq::<char>::empty());
        assert(s.subrange(1, s.len() as int) =~= t);
    } else if s[0] == '\r' && s.len() >= 2 && s[1] == '\n' {
        assert(line_end(t) == 0);
        assert(s.subrange(0, 1).drop_last() =~= Seq::<char>::empty());
    } else if t.len() == 0 {
        assert(line_end(t) == 0);
        assert(seq![s[0]] + joined_lines(t) =~= s);
    } else {
        lemma_first_line(t);
        let j = line_end(t);
        if j == t.len() {
            assert(seq![s[0]] + t =~= s);
        } else {
            let i = j + 1;
            assert(s.subrange(0, i as int) =~= seq![s[0]] + t.subrange(0, j as int));
            assert(s.subrange(i + 1int, s.len() as int) =~= t.subrange(j + 1int, t.len() as int));
            if j == 0 {
                assert(strip_cr(seq![s[0]]) =~= seq![s[0]]);
                assert(t.subrange(0, 0) =~= Seq::<char>::empty());
                assert(strip_cr(s.subrange(0, i as int)) =~= seq![s[0]] + strip_cr(
                    t.subrange(0, j as int),
                ));
            } else {
                assert(strip_cr(s.subrange(0, i as int)) =~= seq![s[0]] + strip_cr(
                    t.subrange(0, j as int),
                ));
            }
            let tail = if j + 1 == t.len() {
                Seq::<char>::empty()
            } else {
                seq!['\n'] + joined_lines(t.subrange(j + 1int, t.len() as int))
            };
            assert(joined_lines(s) =~= seq![s[0]] + (strip_cr(t.subrange(0, j as int)) + tail));
        }
    }
}

/// Joining the text character by character, as `joined_lines` states it, is
/// splitting it into lines and joining them with single line feeds.
pub proof fn lemma_joined_lines_is_join_of_lines(s: Seq<char>)
    ensures
        joined_lines(s) == join_with_lf(file_lines(s)),
    decreases s.len(),
{
    if s.len() > 0 {
        lemma_first_line(s);
        let i = line_end(s);
        if i < s.len() {
            let rest = s.subrange(i + 1int, s.len() as int);
            let first = strip_cr(s.subrange(0, i as int));
            lemma_joined_lines_is_join_of_lines(rest);
            let ls = seq![first] + file_lines(rest);
            if rest.len() == 0 {
                assert(ls =~= seq![first]);
                assert(joined_lines(s) =~= first);
            } else {
                assert(file_lines(rest).len() > 0);
                assert(ls.drop_first() =~= file_lines(rest));
                assert(join_with_lf(ls) == first + seq!['\n'] + join_with_lf(file_lines(rest)));
                assert(joined_lines(s) =~= join_with_lf(ls));
            }
        }
    }
}

/// The characters of a string, in order.
pub fn chars_of(s: &str) -> (r: Vec<char>)
    ensures
        r@ == s@,
{
    let mut v: Vec<char> = Vec::new();
    for c in it: s.chars()
        invariant
            v@ == it.seq().subrange(0, it.index() as int),
    {
        v.push(c);
    }
    v
}

/// Joins the lines of `contents` with single line feeds, as reading a file
/// line by line and joining the lines does.
pub fn join_lines(contents: &str) -> (r: String)
    ensures
        r@ == joined_lines(contents@),
        r@ == join_with_lf(file_lines(contents@)),
{
    proof {
        lemma_joined_lines_is_join_of_lines(contents@);
    }
    let v = chars_of(contents);
    let n = v.len();
    let mut out = String::new();
    let mut i: usize = 0;
    assert(v@.subrange(0, n as int) =~= v@);
    assert(out@ + joined_lines(v@) =~= joined_lines(v@));
    while i < n
        invariant
            n == v@.len(),
            i <= n,
            out@ + joined_lines(v@.subrange(i as int, n as int)) == joined_lines(v@),
        decreases n - i,
    {
        let rest = Ghost(v@.subrange(i as int, n as int));
        let c = v[i];
        let skip: usize = if c == '\n' {
            1
        } else if c == '\r' && i + 1 < n && v[i + 1] == '\n' {
            2
        } else {
            0
        };
        assert(rest@[0] == c);
        if skip == 0 {
            assert(rest@.drop_first() =~= v@.subrange(i + 1int, n as int));
            push_char(&mut out, c);
            i += 1;
            assert(out@ + joined_lines(v@.subrange(i as int, n as int)) =~= joined_lines(v@));
        } else if i + skip == n {
            i = n;
            assert(out@ =~= out@ + joined_lines(v@.subrange(i as int, n as int)));
        } else {
            assert(rest@.subrange(skip as int, rest@.len() as int) =~= v@.subrange(
                i + skip,
                n as int,
            ));
            push_char(&mut out, '\n');
            i += skip;
            assert(out@ + joined_lines(v@.subrange(i as int, n as int)) =~= joined_lines(v@));
        }
    }
    assert(v@.subrange(n as int, n as int) =~= Seq::<char>::empty());
    assert(out@ + seq![] =~= out@);
    out
}

} // verus!
