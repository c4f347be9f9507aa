//! Texts as sequences of lines: how a text falls into lines, and how lines
//! are joined into a text.

use vstd::prelude::*;
use vstd::std_specs::iter::IteratorSpec;
use vstd::string::StringExecFns;
use crate::text::texts;

verus! {

/// A line without its terminator: a carriage return that stood directly
/// before the line feed belongs to the terminator.
pub open spec fn without_carriage_return(line: Seq<char>) -> Seq<char> {
    if line.len() > 0 && line.last() == '\r' {
        line.drop_last()
    } else {
        line
    }
}

/// The lines of `s` that a line feed has ended.
pub open spec fn ended_lines(s: Seq<char>) -> Seq<Seq<char>>
    decreases s.len(),
{
    if s.len() == 0 {
        Seq::empty()
    } else if s.last() == '\n' {
        ended_lines(s.drop_last()).push(without_carriage_return(open_line(s.drop_last())))
    } else {
        ended_lines(s.drop_last())
    }
}

/// What `s` holds after its last line feed.
pub open spec fn open_line(s: Seq<char>) -> Seq<char>
    decreases s.len(),
{
    if s.len() == 0 {
        Seq::empty()
    } else if s.last() == '\n' {
        Seq::empty()
    } else {
        open_line(s.drop_last()).push(s.last())
    }
}

/// The lines of a text. A line ends at a line feed, or at a carriage return
/// directly followed by one; the terminator is no part of the line. Text after
/// the last line feed is a line of its own unless it is empty.
pub open spec fn lines_of(s: Seq<char>) -> Seq<Seq<char>> {
    if open_line(s).len() > 0 {
        ended_lines(s).push(open_line(s))
    } else {
        ended_lines(s)
    }
}

/// The lines joined by single line feeds.
pub open spec fn join_lines(lines: Seq<Seq<char>>) -> Seq<char>
    decreases lines.len(),
{
    if lines.len() == 0 {
        Seq::empty()
    } else if lines.len() == 1 {
        lines[0]
    } else {
        join_lines(lines.drop_last()) + seq!['\n'] + lines.last()
    }
}

/// The places in `s` right behind each of its line feeds, in order: where the
/// lines that a line feed has ended stop, terminator included.
pub open spec fn line_ends(s: Seq<char>) -> Seq<int>
    decreases s.len(),
{
    if s.len() == 0 {
        Seq::empty()
    } else if s.last() == '\n' {
        line_ends(s.drop_last()).push(s.len() as int)
    } else {
        line_ends(s.drop_last())
    }
}

/// The place in `s` right behind the terminator of its line `k`; the end of
/// `s` where no line feed ends that line.
pub open spec fn after_line(s: Seq<char>, k: int) -> int {
    if 0 <= k < line_ends(s).len() {
        line_ends(s)[k]
    } else {
        s.len() as int
    }
}

/// What `s` holds behind its line `k` and the terminator of that line.
pub open spec fn text_after(s: Seq<char>, k: int) -> Seq<char> {
    s.skip(after_line(s, k))
}

/// Whether some line of the text ends with a carriage return and a line feed.
pub open spec fn has_crlf(s: Seq<char>) -> bool {
    exists|i: int| 0 < i < s.len() && #[trigger] s[i] == '\n' && s[i - 1] == '\r'
}

/// The lines of a text, each as a string.
pub fn split_lines(content: &str) -> (lines: Vec<String>)
    ensures
        texts(lines@) == lines_of(content@),
{
    let mut lines: Vec<String> = Vec::new();
    let mut current = String::new();
    let mut held_return = false;
    for c in it: content.chars()
        invariant
            it.seq() == content@,
            texts(lines@) == ended_lines(content@.take(it.index())),
            current@ + (if held_return { seq!['\r'] } else { Seq::<char>::empty() })
                == open_line(content@.take(it.index())),
            !held_return ==> current@.len() == 0 || current@.last() != '\r',
    {
        let ghost before = content@.take(it.index());
        let ghost after = content@.take(it.index() + 1);
        assert(after.drop_last() == before);
        assert(after.last() == c);
        if c == '\n' {
            assert(without_carriage_return(open_line(before)) == current@) by {
                if held_return {
                    assert((current@ + seq!['\r']).drop_last() == current@);
                } else {
                    assert(current@ + Seq::<char>::empty() == current@);
                }
            }
            assert(texts(lines@.push(current)) == texts(lines@).push(current@));
            lines.push(current);
            current = String::new();
            held_return = false;
        } else {
            if held_return {
                current.push('\r');
            }
            if c == '\r' {
                held_return = true;
            } else {
                current.push(c);
                held_return = false;
            }
        }
    }
    assert(content@.take(content@.len() as int) == content@);
    if held_return {
        current.push('\r');
    } else {
        assert(current@ + Seq::<char>::empty() == current@);
    }
    assert(current@ == open_line(content@));
    assert(texts(lines@) == ended_lines(content@));
    if !current.as_str().is_empty() {
        assert(texts(lines@.push(current)) == texts(lines@).push(current@));
        lines.push(current);
    }
    lines
}

/// What a text holds behind its line `k` and the terminator of that line,
/// character for character.
pub fn text_after_line(content: &str, k: usize) -> (rest: String)
    ensures
        rest@ == text_after(content@, k as int),
{
    let mut rest = String::new();
    let mut seen: usize = 0;
    let mut started = false;
    for c in it: content.chars()
        invariant
            it.seq() == content@,
            !started ==> seen == line_ends(content@.take(it.index())).len() && seen <= k
                && rest@.len() == 0,
            started ==> line_ends(content@.take(it.index())).len() > k && rest@
                == content@.take(it.index()).skip(line_ends(content@.take(it.index()))[k as int]),
    {
        let ghost before = content@.take(it.index());
        let ghost after = content@.take(it.index() + 1);
        assert(after.drop_last() == before);
        assert(after.last() == c);
        proof {
            lemma_line_ends_bounds(before);
        }
        if started {
            rest.push(c);
            assert(line_ends(after)[k as int] == line_ends(before)[k as int]);
            assert(after.skip(line_ends(before)[k as int]) == before.skip(
                line_ends(before)[k as int],
            ).push(c));
        } else if c == '\n' {
            if seen == k {
                started = true;
                assert(line_ends(after)[k as int] == after.len());
                assert(after.skip(after.len() as int) == Seq::<char>::empty());
            } else {
                seen += 1;
            }
        }
    }
    assert(content@.take(content@.len() as int) == content@);
    proof {
        if !started {
            assert(content@.skip(content@.len() as int) == Seq::<char>::empty());
        }
    }
    rest
}

/// The lines from `from` up to `to`, joined by single line feeds.
pub fn join_range(lines: &Vec<String>, from: usize, to: usize) -> (joined: String)
    requires
        from <= to <= lines.len(),
    ensures
        joined@ == join_lines(texts(lines@).subrange(from as int, to as int)),
{
    let mut joined = String::new();
    let mut k: usize = from;
    while k < to
        invariant
            from <= k <= to <= lines.len(),
            joined@ == join_lines(texts(lines@).subrange(from as int, k as int)),
        decreases to - k,
    {
        let ghost done = texts(lines@).subrange(from as int, k as int);
        let ghost more = texts(lines@).subrange(from as int, k + 1);
        assert(more.drop_last() == done);
        assert(more.last() == lines[k as int]@);
        if k > from {
            proof {
                reveal_strlit("\n");
            }
            assert("\n"@ == seq!['\n']);
            joined.append("\n");
        }
        joined.append(lines[k].as_str());
        k += 1;
    }
    joined
}

/// Every line end lies in the text, right behind a line feed, and the line
/// ends grow.
pub proof fn lemma_line_ends_bounds(s: Seq<char>)
    ensures
        line_ends(s).len() == ended_lines(s).len(),
        forall|k: int|
            0 <= k < line_ends(s).len() ==> 0 < #[trigger] line_ends(s)[k] <= s.len() && s[line_ends(
                s,
            )[k] - 1] == '\n',
        forall|j: int, k: int|
            0 <= j < k < line_ends(s).len() ==> #[trigger] line_ends(s)[j] < #[trigger] line_ends(
                s,
            )[k],
        s.len() > 0 && s.last() == '\n' ==> line_ends(s).len() > 0 && line_ends(s).last()
            == s.len(),
    decreases s.len(),
{
    if s.len() > 0 {
        let t = s.drop_last();
        lemma_line_ends_bounds(t);
        assert forall|k: int| 0 <= k < line_ends(s).len() implies 0 < #[trigger] line_ends(s)[k]
            <= s.len() && s[line_ends(s)[k] - 1] == '\n' by {
            if k < line_ends(t).len() {
                assert(line_ends(s)[k] == line_ends(t)[k]);
                assert(t[line_ends(t)[k] - 1] == s[line_ends(t)[k] - 1]);
            }
        }
        assert forall|j: int, k: int| 0 <= j < k < line_ends(s).len() implies #[trigger] line_ends(
            s,
        )[j] < #[trigger] line_ends(s)[k] by {
            assert(line_ends(s)[j] == line_ends(t)[j]);
            if k < line_ends(t).len() {
                assert(line_ends(s)[k] == line_ends(t)[k]);
            }
        }
    }
}

/// Behind a text that is empty or ends with a line feed, a second text keeps
/// its own lines: the lines of the two together are the lines of the first
/// and then those of the second, and the line ends of the first stay.
pub proof fn lemma_lines_concat(a: Seq<char>, b: Seq<char>)
    requires
        a.len() == 0 || a.last() == '\n',
    ensures
        ended_lines(a + b) == ended_lines(a) + ended_lines(b),
        open_line(a + b) == open_line(b),
        lines_of(a + b) == ended_lines(a) + lines_of(b),
        line_ends(a + b).len() >= line_ends(a).len(),
        forall|k: int| 0 <= k < line_ends(a).len() ==> #[trigger] line_ends(a + b)[k] == line_ends(
            a,
        )[k],
    decreases b.len(),
{
    if b.len() == 0 {
        assert(a + b == a);
        assert(ended_lines(a) + ended_lines(b) == ended_lines(a));
        assert(ended_lines(a) + lines_of(b) == ended_lines(a));
    } else {
        let shorter = b.drop_last();
        lemma_lines_concat(a, shorter);
        assert((a + b).drop_last() == a + shorter);
        assert((a + b).last() == b.last());
        if b.last() == '\n' {
            assert(ended_lines(a + b) == (ended_lines(a) + ended_lines(shorter)).push(
                without_carriage_return(open_line(shorter)),
            ));
            assert(ended_lines(a + b) == ended_lines(a) + ended_lines(b));
        }
        if open_line(b).len() > 0 {
            assert(ended_lines(a) + ended_lines(b).push(open_line(b)) == (ended_lines(a)
                + ended_lines(b)).push(open_line(b)));
        }
    }
}

/// The text up to the end of line `k` ends with a line feed and holds the
/// first `k + 1` lines of the whole, and what follows holds the others.
pub proof fn lemma_lines_after(s: Seq<char>, k: int)
    requires
        0 <= k < line_ends(s).len(),
    ensures
        ended_lines(s.take(line_ends(s)[k])) == lines_of(s).take(k + 1),
        lines_of(text_after(s, k)) == lines_of(s).skip(k + 1),
        s.take(line_ends(s)[k]).last() == '\n',
        line_ends(s.take(line_ends(s)[k])).len() == k + 1,
{
    lemma_line_ends_bounds(s);
    let end = line_ends(s)[k];
    let head = s.take(end);
    let tail = s.skip(end);
    assert(head + tail == s);
    lemma_head_lines(s, k);
    lemma_lines_concat(head, tail);
    lemma_line_ends_bounds(head);
    assert(lines_of(s).take(k + 1) == ended_lines(head));
    assert(lines_of(s).skip(k + 1) == lines_of(tail));
}

proof fn lemma_head_lines(s: Seq<char>, k: int)
    requires
        0 <= k < line_ends(s).len(),
    ensures
        line_ends(s.take(line_ends(s)[k])).len() == k + 1,
    decreases s.len(),
{
    lemma_line_ends_bounds(s);
    let t = s.drop_last();
    lemma_line_ends_bounds(t);
    if k < line_ends(t).len() {
        lemma_head_lines(t, k);
        assert(line_ends(s)[k] == line_ends(t)[k]);
        assert(s.take(line_ends(s)[k]) == t.take(line_ends(t)[k]));
    } else {
        assert(s.take(s.len() as int) == s);
    }
}

/// The open line of a text is empty exactly if the text is empty or ends
/// with a line feed; otherwise both end with the same character.
pub proof fn lemma_open_line_last(s: Seq<char>)
    ensures
        s.len() > 0 && s.last() != '\n' ==> open_line(s).len() > 0 && open_line(s).last()
            == s.last(),
        s.len() > 0 && s.last() == '\n' ==> open_line(s).len() == 0,
        s.len() == 0 ==> open_line(s).len() == 0,
{
}

proof fn lemma_no_line_feed(s: Seq<char>)
    ensures
        !open_line(s).contains('\n'),
        forall|i: int| 0 <= i < ended_lines(s).len() ==> !(#[trigger] ended_lines(s)[i]).contains('\n'),
    decreases s.len(),
{
    if s.len() > 0 {
        let t = s.drop_last();
        lemma_no_line_feed(t);
        if s.last() == '\n' {
            let line = without_carriage_return(open_line(t));
            assert(!line.contains('\n')) by {
                if line.contains('\n') {
                    let j = choose|j: int| 0 <= j < line.len() && line[j] == '\n';
                    assert(open_line(t)[j] == '\n');
                }
            }
            assert forall|i: int| 0 <= i < ended_lines(s).len() implies !(#[trigger] ended_lines(
                s,
            )[i]).contains('\n') by {
                if i < ended_lines(t).len() {
                    assert(ended_lines(s)[i] == ended_lines(t)[i]);
                } else {
                    assert(ended_lines(s)[i] == line);
                }
            }
        } else {
            assert(ended_lines(s) == ended_lines(t));
            assert(!open_line(s).contains('\n')) by {
                if open_line(s).contains('\n') {
                    let j = choose|j: int| 0 <= j < open_line(s).len() && open_line(s)[j] == '\n';
                    assert(open_line(t)[j] == '\n');
                }
            }
        }
    }
}

/// No line of a text holds a line feed.
pub proof fn law_lines_hold_no_line_feed(s: Seq<char>)
    ensures
        forall|i: int| 0 <= i < lines_of(s).len() ==> !(#[trigger] lines_of(s)[i]).contains('\n'),
{
    lemma_no_line_feed(s);
}

/// The text that the ended lines and the open line of `s` spell out.
spec fn spelled(s: Seq<char>) -> Seq<char> {
    if ended_lines(s).len() == 0 {
        open_line(s)
    } else {
        join_lines(ended_lines(s)) + seq!['\n'] + open_line(s)
    }
}

proof fn lemma_spelled(s: Seq<char>)
    requires
        !has_crlf(s),
    ensures
        spelled(s) == s,
    decreases s.len(),
{
    if s.len() > 0 {
        let t = s.drop_last();
        assert(!has_crlf(t)) by {
            if has_crlf(t) {
                let i = choose|i: int| 0 < i < t.len() && #[trigger] t[i] == '\n' && t[i - 1] == '\r';
                assert(s[i] == '\n' && s[i - 1] == '\r');
            }
        }
        lemma_spelled(t);
        assert(s == t.push(s.last()));
        if s.last() == '\n' {
            lemma_open_line_last(t);
            assert(without_carriage_return(open_line(t)) == open_line(t)) by {
                if open_line(t).len() > 0 && open_line(t).last() == '\r' {
                    let i = s.len() - 1;
                    assert(s[i] == '\n' && s[i - 1] == '\r');
                }
            }
            let ended = ended_lines(t).push(open_line(t));
            assert(ended_lines(s) == ended);
            assert(ended.drop_last() == ended_lines(t));
            assert(join_lines(ended) == spelled(t));
            assert(spelled(s) == t + seq!['\n'] + Seq::<char>::empty());
        } else {
            assert(open_line(s) == open_line(t).push(s.last()));
            if ended_lines(s).len() > 0 {
                assert(spelled(s) == (join_lines(ended_lines(t)) + seq!['\n'] + open_line(
                    t,
                )).push(s.last()));
            }
        }
    }
}

/// A text without a line feed is one open line.
pub proof fn lemma_no_line_feed_one_line(s: Seq<char>)
    requires
        !s.contains('\n'),
    ensures
        ended_lines(s) == Seq::<Seq<char>>::empty(),
        open_line(s) == s,
    decreases s.len(),
{
    if s.len() > 0 {
        let t = s.drop_last();
        assert(s.last() != '\n') by {
            assert(s[s.len() - 1] == s.last());
        }
        assert(!t.contains('\n')) by {
            if t.contains('\n') {
                let i = choose|i: int| 0 <= i < t.len() && t[i] == '\n';
                assert(s[i] == '\n');
            }
        }
        lemma_no_line_feed_one_line(t);
        assert(t.push(s.last()) == s);
    } else {
        assert(s == Seq::<char>::empty());
    }
}

/// A text without a carriage return before a line feed is the parts between
/// its line feeds, joined by line feeds: its ended lines and then its open
/// line, which may be empty.
pub proof fn lemma_join_parts(s: Seq<char>)
    requires
        !has_crlf(s),
    ensures
        join_lines(ended_lines(s).push(open_line(s))) == s,
{
    lemma_spelled(s);
    let parts = ended_lines(s).push(open_line(s));
    assert(parts.drop_last() == ended_lines(s));
}

/// A text without a carriage return before a line feed is its ended lines,
/// each followed by a line feed, and then its open line: joining its lines
/// gives the text back, but for a line feed at the very end.
pub proof fn lemma_join_lines_of(s: Seq<char>)
    requires
        !has_crlf(s),
    ensures
        s.len() > 0 && s.last() == '\n' ==> join_lines(lines_of(s)) + seq!['\n'] == s,
        s.len() == 0 || s.last() != '\n' ==> join_lines(lines_of(s)) == s,
{
    lemma_spelled(s);
    lemma_open_line_last(s);
    if s.len() > 0 && s.last() != '\n' {
        let lines = ended_lines(s).push(open_line(s));
        assert(lines.drop_last() == ended_lines(s));
    } else if s.len() > 0 {
        assert(open_line(s) == Seq::<char>::empty());
        assert(spelled(s) == join_lines(ended_lines(s)) + seq!['\n']);
    }
}

/// Joining two runs of lines, neither of them empty, joins each and puts one
/// line feed between them.
pub proof fn lemma_join_concat(a: Seq<Seq<char>>, b: Seq<Seq<char>>)
    requires
        a.len() > 0,
        b.len() > 0,
    ensures
        join_lines(a + b) == join_lines(a) + seq!['\n'] + join_lines(b),
    decreases b.len(),
{
    assert((a + b).drop_last() == a + b.drop_last());
    assert((a + b).last() == b.last());
    if b.len() == 1 {
        assert(a + b.drop_last() == a);
    } else {
        lemma_join_concat(a, b.drop_last());
        assert(join_lines(a + b) == join_lines(a) + seq!['\n'] + join_lines(b.drop_last())
            + seq!['\n'] + b.last());
        assert(join_lines(b) == join_lines(b.drop_last()) + seq!['\n'] + b.last());
    }
}

} // verus!
