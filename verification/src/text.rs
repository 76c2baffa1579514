//! Source text as lines.
//!
//! A text is a `Seq<char>`. Its lines are the pieces between line feeds; a
//! carriage return directly before a line feed belongs to the line ending,
//! and a text that ends with a line feed has no empty last line.

use vstd::prelude::*;
use vstd::string::StringExecFns;

verus! {

/// `n` is where the first line of `text` ends: no line feed lies before
/// `n`, and `n` is either the place of a line feed or the end of the text.
pub open spec fn first_break(text: Seq<char>, n: int) -> bool {
    &&& 0 <= n <= text.len()
    &&& forall|j: int| 0 <= j < n ==> text[j] != '\n'
    &&& n < text.len() ==> text[n] == '\n'
}

/// The place where the first line of `text` ends.
pub open spec fn line_feed_at(text: Seq<char>) -> int {
    choose|n: int| first_break(text, n)
}

/// `piece` without one carriage return at its end.
pub open spec fn strip_cr(piece: Seq<char>) -> Seq<char> {
    if piece.len() > 0 && piece.last() == '\r' {
        piece.drop_last()
    } else {
        piece
    }
}

/// The lines of `text`, in order.
pub open spec fn lines_of(text: Seq<char>) -> Seq<Seq<char>>
    decreases text.len(),
{
    let n = line_feed_at(text);
    if text.len() == 0 {
        Seq::empty()
    } else if 0 <= n < text.len() {
        seq![strip_cr(text.subrange(0, n))] + lines_of(text.subrange(n + 1, text.len() as int))
    } else {
        seq![text]
    }
}

/// The texts of a sequence of strings.
pub open spec fn texts(lines: Seq<String>) -> Seq<Seq<char>> {
    lines.map_values(|s: String| s@)
}

/// Every text has a place where its first line ends.
pub proof fn lemma_first_break_exists(text: Seq<char>)
    ensures
        first_break(text, line_feed_at(text)),
    decreases text.len(),
{
    if text.len() == 0 || text[0] == '\n' {
        assert(first_break(text, 0));
    } else {
        let rest = text.drop_first();
        lemma_first_break_exists(rest);
        let k = line_feed_at(rest);
        assert forall|j: int| 0 <= j < k + 1 implies text[j] != '\n' by {
            if j > 0 {
                assert(text[j] == rest[j - 1]);
            }
        }
        if k + 1 < text.len() {
            assert(text[k + 1] == rest[k]);
        }
        assert(first_break(text, k + 1));
    }
}

/// No line of a text holds a line feed.
pub proof fn lemma_lines_hold_no_line_feed(text: Seq<char>)
    ensures
        forall|i: int, j: int|
            0 <= i < lines_of(text).len() && 0 <= j < lines_of(text)[i].len() ==> lines_of(
                text,
            )[i][j] != '\n',
    decreases text.len(),
{
    lemma_first_break_exists(text);
    let n = line_feed_at(text);
    if text.len() > 0 && n < text.len() {
        let rest = text.subrange(n + 1, text.len() as int);
        lemma_lines_hold_no_line_feed(rest);
        let first = strip_cr(text.subrange(0, n));
        assert forall|i: int, j: int|
            0 <= i < lines_of(text).len() && 0 <= j < lines_of(text)[i].len() implies lines_of(
            text,
        )[i][j] != '\n' by {
            if i == 0 {
                assert(lines_of(text)[0] == first);
                assert(first[j] == text[j]);
            } else {
                assert(lines_of(text)[i] == lines_of(rest)[i - 1]);
            }
        }
    }
}

/// A place that meets `first_break` is the one `line_feed_at` names.
pub proof fn lemma_first_break_unique(text: Seq<char>, n: int)
    requires
        first_break(text, n),
    ensures
        line_feed_at(text) == n,
{
    let k = line_feed_at(text);
    assert(first_break(text, k));
    if k < n {
        assert(text[k] == '\n');
    } else if n < k {
        assert(text[n] == '\n');
    }
}

/// A text whose first line feed stands at `n` starts with the line before
/// it, and goes on with the lines of what follows the line feed.
pub proof fn lemma_lines_of_break(text: Seq<char>, n: int)
    requires
        first_break(text, n),
        n < text.len(),
    ensures
        lines_of(text) == seq![strip_cr(text.subrange(0, n))] + lines_of(
            text.subrange(n + 1, text.len() as int),
        ),
{
    lemma_first_break_unique(text, n);
}

/// A text without a line feed is empty or its own single line.
pub proof fn lemma_lines_of_unbroken(text: Seq<char>)
    requires
        forall|j: int| 0 <= j < text.len() ==> text[j] != '\n',
    ensures
        lines_of(text) == if text.len() == 0 {
            Seq::<Seq<char>>::empty()
        } else {
            seq![text]
        },
{
    lemma_first_break_unique(text, text.len() as int);
}

/// `first` followed by `second`.
pub fn join(first: &str, second: &str) -> (joined: String)
    ensures
        joined@ == first@ + second@,
{
    String::from_str(first).concat(second)
}

/// `first`, `second` and `third` in a row.
pub fn join3(first: &str, second: &str, third: &str) -> (joined: String)
    ensures
        joined@ == first@ + second@ + third@,
{
    String::from_str(first).concat(second).concat(third)
}

/// `String::push` appends the one character to the end of the string and
/// leaves what stood there as it was.
pub assume_specification[ String::push ](s: &mut String, c: char)
    ensures
        final(s)@ == old(s)@.push(c),
;

/// Splits `source` into its lines.
pub fn split_lines(source: &str) -> (lines: Vec<String>)
    ensures
        texts(lines@) == lines_of(source@),
{
    let mut lines: Vec<String> = Vec::new();
    let mut current = String::new();
    // A carriage return that was read and not yet written: it is dropped
    // where a line feed follows, and belongs to the line otherwise.
    let mut held_cr = false;
    let ghost pending: Seq<char> = Seq::empty();
    proof {
        assert(pending + source@.skip(0) =~= source@);
        assert(texts(lines@) + lines_of(source@) =~= lines_of(source@));
    }
    for c in it: source.chars()
        invariant
            it.seq() == source@,
            pending == if held_cr {
                current@.push('\r')
            } else {
                current@
            },
            !held_cr ==> current@.len() == 0 || current@.last() != '\r',
            forall|j: int| 0 <= j < pending.len() ==> pending[j] != '\n',
            lines_of(source@) == texts(lines@) + lines_of(pending + source@.skip(it.index())),
    {
        let ghost i = it.index();
        let ghost rest = source@.skip(i);
        let ghost whole = pending + rest;
        assert(rest[0] == c);
        if c == '\n' {
            proof {
                assert(first_break(whole, pending.len() as int));
                lemma_lines_of_break(whole, pending.len() as int);
                assert(whole.subrange(0, pending.len() as int) =~= pending);
                assert(whole.subrange(pending.len() as int + 1, whole.len() as int) =~= source@.skip(
                    i + 1,
                ));
                assert(strip_cr(pending) == current@) by {
                    if held_cr {
                        assert(current@.push('\r').drop_last() =~= current@);
                    }
                }
                assert(Seq::<char>::empty() + source@.skip(i + 1) =~= source@.skip(i + 1));
                assert(texts(lines@.push(current)) =~= texts(lines@).push(current@));
                assert(texts(lines@) + (seq![current@] + lines_of(source@.skip(i + 1)))
                    =~= texts(lines@).push(current@) + lines_of(source@.skip(i + 1)));
                pending = Seq::empty();
            }
            lines.push(current);
            current = String::new();
            held_cr = false;
        } else {
            if held_cr {
                current.push('\r');
            }
            if c == '\r' {
                held_cr = true;
            } else {
                current.push(c);
                held_cr = false;
            }
            proof {
                assert(pending.push(c) + source@.skip(i + 1) =~= whole);
                pending = pending.push(c);
            }
        }
    }
    proof {
        assert(source@.skip(source@.len() as int) =~= Seq::<char>::empty());
        assert(pending + Seq::<char>::empty() =~= pending);
        lemma_lines_of_unbroken(pending);
    }
    if held_cr {
        current.push('\r');
    }
    if !current.as_str().is_empty() {
        proof {
            assert(texts(lines@.push(current)) =~= texts(lines@).push(current@));
        }
        lines.push(current);
    }
    lines
}

} // verus!
