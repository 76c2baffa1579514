//! The completion detector: whether an exercise's source still carries the
//! "not done" marker, and the lines around the marker if it does.
//!
//! The check is a text search. Deleting the marker makes an exercise look
//! done whether or not it was solved.

use crate::text::{lines_of, split_lines, texts};
use vstd::prelude::*;

verus! {

/// The pattern of a marker line: a `//` or `///` comment that holds the
/// phrase `I AM NOT DONE`, in any letter case, and nothing else. White space
/// may stand before the comment, around the phrase and between its words.
pub const I_AM_DONE_REGEX: &'static str = r"^\s*///?\s*(?i:I\s+AM\s+NOT\s+DONE)\s*$";

/// How many lines are shown before and after the marker line.
pub const CONTEXT: usize = 2;

/// Whether the regular expression `pattern` matches somewhere in `text`;
/// `None` where `pattern` is refused as a regular expression.
pub uninterp spec fn regex_is_match(pattern: Seq<char>, text: Seq<char>) -> Option<bool>;

/// Compiles `pattern` with `regex::Regex::new` and searches `text` with
/// `Regex::is_match`. Taken on trust: that the outcome is decided by the two
/// strings alone. Nothing is claimed about which strings a pattern matches.
#[verifier::external_body]
fn regex_match(pattern: &str, text: &str) -> (r: Option<bool>)
    ensures
        r == regex_is_match(pattern@, text@),
{
    match regex::Regex::new(pattern) {
        Ok(re) => Some(re.is_match(text)),
        Err(_) => None,
    }
}

/// A marker line is a line that `I_AM_DONE_REGEX` matches. Were the pattern
/// refused as a regular expression, no line would be one.
pub open spec fn is_marker_line(line: Seq<char>) -> bool {
    regex_is_match(I_AM_DONE_REGEX@, line) == Some(true)
}

/// One line of the excerpt shown for a pending exercise.
#[derive(Clone, Debug, PartialEq, Eq)]
pub struct ContextLine {
    /// The text of the line, without its line ending.
    pub line: String,
    /// The line's number in the source, counted from 1.
    pub number: usize,
    /// Whether this is the marker line.
    pub important: bool,
}

/// What a `ContextLine` stands for.
pub struct ContextLineView {
    pub line: Seq<char>,
    pub number: int,
    pub important: bool,
}

impl View for ContextLine {
    type V = ContextLineView;

    open spec fn view(&self) -> ContextLineView {
        ContextLineView { line: self.line@, number: self.number as int, important: self.important }
    }
}

/// Whether an exercise still needs work.
#[derive(Clone, Debug, PartialEq, Eq)]
pub enum State {
    /// No marker line is left in the source.
    Done,
    /// The source holds a marker line; the lines around the first one.
    Pending(Vec<ContextLine>),
}

/// What a `State` stands for.
pub enum StateView {
    Done,
    Pending(Seq<ContextLineView>),
}

impl View for State {
    type V = StateView;

    open spec fn view(&self) -> StateView {
        match self {
            State::Done => StateView::Done,
            State::Pending(context) => StateView::Pending(context_views(context@)),
        }
    }
}

/// What a sequence of context lines stands for.
pub open spec fn context_views(context: Seq<ContextLine>) -> Seq<ContextLineView> {
    context.map_values(|c: ContextLine| c@)
}

/// Line `m` is a marker line and no line before it is.
pub open spec fn is_first_marker(lines: Seq<Seq<char>>, m: int) -> bool {
    &&& 0 <= m < lines.len()
    &&& is_marker_line(lines[m])
    &&& forall|j: int| 0 <= j < m ==> !is_marker_line(#[trigger] lines[j])
}

/// The index of the first marker line among `lines`.
pub open spec fn first_marker(lines: Seq<Seq<char>>) -> Option<int> {
    if exists|m: int| is_first_marker(lines, m) {
        Some(choose|m: int| is_first_marker(lines, m))
    } else {
        None
    }
}

/// The index of the first line shown for a marker at line `m`.
pub open spec fn window_low(m: int) -> int {
    if m < CONTEXT as int {
        0
    } else {
        m - CONTEXT as int
    }
}

/// The index of the last line shown for a marker at line `m` of `len` lines.
pub open spec fn window_high(len: int, m: int) -> int {
    if m + CONTEXT as int > len - 1 {
        len - 1
    } else {
        m + CONTEXT as int
    }
}

/// The excerpt for a marker at line `m`: every line from `window_low` to
/// `window_high`, in order, numbered from 1 by its place in the source, with
/// line `m` alone flagged.
pub open spec fn context_window(lines: Seq<Seq<char>>, m: int) -> Seq<ContextLineView> {
    let low = window_low(m);
    let high = window_high(lines.len() as int, m);
    Seq::new(
        (high - low + 1) as nat,
        |k: int| ContextLineView { line: lines[low + k], number: low + k + 1, important: low + k == m },
    )
}

/// The state that a list of lines stands for.
pub open spec fn completion_of_lines(lines: Seq<Seq<char>>) -> StateView {
    match first_marker(lines) {
        None => StateView::Done,
        Some(m) => StateView::Pending(context_window(lines, m)),
    }
}

/// The state of an exercise whose source is `text`.
pub open spec fn completion_of(text: Seq<char>) -> StateView {
    completion_of_lines(lines_of(text))
}

/// `context` is an excerpt whose marker line is its line `flag`: its lines
/// are numbered in a row, from 1 or above, the marker line alone is
/// flagged, at most `CONTEXT` lines stand before it and at most `CONTEXT`
/// after it, and fewer stand before it only where the source starts there.
pub open spec fn is_excerpt_around(context: Seq<ContextLineView>, flag: int) -> bool {
    &&& 0 <= flag < context.len()
    &&& flag <= CONTEXT
    &&& context.len() - 1 - flag <= CONTEXT
    &&& context[0].number >= 1
    &&& context[0].number > 1 ==> flag == CONTEXT
    &&& forall|k: int|
        0 <= k < context.len() ==> {
            &&& (#[trigger] context[k]).number == context[0].number + k
            &&& context[k].important <==> k == flag
        }
}

/// `context` is an excerpt around one of its lines.
pub open spec fn is_excerpt(context: Seq<ContextLineView>) -> bool {
    exists|flag: int| #[trigger] is_excerpt_around(context, flag)
}

/// What holds of every state that the detector gives: a pending state holds
/// an excerpt around one flagged line.
pub open spec fn is_well_formed(state: StateView) -> bool {
    state matches StateView::Pending(context) ==> is_excerpt(context)
}

/// The excerpt for a marker at line `m` is one around its line for `m`. It
/// has at most `2 * CONTEXT + 1` lines, and as many where the source neither
/// starts nor ends within `CONTEXT` lines of the marker.
pub proof fn lemma_window_is_excerpt(lines: Seq<Seq<char>>, m: int)
    requires
        0 <= m < lines.len(),
    ensures
        is_excerpt_around(context_window(lines, m), m - window_low(m)),
        context_window(lines, m).len() <= 2 * CONTEXT + 1,
        CONTEXT <= m && m + CONTEXT < lines.len() ==> context_window(lines, m).len() == 2 * CONTEXT
            + 1,
{
}

/// The state of every source meets the invariant of states.
pub proof fn lemma_completion_wf(text: Seq<char>)
    ensures
        is_well_formed(completion_of(text)),
{
    let lines = lines_of(text);
    if exists|m: int| is_first_marker(lines, m) {
        let m = choose|m: int| is_first_marker(lines, m);
        lemma_window_is_excerpt(lines, m);
        assert(is_excerpt_around(context_window(lines, m), m - window_low(m)));
    }
}

/// The first marker line is the only line that meets `is_first_marker`.
pub proof fn lemma_first_marker_is(lines: Seq<Seq<char>>, m: int)
    requires
        is_first_marker(lines, m),
    ensures
        first_marker(lines) == Some(m),
{
    let k = choose|k: int| is_first_marker(lines, k);
    if k < m {
        assert(!is_marker_line(lines[k]));
    } else if m < k {
        assert(!is_marker_line(lines[m]));
    }
}

/// Without a marker line there is no first one.
pub proof fn lemma_first_marker_none(lines: Seq<Seq<char>>)
    requires
        forall|i: int| 0 <= i < lines.len() ==> !is_marker_line(#[trigger] lines[i]),
    ensures
        first_marker(lines) is None,
{
}

/// A source is done exactly when none of its lines is a marker line.
pub proof fn lemma_done_iff_no_marker(text: Seq<char>)
    ensures
        completion_of(text) is Done <==> forall|i: int|
            0 <= i < lines_of(text).len() ==> !is_marker_line(#[trigger] lines_of(text)[i]),
{
    let lines = lines_of(text);
    if exists|m: int| is_first_marker(lines, m) {
        let m = choose|m: int| is_first_marker(lines, m);
        assert(is_marker_line(lines[m]));
    } else if exists|i: int| 0 <= i < lines.len() && is_marker_line(#[trigger] lines[i]) {
        let i = choose|i: int| 0 <= i < lines.len() && is_marker_line(#[trigger] lines[i]);
        lemma_marker_has_first(lines, i);
    }
}

/// Where some line up to `i` is a marker line, there is a first one.
proof fn lemma_marker_has_first(lines: Seq<Seq<char>>, i: int)
    requires
        0 <= i < lines.len(),
        is_marker_line(lines[i]),
    ensures
        exists|m: int| is_first_marker(lines, m),
    decreases i,
{
    if exists|j: int| 0 <= j < i && is_marker_line(#[trigger] lines[j]) {
        let j = choose|j: int| 0 <= j < i && is_marker_line(#[trigger] lines[j]);
        lemma_marker_has_first(lines, j);
    } else {
        assert(is_first_marker(lines, i));
    }
}

/// A source without a marker line is done.
pub proof fn lemma_no_marker_is_done(text: Seq<char>)
    requires
        forall|i: int|
            0 <= i < lines_of(text).len() ==> !is_marker_line(#[trigger] lines_of(text)[i]),
    ensures
        completion_of(text) == StateView::Done,
{
    lemma_first_marker_none(lines_of(text));
}

/// A source whose only marker line is line `m` (counted from 0) of its `len`
/// lines is pending. Its excerpt runs from line `max(0, m - 2)` to line
/// `min(len - 1, m + 2)`, each line with its text and its index plus one as
/// its number, and the marker line is the one line flagged.
pub proof fn lemma_single_marker_window(text: Seq<char>, m: int)
    requires
        0 <= m < lines_of(text).len(),
        forall|i: int|
            0 <= i < lines_of(text).len() ==> (is_marker_line(#[trigger] lines_of(text)[i]) <==> i
                == m),
    ensures
        completion_of(text) matches StateView::Pending(context) && {
            let lines = lines_of(text);
            let low = if m - 2 > 0 {
                m - 2
            } else {
                0
            };
            let high = if m + 2 < lines.len() - 1 {
                m + 2
            } else {
                lines.len() - 1
            };
            &&& context.len() == high - low + 1
            &&& forall|k: int|
                0 <= k < context.len() ==> {
                    &&& (#[trigger] context[k]).line == lines[low + k]
                    &&& context[k].number == low + k + 1
                    &&& context[k].important <==> low + k == m
                }
            &&& 0 <= m - low < context.len()
            &&& forall|k: int|
                0 <= k < context.len() ==> ((#[trigger] context[k]).important <==> k == m - low)
        },
{
    lemma_first_marker_is(lines_of(text), m);
}

/// Whether `line` is a marker line.
pub fn line_is_marker(line: &str) -> (b: bool)
    ensures
        b == is_marker_line(line@),
{
    match regex_match(I_AM_DONE_REGEX, line) {
        Some(found) => found,
        None => false,
    }
}

/// Searches `lines` in order for the first marker line.
pub fn find_marker(lines: &Vec<String>) -> (found: Option<usize>)
    ensures
        match found {
            Some(m) => first_marker(texts(lines@)) == Some(m as int),
            None => first_marker(texts(lines@)) is None,
        },
{
    let mut i: usize = 0;
    while i < lines.len()
        invariant
            i <= lines.len(),
            forall|j: int| 0 <= j < i ==> !is_marker_line(#[trigger] texts(lines@)[j]),
        decreases lines.len() - i,
    {
        if line_is_marker(lines[i].as_str()) {
            proof {
                assert(texts(lines@)[i as int] == lines@[i as int]@);
                lemma_first_marker_is(texts(lines@), i as int);
            }
            return Some(i);
        }
        assert(texts(lines@)[i as int] == lines@[i as int]@);
        i += 1;
    }
    proof {
        lemma_first_marker_none(texts(lines@));
    }
    None
}

/// The excerpt around line `marker` of `lines`, taken as the marker line.
pub fn pending_context(lines: &Vec<String>, marker: usize) -> (context: Vec<ContextLine>)
    requires
        marker < lines.len(),
    ensures
        context_views(context@) == context_window(texts(lines@), marker as int),
{
    let low: usize = if marker < CONTEXT {
        0
    } else {
        marker - CONTEXT
    };
    let high: usize = if lines.len() - 1 - marker < CONTEXT {
        lines.len() - 1
    } else {
        marker + CONTEXT
    };
    let ghost window = context_window(texts(lines@), marker as int);
    let mut context: Vec<ContextLine> = Vec::new();
    let mut i: usize = low;
    while i <= high
        invariant
            low == window_low(marker as int),
            high == window_high(lines.len() as int, marker as int),
            low <= i <= high + 1,
            high < lines.len(),
            window == context_window(texts(lines@), marker as int),
            context_views(context@) == window.take(i - low),
        decreases high + 1 - i,
    {
        let entry = ContextLine { line: lines[i].clone(), number: i + 1, important: i == marker };
        proof {
            assert(entry@ == window[i - low]);
            assert(context_views(context@.push(entry)) =~= context_views(context@).push(entry@));
            assert(window.take(i - low).push(window[i - low]) =~= window.take(i + 1 - low));
        }
        context.push(entry);
        i += 1;
    }
    proof {
        assert(window.take(high + 1 - low) =~= window);
    }
    context
}

/// The state of the exercise whose lines are `lines`.
pub fn state_of_lines(lines: &Vec<String>) -> (state: State)
    ensures
        state@ == completion_of_lines(texts(lines@)),
{
    match find_marker(lines) {
        None => State::Done,
        Some(m) => State::Pending(pending_context(lines, m)),
    }
}

/// Decides from the source text alone whether an exercise still needs work.
pub fn detect(source: &str) -> (state: State)
    ensures
        state@ == completion_of(source@),
        is_well_formed(state@),
{
    proof {
        lemma_completion_wf(source@);
    }
    let lines = split_lines(source);
    state_of_lines(&lines)
}

} // verus!
