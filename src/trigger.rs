//! The trigger heuristic: a comment asks for a CI run when its last line
//! holds the marker `\check`.
use vstd::prelude::*;
use crate::event::{EventKind, EventView, ReviewEvent};
use crate::text::{chars_of, contains, last_line, last_line_of, line_start, matches_at, seq_contains};

verus! {

/// The marker text `\check`.
pub open spec fn marker() -> Seq<char> {
    seq!['\\', 'c', 'h', 'e', 'c', 'k']
}

/// The last line of the comment holds the marker. A text with no lines asks
/// for nothing.
pub open spec fn requests_check(text: Seq<char>) -> bool {
    match last_line(text) {
        Some(line) => contains(line, marker()),
        None => false,
    }
}

/// The event is a comment whose last line holds the marker.
pub open spec fn triggers(e: EventView) -> bool {
    e.event_kind == EventKind::CommentAdded && requests_check(e.comment_text)
}

fn marker_chars() -> (r: Vec<char>)
    ensures
        r@ == marker(),
{
    let r: Vec<char> = vec!['\\', 'c', 'h', 'e', 'c', 'k'];
    assert(r@ =~= marker());
    r
}

/// Whether a comment text asks for a CI run.
pub fn comment_requests_check(text: &str) -> (r: bool)
    ensures
        r == requests_check(text@),
{
    let chars = chars_of(text);
    match last_line_of(&chars) {
        Some(line) => seq_contains(&line, &marker_chars()),
        None => false,
    }
}

/// Whether the event should start a CI run.
pub fn should_trigger(event: &ReviewEvent) -> (r: bool)
    ensures
        r == triggers(event@),
{
    if event.event_kind != EventKind::CommentAdded {
        return false;
    }
    comment_requests_check(event.comment_text.as_str())
}

/// A comment whose last line is the marker alone asks for a CI run, whatever
/// comes before it.
pub proof fn lemma_marker_line_requests_check(before: Seq<char>)
    ensures
        requests_check(before + seq!['\n'] + marker()),
{
    let s = before + seq!['\n'] + marker();
    let n: int = before.len() as int + 1;
    assert(s.len() == n + 6);
    assert(s[n - 1] == '\n');
    assert forall|k: int| n <= k < n + 6 implies s[k] != '\n' by {
        assert(s[k] == marker()[k - n]);
    }
    assert(s.last() == 'k');
    lemma_line_start_skips(s, n, n + 6);
    let line = s.subrange(n, n + 6);
    assert(line =~= marker());
    assert(line.subrange(0, 6) =~= marker());
    assert(matches_at(line, marker(), 0));
    assert(last_line(s) == Some(line));
}

/// From `end` back to just past a newline at `start - 1`, the line starts at
/// `start`.
proof fn lemma_line_start_skips(s: Seq<char>, start: int, end: int)
    requires
        0 < start <= end <= s.len(),
        s[start - 1] == '\n',
        forall|k: int| start <= k < end ==> s[k] != '\n',
    ensures
        line_start(s, end) == start,
    decreases end - start,
{
    if end > start {
        lemma_line_start_skips(s, start, end - 1);
    }
}

} // verus!
