//! Progress events, and the line grammar by which the worker reports them on
//! its diagnostic stream.

use crate::text::{chars_of, find_from, has_prefix, lemma_seek_stops, seek, starts_with};
use vstd::prelude::*;

verus! {

/// One advisory status update of a call in flight.
#[derive(Debug, PartialEq, Eq)]
pub struct ProgressEvent {
    /// What the call is doing.
    pub stage: String,
    /// How far it has come, on a scale from 0 to 100. A worker's own figure is
    /// brought onto the scale before it is passed on.
    pub progress: i32,
    /// Words for the user.
    pub message: String,
}

/// What a [`ProgressEvent`] holds.
pub struct Progress {
    pub stage: Seq<char>,
    pub progress: int,
    pub message: Seq<char>,
}

impl View for ProgressEvent {
    type V = Progress;

    open spec fn view(&self) -> Progress {
        Progress { stage: self.stage@, progress: self.progress as int, message: self.message@ }
    }
}

/// The progress lies on the scale from 0 to 100.
pub open spec fn on_scale(event: Progress) -> bool {
    0 <= event.progress <= 100
}

/// The marker that opens a progress line.
pub open spec fn marker() -> Seq<char> {
    seq!['P', 'R', 'O', 'G', 'R', 'E', 'S', 'S', ':']
}

/// `c` is one of the ten decimal digits.
pub open spec fn is_digit(c: char) -> bool {
    '0' <= c && c <= '9'
}

/// The number that a run of decimal digits writes.
pub open spec fn digits_value(s: Seq<char>) -> int
    decreases s.len(),
{
    if s.len() == 0 {
        0
    } else {
        digits_value(s.drop_last()) * 10 + (s.last() as int - '0' as int)
    }
}

/// Every character of `s` is a decimal digit.
pub open spec fn all_digits(s: Seq<char>) -> bool {
    forall|i: int| 0 <= i < s.len() ==> is_digit(#[trigger] s[i])
}

/// The integer that `s` writes: an optional `+` or `-`, then one or more decimal
/// digits and nothing else.
pub open spec fn signed_decimal(s: Seq<char>) -> Option<int> {
    if s.len() == 0 {
        None
    } else {
        let signed = s[0] == '-' || s[0] == '+';
        let body = if signed {
            s.skip(1)
        } else {
            s
        };
        if body.len() == 0 || !all_digits(body) {
            None
        } else if s[0] == '-' {
            Some(-digits_value(body))
        } else {
            Some(digits_value(body))
        }
    }
}

/// `n` brought onto the scale from 0 to 100: what lies below counts as 0, what
/// lies above as 100.
pub open spec fn onto_scale(n: int) -> int {
    if n < 0 {
        0
    } else if n > 100 {
        100
    } else {
        n
    }
}

/// The progress that a field of a line stands for: the integer it writes,
/// brought onto the scale, and 0 where it writes none.
pub open spec fn progress_of(s: Seq<char>) -> int {
    match signed_decimal(s) {
        Some(v) => onto_scale(v),
        None => 0,
    }
}

/// The event that a line of the diagnostic stream stands for, if any.
///
/// A progress line is the marker, then a stage, a colon, a number, a colon and
/// a message. The stage ends at the first colon after the marker and the number
/// at the next one; the message is all that follows, colons included. The
/// progress of the event is the number brought onto the scale from 0 to 100.
pub open spec fn event_of(line: Seq<char>) -> Option<Progress> {
    let start = marker().len() as int;
    let first = seek(line, ':', start);
    let second = seek(line, ':', first + 1);
    if has_prefix(line, marker()) && second < line.len() {
        Some(
            Progress {
                stage: line.subrange(start, first),
                progress: progress_of(line.subrange(first + 1, second)),
                message: line.subrange(second + 1, line.len() as int),
            },
        )
    } else {
        None
    }
}

/// Every event that a line stands for has its progress on the scale.
pub proof fn lemma_events_are_on_scale(line: Seq<char>)
    ensures
        event_of(line) matches Some(event) ==> on_scale(event),
{
}

/// Reads a progress field: the integer it writes, brought onto the scale from
/// 0 to 100, and 0 where it writes none.
#[verifier::loop_isolation(false)]
pub fn read_number(field: &str) -> (r: i32)
    ensures
        r == progress_of(field@),
        0 <= r <= 100,
{
    let chars = chars_of(field);
    let to = chars.len();
    if to == 0 {
        return 0;
    }
    let negative = chars[0] == '-';
    let signed = negative || chars[0] == '+';
    let start: usize = if signed {
        1
    } else {
        0
    };
    let ghost body = chars@.subrange(start as int, to as int);
    proof {
        if signed {
            assert(field@.skip(1) =~= body);
        } else {
            assert(field@ =~= body);
        }
    }
    if start == to {
        return 0;
    }
    // The number read so far, and 101 for every number beyond the scale.
    let mut acc: i32 = 0;
    let mut i: usize = start;
    while i < to
        invariant
            start <= i <= to,
            all_digits(body.take(i - start)),
            0 <= digits_value(body.take(i - start)),
            acc == if digits_value(body.take(i - start)) > 100 {
                101
            } else {
                digits_value(body.take(i - start))
            },
        decreases to - i,
    {
        let c = chars[i];
        if c < '0' || c > '9' {
            proof {
                assert(body[i - start] == c);
            }
            return 0;
        }
        let digit: i32 = (c as u32 - '0' as u32) as i32;
        proof {
            let k = i - start;
            assert(body.take(k + 1).drop_last() =~= body.take(k));
            assert(body.take(k + 1).last() == c);
        }
        let next: i32 = acc * 10 + digit;
        acc = if next > 100 {
            101
        } else {
            next
        };
        i = i + 1;
    }
    proof {
        assert(body.take(to - start) =~= body);
    }
    if negative {
        0
    } else if acc > 100 {
        100
    } else {
        acc
    }
}

/// Reads one line of the diagnostic stream: the event of a progress line, and
/// `None` for any other line.
pub fn parse_progress_line(line: &str) -> (r: Option<ProgressEvent>)
    ensures
        match r {
            Some(event) => event_of(line@) == Some(event@) && on_scale(event@),
            None => event_of(line@) is None,
        },
{
    let chars = chars_of(line);
    let prefix = chars_of("PROGRESS:");
    proof {
        reveal_strlit("PROGRESS:");
        assert(prefix@ =~= marker());
    }
    if !starts_with(&chars, &prefix) {
        return None;
    }
    let start: usize = prefix.len();
    let first = find_from(&chars, ':', start);
    if first >= chars.len() {
        return None;
    }
    let second = find_from(&chars, ':', first + 1);
    if second >= chars.len() {
        return None;
    }
    let stage = line.substring_char(start, first).to_owned();
    let progress = read_number(line.substring_char(first + 1, second));
    let message = line.substring_char(second + 1, chars.len()).to_owned();
    Some(ProgressEvent { stage, progress, message })
}

/// A line that does not open with the marker is no progress line.
pub proof fn lemma_unmarked_line_is_ignored(line: Seq<char>)
    requires
        !has_prefix(line, marker()),
    ensures
        event_of(line) is None,
{
}

/// The line written for a stage, a progress field and a message.
pub open spec fn progress_line(stage: Seq<char>, field: Seq<char>, message: Seq<char>) -> Seq<char> {
    marker() + stage + seq![':'] + field + seq![':'] + message
}

/// A progress line reads back as what it was written for: the stage and the
/// field, which hold no colon, and the message, which may hold any.
pub proof fn lemma_progress_line_reads_back(
    stage: Seq<char>,
    field: Seq<char>,
    message: Seq<char>,
)
    requires
        !stage.contains(':'),
        !field.contains(':'),
    ensures
        event_of(progress_line(stage, field, message)) == Some(
            Progress { stage, progress: progress_of(field), message },
        ),
{
    let line = progress_line(stage, field, message);
    let start = marker().len() as int;
    let first = start + stage.len();
    let second = first + 1 + field.len();
    assert(line.subrange(0, start) =~= marker());
    lemma_seek_stops(line, ':', start, first);
    lemma_seek_stops(line, ':', first + 1, second);
    assert(line.subrange(start, first) =~= stage);
    assert(line.subrange(first + 1, second) =~= field);
    assert(line.subrange(second + 1, line.len() as int) =~= message);
}

} // verus!
