//! `repair check-witnesses`: reports the block ranges that have to be rescanned so that every
//! spendable note has a witness.

use nonempty::NonEmpty;
use vstd::prelude::*;
use vstd::string::*;

use crate::error;
use crate::error::{CommandError, ErrorKind};
use crate::network::BlockHeight;
use crate::text;

verus! {

/// A range of block heights, without its end.
#[derive(Clone, Copy, Debug, PartialEq, Eq)]
pub struct HeightRange {
    pub start: BlockHeight,
    pub end: BlockHeight,
}

/// How urgently a range is to be scanned.
#[derive(Clone, Copy, Debug, PartialEq, Eq, Structural)]
pub enum ScanPriority {
    Ignored,
    Scanned,
    Historic,
    OpenAdjacent,
    FoundNote,
    ChainTip,
    /// The range was scanned, but what was found is no longer trusted.
    Verify,
}

/// The ranges in a non-empty list, first to last.
pub uninterp spec fn nonempty_ranges(list: NonEmpty<HeightRange>) -> Seq<HeightRange>;

/// Calls `nonempty::NonEmpty::from_vec`.
///
/// Claimed: there is a list if and only if there are ranges, and it holds them in order.
#[verifier::external_body]
fn ranges_from_vec(ranges: Vec<HeightRange>) -> (list: Option<NonEmpty<HeightRange>>)
    ensures
        list is Some <==> ranges@.len() > 0,
        list matches Some(l) ==> nonempty_ranges(l) == ranges@,
{
    NonEmpty::from_vec(ranges)
}

/// Calls `nonempty::NonEmpty::len`.
///
/// Claimed: the result is the number of ranges in the list.
#[verifier::external_body]
fn ranges_len(list: &NonEmpty<HeightRange>) -> (count: usize)
    ensures
        count == nonempty_ranges(*list).len(),
{
    list.len()
}

/// The line that is printed for a range.
pub open spec fn range_text(range: HeightRange) -> Seq<char> {
    text::decimal(range.start.0 as nat) + ".."@ + text::decimal(range.end.0 as nat)
}

impl HeightRange {
    /// The line that is printed for this range.
    pub fn text(self) -> (r: String)
        ensures
            r@ == range_text(self),
    {
        let mut line = text::decimal_string(self.start.0 as u64);
        line.append("..");
        text::push_decimal(&mut line, self.end.0 as u64);
        line
    }
}

/// What is done about the ranges.
pub enum RescanStep {
    /// Nothing but to log this line.
    Report(String),
    /// The ranges are queued, and then this line is logged.
    Queue { ranges: NonEmpty<HeightRange>, priority: ScanPriority, log_line: String },
}

/// The wallet told the ranges, or why it cannot.
pub fn ranges_found(found: Result<Vec<HeightRange>, String>) -> (r: Result<
    Vec<HeightRange>,
    CommandError,
>)
    ensures
        match found {
            Ok(ranges) => r matches Ok(own) && own == ranges,
            Err(reason) => r matches Err(e) && e@ == error::command_text(
                ErrorKind::Generic,
                reason@,
            ),
        },
{
    ErrorKind::Generic.or_text(found)
}

/// The wallet queued the ranges, or could not for the given reason: the line to log.
pub fn ranges_queued(log_line: String, queued: Result<(), String>) -> (r: Result<
    String,
    CommandError,
>)
    ensures
        match queued {
            Ok(_) => r matches Ok(line) && line == log_line,
            Err(reason) => r matches Err(e) && e@ == error::command_text(
                ErrorKind::Generic,
                reason@,
            ),
        },
{
    match ErrorKind::Generic.or_text(queued) {
        Ok(_) => Ok(log_line),
        Err(error) => Err(error),
    }
}

/// The lines that are printed for the ranges.
pub fn report(ranges: &Vec<HeightRange>) -> (r: Vec<String>)
    ensures
        r@.map_values(|line: String| line@) == ranges@.map_values(
            |range: HeightRange| range_text(range),
        ),
{
    let mut lines: Vec<String> = Vec::new();
    let mut i: usize = 0;
    while i < ranges.len()
        invariant
            i <= ranges@.len(),
            lines@.len() == i,
            forall|j: int| 0 <= j < i ==> (#[trigger] lines@[j])@ == range_text(ranges@[j]),
        decreases ranges@.len() - i,
    {
        lines.push(ranges[i].text());
        i = i + 1;
    }
    proof {
        assert(lines@.map_values(|line: String| line@) =~= ranges@.map_values(
            |range: HeightRange| range_text(range),
        ));
    }
    lines
}

/// Decides what is done about the ranges. The wallet is modified only if the operator asked to
/// queue the ranges and there are some.
pub fn check_witnesses(ranges: Vec<HeightRange>, queue_rescan: bool) -> (r: RescanStep)
    ensures
        match r {
            RescanStep::Queue { ranges: queued, priority, log_line } => {
                &&& queue_rescan && ranges@.len() > 0
                &&& nonempty_ranges(queued) == ranges@
                &&& priority == ScanPriority::Verify
                &&& log_line@ == "Queued "@ + text::decimal(ranges@.len())
                    + " range(s) to be rescanned on the next sync"@
            },
            RescanStep::Report(line) => if ranges@.len() == 0 {
                line@ == "Every spendable note has a witness; nothing to rescan"@
            } else {
                !queue_rescan && line@ == text::decimal(ranges@.len())
                    + " range(s) need rescanning; re-run with --queue-rescan to queue them"@
            },
        },
{
    match ranges_from_vec(ranges) {
        None => RescanStep::Report(
            "Every spendable note has a witness; nothing to rescan".to_owned(),
        ),
        Some(ranges) => {
            let count: u64 = ranges_len(&ranges) as u64;
            if queue_rescan {
                let mut log_line = "Queued ".to_owned();
                text::push_decimal(&mut log_line, count);
                log_line.append(" range(s) to be rescanned on the next sync");
                RescanStep::Queue { ranges, priority: ScanPriority::Verify, log_line }
            } else {
                let mut line = text::decimal_string(count);
                line.append(
                    " range(s) need rescanning; re-run with --queue-rescan to queue them",
                );
                RescanStep::Report(line)
            }
        },
    }
}

} // verus!
