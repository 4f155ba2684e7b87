//! Once-per-worker failure-injection points used by integration tests.

use vstd::prelude::*;

use crate::text::str_eq;

verus! {

/// A place where a failure can be injected.
#[derive(Clone, Copy, Debug, PartialEq, Eq, Structural)]
pub enum Point {
    CodecInitialization,
    CodecReset,
    HeaderAllocation,
    OutputAllocation,
    Downstream,
}

/// Whether a failure is injected at `point`. This library never injects
/// failures; a test build selects one point through its environment and
/// answers from [`point_named`] instead.
pub fn take(point: Point) -> (r: bool)
    ensures
        !r,
{
    let _ = point;
    false
}

/// One once-per-worker injection decision of a test build: a failure is
/// injected at `point` when it is the selected point and no failure was
/// injected before. Gives whether to inject now, and whether an injection
/// has happened after this decision.
pub open spec fn injection(selected: Option<Point>, point: Point, taken: bool) -> (bool, bool) {
    (selected == Some(point) && !taken, taken || selected == Some(point))
}

/// Takes one once-per-worker injection decision (see [`injection`]).
pub fn injection_step(selected: Option<Point>, point: Point, taken: bool) -> (r: (bool, bool))
    ensures
        r == injection(selected, point, taken),
{
    let selected_here = match selected {
        Some(p) => p == point,
        None => false,
    };
    (selected_here && !taken, taken || selected_here)
}

/// A worker injects at most one failure: once a decision injected, no later
/// decision, at any point, injects again.
pub proof fn lemma_injects_once(selected: Option<Point>, first: Point, later: Point, taken: bool)
    ensures
        injection(selected, first, taken).0 ==> !injection(
            selected,
            later,
            injection(selected, first, taken).1,
        ).0,
{
}

/// Nothing is injected when no point is selected.
pub proof fn lemma_unselected_never_injects(point: Point, taken: bool)
    ensures
        !injection(None, point, taken).0,
{
}

/// The point a failure-injection selector names, if any.
pub open spec fn point_for(value: Seq<char>) -> Option<Point> {
    if value == "codec_initialization"@ {
        Some(Point::CodecInitialization)
    } else if value == "codec_reset"@ {
        Some(Point::CodecReset)
    } else if value == "header_allocation"@ {
        Some(Point::HeaderAllocation)
    } else if value == "output_allocation"@ {
        Some(Point::OutputAllocation)
    } else if value == "downstream"@ {
        Some(Point::Downstream)
    } else {
        None
    }
}

/// Parses a failure-injection selector (matched exactly).
pub fn point_named(value: &str) -> (r: Option<Point>)
    ensures
        r == point_for(value@),
{
    if str_eq(value, "codec_initialization") {
        Some(Point::CodecInitialization)
    } else if str_eq(value, "codec_reset") {
        Some(Point::CodecReset)
    } else if str_eq(value, "header_allocation") {
        Some(Point::HeaderAllocation)
    } else if str_eq(value, "output_allocation") {
        Some(Point::OutputAllocation)
    } else if str_eq(value, "downstream") {
        Some(Point::Downstream)
    } else {
        None
    }
}

} // verus!
