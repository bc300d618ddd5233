//! From a ring of samples to the points of a scrolling chart.

use vstd::prelude::*;
use crate::ring::RingSeries;

verus! {

/// The number of samples that each chart shows.
pub const HISTORY_LEN: usize = 30;

/// The time of the newest sample on the time axis.
pub const TIME_ORIGIN: i64 = 0;

/// The length of the time axis, in frames.
pub const TIME_SPAN: u32 = 30;

/// A point in chart space: frames before now, and the reading then.
#[derive(Clone, Copy, Debug, PartialEq, Eq, Structural)]
pub struct ChartPoint {
    pub x: i64,
    pub y: u32,
}

/// The points of `samples`, oldest first: the newest sample at `x = 0` and
/// each older one a step of 1 to its left, `y` the sample itself.
pub open spec fn projection(samples: Seq<u32>) -> Seq<ChartPoint> {
    Seq::new(
        samples.len(),
        |i: int| ChartPoint { x: (i - (samples.len() - 1)) as i64, y: samples[i] },
    )
}

/// Maps `series` onto chart space. The time axis that the points will be
/// drawn against is given by the time of its right edge and by its length; the
/// points are anchored at the newest sample and not clipped, so neither
/// changes them.
pub fn project(series: &RingSeries, time_origin: i64, time_span: u32) -> (points: Vec<ChartPoint>)
    requires
        series@.len() <= i64::MAX,
    ensures
        points@ == projection(series@),
        points@.len() == series@.len(),
        forall|i: int| 0 <= i < points@.len() ==> (#[trigger] points@[i]).y == series@[i],
        forall|i: int| 0 <= i < points@.len() - 1 ==> points@[i + 1].x == (#[trigger] points@[i]).x + 1,
        points@.len() > 0 ==> points@.last().x == 0,
{
    let samples = series.as_slice();
    let count = samples.len();
    let mut points: Vec<ChartPoint> = Vec::new();
    let mut index: usize = 0;
    while index < count
        invariant
            index <= count,
            count == samples@.len(),
            count <= i64::MAX,
            points@.len() == index,
            forall|i: int| 0 <= i < index ==> points@[i] == projection(samples@)[i],
        decreases count - index,
    {
        let x: i64 = index as i64 - (count - 1) as i64;
        points.push(ChartPoint { x, y: samples[index] });
        index = index + 1;
    }
    assert(points@ =~= projection(samples@));
    points
}

/// The axis of time of a chart.
#[derive(Clone, Copy, Debug, PartialEq, Eq)]
pub struct Axis {
    pub title: &'static str,
    pub lower: i64,
    pub upper: i64,
}

impl Axis {
    /// The axis is titled "Time" and covers the `time_span` frames that end
    /// at `time_origin`.
    pub open spec fn spans(self, time_origin: i64, time_span: u32) -> bool {
        &&& self.title@ == "Time"@
        &&& self.lower == time_origin - time_span
        &&& self.upper == time_origin
    }
}

/// The time axis: `time_span` frames that end at `time_origin`.
pub fn time_axis(time_origin: i64, time_span: u32) -> (axis: Axis)
    requires
        time_origin - time_span >= i64::MIN,
    ensures
        axis.spans(time_origin, time_span),
{
    Axis { title: "Time", lower: time_origin - time_span as i64, upper: time_origin }
}

} // verus!
