//! Renderable representation of a travel path: an append-only accumulator of
//! line segments. How the accumulated lines are rasterized into image tiles
//! is the renderer's concern, not this type's.

use crate::gps_processor::{ProcessResult, RawData};
use crate::journey_vector::TrackPoint;
use vstd::prelude::*;

verus! {

/// The map position of a raw sample.
pub open spec fn pt_of(d: RawData) -> TrackPoint {
    TrackPoint { longitude: d.longitude, latitude: d.latitude }
}

/// The segment that one classified sample adds to the renderable path: an
/// ignored sample adds none; a new segment starts as a degenerate zero-length
/// segment at the sample; a continuation runs from the previously accepted
/// sample (or, if none exists yet, from the sample itself) to the sample.
pub open spec fn line_for(last: Option<RawData>, r: ProcessResult, d: RawData) -> Option<
    PathSegment,
> {
    match r {
        ProcessResult::Ignore => None,
        ProcessResult::NewSegment => Some(PathSegment { start: pt_of(d), end: pt_of(d) }),
        ProcessResult::Append => Some(
            PathSegment {
                start: match last {
                    Option::Some(l) => pt_of(l),
                    Option::None => pt_of(d),
                },
                end: pt_of(d),
            },
        ),
    }
}

/// The zero or one lines a classified sample contributes, as a sequence.
pub open spec fn line_seq(last: Option<RawData>, r: ProcessResult, d: RawData) -> Seq<
    PathSegment,
> {
    match line_for(last, r, d) {
        Option::None => Seq::empty(),
        Option::Some(l) => seq![l],
    }
}

/// An ignored sample never appends a segment; a new segment is always
/// degenerate (start equals end); a continuation always starts at the
/// previously accepted sample, or at the sample itself when none exists yet,
/// and always ends at the sample.
pub proof fn lemma_line_for_shape(last: Option<RawData>, d: RawData)
    ensures
        line_for(last, ProcessResult::Ignore, d) is None,
        line_for(last, ProcessResult::NewSegment, d) matches Some(l) && l.start == l.end
            && l.end == pt_of(d),
        line_for(last, ProcessResult::Append, d) matches Some(l) && l.end == pt_of(d)
            && l.start == (match last {
            Option::Some(p) => pt_of(p),
            Option::None => pt_of(d),
        }),
{
}

/// Map one classification to the segment it adds, if any.
pub fn line_to_add(last: Option<RawData>, r: ProcessResult, d: &RawData) -> (l: Option<
    PathSegment,
>)
    ensures
        l == line_for(last, r, *d),
{
    match r {
        ProcessResult::Ignore => None,
        ProcessResult::NewSegment => Some(
            PathSegment {
                start: TrackPoint { longitude: d.longitude, latitude: d.latitude },
                end: TrackPoint { longitude: d.longitude, latitude: d.latitude },
            },
        ),
        ProcessResult::Append => {
            let start = match last {
                Option::Some(l) => TrackPoint { longitude: l.longitude, latitude: l.latitude },
                Option::None => TrackPoint { longitude: d.longitude, latitude: d.latitude },
            };
            Some(
                PathSegment {
                    start,
                    end: TrackPoint { longitude: d.longitude, latitude: d.latitude },
                },
            )
        },
    }
}

/// An ordered pair of points to be drawn on the renderable path. A
/// degenerate segment (`start == end`) marks a path break.
#[derive(Clone, Copy, PartialEq, Eq, Structural, Debug)]
pub struct PathSegment {
    pub start: TrackPoint,
    pub end: TrackPoint,
}

/// Append-only geometric accumulator of the line segments of a travel path.
#[derive(Clone, PartialEq, Eq, Debug)]
pub struct JourneyBitmap {
    pub lines: Vec<PathSegment>,
}

impl View for JourneyBitmap {
    type V = Seq<PathSegment>;

    open spec fn view(&self) -> Seq<PathSegment> {
        self.lines@
    }
}

impl JourneyBitmap {
    /// An empty path with no lines drawn yet.
    pub fn new() -> (b: JourneyBitmap)
        ensures
            b@ == Seq::<PathSegment>::empty(),
    {
        JourneyBitmap { lines: Vec::new() }
    }

    /// Draw one line segment. This is the single line-adding primitive shared
    /// by live ingestion and by bitmap reconstruction from stored vectors.
    pub fn add_line(&mut self, start_lng: i64, start_lat: i64, end_lng: i64, end_lat: i64)
        ensures
            final(self)@ == old(self)@.push(
                PathSegment {
                    start: TrackPoint { longitude: start_lng, latitude: start_lat },
                    end: TrackPoint { longitude: end_lng, latitude: end_lat },
                },
            ),
    {
        self.lines.push(
            PathSegment {
                start: TrackPoint { longitude: start_lng, latitude: start_lat },
                end: TrackPoint { longitude: end_lng, latitude: end_lat },
            },
        );
    }

    /// A verified copy of the accumulated lines into a fresh bitmap.
    pub fn duplicate(&self) -> (b: JourneyBitmap)
        ensures
            b@ == self@,
    {
        let mut lines: Vec<PathSegment> = Vec::new();
        let mut i: usize = 0;
        while i < self.lines.len()
            invariant
                i <= self.lines.len(),
                lines@ == self.lines@.take(i as int),
            decreases self.lines.len() - i,
        {
            lines.push(self.lines[i]);
            proof {
                assert(self.lines@.take(i + 1 as int) =~= self.lines@.take(i as int).push(
                    self.lines@[i as int],
                ));
            }
            i += 1;
        }
        proof {
            assert(self.lines@.take(self.lines@.len() as int) =~= self.lines@);
        }
        JourneyBitmap { lines }
    }
}

} // verus!
