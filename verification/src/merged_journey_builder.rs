//! Replaying stored journey geometry into a renderable bitmap.

use crate::journey_bitmap::{JourneyBitmap, PathSegment};
use crate::journey_vector::{JourneyVector, TrackPoint, TrackSegment};
use vstd::prelude::*;

verus! {

/// The lines drawn when one track segment is replayed: one line between each
/// pair of consecutive points. A segment with fewer than two points draws
/// nothing.
pub open spec fn segment_lines(points: Seq<TrackPoint>) -> Seq<PathSegment>
    decreases points.len(),
{
    if points.len() < 2 {
        Seq::empty()
    } else {
        segment_lines(points.drop_last()).push(
            PathSegment { start: points[points.len() - 2], end: points.last() },
        )
    }
}

/// The lines drawn when a list of track segments is replayed in order.
pub open spec fn segments_lines(segs: Seq<TrackSegment>) -> Seq<PathSegment>
    decreases segs.len(),
{
    if segs.len() == 0 {
        Seq::empty()
    } else {
        segments_lines(segs.drop_last()) + segment_lines(segs.last().track_points@)
    }
}

/// All lines of a journey stored as a vector, in replay order.
pub open spec fn vector_lines(v: JourneyVector) -> Seq<PathSegment> {
    segments_lines(v.track_segments@)
}

/// Replay every stored segment of `journey_vector` into `journey_bitmap`
/// through the same line-adding primitive that live ingestion uses.
pub fn add_journey_vector_to_journey_bitmap(
    journey_bitmap: &mut JourneyBitmap,
    journey_vector: &JourneyVector,
)
    ensures
        final(journey_bitmap)@ == old(journey_bitmap)@ + vector_lines(*journey_vector),
{
    let ghost segs = journey_vector.track_segments@;
    let mut si: usize = 0;
    while si < journey_vector.track_segments.len()
        invariant
            si <= segs.len(),
            segs == journey_vector.track_segments@,
            journey_bitmap@ == old(journey_bitmap)@ + segments_lines(segs.take(si as int)),
        decreases segs.len() - si,
    {
        let segment = &journey_vector.track_segments[si];
        let ghost points = segment.track_points@;
        let ghost base = journey_bitmap@;
        if segment.track_points.len() >= 1 {
            let mut pi: usize = 1;
            while pi < segment.track_points.len()
                invariant
                    1 <= pi <= points.len(),
                    points == segment.track_points@,
                    journey_bitmap@ == base + segment_lines(points.take(pi as int)),
                decreases points.len() - pi,
            {
                let start = segment.track_points[pi - 1];
                let end = segment.track_points[pi];
                journey_bitmap.add_line(
                    start.longitude,
                    start.latitude,
                    end.longitude,
                    end.latitude,
                );
                proof {
                    let t = points.take(pi + 1 as int);
                    assert(t.drop_last() =~= points.take(pi as int));
                    assert(t.last() == points[pi as int]);
                    assert(t[t.len() - 2] == points[pi - 1 as int]);
                    assert(journey_bitmap@ =~= base + segment_lines(points.take(pi + 1 as int)));
                }
                pi += 1;
            }
            proof {
                assert(points.take(points.len() as int) =~= points);
            }
        }
        proof {
            if points.len() < 2 {
                assert(segment_lines(points) =~= Seq::<PathSegment>::empty());
                assert(journey_bitmap@ =~= base + segment_lines(points));
            }
            let t = segs.take(si + 1 as int);
            assert(t.drop_last() =~= segs.take(si as int));
            assert(t.last() == segs[si as int]);
            assert(journey_bitmap@ =~= old(journey_bitmap)@ + segments_lines(
                segs.take(si + 1 as int),
            ));
        }
        si += 1;
    }
    proof {
        assert(segs.take(segs.len() as int) =~= segs);
    }
}

} // verus!
