//! Stored journeys: either a ready-made renderable bitmap or a vector path
//! that is rasterized on demand.

use crate::journey_bitmap::{JourneyBitmap, PathSegment};
use crate::journey_vector::{JourneyVector, TrackPoint, TrackSegment};
use crate::merged_journey_builder::vector_lines;
use vstd::prelude::*;

verus! {

impl View for TrackSegment {
    type V = Seq<TrackPoint>;

    open spec fn view(&self) -> Seq<TrackPoint> {
        self.track_points@
    }
}

impl View for JourneyVector {
    type V = Seq<Seq<TrackPoint>>;

    open spec fn view(&self) -> Seq<Seq<TrackPoint>> {
        self.track_segments@.map_values(|s: TrackSegment| s@)
    }
}

/// How a journey is stored.
#[derive(Clone, Copy, PartialEq, Eq, Structural, Debug)]
pub enum JourneyType {
    Bitmap,
    Vector,
}

/// The persisted payload of one journey.
#[derive(Clone, PartialEq, Eq, Debug)]
pub enum JourneyData {
    Bitmap(JourneyBitmap),
    Vector(JourneyVector),
}

/// Summary of one stored journey, as listings hand it to the caller.
#[derive(Clone, Copy, PartialEq, Eq, Structural, Debug)]
pub struct JourneyHeader {
    pub id: u64,
    pub journey_type: JourneyType,
}

/// The storage kind of a journey payload.
pub open spec fn type_of(d: JourneyData) -> JourneyType {
    match d {
        JourneyData::Bitmap(_) => JourneyType::Bitmap,
        JourneyData::Vector(_) => JourneyType::Vector,
    }
}

/// The lines drawn when a journey payload is replayed into a bitmap: a
/// bitmap journey already holds its lines; a vector journey holds the lines
/// of its track segments.
pub open spec fn data_lines(d: JourneyData) -> Seq<PathSegment> {
    match d {
        JourneyData::Bitmap(b) => b@,
        JourneyData::Vector(v) => vector_lines(v),
    }
}

/// Two journey payloads of the same kind with the same contents.
pub open spec fn data_matches(a: JourneyData, b: JourneyData) -> bool {
    match (a, b) {
        (JourneyData::Bitmap(x), JourneyData::Bitmap(y)) => x@ == y@,
        (JourneyData::Vector(x), JourneyData::Vector(y)) => x@ == y@,
        _ => false,
    }
}

/// The lines of a vector journey depend only on its point contents: two
/// vectors with equal views replay to the same lines.
pub proof fn lemma_vector_lines_from_view(a: JourneyVector, b: JourneyVector)
    requires
        a@ == b@,
    ensures
        vector_lines(a) == vector_lines(b),
{
    lemma_segments_lines_from_views(a.track_segments@, b.track_segments@);
}

proof fn lemma_segments_lines_from_views(a: Seq<TrackSegment>, b: Seq<TrackSegment>)
    requires
        a.map_values(|s: TrackSegment| s@) == b.map_values(|s: TrackSegment| s@),
    ensures
        crate::merged_journey_builder::segments_lines(a)
            == crate::merged_journey_builder::segments_lines(b),
    decreases a.len(),
{
    let av = a.map_values(|s: TrackSegment| s@);
    let bv = b.map_values(|s: TrackSegment| s@);
    assert(av.len() == a.len());
    assert(bv.len() == b.len());
    if a.len() == 0 {
    } else {
        assert(av[a.len() - 1] == a.last()@);
        assert(bv[b.len() - 1] == b.last()@);
        assert(a.last()@ == b.last()@);
        let adl = a.drop_last().map_values(|s: TrackSegment| s@);
        let bdl = b.drop_last().map_values(|s: TrackSegment| s@);
        assert forall|i: int| 0 <= i < adl.len() implies #[trigger] adl[i] == bdl[i] by {
            assert(av[i] == bv[i]);
        }
        assert(adl =~= bdl);
        lemma_segments_lines_from_views(a.drop_last(), b.drop_last());
    }
}

impl TrackSegment {
    /// A verified copy: same points in the same order.
    pub fn duplicate(&self) -> (r: TrackSegment)
        ensures
            r@ == self@,
    {
        let mut track_points: Vec<TrackPoint> = Vec::new();
        let mut i: usize = 0;
        while i < self.track_points.len()
            invariant
                i <= self.track_points.len(),
                track_points@ == self.track_points@.take(i as int),
            decreases self.track_points.len() - i,
        {
            track_points.push(self.track_points[i]);
            proof {
                assert(self.track_points@.take(i + 1 as int) =~= self.track_points@.take(
                    i as int,
                ).push(self.track_points@[i as int]));
            }
            i += 1;
        }
        proof {
            assert(self.track_points@.take(self.track_points@.len() as int)
                =~= self.track_points@);
        }
        TrackSegment { track_points }
    }
}

impl JourneyVector {
    /// A verified copy: same segments with the same points.
    pub fn duplicate(&self) -> (r: JourneyVector)
        ensures
            r@ == self@,
    {
        let mut track_segments: Vec<TrackSegment> = Vec::new();
        let mut i: usize = 0;
        while i < self.track_segments.len()
            invariant
                i <= self.track_segments.len(),
                track_segments@.len() == i,
                forall|k: int|
                    0 <= k < i ==> track_segments@[k]@ == self.track_segments@[k]@,
            decreases self.track_segments.len() - i,
        {
            let s = self.track_segments[i].duplicate();
            track_segments.push(s);
            i += 1;
        }
        let r = JourneyVector { track_segments };
        proof {
            assert(r@ =~= self@);
        }
        r
    }
}

impl JourneyData {
    /// The storage kind of this payload.
    pub fn journey_type(&self) -> (r: JourneyType)
        ensures
            r == type_of(*self),
    {
        match self {
            JourneyData::Bitmap(_) => JourneyType::Bitmap,
            JourneyData::Vector(_) => JourneyType::Vector,
        }
    }

    /// A verified copy: same kind, same contents.
    pub fn duplicate(&self) -> (r: JourneyData)
        ensures
            data_matches(r, *self),
            type_of(r) == type_of(*self),
    {
        match self {
            JourneyData::Bitmap(b) => JourneyData::Bitmap(b.duplicate()),
            JourneyData::Vector(v) => JourneyData::Vector(v.duplicate()),
        }
    }
}

} // verus!
