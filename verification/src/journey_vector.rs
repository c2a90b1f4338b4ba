//! Vector representation of a journey: ordered track segments of points.

use vstd::prelude::*;

verus! {

/// One position on the map, in the same fixed-point degrees as raw samples.
#[derive(Clone, Copy, PartialEq, Eq, Structural, Debug)]
pub struct TrackPoint {
    pub longitude: i64,
    pub latitude: i64,
}

/// One contiguous run of travel: consecutive points are connected.
#[derive(Clone, PartialEq, Eq, Debug)]
pub struct TrackSegment {
    pub track_points: Vec<TrackPoint>,
}

/// A journey stored as geometry: a list of track segments.
#[derive(Clone, PartialEq, Eq, Debug)]
pub struct JourneyVector {
    pub track_segments: Vec<TrackSegment>,
}

} // verus!
