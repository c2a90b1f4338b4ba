//! Stateful, sequential classification of raw position samples.

use vstd::prelude::*;

verus! {

/// One timestamped position reading from the device sensor source.
///
/// The timestamp is milliseconds since the epoch as supplied by the device;
/// arrival order within a batch is not trusted. Coordinates are fixed-point
/// degrees (degrees scaled by a constant chosen by the caller), so that an
/// `i64` covers the whole longitude/latitude range exactly.
#[derive(Clone, Copy, PartialEq, Eq, Structural, Debug)]
pub struct RawData {
    pub timestamp_ms: i64,
    pub longitude: i64,
    pub latitude: i64,
}

/// Classification of one sample: discard it, start a new path segment at it,
/// or append it to the current segment.
#[derive(Clone, Copy, PartialEq, Eq, Structural, Debug)]
pub enum ProcessResult {
    Ignore,
    NewSegment,
    Append,
}

/// A sample this much newer than the last accepted one starts a new segment.
pub const SEGMENT_GAP_MS: i64 = 300_000;

/// Classification is a pure function of the segmenter's memory (the last
/// accepted sample) and the incoming sample: the first-ever sample starts a
/// segment, a sample older than the last accepted one is discarded as noise,
/// a long silence starts a new segment, and anything else continues the
/// current segment.
pub open spec fn spec_classify(last: Option<RawData>, d: RawData) -> ProcessResult {
    match last {
        Option::None => ProcessResult::NewSegment,
        Option::Some(l) => if d.timestamp_ms < l.timestamp_ms {
            ProcessResult::Ignore
        } else if d.timestamp_ms - l.timestamp_ms > SEGMENT_GAP_MS {
            ProcessResult::NewSegment
        } else {
            ProcessResult::Append
        },
    }
}

/// The segmenter's memory after classifying `d`: an ignored sample leaves it
/// untouched; an accepted one (new segment or continuation) becomes the new
/// last accepted sample.
pub open spec fn step_last(last: Option<RawData>, d: RawData) -> Option<RawData> {
    if spec_classify(last, d) is Ignore {
        last
    } else {
        Some(d)
    }
}

/// The segmenter's memory after classifying every sample of `s` in order.
pub open spec fn last_after(last: Option<RawData>, s: Seq<RawData>) -> Option<RawData>
    decreases s.len(),
{
    if s.len() == 0 {
        last
    } else {
        step_last(last_after(last, s.drop_last()), s.last())
    }
}

/// The sequence of classifications produced by feeding every sample of `s`,
/// in order, to a segmenter whose memory starts as `last`.
pub open spec fn classifications(last: Option<RawData>, s: Seq<RawData>) -> Seq<ProcessResult>
    decreases s.len(),
{
    if s.len() == 0 {
        Seq::empty()
    } else {
        classifications(last, s.drop_last()).push(
            spec_classify(last_after(last, s.drop_last()), s.last()),
        )
    }
}

/// Replaying the same samples in the same order from the same segmenter
/// memory always yields the same classification sequence and the same final
/// memory: classification depends on nothing but the memory and the samples.
pub proof fn lemma_classification_deterministic(
    last1: Option<RawData>,
    last2: Option<RawData>,
    s1: Seq<RawData>,
    s2: Seq<RawData>,
)
    requires
        last1 == last2,
        s1 == s2,
    ensures
        classifications(last1, s1) == classifications(last2, s2),
        last_after(last1, s1) == last_after(last2, s2),
{
}

/// An ignored sample never changes the segmenter's memory; an accepted one
/// (new segment or continuation) always makes the sample itself the new
/// last accepted sample.
pub proof fn lemma_memory_update(last: Option<RawData>, d: RawData)
    ensures
        spec_classify(last, d) is Ignore ==> step_last(last, d) == last,
        !(spec_classify(last, d) is Ignore) ==> step_last(last, d) == Some(d),
{
}

/// Stateful, sequential classifier of raw position samples, remembering the
/// last accepted sample.
pub struct GpsProcessor {
    last_data: Option<RawData>,
}

impl GpsProcessor {
    /// The segmenter's memory: the last accepted sample, if any.
    pub closed spec fn last(&self) -> Option<RawData> {
        self.last_data
    }

    /// A fresh segmenter that has accepted nothing yet.
    pub fn new() -> (p: GpsProcessor)
        ensures
            p.last() is None,
    {
        GpsProcessor { last_data: None }
    }

    /// The last accepted sample, if any.
    pub fn last_data(&self) -> (r: Option<RawData>)
        ensures
            r == self.last(),
    {
        self.last_data
    }

    /// Classify one sample and update the segmenter's memory accordingly.
    pub fn preprocess(&mut self, d: &RawData) -> (r: ProcessResult)
        ensures
            r == spec_classify(old(self).last(), *d),
            final(self).last() == step_last(old(self).last(), *d),
    {
        let r = match &self.last_data {
            Option::None => ProcessResult::NewSegment,
            Option::Some(l) => {
                if d.timestamp_ms < l.timestamp_ms {
                    ProcessResult::Ignore
                } else if l.timestamp_ms <= i64::MAX - SEGMENT_GAP_MS && d.timestamp_ms
                    > l.timestamp_ms + SEGMENT_GAP_MS {
                    ProcessResult::NewSegment
                } else {
                    ProcessResult::Append
                }
            },
        };
        match r {
            ProcessResult::Ignore => {},
            _ => {
                self.last_data = Some(*d);
            },
        }
        r
    }
}

} // verus!
