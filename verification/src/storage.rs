//! In-memory model of the persistent journey store.
//!
//! The real store sits behind transaction-scoped disk operations; this model
//! keeps the same observable state as plain values so that every operation's
//! effect can be stated and proved exactly. Each operation either applies
//! fully or reports failure with no partial effect.

use crate::gps_processor::{ProcessResult, RawData};
use crate::journey_bitmap::{line_seq, JourneyBitmap, PathSegment};
use crate::journey_data::{data_lines, data_matches, type_of, JourneyData, JourneyHeader};
use crate::journey_vector::{JourneyVector, TrackPoint, TrackSegment};
use crate::merged_journey_builder::add_journey_vector_to_journey_bitmap;
use vstd::prelude::*;

verus! {

/// One persisted classified sample, together with the timestamp at which its
/// batch was received.
#[derive(Clone, Copy, PartialEq, Eq, Structural, Debug)]
pub struct GpsRecord {
    pub data: RawData,
    pub process_result: ProcessResult,
    pub received_timestamp_ms: i64,
}

/// One raw-sample capture file. A new file is opened each time raw-data
/// capture mode is switched on; files are identified by a store-assigned id.
#[derive(Clone, Copy, PartialEq, Eq, Structural, Debug)]
pub struct RawDataFile {
    pub id: u64,
}

/// One stored journey with its store-assigned id.
#[derive(Clone, PartialEq, Eq, Debug)]
pub struct StoredJourney {
    pub id: u64,
    pub data: JourneyData,
}

/// An ongoing journey spanning more than this is finalized automatically.
pub const AUTO_FINALIZE_SPAN_MS: i64 = 86_400_000;

/// The index of the first element of `s` satisfying `p`, if any.
pub open spec fn find_first<T>(s: Seq<T>, p: spec_fn(T) -> bool) -> Option<int>
    decreases s.len(),
{
    if s.len() == 0 {
        None
    } else if p(s[0]) {
        Some(0)
    } else {
        match find_first(s.drop_first(), p) {
            Option::None => None,
            Option::Some(i) => Some(i + 1),
        }
    }
}

/// `find_first` shifted by a fixed offset.
pub open spec fn shift_opt(o: Option<int>, n: int) -> Option<int> {
    match o {
        Option::None => None,
        Option::Some(i) => Some(i + n),
    }
}

/// Matching a stored journey by id.
pub open spec fn has_id(id: u64) -> spec_fn(StoredJourney) -> bool {
    |j: StoredJourney| j.id == id
}

/// Matching a raw-data file by id.
pub open spec fn file_has_id(id: u64) -> spec_fn(RawDataFile) -> bool {
    |f: RawDataFile| f.id == id
}

/// A scan that found no match in the first `i` elements may continue from
/// `i`: the first match of the whole sequence is the first match of the
/// remainder, shifted.
pub proof fn lemma_find_first_from<T>(s: Seq<T>, p: spec_fn(T) -> bool, i: int)
    requires
        0 <= i <= s.len(),
        forall|k: int| 0 <= k < i ==> !p(s[k]),
    ensures
        find_first(s, p) == shift_opt(find_first(s.skip(i), p), i),
    decreases i,
{
    if i == 0 {
        assert(s.skip(0) =~= s);
        match find_first(s, p) {
            Option::None => {},
            Option::Some(j) => {},
        }
    } else {
        lemma_find_first_from(s, p, i - 1);
        let t = s.skip(i - 1);
        assert(t[0] == s[i - 1]);
        assert(!p(t[0]));
        assert(t.drop_first() =~= s.skip(i));
        match find_first(s.skip(i), p) {
            Option::None => {},
            Option::Some(j) => {},
        }
    }
}

/// Where `find_first` points, the predicate holds, and it holds nowhere
/// earlier; where it finds nothing, the predicate holds nowhere.
pub proof fn lemma_find_first_props<T>(s: Seq<T>, p: spec_fn(T) -> bool)
    ensures
        match find_first(s, p) {
            Option::None => forall|k: int| 0 <= k < s.len() ==> !p(s[k]),
            Option::Some(i) => 0 <= i < s.len() && p(s[i]) && forall|k: int| 0 <= k < i ==> !p(
                s[k],
            ),
        },
    decreases s.len(),
{
    if s.len() == 0 {
    } else if p(s[0]) {
    } else {
        lemma_find_first_props(s.drop_first(), p);
        assert forall|k: int| 1 <= k < s.len() implies s.drop_first()[k - 1] == s[k] by {}
    }
}

/// The segmenter memory reconstructible from persisted records alone: the
/// last accepted (non-ignored) record, if any.
pub open spec fn log_last_accepted(records: Seq<GpsRecord>) -> Option<RawData>
    decreases records.len(),
{
    if records.len() == 0 {
        None
    } else if records.last().process_result is Ignore {
        log_last_accepted(records.drop_last())
    } else {
        Some(records.last().data)
    }
}

/// The lines the persisted records of the ongoing journey draw when replayed
/// in order.
pub open spec fn log_lines(records: Seq<GpsRecord>) -> Seq<PathSegment>
    decreases records.len(),
{
    if records.len() == 0 {
        Seq::empty()
    } else {
        log_lines(records.drop_last()) + line_seq(
            log_last_accepted(records.drop_last()),
            records.last().process_result,
            records.last().data,
        )
    }
}

/// All lines of the stored journeys, in storage order.
pub open spec fn journeys_lines(js: Seq<StoredJourney>) -> Seq<PathSegment>
    decreases js.len(),
{
    if js.len() == 0 {
        Seq::empty()
    } else {
        journeys_lines(js.drop_last()) + data_lines(js.last().data)
    }
}

/// The store's latest main-path snapshot: every stored journey's lines, then
/// the ongoing journey's lines.
pub open spec fn main_lines(s: Storage) -> Seq<PathSegment> {
    journeys_lines(s.journeys@) + log_lines(s.gps_log@)
}

/// The vector journey built from persisted records: an ignored record adds
/// nothing, a new-segment record opens a fresh track segment at its position,
/// a continuation record extends the last open segment (opening one if none
/// is open yet).
pub open spec fn vector_view_of_records(records: Seq<GpsRecord>) -> Seq<Seq<TrackPoint>>
    decreases records.len(),
{
    if records.len() == 0 {
        Seq::empty()
    } else {
        let v = vector_view_of_records(records.drop_last());
        let rec = records.last();
        match rec.process_result {
            ProcessResult::Ignore => v,
            ProcessResult::NewSegment => v.push(seq![crate::journey_bitmap::pt_of(rec.data)]),
            ProcessResult::Append => if v.len() == 0 {
                v.push(seq![crate::journey_bitmap::pt_of(rec.data)])
            } else {
                v.update(v.len() - 1, v.last().push(crate::journey_bitmap::pt_of(rec.data)))
            },
        }
    }
}

/// The effect of finalizing the ongoing journey: its records become one new
/// vector journey under the next free id, the log empties, and the main path
/// is marked changed.
pub open spec fn finalize_effect(pre: Storage, post: Storage) -> bool {
    &&& post.journeys@.len() == pre.journeys@.len() + 1
    &&& post.journeys@.drop_last() == pre.journeys@
    &&& post.journeys@.last().id == pre.next_journey_id
    &&& (post.journeys@.last().data matches JourneyData::Vector(v) && v@ == vector_view_of_records(
        pre.gps_log@,
    ))
    &&& post.gps_log@ == Seq::<GpsRecord>::empty()
    &&& post.next_journey_id == pre.next_journey_id + 1
    &&& post.main_map_dirty
    &&& post.same_but_journeys(pre)
}

/// Whether the ongoing journey spans enough time to be finalized without
/// being asked.
pub open spec fn should_auto_finalize(records: Seq<GpsRecord>) -> bool {
    records.len() > 0 && records.last().data.timestamp_ms - records[0].data.timestamp_ms
        > AUTO_FINALIZE_SPAN_MS
}

/// Durable journey and sample storage. All state the rest of the core reads
/// or writes through the store is held here as plain values.
pub struct Storage {
    pub temp_dir: String,
    pub doc_dir: String,
    pub support_dir: String,
    pub cache_dir: String,
    /// Samples of the ongoing journey, in the order they were persisted.
    pub gps_log: Vec<GpsRecord>,
    /// Finalized journeys.
    pub journeys: Vec<StoredJourney>,
    /// The id the next finalized journey receives.
    pub next_journey_id: u64,
    /// Raw-sample capture files.
    pub raw_data_files: Vec<RawDataFile>,
    /// The id the next capture file receives.
    pub next_raw_data_file_id: u64,
    /// Whether raw-sample capture mode is on.
    pub raw_data_mode: bool,
    /// Whether the main path changed on disk since the cached main renderer
    /// was last (re)built.
    pub main_map_dirty: bool,
}

impl Storage {
    /// Open the store over the given directories, with nothing recorded yet.
    pub fn init(temp_dir: String, doc_dir: String, support_dir: String, cache_dir: String) -> (s:
        Storage)
        ensures
            s.temp_dir == temp_dir,
            s.doc_dir == doc_dir,
            s.support_dir == support_dir,
            s.cache_dir == cache_dir,
            s.gps_log@ == Seq::<GpsRecord>::empty(),
            s.journeys@ == Seq::<StoredJourney>::empty(),
            s.next_journey_id == 1u64,
            s.raw_data_files@ == Seq::<RawDataFile>::empty(),
            s.next_raw_data_file_id == 1u64,
            !s.raw_data_mode,
            !s.main_map_dirty,
    {
        Storage {
            temp_dir,
            doc_dir,
            support_dir,
            cache_dir,
            gps_log: Vec::new(),
            journeys: Vec::new(),
            next_journey_id: 1,
            raw_data_files: Vec::new(),
            next_raw_data_file_id: 1,
            raw_data_mode: false,
            main_map_dirty: false,
        }
    }

    /// Everything except the ongoing-journey log is as in `other`.
    pub open spec fn same_but_gps_log(self, other: Storage) -> bool {
        &&& self.temp_dir == other.temp_dir
        &&& self.doc_dir == other.doc_dir
        &&& self.support_dir == other.support_dir
        &&& self.cache_dir == other.cache_dir
        &&& self.journeys == other.journeys
        &&& self.next_journey_id == other.next_journey_id
        &&& self.raw_data_files == other.raw_data_files
        &&& self.next_raw_data_file_id == other.next_raw_data_file_id
        &&& self.raw_data_mode == other.raw_data_mode
        &&& self.main_map_dirty == other.main_map_dirty
    }

    /// Everything except the journey table, the ongoing-journey log, the
    /// journey id counter and the dirty flag is as in `other`.
    pub open spec fn same_but_journeys(self, other: Storage) -> bool {
        &&& self.temp_dir == other.temp_dir
        &&& self.doc_dir == other.doc_dir
        &&& self.support_dir == other.support_dir
        &&& self.cache_dir == other.cache_dir
        &&& self.raw_data_files == other.raw_data_files
        &&& self.next_raw_data_file_id == other.next_raw_data_file_id
        &&& self.raw_data_mode == other.raw_data_mode
    }

    /// Everything except raw-data capture state is as in `other`.
    pub open spec fn same_but_raw_data(self, other: Storage) -> bool {
        &&& self.temp_dir == other.temp_dir
        &&& self.doc_dir == other.doc_dir
        &&& self.support_dir == other.support_dir
        &&& self.cache_dir == other.cache_dir
        &&& self.gps_log == other.gps_log
        &&& self.journeys == other.journeys
        &&& self.next_journey_id == other.next_journey_id
        &&& self.main_map_dirty == other.main_map_dirty
    }

    /// Persist one classified sample with its batch's received timestamp.
    /// Unconditional: every processed sample is recorded exactly once,
    /// whatever happened on the rendering side.
    pub fn record_gps_data(
        &mut self,
        raw_data: &RawData,
        process_result: ProcessResult,
        received_timestamp_ms: i64,
    )
        ensures
            final(self).gps_log@ == old(self).gps_log@.push(
                GpsRecord { data: *raw_data, process_result, received_timestamp_ms },
            ),
            final(self).same_but_gps_log(*old(self)),
    {
        self.gps_log.push(GpsRecord { data: *raw_data, process_result, received_timestamp_ms });
    }

    /// Report whether the main path changed on disk since the cached main
    /// renderer was built, and arm the next report: one reload per change.
    pub fn main_map_renderer_need_to_reload(&mut self) -> (r: bool)
        ensures
            r == old(self).main_map_dirty,
            !final(self).main_map_dirty,
            final(self).gps_log == old(self).gps_log,
            final(self).journeys == old(self).journeys,
            final(self).next_journey_id == old(self).next_journey_id,
            final(self).same_but_journeys(*old(self)),
    {
        let r = self.main_map_dirty;
        self.main_map_dirty = false;
        r
    }

    /// Fetch the journey with the given id, as a copy of its stored payload:
    /// the payload of the first stored journey with that id, or nothing
    /// exactly when no stored journey has it.
    pub fn get_journey(&self, journey_id: u64) -> (r: Option<JourneyData>)
        ensures
            match find_first(self.journeys@, has_id(journey_id)) {
                Option::None => r is None,
                Option::Some(i) => r matches Some(d) && data_matches(
                    d,
                    self.journeys@[i].data,
                ),
            },
            (r is None) <==> (forall|k: int|
                0 <= k < self.journeys@.len() ==> #[trigger] self.journeys@[k].id != journey_id),
    {
        proof {
            lemma_find_first_props(self.journeys@, has_id(journey_id));
        }
        let ghost p = has_id(journey_id);
        let mut i: usize = 0;
        while i < self.journeys.len()
            invariant
                0 <= i <= self.journeys@.len(),
                forall|k: int| 0 <= k < i ==> !p(self.journeys@[k]),
                p == has_id(journey_id),
            decreases self.journeys@.len() - i,
        {
            if self.journeys[i].id == journey_id {
                proof {
                    lemma_find_first_from(self.journeys@, p, i as int);
                    assert(self.journeys@.skip(i as int)[0] == self.journeys@[i as int]);
                }
                return Some(self.journeys[i].data.duplicate());
            }
            i += 1;
        }
        proof {
            lemma_find_first_from(self.journeys@, p, self.journeys@.len() as int);
            assert(self.journeys@.skip(self.journeys@.len() as int) =~= Seq::<
                StoredJourney,
            >::empty());
        }
        None
    }

    /// Delete the journey with the given id. Reports whether one was found;
    /// a deletion marks the main path changed.
    pub fn delete_journey(&mut self, journey_id: u64) -> (r: bool)
        ensures
            match find_first(old(self).journeys@, has_id(journey_id)) {
                Option::None => r == false && *final(self) == *old(self),
                Option::Some(i) => {
                    &&& r == true
                    &&& final(self).journeys@ == old(self).journeys@.remove(i)
                    &&& final(self).main_map_dirty
                    &&& final(self).gps_log == old(self).gps_log
                    &&& final(self).next_journey_id == old(self).next_journey_id
                    &&& final(self).same_but_journeys(*old(self))
                },
            },
    {
        let ghost p = has_id(journey_id);
        let mut i: usize = 0;
        while i < self.journeys.len()
            invariant
                0 <= i <= self.journeys@.len(),
                forall|k: int| 0 <= k < i ==> !p(self.journeys@[k]),
                p == has_id(journey_id),
                *self == *old(self),
            decreases self.journeys@.len() - i,
        {
            if self.journeys[i].id == journey_id {
                proof {
                    lemma_find_first_from(self.journeys@, p, i as int);
                    assert(self.journeys@.skip(i as int)[0] == self.journeys@[i as int]);
                }
                self.journeys.remove(i);
                self.main_map_dirty = true;
                return true;
            }
            i += 1;
        }
        proof {
            lemma_find_first_from(self.journeys@, p, self.journeys@.len() as int);
            assert(self.journeys@.skip(self.journeys@.len() as int) =~= Seq::<
                StoredJourney,
            >::empty());
        }
        false
    }

    /// Headers of all stored journeys, in storage order.
    pub fn list_all_journeys(&self) -> (r: Vec<JourneyHeader>)
        ensures
            r@.len() == self.journeys@.len(),
            forall|i: int|
                0 <= i < r@.len() ==> r@[i] == (JourneyHeader {
                    id: self.journeys@[i].id,
                    journey_type: type_of(self.journeys@[i].data),
                }),
    {
        let mut r: Vec<JourneyHeader> = Vec::new();
        let mut i: usize = 0;
        while i < self.journeys.len()
            invariant
                0 <= i <= self.journeys@.len(),
                r@.len() == i,
                forall|k: int|
                    0 <= k < i ==> r@[k] == (JourneyHeader {
                        id: self.journeys@[k].id,
                        journey_type: type_of(self.journeys@[k].data),
                    }),
            decreases self.journeys@.len() - i,
        {
            let journey_type = self.journeys[i].data.journey_type();
            r.push(JourneyHeader { id: self.journeys[i].id, journey_type });
            i += 1;
        }
        r
    }

    /// The raw-sample capture files, in creation order.
    pub fn list_all_raw_data(&self) -> (r: Vec<RawDataFile>)
        ensures
            r@ == self.raw_data_files@,
    {
        let mut r: Vec<RawDataFile> = Vec::new();
        let mut i: usize = 0;
        while i < self.raw_data_files.len()
            invariant
                0 <= i <= self.raw_data_files@.len(),
                r@ == self.raw_data_files@.take(i as int),
            decreases self.raw_data_files@.len() - i,
        {
            r.push(self.raw_data_files[i]);
            proof {
                assert(self.raw_data_files@.take(i + 1 as int) =~= self.raw_data_files@.take(
                    i as int,
                ).push(self.raw_data_files@[i as int]));
            }
            i += 1;
        }
        proof {
            assert(self.raw_data_files@.take(self.raw_data_files@.len() as int)
                =~= self.raw_data_files@);
        }
        r
    }

    /// Whether raw-sample capture mode is on.
    pub fn get_raw_data_mode(&self) -> (r: bool)
        ensures
            r == self.raw_data_mode,
    {
        self.raw_data_mode
    }

    /// Switch raw-sample capture mode. Switching it on opens a new capture
    /// file; switching it off, or on while already on, changes nothing else.
    pub fn toggle_raw_data_mode(&mut self, enable: bool)
        requires
            old(self).next_raw_data_file_id < u64::MAX,
        ensures
            final(self).raw_data_mode == enable,
            final(self).same_but_raw_data(*old(self)),
            enable && !old(self).raw_data_mode ==> {
                &&& final(self).raw_data_files@ == old(self).raw_data_files@.push(
                    RawDataFile { id: old(self).next_raw_data_file_id },
                )
                &&& final(self).next_raw_data_file_id == old(self).next_raw_data_file_id + 1
            },
            !(enable && !old(self).raw_data_mode) ==> {
                &&& final(self).raw_data_files == old(self).raw_data_files
                &&& final(self).next_raw_data_file_id == old(self).next_raw_data_file_id
            },
    {
        if enable && !self.raw_data_mode {
            self.raw_data_files.push(RawDataFile { id: self.next_raw_data_file_id });
            self.next_raw_data_file_id = self.next_raw_data_file_id + 1;
        }
        self.raw_data_mode = enable;
    }

    /// Delete the raw-sample capture file with the given id. Reports whether
    /// one was found.
    pub fn delete_raw_data_file(&mut self, file_id: u64) -> (r: bool)
        ensures
            match find_first(old(self).raw_data_files@, file_has_id(file_id)) {
                Option::None => r == false && *final(self) == *old(self),
                Option::Some(i) => {
                    &&& r == true
                    &&& final(self).raw_data_files@ == old(self).raw_data_files@.remove(i)
                    &&& final(self).raw_data_mode == old(self).raw_data_mode
                    &&& final(self).next_raw_data_file_id == old(self).next_raw_data_file_id
                    &&& final(self).same_but_raw_data(*old(self))
                },
            },
    {
        let ghost p = file_has_id(file_id);
        let mut i: usize = 0;
        while i < self.raw_data_files.len()
            invariant
                0 <= i <= self.raw_data_files@.len(),
                forall|k: int| 0 <= k < i ==> !p(self.raw_data_files@[k]),
                p == file_has_id(file_id),
                *self == *old(self),
            decreases self.raw_data_files@.len() - i,
        {
            if self.raw_data_files[i].id == file_id {
                proof {
                    lemma_find_first_from(self.raw_data_files@, p, i as int);
                    assert(self.raw_data_files@.skip(i as int)[0]
                        == self.raw_data_files@[i as int]);
                }
                self.raw_data_files.remove(i);
                return true;
            }
            i += 1;
        }
        proof {
            lemma_find_first_from(self.raw_data_files@, p, self.raw_data_files@.len() as int);
            assert(self.raw_data_files@.skip(self.raw_data_files@.len() as int) =~= Seq::<
                RawDataFile,
            >::empty());
        }
        false
    }

    /// Build the latest main-path bitmap snapshot: every stored journey
    /// replayed in storage order, then the ongoing journey's records.
    pub fn get_latest_bitmap_for_main_map_renderer(&self) -> (r: JourneyBitmap)
        ensures
            r@ == main_lines(*self),
    {
        let mut bitmap = JourneyBitmap::new();
        let mut ji: usize = 0;
        while ji < self.journeys.len()
            invariant
                ji <= self.journeys@.len(),
                bitmap@ == journeys_lines(self.journeys@.take(ji as int)),
            decreases self.journeys@.len() - ji,
        {
            let ghost base = bitmap@;
            match &self.journeys[ji].data {
                JourneyData::Bitmap(b) => {
                    let mut k: usize = 0;
                    while k < b.lines.len()
                        invariant
                            k <= b.lines@.len(),
                            bitmap@ == base + b.lines@.take(k as int),
                        decreases b.lines@.len() - k,
                    {
                        let l = b.lines[k];
                        bitmap.add_line(
                            l.start.longitude,
                            l.start.latitude,
                            l.end.longitude,
                            l.end.latitude,
                        );
                        proof {
                            assert(b.lines@.take(k + 1 as int) =~= b.lines@.take(k as int).push(
                                b.lines@[k as int],
                            ));
                            assert(bitmap@ =~= base + b.lines@.take(k + 1 as int));
                        }
                        k += 1;
                    }
                    proof {
                        assert(b.lines@.take(b.lines@.len() as int) =~= b.lines@);
                    }
                },
                JourneyData::Vector(v) => {
                    add_journey_vector_to_journey_bitmap(&mut bitmap, v);
                },
            }
            proof {
                let t = self.journeys@.take(ji + 1 as int);
                assert(t.drop_last() =~= self.journeys@.take(ji as int));
                assert(t.last() == self.journeys@[ji as int]);
                assert(bitmap@ =~= journeys_lines(self.journeys@.take(ji + 1 as int)));
            }
            ji += 1;
        }
        proof {
            assert(self.journeys@.take(self.journeys@.len() as int) =~= self.journeys@);
        }
        let mut last_acc: Option<RawData> = None;
        let mut i: usize = 0;
        while i < self.gps_log.len()
            invariant
                i <= self.gps_log@.len(),
                last_acc == log_last_accepted(self.gps_log@.take(i as int)),
                bitmap@ == journeys_lines(self.journeys@) + log_lines(
                    self.gps_log@.take(i as int),
                ),
            decreases self.gps_log@.len() - i,
        {
            let rec = self.gps_log[i];
            let ghost prev_lines = bitmap@;
            match crate::journey_bitmap::line_to_add(last_acc, rec.process_result, &rec.data) {
                Option::Some(l) => {
                    bitmap.add_line(
                        l.start.longitude,
                        l.start.latitude,
                        l.end.longitude,
                        l.end.latitude,
                    );
                },
                Option::None => {},
            }
            match rec.process_result {
                ProcessResult::Ignore => {},
                _ => {
                    last_acc = Some(rec.data);
                },
            }
            proof {
                let t = self.gps_log@.take(i + 1 as int);
                assert(t.drop_last() =~= self.gps_log@.take(i as int));
                assert(t.last() == self.gps_log@[i as int]);
                assert(bitmap@ =~= journeys_lines(self.journeys@) + log_lines(
                    self.gps_log@.take(i + 1 as int),
                ));
            }
            i += 1;
        }
        proof {
            assert(self.gps_log@.take(self.gps_log@.len() as int) =~= self.gps_log@);
        }
        bitmap
    }

    /// Close the ongoing journey: its records become one new vector journey.
    /// Reports whether there was anything to finalize.
    pub fn finalize_ongoing_journey(&mut self) -> (r: bool)
        requires
            old(self).next_journey_id < u64::MAX,
        ensures
            old(self).gps_log@.len() == 0 ==> r == false && *final(self) == *old(self),
            old(self).gps_log@.len() > 0 ==> r == true && finalize_effect(
                *old(self),
                *final(self),
            ),
    {
        if self.gps_log.len() == 0 {
            return false;
        }
        let ghost f = |s: TrackSegment| s@;
        let mut track_segments: Vec<TrackSegment> = Vec::new();
        let mut i: usize = 0;
        while i < self.gps_log.len()
            invariant
                i <= self.gps_log@.len(),
                track_segments@.map_values(|s: TrackSegment| s@) == vector_view_of_records(
                    self.gps_log@.take(i as int),
                ),
                *self == *old(self),
            decreases self.gps_log@.len() - i,
        {
            let rec = self.gps_log[i];
            let ghost prev = track_segments@.map_values(|s: TrackSegment| s@);
            match rec.process_result {
                ProcessResult::Ignore => {},
                ProcessResult::NewSegment => {
                    let mut pts: Vec<TrackPoint> = Vec::new();
                    pts.push(
                        TrackPoint { longitude: rec.data.longitude, latitude: rec.data.latitude },
                    );
                    track_segments.push(TrackSegment { track_points: pts });
                    proof {
                        assert(track_segments@.map_values(|s: TrackSegment| s@) =~= prev.push(
                            seq![crate::journey_bitmap::pt_of(rec.data)],
                        ));
                    }
                },
                ProcessResult::Append => {
                    if track_segments.len() == 0 {
                        let mut pts: Vec<TrackPoint> = Vec::new();
                        pts.push(
                            TrackPoint {
                                longitude: rec.data.longitude,
                                latitude: rec.data.latitude,
                            },
                        );
                        track_segments.push(TrackSegment { track_points: pts });
                        proof {
                            assert(track_segments@.map_values(|s: TrackSegment| s@) =~= prev.push(
                                seq![crate::journey_bitmap::pt_of(rec.data)],
                            ));
                        }
                    } else {
                        let mut seg = match track_segments.pop() {
                            Option::Some(seg) => seg,
                            Option::None => TrackSegment { track_points: Vec::new() },
                        };
                        seg.track_points.push(
                            TrackPoint {
                                longitude: rec.data.longitude,
                                latitude: rec.data.latitude,
                            },
                        );
                        track_segments.push(seg);
                        proof {
                            assert(track_segments@.map_values(|s: TrackSegment| s@) =~= prev.update(
                                prev.len() - 1,
                                prev.last().push(crate::journey_bitmap::pt_of(rec.data)),
                            ));
                        }
                    }
                },
            }
            proof {
                let t = self.gps_log@.take(i + 1 as int);
                assert(t.drop_last() =~= self.gps_log@.take(i as int));
                assert(t.last() == self.gps_log@[i as int]);
            }
            i += 1;
        }
        proof {
            assert(self.gps_log@.take(self.gps_log@.len() as int) =~= self.gps_log@);
        }
        let v = JourneyVector { track_segments };
        self.journeys.push(
            StoredJourney { id: self.next_journey_id, data: JourneyData::Vector(v) },
        );
        self.next_journey_id = self.next_journey_id + 1;
        self.gps_log.clear();
        self.main_map_dirty = true;
        proof {
            assert(self.journeys@.drop_last() =~= old(self).journeys@);
        }
        true
    }

    /// Finalize the ongoing journey without being asked, once its recorded
    /// samples span more than a day. Reports whether it did.
    pub fn try_auto_finalize_journy(&mut self) -> (r: bool)
        requires
            old(self).next_journey_id < u64::MAX,
        ensures
            should_auto_finalize(old(self).gps_log@) ==> r == true && finalize_effect(
                *old(self),
                *final(self),
            ),
            !should_auto_finalize(old(self).gps_log@) ==> r == false && *final(self) == *old(
                self,
            ),
    {
        if self.gps_log.len() == 0 {
            return false;
        }
        let first = self.gps_log[0];
        let last_rec = self.gps_log[self.gps_log.len() - 1];
        let span_exceeded = first.data.timestamp_ms <= i64::MAX - AUTO_FINALIZE_SPAN_MS
            && last_rec.data.timestamp_ms > first.data.timestamp_ms + AUTO_FINALIZE_SPAN_MS;
        if span_exceeded {
            self.finalize_ongoing_journey()
        } else {
            false
        }
    }
}

} // verus!
