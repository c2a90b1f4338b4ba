//! The exposed surface of the core: shared runtime state, batch ingestion,
//! and render proxies, with pass-through accessors over the store.

use crate::gps_processor::{last_after, spec_classify, GpsProcessor, RawData};
use crate::journey_bitmap::{line_seq, line_to_add, JourneyBitmap, PathSegment};
use crate::journey_data::{
    data_lines, data_matches, lemma_vector_lines_from_view, JourneyData, JourneyHeader,
};
use crate::journey_vector::JourneyVector;
use crate::map_renderer::{MapRenderer, RenderArea, RenderResult};
use crate::merged_journey_builder::{add_journey_vector_to_journey_bitmap, vector_lines};
use crate::stable_sort::{sort_by_timestamp, stable_sorted};
use crate::storage::{
    file_has_id, find_first, finalize_effect, has_id, main_lines, should_auto_finalize, GpsRecord,
    RawDataFile, Storage, StoredJourney,
};
use vstd::prelude::*;

verus! {

/// A failure surfaced to the caller. Store lookups that find nothing report
/// `NotFound`; operations on a journey stored in the wrong representation
/// report `DataTypeMismatch` without attempting anything.
#[derive(Clone, Copy, PartialEq, Eq, Structural, Debug)]
pub enum ApiError {
    NotFound,
    DataTypeMismatch,
}

/// Process-wide runtime state: one segmenter, one optional cached renderer
/// backing the main map view, and the store handle. Constructed once per
/// process by `init` and passed explicitly to every operation.
pub struct MainState {
    pub storage: Storage,
    pub map_renderer: Option<MapRenderer>,
    pub gps_processor: GpsProcessor,
}

/// One-time setup of the shared runtime state. The first call constructs the
/// singleton: the store opened over the given directories, an empty
/// segmenter, and no cached renderer. Every later call leaves the existing
/// singleton untouched and reports that it was already initialized, so the
/// caller can emit its diagnostic.
pub fn init(
    state: &mut Option<MainState>,
    temp_dir: String,
    doc_dir: String,
    support_dir: String,
    cache_dir: String,
) -> (already_initialized: bool)
    ensures
        (*old(state)) is Some ==> *final(state) == *old(state) && already_initialized,
        (*old(state)) is None ==> !already_initialized && ((*final(state)) matches Some(ms)
            && ms.storage.temp_dir == temp_dir && ms.storage.doc_dir == doc_dir
            && ms.storage.support_dir == support_dir && ms.storage.cache_dir == cache_dir
            && ms.storage.gps_log@.len() == 0 && ms.storage.journeys@.len() == 0
            && ms.storage.next_journey_id == 1 && ms.storage.raw_data_files@.len() == 0
            && ms.storage.next_raw_data_file_id == 1 && !ms.storage.raw_data_mode
            && !ms.storage.main_map_dirty && ms.map_renderer is None
            && ms.gps_processor.last() is None),
{
    if state.is_some() {
        return true;
    }
    let storage = Storage::init(temp_dir, doc_dir, support_dir, cache_dir);
    *state = Some(
        MainState { storage, map_renderer: None, gps_processor: GpsProcessor::new() },
    );
    false
}

/// The records one ingested batch appends to the store, in processing order:
/// one per sample, carrying the sample, its classification against the
/// segmenter memory reached so far, and the batch's received timestamp.
pub open spec fn records_added(
    last: Option<RawData>,
    s: Seq<RawData>,
    received_timestamp_ms: i64,
) -> Seq<GpsRecord>
    decreases s.len(),
{
    if s.len() == 0 {
        Seq::empty()
    } else {
        records_added(last, s.drop_last(), received_timestamp_ms).push(
            GpsRecord {
                data: s.last(),
                process_result: spec_classify(last_after(last, s.drop_last()), s.last()),
                received_timestamp_ms,
            },
        )
    }
}

/// The lines one ingested batch appends to the renderable path, in
/// processing order: zero or one per sample, as its classification directs.
pub open spec fn lines_added(last: Option<RawData>, s: Seq<RawData>) -> Seq<PathSegment>
    decreases s.len(),
{
    if s.len() == 0 {
        Seq::empty()
    } else {
        lines_added(last, s.drop_last()) + line_seq(
            last_after(last, s.drop_last()),
            spec_classify(last_after(last, s.drop_last()), s.last()),
            s.last(),
        )
    }
}

/// Persistence law: a batch appends exactly one record per processed sample,
/// in processing order, each carrying its own sample, its classification, and
/// the batch's received timestamp — independent of any renderer state.
pub proof fn lemma_each_sample_persisted_once(
    last: Option<RawData>,
    s: Seq<RawData>,
    received_timestamp_ms: i64,
)
    ensures
        records_added(last, s, received_timestamp_ms).len() == s.len(),
        crate::gps_processor::classifications(last, s).len() == s.len(),
        forall|i: int|
            0 <= i < s.len() ==> #[trigger] records_added(last, s, received_timestamp_ms)[i]
                == (GpsRecord {
                data: s[i],
                process_result: crate::gps_processor::classifications(last, s)[i],
                received_timestamp_ms,
            }),
    decreases s.len(),
{
    if s.len() == 0 {
    } else {
        lemma_each_sample_persisted_once(last, s.drop_last(), received_timestamp_ms);
        let r_all = records_added(last, s, received_timestamp_ms);
        let r_pre = records_added(last, s.drop_last(), received_timestamp_ms);
        let c_all = crate::gps_processor::classifications(last, s);
        let c_pre = crate::gps_processor::classifications(last, s.drop_last());
        assert forall|i: int| 0 <= i < s.len() implies #[trigger] r_all[i] == (GpsRecord {
            data: s[i],
            process_result: c_all[i],
            received_timestamp_ms,
        }) by {
            if i < s.len() - 1 {
                assert(r_all[i] == r_pre[i]);
                assert(c_all[i] == c_pre[i]);
                assert(s.drop_last()[i] == s[i]);
            }
        }
    }
}

/// Ingest one batch of raw samples: sort them by timestamp (stable), classify
/// each in order, update the cached main renderer in place when it is
/// present, and persist every sample exactly once, whatever the renderer
/// state. The whole batch is handled in one call, atomically with respect to
/// every other operation on the shared state.
pub fn on_location_update(
    state: &mut MainState,
    raw_data_list: Vec<RawData>,
    recevied_timestamp_ms: i64,
)
    ensures
        final(state).gps_processor.last() == last_after(
            old(state).gps_processor.last(),
            stable_sorted(raw_data_list@),
        ),
        final(state).storage.gps_log@ == old(state).storage.gps_log@ + records_added(
            old(state).gps_processor.last(),
            stable_sorted(raw_data_list@),
            recevied_timestamp_ms,
        ),
        final(state).storage.same_but_gps_log(old(state).storage),
        old(state).map_renderer is None ==> final(state).map_renderer is None,
        old(state).map_renderer matches Some(mr) ==> (final(state).map_renderer matches Some(mr2)
            && mr2.bitmap() == mr.bitmap() + lines_added(
            old(state).gps_processor.last(),
            stable_sorted(raw_data_list@),
        ) && mr2.current_render() == (if lines_added(
            old(state).gps_processor.last(),
            stable_sorted(raw_data_list@),
        ).len() == 0 {
            mr.current_render()
        } else {
            None::<RenderArea>
        })),
{
    let mut list = raw_data_list;
    sort_by_timestamp(&mut list);
    let ghost sorted = list@;
    let ghost last0 = old(state).gps_processor.last();
    let mut i: usize = 0;
    while i < list.len()
        invariant
            i <= sorted.len(),
            list@ == sorted,
            last0 == old(state).gps_processor.last(),
            state.gps_processor.last() == last_after(last0, sorted.take(i as int)),
            state.storage.gps_log@ == old(state).storage.gps_log@ + records_added(
                last0,
                sorted.take(i as int),
                recevied_timestamp_ms,
            ),
            state.storage.same_but_gps_log(old(state).storage),
            old(state).map_renderer is None ==> state.map_renderer is None,
            old(state).map_renderer matches Some(mr) ==> (state.map_renderer matches Some(mr2)
                && mr2.bitmap() == mr.bitmap() + lines_added(last0, sorted.take(i as int))
                && mr2.current_render() == (if lines_added(last0, sorted.take(i as int)).len()
                == 0 {
                mr.current_render()
            } else {
                None::<RenderArea>
            })),
        decreases sorted.len() - i,
    {
        let raw_data = list[i];
        let last_data = state.gps_processor.last_data();
        let process_result = state.gps_processor.preprocess(&raw_data);
        let line = line_to_add(last_data, process_result, &raw_data);
        match &mut state.map_renderer {
            Option::None => {},
            Option::Some(mr) => {
                match line {
                    Option::None => {},
                    Option::Some(l) => {
                        mr.update(l);
                    },
                }
            },
        }
        state.storage.record_gps_data(&raw_data, process_result, recevied_timestamp_ms);
        proof {
            let t = sorted.take(i + 1 as int);
            assert(t.drop_last() =~= sorted.take(i as int));
            assert(t.last() == sorted[i as int]);
            let recs_now = records_added(last0, sorted.take(i as int), recevied_timestamp_ms);
            let rec = GpsRecord {
                data: sorted[i as int],
                process_result: spec_classify(
                    last_after(last0, sorted.take(i as int)),
                    sorted[i as int],
                ),
                received_timestamp_ms: recevied_timestamp_ms,
            };
            assert((old(state).storage.gps_log@ + recs_now).push(rec) =~= old(state).storage.gps_log@ + recs_now.push(rec));
            match old(state).map_renderer {
                Option::None => {},
                Option::Some(mr) => {
                    let prev_lines = lines_added(last0, sorted.take(i as int));
                    let step = line_seq(
                        last_after(last0, sorted.take(i as int)),
                        spec_classify(last_after(last0, sorted.take(i as int)), sorted[i as int]),
                        sorted[i as int],
                    );
                    match line {
                        Option::None => {
                            assert((mr.bitmap() + prev_lines) + step =~= mr.bitmap()
                                + prev_lines);
                            assert(lines_added(last0, sorted.take(i + 1 as int)) =~= prev_lines);
                        },
                        Option::Some(l) => {
                            assert((mr.bitmap() + prev_lines).push(l) =~= mr.bitmap() + (
                            prev_lines + seq![l]));
                        },
                    }
                },
            }
        }
        i += 1;
    }
    proof {
        assert(sorted.take(sorted.len() as int) =~= sorted);
    }
}

/// A caller-facing handle for rendering map overlays: either bound to the
/// process-wide cached main renderer, or owning one private renderer built
/// once, at construction, from a single stored journey.
pub enum MapRendererProxy {
    MainMap,
    Simple(MapRenderer),
}

/// The lowest zoom forwarded to a renderer: a deliberate quality floor, not
/// an error.
pub const MIN_ZOOM: i32 = 2;

/// The requested zoom raised to the quality floor; a request at or above the
/// floor passes through unchanged.
pub open spec fn clamp_zoom(zoom: i32) -> i32 {
    if zoom < MIN_ZOOM {
        MIN_ZOOM
    } else {
        zoom
    }
}

/// Zoom-floor law: a request below the floor is always raised exactly to the
/// floor; a request at or above it is never altered.
pub proof fn lemma_zoom_floor(zoom: i32)
    ensures
        zoom < MIN_ZOOM ==> clamp_zoom(zoom) == MIN_ZOOM,
        zoom >= MIN_ZOOM ==> clamp_zoom(zoom) == zoom,
        clamp_zoom(zoom) >= MIN_ZOOM,
{
}

impl MapRendererProxy {
    /// Render one map-overlay view. On the main-map handle: if the store
    /// reports the main path changed, the cached renderer is discarded; an
    /// absent renderer is then rebuilt once from the store's latest snapshot;
    /// the (clamped) request is delegated to it. On a simple handle the
    /// request goes to the private renderer; the shared state is untouched.
    pub fn render_map_overlay(
        &mut self,
        state: &mut MainState,
        zoom: i32,
        left: i64,
        top: i64,
        right: i64,
        bottom: i64,
    ) -> (r: Option<RenderResult>)
        ensures
            ({
                let area = RenderArea { zoom: clamp_zoom(zoom), left, top, right, bottom };
                match *old(self) {
                    MapRendererProxy::MainMap => {
                        &&& *final(self) is MainMap
                        &&& final(state).gps_processor == old(state).gps_processor
                        &&& !final(state).storage.main_map_dirty
                        &&& final(state).storage.gps_log == old(state).storage.gps_log
                        &&& final(state).storage.journeys == old(state).storage.journeys
                        &&& final(state).storage.next_journey_id == old(state).storage.next_journey_id
                        &&& final(state).storage.same_but_journeys(old(state).storage)
                        &&& ({
                            let base_bitmap = match old(state).map_renderer {
                                Option::Some(mr) => if old(state).storage.main_map_dirty {
                                    main_lines(old(state).storage)
                                } else {
                                    mr.bitmap()
                                },
                                Option::None => main_lines(old(state).storage),
                            };
                            let base_cache = match old(state).map_renderer {
                                Option::Some(mr) => if old(state).storage.main_map_dirty {
                                    None
                                } else {
                                    mr.current_render()
                                },
                                Option::None => None::<RenderArea>,
                            };
                            &&& final(state).map_renderer matches Some(mr2)
                            &&& mr2.bitmap() == base_bitmap
                            &&& (if base_cache == Some(area) {
                                r is None && mr2.current_render() == base_cache
                            } else {
                                r == Some(RenderResult { area }) && mr2.current_render() == Some(
                                    area,
                                )
                            })
                        })
                    },
                    MapRendererProxy::Simple(mr) => {
                        &&& *final(state) == *old(state)
                        &&& (*final(self) matches MapRendererProxy::Simple(mr2) && mr2.bitmap()
                            == mr.bitmap() && (if mr.current_render() == Some(area) {
                            r is None && mr2.current_render() == mr.current_render()
                        } else {
                            r == Some(RenderResult { area }) && mr2.current_render() == Some(
                                area,
                            )
                        }))
                    },
                }
            }),
    {
        let zoom = if zoom < MIN_ZOOM {
            MIN_ZOOM
        } else {
            zoom
        };
        match self {
            MapRendererProxy::MainMap => {
                let need_reload = state.storage.main_map_renderer_need_to_reload();
                if need_reload {
                    state.map_renderer = None;
                }
                if state.map_renderer.is_none() {
                    let journey_bitmap = state.storage.get_latest_bitmap_for_main_map_renderer();
                    state.map_renderer = Some(MapRenderer::new(journey_bitmap));
                }
                match &mut state.map_renderer {
                    Option::Some(mr) => mr.maybe_render_map_overlay(
                        zoom,
                        left,
                        top,
                        right,
                        bottom,
                    ),
                    Option::None => None,
                }
            },
            MapRendererProxy::Simple(map_renderer) => {
                map_renderer.maybe_render_map_overlay(zoom, left, top, right, bottom)
            },
        }
    }

    /// Reset the bound renderer's internal tile cache (for example after a
    /// visual style change) without discarding its path data. A main-map
    /// handle with no cached renderer does nothing.
    pub fn reset_map_renderer(&mut self, state: &mut MainState)
        ensures
            match *old(self) {
                MapRendererProxy::MainMap => {
                    &&& *final(self) is MainMap
                    &&& final(state).gps_processor == old(state).gps_processor
                    &&& final(state).storage == old(state).storage
                    &&& (match old(state).map_renderer {
                        Option::None => final(state).map_renderer is None,
                        Option::Some(mr) => final(state).map_renderer matches Some(mr2)
                            && mr2.bitmap() == mr.bitmap() && mr2.current_render() is None,
                    })
                },
                MapRendererProxy::Simple(mr) => {
                    &&& *final(state) == *old(state)
                    &&& (*final(self) matches MapRendererProxy::Simple(mr2) && mr2.bitmap()
                        == mr.bitmap() && mr2.current_render() is None)
                },
            },
    {
        match self {
            MapRendererProxy::MainMap => {
                match &mut state.map_renderer {
                    Option::Some(mr) => mr.reset(),
                    Option::None => {},
                }
            },
            MapRendererProxy::Simple(map_renderer) => {
                map_renderer.reset();
            },
        }
    }
}

/// A handle bound to the process-wide cached main renderer.
pub fn get_map_renderer_proxy_for_main_map() -> (r: MapRendererProxy)
    ensures
        r is MainMap,
{
    MapRendererProxy::MainMap
}

/// A handle owning one private renderer for a single stored journey, built
/// once from its persisted data: a bitmap journey is used as stored; a
/// vector journey is rasterized by replaying every stored segment into a
/// fresh empty bitmap through the same line-adding primitive ingestion uses.
pub fn get_map_renderer_proxy_for_journey(state: &MainState, journey_id: u64) -> (r: Result<
    MapRendererProxy,
    ApiError,
>)
    ensures
        match find_first(state.storage.journeys@, has_id(journey_id)) {
            Option::None => r matches Err(e) && e == ApiError::NotFound,
            Option::Some(i) => r matches Ok(p) && (p matches MapRendererProxy::Simple(mr)
                && mr.current_render() is None && mr.bitmap() == data_lines(
                state.storage.journeys@[i].data,
            )),
        },
{
    let journey_data = match state.storage.get_journey(journey_id) {
        Option::Some(d) => d,
        Option::None => {
            return Err(ApiError::NotFound);
        },
    };
    let journey_bitmap = match journey_data {
        JourneyData::Bitmap(bitmap) => bitmap,
        JourneyData::Vector(vector) => {
            let mut bitmap = JourneyBitmap::new();
            add_journey_vector_to_journey_bitmap(&mut bitmap, &vector);
            proof {
                match find_first(state.storage.journeys@, has_id(journey_id)) {
                    Option::Some(i) => {
                        match state.storage.journeys@[i].data {
                            JourneyData::Vector(stored) => {
                                lemma_vector_lines_from_view(vector, stored);
                            },
                            JourneyData::Bitmap(_) => {},
                        }
                    },
                    Option::None => {},
                }
                assert(Seq::<PathSegment>::empty() + vector_lines(vector) =~= vector_lines(
                    vector,
                ));
            }
            bitmap
        },
    };
    Ok(MapRendererProxy::Simple(MapRenderer::new(journey_bitmap)))
}

/// The serialization a journey export should use.
#[derive(Clone, Copy, PartialEq, Eq, Structural, Debug)]
pub enum ExportType {
    GPX,
    KML,
}

/// A validated export order: which encoder to run and the vector journey to
/// feed it. Encoding and file writing happen outside the core.
pub struct ExportPayload {
    pub export_type: ExportType,
    pub vector: JourneyVector,
}

/// Decide a journey export: a journey stored as a bitmap is refused with the
/// domain-mismatch error before any file could be touched; a vector journey
/// is handed back with the chosen encoder.
pub fn export_journey(state: &MainState, journey_id: u64, export_type: ExportType) -> (r: Result<
    ExportPayload,
    ApiError,
>)
    ensures
        match find_first(state.storage.journeys@, has_id(journey_id)) {
            Option::None => r matches Err(e) && e == ApiError::NotFound,
            Option::Some(i) => match state.storage.journeys@[i].data {
                JourneyData::Bitmap(_) => r matches Err(e) && e == ApiError::DataTypeMismatch,
                JourneyData::Vector(v) => r matches Ok(p) && p.export_type == export_type
                    && p.vector@ == v@,
            },
        },
{
    match state.storage.get_journey(journey_id) {
        Option::None => Err(ApiError::NotFound),
        Option::Some(JourneyData::Bitmap(_)) => Err(ApiError::DataTypeMismatch),
        Option::Some(JourneyData::Vector(vector)) => Ok(ExportPayload { export_type, vector }),
    }
}

/// A full-archive snapshot of every stored journey.
pub struct Archive {
    pub journeys: Vec<StoredJourney>,
}

/// Export every stored journey, in storage order, as one archive snapshot.
pub fn generate_full_archive(state: &MainState) -> (r: Archive)
    ensures
        r.journeys@.len() == state.storage.journeys@.len(),
        forall|i: int|
            0 <= i < r.journeys@.len() ==> #[trigger] r.journeys@[i].id
                == state.storage.journeys@[i].id && data_matches(
                r.journeys@[i].data,
                state.storage.journeys@[i].data,
            ),
{
    let mut journeys: Vec<StoredJourney> = Vec::new();
    let mut i: usize = 0;
    while i < state.storage.journeys.len()
        invariant
            i <= state.storage.journeys@.len(),
            journeys@.len() == i,
            forall|k: int|
                0 <= k < i ==> #[trigger] journeys@[k].id == state.storage.journeys@[k].id
                    && data_matches(journeys@[k].data, state.storage.journeys@[k].data),
        decreases state.storage.journeys@.len() - i,
    {
        let data = state.storage.journeys[i].data.duplicate();
        journeys.push(StoredJourney { id: state.storage.journeys[i].id, data });
        i += 1;
    }
    Archive { journeys }
}

/// Recover from an archive: the stored journeys are replaced by the
/// archive's content, and the main path is marked changed so the next
/// main-map render rebuilds from the recovered data.
pub fn recover_from_archive(state: &mut MainState, archive: Archive)
    ensures
        final(state).storage.journeys == archive.journeys,
        final(state).storage.main_map_dirty,
        final(state).storage.gps_log == old(state).storage.gps_log,
        final(state).storage.next_journey_id == old(state).storage.next_journey_id,
        final(state).storage.same_but_journeys(old(state).storage),
        final(state).map_renderer == old(state).map_renderer,
        final(state).gps_processor == old(state).gps_processor,
{
    state.storage.journeys = archive.journeys;
    state.storage.main_map_dirty = true;
}

/// The raw-sample capture files, in creation order.
pub fn list_all_raw_data(state: &MainState) -> (r: Vec<RawDataFile>)
    ensures
        r@ == state.storage.raw_data_files@,
{
    state.storage.list_all_raw_data()
}

/// Whether raw-sample capture mode is on.
pub fn get_raw_data_mode(state: &MainState) -> (r: bool)
    ensures
        r == state.storage.raw_data_mode,
{
    state.storage.get_raw_data_mode()
}

/// Delete one raw-sample capture file by id; `NotFound` if no such file.
pub fn delete_raw_data_file(state: &mut MainState, file_id: u64) -> (r: Result<(), ApiError>)
    ensures
        match find_first(old(state).storage.raw_data_files@, file_has_id(file_id)) {
            Option::None => r matches Err(e) && e == ApiError::NotFound && *final(state) == *old(state),
            Option::Some(i) => {
                &&& r is Ok
                &&& final(state).storage.raw_data_files@ == old(
                    state,
                ).storage.raw_data_files@.remove(i)
                &&& final(state).storage.raw_data_mode == old(state).storage.raw_data_mode
                &&& final(state).storage.next_raw_data_file_id == old(
                    state,
                ).storage.next_raw_data_file_id
                &&& final(state).storage.same_but_raw_data(old(state).storage)
                &&& final(state).map_renderer == old(state).map_renderer
                &&& final(state).gps_processor == old(state).gps_processor
            },
        },
{
    if state.storage.delete_raw_data_file(file_id) {
        Ok(())
    } else {
        Err(ApiError::NotFound)
    }
}

/// Delete one stored journey by id; `NotFound` if no such journey. A
/// deletion marks the main path changed.
pub fn delete_journey(state: &mut MainState, journey_id: u64) -> (r: Result<(), ApiError>)
    ensures
        match find_first(old(state).storage.journeys@, has_id(journey_id)) {
            Option::None => r matches Err(e) && e == ApiError::NotFound && *final(state) == *old(state),
            Option::Some(i) => {
                &&& r is Ok
                &&& final(state).storage.journeys@ == old(state).storage.journeys@.remove(i)
                &&& final(state).storage.main_map_dirty
                &&& final(state).storage.gps_log == old(state).storage.gps_log
                &&& final(state).storage.next_journey_id == old(state).storage.next_journey_id
                &&& final(state).storage.same_but_journeys(old(state).storage)
                &&& final(state).map_renderer == old(state).map_renderer
                &&& final(state).gps_processor == old(state).gps_processor
            },
        },
{
    if state.storage.delete_journey(journey_id) {
        Ok(())
    } else {
        Err(ApiError::NotFound)
    }
}

/// Switch raw-sample capture mode; switching it on opens a new capture file.
pub fn toggle_raw_data_mode(state: &mut MainState, enable: bool)
    requires
        old(state).storage.next_raw_data_file_id < u64::MAX,
    ensures
        final(state).storage.raw_data_mode == enable,
        final(state).storage.same_but_raw_data(old(state).storage),
        enable && !old(state).storage.raw_data_mode ==> final(state).storage.raw_data_files@
            == old(state).storage.raw_data_files@.push(
            RawDataFile { id: old(state).storage.next_raw_data_file_id },
        ) && final(state).storage.next_raw_data_file_id == old(state).storage.next_raw_data_file_id + 1,
        !(enable && !old(state).storage.raw_data_mode) ==> final(state).storage.raw_data_files
            == old(state).storage.raw_data_files && final(state).storage.next_raw_data_file_id
            == old(state).storage.next_raw_data_file_id,
        final(state).map_renderer == old(state).map_renderer,
        final(state).gps_processor == old(state).gps_processor,
{
    state.storage.toggle_raw_data_mode(enable);
}

/// Close the ongoing journey into one new stored vector journey; reports
/// whether there was anything to finalize.
pub fn finalize_ongoing_journey(state: &mut MainState) -> (r: bool)
    requires
        old(state).storage.next_journey_id < u64::MAX,
    ensures
        old(state).storage.gps_log@.len() == 0 ==> r == false && *final(state) == *old(state),
        old(state).storage.gps_log@.len() > 0 ==> r == true && finalize_effect(
            old(state).storage,
            final(state).storage,
        ) && final(state).map_renderer == old(state).map_renderer && final(state).gps_processor
            == old(state).gps_processor,
{
    state.storage.finalize_ongoing_journey()
}

/// Finalize the ongoing journey without being asked, once its recorded
/// samples span more than a day; reports whether it did.
pub fn try_auto_finalize_journy(state: &mut MainState) -> (r: bool)
    requires
        old(state).storage.next_journey_id < u64::MAX,
    ensures
        should_auto_finalize(old(state).storage.gps_log@) ==> r == true && finalize_effect(
            old(state).storage,
            final(state).storage,
        ) && final(state).map_renderer == old(state).map_renderer && final(state).gps_processor
            == old(state).gps_processor,
        !should_auto_finalize(old(state).storage.gps_log@) ==> r == false && *final(state)
            == *old(state),
{
    state.storage.try_auto_finalize_journy()
}

/// Headers of all stored journeys, in storage order.
pub fn list_all_journeys(state: &MainState) -> (r: Vec<JourneyHeader>)
    ensures
        r@.len() == state.storage.journeys@.len(),
        forall|i: int|
            0 <= i < r@.len() ==> r@[i] == (JourneyHeader {
                id: state.storage.journeys@[i].id,
                journey_type: crate::journey_data::type_of(state.storage.journeys@[i].data),
            }),
{
    state.storage.list_all_journeys()
}

/// Description of the device the process runs on, reported by the caller at
/// startup for diagnostics.
#[derive(Clone, PartialEq, Eq, Debug)]
pub struct DeviceInfo {
    pub manufacturer: Option<String>,
    pub model: Option<String>,
    pub system_version: Option<String>,
}

/// Description of the application build, reported by the caller at startup
/// for diagnostics.
#[derive(Clone, PartialEq, Eq, Debug)]
pub struct AppInfo {
    pub package_name: String,
    pub version: String,
    pub build_number: String,
}

} // verus!
