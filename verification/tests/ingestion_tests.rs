//! Batch ingestion: ordering, classification, segment mapping, persistence.

use journey_core::api::{
    get_map_renderer_proxy_for_main_map, init, on_location_update, MainState,
};
use journey_core::gps_processor::{ProcessResult, RawData};
use journey_core::journey_bitmap::PathSegment;
use journey_core::journey_vector::TrackPoint;

fn fresh_state() -> MainState {
    let mut slot: Option<MainState> = None;
    let already = init(
        &mut slot,
        "temp".to_string(),
        "doc".to_string(),
        "support".to_string(),
        "cache".to_string(),
    );
    assert!(!already);
    slot.unwrap()
}

fn sample(timestamp_ms: i64, longitude: i64, latitude: i64) -> RawData {
    RawData { timestamp_ms, longitude, latitude }
}

fn segment(x1: i64, y1: i64, x2: i64, y2: i64) -> PathSegment {
    PathSegment {
        start: TrackPoint { longitude: x1, latitude: y1 },
        end: TrackPoint { longitude: x2, latitude: y2 },
    }
}

/// A batch arriving out of order is processed in timestamp order, the
/// classifications follow the segmenter rules, every sample is persisted in
/// that order, and the present renderer gains the degenerate new-segment
/// line and the continuation line.
#[test]
fn out_of_order_batch_end_to_end() {
    let mut state = fresh_state();
    // Build the cached main renderer (from the still-empty store) so the
    // batch updates it in place.
    let mut proxy = get_map_renderer_proxy_for_main_map();
    let rendered = proxy.render_map_overlay(&mut state, 10, 0, 0, 100, 100);
    assert!(rendered.is_some());
    assert!(state.map_renderer.is_some());

    on_location_update(&mut state, vec![sample(5, 1, 1), sample(3, 0, 0)], 77);

    let log = &state.storage.gps_log;
    assert_eq!(log.len(), 2);
    assert_eq!(log[0].data, sample(3, 0, 0));
    assert_eq!(log[1].data, sample(5, 1, 1));
    assert_eq!(log[0].process_result, ProcessResult::NewSegment);
    assert_eq!(log[1].process_result, ProcessResult::Append);
    assert_eq!(log[0].received_timestamp_ms, 77);
    assert_eq!(log[1].received_timestamp_ms, 77);

    let lines = &state.map_renderer.as_ref().unwrap().journey_bitmap().lines;
    assert_eq!(*lines, vec![segment(0, 0, 0, 0), segment(0, 0, 1, 1)]);
}

/// Equal timestamps keep their arrival order (stable sort).
#[test]
fn equal_timestamps_keep_arrival_order() {
    let mut state = fresh_state();
    on_location_update(
        &mut state,
        vec![sample(5, 10, 10), sample(5, 20, 20), sample(3, 0, 0)],
        0,
    );
    let log = &state.storage.gps_log;
    assert_eq!(log.len(), 3);
    assert_eq!(log[0].data, sample(3, 0, 0));
    assert_eq!(log[1].data, sample(5, 10, 10));
    assert_eq!(log[2].data, sample(5, 20, 20));
}

/// A sample older than the last accepted one is ignored: it is persisted as
/// ignored, adds no line, and does not move the segmenter's memory.
#[test]
fn stale_sample_is_ignored_but_persisted() {
    let mut state = fresh_state();
    let mut proxy = get_map_renderer_proxy_for_main_map();
    proxy.render_map_overlay(&mut state, 10, 0, 0, 100, 100);

    on_location_update(&mut state, vec![sample(1000, 5, 5)], 0);
    // Older than the last accepted sample: ignored.
    on_location_update(&mut state, vec![sample(500, 9, 9)], 0);
    // Continuation: starts at the sample of t=1000, not at the ignored one.
    on_location_update(&mut state, vec![sample(1500, 7, 7)], 0);

    let log = &state.storage.gps_log;
    assert_eq!(log.len(), 3);
    assert_eq!(log[1].process_result, ProcessResult::Ignore);
    assert_eq!(log[2].process_result, ProcessResult::Append);

    let lines = &state.map_renderer.as_ref().unwrap().journey_bitmap().lines;
    assert_eq!(*lines, vec![segment(5, 5, 5, 5), segment(5, 5, 7, 7)]);
}

/// A long silence starts a new segment: the line is degenerate at the new
/// sample.
#[test]
fn long_gap_starts_new_segment() {
    let mut state = fresh_state();
    let mut proxy = get_map_renderer_proxy_for_main_map();
    proxy.render_map_overlay(&mut state, 10, 0, 0, 100, 100);

    on_location_update(&mut state, vec![sample(0, 1, 2)], 0);
    // More than five minutes later: a new segment, not a continuation.
    on_location_update(&mut state, vec![sample(300_001, 8, 9)], 0);

    let log = &state.storage.gps_log;
    assert_eq!(log[0].process_result, ProcessResult::NewSegment);
    assert_eq!(log[1].process_result, ProcessResult::NewSegment);
    let lines = &state.map_renderer.as_ref().unwrap().journey_bitmap().lines;
    assert_eq!(*lines, vec![segment(1, 2, 1, 2), segment(8, 9, 8, 9)]);
}

/// A sample exactly at the gap threshold still continues the segment.
#[test]
fn gap_boundary_still_appends() {
    let mut state = fresh_state();
    on_location_update(&mut state, vec![sample(0, 0, 0)], 0);
    on_location_update(&mut state, vec![sample(300_000, 1, 1)], 0);
    assert_eq!(state.storage.gps_log[1].process_result, ProcessResult::Append);
}

/// Every sample is persisted exactly once whether or not the cached renderer
/// exists.
#[test]
fn samples_persisted_without_renderer() {
    let mut state = fresh_state();
    assert!(state.map_renderer.is_none());
    on_location_update(
        &mut state,
        vec![sample(1, 0, 0), sample(2, 1, 1), sample(3, 2, 2)],
        9,
    );
    assert!(state.map_renderer.is_none());
    let log = &state.storage.gps_log;
    assert_eq!(log.len(), 3);
    assert_eq!(log[0].data, sample(1, 0, 0));
    assert_eq!(log[1].data, sample(2, 1, 1));
    assert_eq!(log[2].data, sample(3, 2, 2));
}

/// An empty batch is a no-op.
#[test]
fn empty_batch_is_noop() {
    let mut state = fresh_state();
    on_location_update(&mut state, vec![], 0);
    assert_eq!(state.storage.gps_log.len(), 0);
}

/// Replaying the same samples in the same order from a fresh segmenter
/// always yields the same classification sequence.
#[test]
fn replay_is_deterministic() {
    let batch =
        vec![sample(10, 0, 0), sample(400_000, 3, 3), sample(399_000, 2, 2), sample(401_000, 4, 4)];
    let mut a = fresh_state();
    let mut b = fresh_state();
    on_location_update(&mut a, batch.clone(), 1);
    on_location_update(&mut b, batch, 2);
    let results_a: Vec<_> = a.storage.gps_log.iter().map(|r| r.process_result).collect();
    let results_b: Vec<_> = b.storage.gps_log.iter().map(|r| r.process_result).collect();
    assert_eq!(results_a, results_b);
}
