//! Render proxies: zoom clamping, tile caching, dirty-flag rebuilds.

use journey_core::api::{
    get_map_renderer_proxy_for_journey, get_map_renderer_proxy_for_main_map, init,
    on_location_update, recover_from_archive, Archive, MainState, MapRendererProxy,
};
use journey_core::gps_processor::RawData;
use journey_core::journey_bitmap::{JourneyBitmap, PathSegment};
use journey_core::journey_data::JourneyData;
use journey_core::journey_vector::TrackPoint;
use journey_core::storage::StoredJourney;

fn fresh_state() -> MainState {
    let mut slot: Option<MainState> = None;
    init(
        &mut slot,
        "temp".to_string(),
        "doc".to_string(),
        "support".to_string(),
        "cache".to_string(),
    );
    slot.unwrap()
}

fn sample(timestamp_ms: i64, longitude: i64, latitude: i64) -> RawData {
    RawData { timestamp_ms, longitude, latitude }
}

fn segment(x1: i64, y1: i64, x2: i64, y2: i64) -> PathSegment {
    PathSegment {
        start: TrackPoint { longitude: x1, latitude: y1 },
        end: TrackPoint { longitude: x2, latitude: y2 },
    }
}

/// Zoom below the floor is raised to the floor; zoom at or above it passes
/// through unchanged.
#[test]
fn zoom_clamped_to_floor() {
    let mut state = fresh_state();
    let mut proxy = get_map_renderer_proxy_for_main_map();
    let low = proxy.render_map_overlay(&mut state, 0, 0, 0, 10, 10).unwrap();
    assert_eq!(low.area.zoom, 2);
    let at_floor = proxy.render_map_overlay(&mut state, 2, 1, 1, 10, 10).unwrap();
    assert_eq!(at_floor.area.zoom, 2);
    let high = proxy.render_map_overlay(&mut state, 9, 2, 2, 10, 10).unwrap();
    assert_eq!(high.area.zoom, 9);
}

/// Rendering the identical view twice produces no new tile the second time;
/// a different view renders again.
#[test]
fn unchanged_view_renders_nothing_new() {
    let mut state = fresh_state();
    let mut proxy = get_map_renderer_proxy_for_main_map();
    assert!(proxy.render_map_overlay(&mut state, 3, 0, 0, 10, 10).is_some());
    assert!(proxy.render_map_overlay(&mut state, 3, 0, 0, 10, 10).is_none());
    assert!(proxy.render_map_overlay(&mut state, 3, 0, 0, 10, 20).is_some());
}

/// A zoom request below the floor hits the cache entry of the floor zoom.
#[test]
fn clamped_zoom_shares_cache_entry() {
    let mut state = fresh_state();
    let mut proxy = get_map_renderer_proxy_for_main_map();
    assert!(proxy.render_map_overlay(&mut state, 2, 0, 0, 10, 10).is_some());
    assert!(proxy.render_map_overlay(&mut state, 1, 0, 0, 10, 10).is_none());
}

/// After the store reports the main path changed, the next main-map render
/// discards and rebuilds the cache exactly once; further renders (with no
/// further change) reuse the rebuilt cache.
#[test]
fn dirty_flag_rebuilds_cache_once() {
    let mut state = fresh_state();
    let mut proxy = get_map_renderer_proxy_for_main_map();
    proxy.render_map_overlay(&mut state, 3, 0, 0, 10, 10);
    on_location_update(&mut state, vec![sample(1, 0, 0), sample(2, 4, 4)], 0);
    // Finalizing moves the ongoing journey into the journey table and marks
    // the main path changed.
    assert!(journey_core::api::finalize_ongoing_journey(&mut state));
    assert!(state.storage.main_map_dirty);

    // The next render rebuilds from the store's snapshot: the finalized
    // journey replayed as a vector (one line), no ongoing samples.
    let rebuilt = proxy.render_map_overlay(&mut state, 3, 0, 0, 10, 10);
    assert!(rebuilt.is_some());
    assert!(!state.storage.main_map_dirty);
    let lines = &state.map_renderer.as_ref().unwrap().journey_bitmap().lines;
    assert_eq!(*lines, vec![segment(0, 0, 4, 4)]);

    // No further change: the same view is served from the rebuilt cache.
    assert!(proxy.render_map_overlay(&mut state, 3, 0, 0, 10, 10).is_none());
    assert!(!state.storage.main_map_dirty);
}

/// Resetting the main-map proxy drops the tile cache but keeps the path, so
/// the same view renders again.
#[test]
fn reset_keeps_path_but_drops_cache() {
    let mut state = fresh_state();
    let mut proxy = get_map_renderer_proxy_for_main_map();
    assert!(proxy.render_map_overlay(&mut state, 3, 0, 0, 10, 10).is_some());
    assert!(proxy.render_map_overlay(&mut state, 3, 0, 0, 10, 10).is_none());
    proxy.reset_map_renderer(&mut state);
    assert!(proxy.render_map_overlay(&mut state, 3, 0, 0, 10, 10).is_some());
}

/// Resetting a main-map proxy with no cached renderer does nothing.
#[test]
fn reset_without_cached_renderer_is_noop() {
    let mut state = fresh_state();
    let mut proxy = get_map_renderer_proxy_for_main_map();
    proxy.reset_map_renderer(&mut state);
    assert!(state.map_renderer.is_none());
}

/// A journey stored as a vector path yields a private renderer whose bitmap
/// equals replaying every stored segment into an empty bitmap.
#[test]
fn for_journey_vector_replays_segments() {
    let mut state = fresh_state();
    on_location_update(&mut state, vec![sample(1, 0, 0), sample(2, 3, 3), sample(3, 5, 1)], 0);
    assert!(journey_core::api::finalize_ongoing_journey(&mut state));

    let proxy = get_map_renderer_proxy_for_journey(&state, 1).unwrap();
    let renderer = match &proxy {
        MapRendererProxy::Simple(r) => r,
        MapRendererProxy::MainMap => panic!("expected a private renderer"),
    };
    // Replay of the stored vector: consecutive points of one track segment.
    let mut expected = JourneyBitmap::new();
    expected.add_line(0, 0, 3, 3);
    expected.add_line(3, 3, 5, 1);
    assert_eq!(renderer.journey_bitmap().lines, expected.lines);
}

/// A journey stored as a bitmap yields a private renderer over exactly the
/// stored lines.
#[test]
fn for_journey_bitmap_uses_stored_lines() {
    let mut state = fresh_state();
    let mut bitmap = JourneyBitmap::new();
    bitmap.add_line(1, 2, 3, 4);
    recover_from_archive(
        &mut state,
        Archive { journeys: vec![StoredJourney { id: 42, data: JourneyData::Bitmap(bitmap) }] },
    );
    let proxy = get_map_renderer_proxy_for_journey(&state, 42).unwrap();
    let renderer = match &proxy {
        MapRendererProxy::Simple(r) => r,
        MapRendererProxy::MainMap => panic!("expected a private renderer"),
    };
    assert_eq!(renderer.journey_bitmap().lines, vec![segment(1, 2, 3, 4)]);
}

/// Rendering through a simple proxy touches neither the shared cache slot
/// nor the store.
#[test]
fn simple_proxy_leaves_shared_state_alone() {
    let mut state = fresh_state();
    on_location_update(&mut state, vec![sample(1, 0, 0), sample(2, 1, 1)], 0);
    assert!(journey_core::api::finalize_ongoing_journey(&mut state));
    let mut proxy = get_map_renderer_proxy_for_journey(&state, 1).unwrap();
    let dirty_before = state.storage.main_map_dirty;

    let r = proxy.render_map_overlay(&mut state, 5, 0, 0, 9, 9);
    assert!(r.is_some());
    assert!(state.map_renderer.is_none());
    assert_eq!(state.storage.main_map_dirty, dirty_before);
}

/// An unknown journey id is a lookup failure.
#[test]
fn for_journey_unknown_id_fails() {
    let state = fresh_state();
    assert_eq!(
        get_map_renderer_proxy_for_journey(&state, 999).err(),
        Some(journey_core::api::ApiError::NotFound)
    );
}
