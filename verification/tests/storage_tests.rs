//! Store-facing surface: initialization, journey lifecycle, exports,
//! archives, raw-data capture.

use journey_core::api::{
    delete_journey, delete_raw_data_file, export_journey, finalize_ongoing_journey,
    generate_full_archive, get_raw_data_mode, init, list_all_journeys, list_all_raw_data,
    on_location_update, recover_from_archive, toggle_raw_data_mode, try_auto_finalize_journy,
    ApiError, Archive, ExportType, MainState,
};
use journey_core::gps_processor::RawData;
use journey_core::journey_bitmap::JourneyBitmap;
use journey_core::journey_data::{JourneyData, JourneyType};
use journey_core::storage::{RawDataFile, StoredJourney};

fn fresh_state() -> MainState {
    let mut slot: Option<MainState> = None;
    init(
        &mut slot,
        "temp".to_string(),
        "doc".to_string(),
        "support".to_string(),
        "cache".to_string(),
    );
    slot.unwrap()
}

fn sample(timestamp_ms: i64, longitude: i64, latitude: i64) -> RawData {
    RawData { timestamp_ms, longitude, latitude }
}

/// The second initialization call never replaces the already-initialized
/// singleton and reports that it was already initialized.
#[test]
fn second_init_keeps_singleton() {
    let mut slot: Option<MainState> = None;
    let first = init(
        &mut slot,
        "t1".to_string(),
        "d1".to_string(),
        "s1".to_string(),
        "c1".to_string(),
    );
    assert!(!first);
    let second = init(
        &mut slot,
        "t2".to_string(),
        "d2".to_string(),
        "s2".to_string(),
        "c2".to_string(),
    );
    assert!(second);
    // The store handle is the one the first call opened.
    let state = slot.unwrap();
    assert_eq!(state.storage.temp_dir, "t1".to_string());
    assert_eq!(state.storage.cache_dir, "c1".to_string());
}

/// Finalizing an empty ongoing journey does nothing; finalizing a non-empty
/// one stores it as a vector journey and empties the log.
#[test]
fn finalize_lifecycle() {
    let mut state = fresh_state();
    assert!(!finalize_ongoing_journey(&mut state));
    assert_eq!(list_all_journeys(&state).len(), 0);

    on_location_update(&mut state, vec![sample(1, 0, 0), sample(2, 1, 1)], 0);
    assert!(finalize_ongoing_journey(&mut state));
    assert_eq!(state.storage.gps_log.len(), 0);

    let headers = list_all_journeys(&state);
    assert_eq!(headers.len(), 1);
    assert_eq!(headers[0].id, 1);
    assert_eq!(headers[0].journey_type, JourneyType::Vector);

    // A second finalized journey gets the next id.
    on_location_update(&mut state, vec![sample(1_000_000, 2, 2)], 0);
    assert!(finalize_ongoing_journey(&mut state));
    let headers = list_all_journeys(&state);
    assert_eq!(headers.len(), 2);
    assert_eq!(headers[1].id, 2);
}

/// The ongoing journey is auto-finalized only once its samples span more
/// than a day.
#[test]
fn auto_finalize_needs_a_day() {
    let mut state = fresh_state();
    assert!(!try_auto_finalize_journy(&mut state));

    on_location_update(&mut state, vec![sample(0, 0, 0), sample(1000, 1, 1)], 0);
    assert!(!try_auto_finalize_journy(&mut state));
    assert_eq!(state.storage.gps_log.len(), 2);

    // A span of exactly one day is still not enough.
    on_location_update(&mut state, vec![sample(86_400_000, 2, 2)], 0);
    assert!(!try_auto_finalize_journy(&mut state));

    on_location_update(&mut state, vec![sample(86_400_001, 3, 3)], 0);
    assert!(try_auto_finalize_journy(&mut state));
    assert_eq!(state.storage.gps_log.len(), 0);
    assert_eq!(list_all_journeys(&state).len(), 1);
}

/// Deleting a stored journey removes exactly it and marks the main path
/// changed; deleting an unknown id fails.
#[test]
fn delete_journey_by_id() {
    let mut state = fresh_state();
    on_location_update(&mut state, vec![sample(1, 0, 0)], 0);
    finalize_ongoing_journey(&mut state);
    on_location_update(&mut state, vec![sample(1_000_000, 1, 1)], 0);
    finalize_ongoing_journey(&mut state);
    assert_eq!(list_all_journeys(&state).len(), 2);

    state.storage.main_map_dirty = false;
    assert_eq!(delete_journey(&mut state, 1), Ok(()));
    assert!(state.storage.main_map_dirty);
    let headers = list_all_journeys(&state);
    assert_eq!(headers.len(), 1);
    assert_eq!(headers[0].id, 2);

    assert_eq!(delete_journey(&mut state, 1), Err(ApiError::NotFound));
}

/// Exporting a vector journey hands back the stored vector with the chosen
/// encoder; a bitmap journey is refused with the domain-mismatch error; an
/// unknown id is a lookup failure.
#[test]
fn export_journey_by_kind() {
    let mut state = fresh_state();
    on_location_update(&mut state, vec![sample(1, 0, 0), sample(2, 6, 7)], 0);
    finalize_ongoing_journey(&mut state);

    let payload = export_journey(&state, 1, ExportType::GPX).unwrap();
    assert_eq!(payload.export_type, ExportType::GPX);
    assert_eq!(payload.vector.track_segments.len(), 1);
    assert_eq!(payload.vector.track_segments[0].track_points.len(), 2);
    assert_eq!(payload.vector.track_segments[0].track_points[1].longitude, 6);
    assert_eq!(payload.vector.track_segments[0].track_points[1].latitude, 7);

    let mut bitmap = JourneyBitmap::new();
    bitmap.add_line(0, 0, 1, 1);
    recover_from_archive(
        &mut state,
        Archive { journeys: vec![StoredJourney { id: 9, data: JourneyData::Bitmap(bitmap) }] },
    );
    assert_eq!(
        export_journey(&state, 9, ExportType::KML).err(),
        Some(ApiError::DataTypeMismatch)
    );
    assert_eq!(export_journey(&state, 8, ExportType::KML).err(), Some(ApiError::NotFound));
}

/// A full archive snapshots every stored journey; recovering from it
/// restores them and marks the main path changed.
#[test]
fn archive_round_trip() {
    let mut state = fresh_state();
    on_location_update(&mut state, vec![sample(1, 0, 0), sample(2, 1, 1)], 0);
    finalize_ongoing_journey(&mut state);

    let archive = generate_full_archive(&state);
    assert_eq!(archive.journeys.len(), 1);
    assert_eq!(archive.journeys[0].id, 1);

    let mut restored = fresh_state();
    recover_from_archive(&mut restored, archive);
    assert!(restored.storage.main_map_dirty);
    let headers = list_all_journeys(&restored);
    assert_eq!(headers.len(), 1);
    assert_eq!(headers[0].id, 1);
    assert_eq!(headers[0].journey_type, JourneyType::Vector);

    let payload = export_journey(&restored, 1, ExportType::KML).unwrap();
    assert_eq!(payload.vector.track_segments[0].track_points.len(), 2);
}

/// Switching capture mode on opens one new capture file per on-switch;
/// deleting removes by id and fails on an unknown id.
#[test]
fn raw_data_capture_files() {
    let mut state = fresh_state();
    assert!(!get_raw_data_mode(&state));
    assert_eq!(list_all_raw_data(&state).len(), 0);

    toggle_raw_data_mode(&mut state, true);
    assert!(get_raw_data_mode(&state));
    assert_eq!(list_all_raw_data(&state), vec![RawDataFile { id: 1 }]);

    // Already on: no new file.
    toggle_raw_data_mode(&mut state, true);
    assert_eq!(list_all_raw_data(&state).len(), 1);

    toggle_raw_data_mode(&mut state, false);
    assert!(!get_raw_data_mode(&state));
    toggle_raw_data_mode(&mut state, true);
    assert_eq!(
        list_all_raw_data(&state),
        vec![RawDataFile { id: 1 }, RawDataFile { id: 2 }]
    );

    assert_eq!(delete_raw_data_file(&mut state, 1), Ok(()));
    assert_eq!(list_all_raw_data(&state), vec![RawDataFile { id: 2 }]);
    assert_eq!(delete_raw_data_file(&mut state, 1), Err(ApiError::NotFound));
}
