//! Live-tracking ingestion and incremental map-overlay orchestration for a
//! location-journey tracking application.
//!
//! Batches of raw position samples are sorted by timestamp, classified by a
//! stateful segmenter, turned into path segments that update an in-memory
//! renderable path, and persisted to a journey store. Map-overlay tiles are
//! produced on demand, either from a long-lived cached renderer backing the
//! main map view or from an ephemeral renderer backing a single historical
//! journey.

pub mod api;
pub mod gps_processor;
pub mod journey_bitmap;
pub mod journey_data;
pub mod journey_vector;
pub mod map_renderer;
pub mod merged_journey_builder;
pub mod stable_sort;
pub mod storage;
