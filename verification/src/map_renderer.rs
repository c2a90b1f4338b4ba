//! Incremental map-overlay renderer: wraps one renderable path and caches the
//! last rendered viewport so an unchanged view produces no new tile.

use crate::journey_bitmap::{JourneyBitmap, PathSegment};
use vstd::prelude::*;

verus! {

/// One requested map view: a zoom level and viewport bounds, in the same
/// fixed-point degrees as the path data.
#[derive(Clone, Copy, PartialEq, Eq, Structural, Debug)]
pub struct RenderArea {
    pub zoom: i32,
    pub left: i64,
    pub top: i64,
    pub right: i64,
    pub bottom: i64,
}

/// The outcome of rendering one view. How the tile pixels are rasterized
/// from the path is the renderer's internal concern; what this layer
/// guarantees is which view the tile was rendered for.
#[derive(Clone, Copy, PartialEq, Eq, Structural, Debug)]
pub struct RenderResult {
    pub area: RenderArea,
}

/// Wraps one renderable path, supports mutate-in-place updates and on-demand
/// tile rendering with internal caching keyed by viewport and zoom.
pub struct MapRenderer {
    bitmap: JourneyBitmap,
    current_render: Option<RenderArea>,
}

impl MapRenderer {
    /// The accumulated path this renderer draws from.
    pub closed spec fn bitmap(&self) -> Seq<PathSegment> {
        self.bitmap@
    }

    /// The view of the last tile handed out, if it is still valid.
    pub closed spec fn current_render(&self) -> Option<RenderArea> {
        self.current_render
    }

    /// A renderer over the given path, with an empty tile cache.
    pub fn new(journey_bitmap: JourneyBitmap) -> (r: MapRenderer)
        ensures
            r.bitmap() == journey_bitmap@,
            r.current_render() is None,
    {
        MapRenderer { bitmap: journey_bitmap, current_render: None }
    }

    /// Read access to the accumulated path.
    pub fn journey_bitmap(&self) -> (r: &JourneyBitmap)
        ensures
            r@ == self.bitmap(),
    {
        &self.bitmap
    }

    /// Append one segment to the path. Any cached tile is invalidated, since
    /// the view it was rendered from no longer shows the whole path.
    pub fn update(&mut self, line: PathSegment)
        ensures
            final(self).bitmap() == old(self).bitmap().push(line),
            final(self).current_render() is None,
    {
        self.bitmap.add_line(
            line.start.longitude,
            line.start.latitude,
            line.end.longitude,
            line.end.latitude,
        );
        self.current_render = None;
    }

    /// Render the requested view, unless it is exactly the view of the still
    /// valid cached tile, in which case nothing visible has changed and no
    /// new tile is produced.
    pub fn maybe_render_map_overlay(
        &mut self,
        zoom: i32,
        left: i64,
        top: i64,
        right: i64,
        bottom: i64,
    ) -> (r: Option<RenderResult>)
        ensures
            final(self).bitmap() == old(self).bitmap(),
            ({
                let area = RenderArea { zoom, left, top, right, bottom };
                if old(self).current_render() == Some(area) {
                    r is None && final(self).current_render() == old(self).current_render()
                } else {
                    r == Some(RenderResult { area }) && final(self).current_render() == Some(area)
                }
            }),
    {
        let area = RenderArea { zoom, left, top, right, bottom };
        let cache_hit = match &self.current_render {
            Option::Some(cached) => *cached == area,
            Option::None => false,
        };
        if cache_hit {
            None
        } else {
            self.current_render = Some(area);
            Some(RenderResult { area })
        }
    }

    /// Drop the cached tile (for example after a visual style change) without
    /// discarding the underlying path data.
    pub fn reset(&mut self)
        ensures
            final(self).bitmap() == old(self).bitmap(),
            final(self).current_render() is None,
    {
        self.current_render = None;
    }
}

} // verus!
