//! The bird's-eye controller: the map controller's pan and zoom, with the
//! world-units-per-pixel ratio kept for the host to read.

use vstd::prelude::*;
use crate::camera::{Camera, ProjectionType, valid_state};
use crate::control::pan_zoom::{apply_events, fold};
use crate::event::Event;

verus! {

/// World units per pixel, as a fraction: `world_units` of the world span
/// `pixels` of the screen.
#[derive(Clone, Copy, Debug, PartialEq, Eq, Structural)]
pub struct PixelRatio {
    pub world_units: i64,
    pub pixels: u32,
}

/// Pans with a right-button drag and zooms about the cursor with the wheel,
/// looking straight down. It drives orthographic cameras only.
#[derive(Clone, Copy, Debug)]
pub struct BevControl {
    /// The near clip distance that a zoom sets.
    pub min_distance: i64,
    /// The far clip distance that a zoom sets.
    pub max_distance: i64,
    /// The ratio that the last accepted call worked with.
    pub ratio: PixelRatio,
}

impl BevControl {
    /// A controller whose zooms set the clip distances to `min_distance` and
    /// `max_distance`. Until the first call the ratio is zero.
    pub fn new(min_distance: i64, max_distance: i64) -> (c: BevControl)
        ensures
            c.min_distance == min_distance,
            c.max_distance == max_distance,
            c.ratio == (PixelRatio { world_units: 0, pixels: 1 }),
    {
        BevControl { min_distance, max_distance, ratio: PixelRatio { world_units: 0, pixels: 1 } }
    }

    /// Folds the frame's events into the camera. A camera in perspective
    /// projection is left untouched, as is the controller, and the call
    /// reports `false`. Otherwise the ratio is taken from the camera's
    /// orthographic height and viewport height as they are at the start of
    /// the call, the events are applied in order, and the call reports
    /// `true`. An empty batch changes nothing in the camera.
    pub fn handle_events(&mut self, camera: &mut Camera, events: &mut [Event]) -> (handled: bool)
        ensures
            final(self).min_distance == old(self).min_distance,
            final(self).max_distance == old(self).max_distance,
            final(events)@ == old(events)@,
            handled == (old(camera)@.projection is Orthographic),
            old(camera)@.projection is Perspective ==> final(camera)@ == old(camera)@,
            old(camera)@.projection is Perspective ==> *final(self) == *old(self),
            old(camera)@.projection matches ProjectionType::Orthographic { height } ==> {
                &&& final(self).ratio == (PixelRatio {
                    world_units: height,
                    pixels: old(camera)@.viewport.height,
                })
                &&& final(camera)@ == fold(
                    old(camera)@,
                    height,
                    old(self).min_distance,
                    old(self).max_distance,
                    old(events)@,
                    old(events)@.len(),
                )
            },
            old(events)@.len() == 0 ==> final(camera)@ == old(camera)@,
            valid_state(final(camera)@),
    {
        let s = camera.state();
        match s.projection {
            ProjectionType::Perspective { .. } => false,
            ProjectionType::Orthographic { height } => {
                self.ratio = PixelRatio { world_units: height, pixels: s.viewport.height };
                apply_events(camera, height, self.min_distance, self.max_distance, events);
                true
            },
        }
    }
}

} // verus!
