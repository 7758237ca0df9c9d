//! The map controller: pan and zoom over a map seen from above.

use vstd::prelude::*;
use crate::camera::{Camera, ProjectionType, valid_state};
use crate::control::pan_zoom::{apply_events, fold};
use crate::event::Event;

verus! {

/// Pans with a right-button drag and zooms about the cursor with the wheel.
/// It drives orthographic cameras only.
#[derive(Clone, Copy, Debug)]
pub struct MapControl {
    /// The near clip distance that a zoom sets.
    pub min_distance: i64,
    /// The far clip distance that a zoom sets.
    pub max_distance: i64,
}

impl MapControl {
    /// A controller whose zooms set the clip distances to `min_distance` and
    /// `max_distance`.
    pub fn new(min_distance: i64, max_distance: i64) -> (c: MapControl)
        ensures
            c.min_distance == min_distance,
            c.max_distance == max_distance,
    {
        MapControl { min_distance, max_distance }
    }

    /// Folds the frame's events into the camera. A camera in perspective
    /// projection is left untouched and the call reports `false`; otherwise
    /// the events are applied in order and the call reports `true`. The
    /// world-units-per-pixel ratio is the one at the start of the call. An
    /// empty batch changes nothing.
    pub fn handle_events(&mut self, camera: &mut Camera, events: &mut [Event]) -> (handled: bool)
        ensures
            *final(self) == *old(self),
            final(events)@ == old(events)@,
            handled == (old(camera)@.projection is Orthographic),
            old(camera)@.projection is Perspective ==> final(camera)@ == old(camera)@,
            old(camera)@.projection matches ProjectionType::Orthographic { height }
                ==> final(camera)@ == fold(
                old(camera)@,
                height,
                old(self).min_distance,
                old(self).max_distance,
                old(events)@,
                old(events)@.len(),
            ),
            old(events)@.len() == 0 ==> final(camera)@ == old(camera)@,
            valid_state(final(camera)@),
    {
        let s = camera.state();
        match s.projection {
            ProjectionType::Perspective { .. } => false,
            ProjectionType::Orthographic { height } => {
                apply_events(camera, height, self.min_distance, self.max_distance, events);
                true
            },
        }
    }
}

} // verus!
