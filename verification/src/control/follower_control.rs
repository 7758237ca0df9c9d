//! The follower controller: orbit about a target and zoom towards it.

use vstd::prelude::*;
use crate::arith::floor_sqrt;
use crate::camera::{Camera, CameraState, valid_state, valid_view, COORD_LIMIT};
use crate::control::rotation::{Outcome, Progress, Rotation};
use crate::control::zoom::{zoom_distance, zoomed_distance, ZoomFactor};
use crate::event::{Event, MouseButton};
use crate::vector::{along, displacement, Vec3, Wide3};

verus! {

/// Keeps the camera's target and moves the position around it: a
/// left-button drag orbits, the wheel changes the distance.
#[derive(Clone, Copy, Debug)]
pub struct FollowerControl {
    /// The distance from the position to the target, rounded down.
    pub distance_to_target: i64,
    /// The vector from the position to the target.
    pub direction: Vec3,
}

/// The camera after a zoom step: the distance to the target is scaled and
/// clamped between the clip planes, and the position is put at that distance
/// from the target, on the line it was on. Target and up vector stay. A
/// position that would make the view invalid is not taken.
pub open spec fn zoom(s: CameraState, factor: ZoomFactor) -> CameraState {
    let r = s.target@.minus(s.position@);
    let d = floor_sqrt(r.norm2());
    let nd = zoomed_distance(d, factor, s.z_near as int, s.z_far as int);
    let position = s.target@.minus(along(r, d, nd));
    if valid_view(position, s.target@, s.up@) {
        CameraState { position: position.to_vec3(), ..s }
    } else {
        s
    }
}

/// The factor of a wheel event: 0.8 when it scrolls upward, else 1.2.
pub open spec fn wheel_factor(scroll_y: i64) -> ZoomFactor {
    if scroll_y > 0 {
        ZoomFactor::FourFifths
    } else {
        ZoomFactor::SixFifths
    }
}

/// The rotation that an event asks for: a drag with the left button orbits
/// by as many degrees as the pointer moved pixels.
pub open spec fn rotation_request(e: Event) -> Option<Rotation> {
    match e {
        Event::MouseMotion { button: Some(MouseButton::Left), delta, .. } => Some(
            Rotation::Orbit { yaw: delta.x, pitch: delta.y },
        ),
        _ => None,
    }
}

/// What an event that asks for no rotation does to the camera: a wheel event
/// zooms, every other event does nothing.
pub open spec fn step(s: CameraState, e: Event) -> CameraState {
    match e {
        Event::MouseWheel { delta, .. } => zoom(s, wheel_factor(delta.y)),
        _ => s,
    }
}

/// A run from event `start` on: events are applied in order until one asks
/// for a rotation, or the batch ends.
pub open spec fn run(s: CameraState, events: Seq<Event>, start: int) -> Outcome
    decreases events.len() - start,
{
    if start < 0 || start >= events.len() {
        Outcome { camera: s, next: events.len() as int, rotation: None }
    } else if rotation_request(events[start]) is Some {
        Outcome { camera: s, next: start + 1, rotation: rotation_request(events[start]) }
    } else {
        run(step(s, events[start]), events, start + 1)
    }
}

impl FollowerControl {
    /// A controller that has not seen a camera yet.
    pub fn new() -> (c: FollowerControl)
        ensures
            c.distance_to_target == 0,
            c.direction == (Vec3 { x: 0, y: 0, z: -1i64 }),
    {
        FollowerControl { distance_to_target: 0, direction: Vec3 { x: 0, y: 0, z: -1 } }
    }

    /// Whether the derived state is the one of a camera in state `s`.
    pub open spec fn describes(self, s: CameraState) -> bool {
        &&& self.direction@ == s.target@.minus(s.position@)
        &&& self.distance_to_target == floor_sqrt(s.target@.minus(s.position@).norm2())
    }

    /// Takes direction and distance from the camera as it is now.
    fn update_self(&mut self, camera: &Camera)
        ensures
            final(self).describes(camera@),
            final(self).distance_to_target >= 1,
            valid_state(camera@),
    {
        let _ = camera.state();
        let r: Wide3 = camera.view_vector();
        self.distance_to_target = camera.distance_to_target();
        self.direction = Vec3 { x: r.x as i64, y: r.y as i64, z: r.z as i64 };
    }

    /// Scales the distance to the target as [`zoom`] says.
    fn zoom_(&mut self, camera: &mut Camera, factor: ZoomFactor)
        ensures
            final(camera)@ == zoom(old(camera)@, factor),
            valid_state(final(camera)@),
            final(self).describes(final(camera)@),
    {
        let s: CameraState = camera.state();
        let r: Wide3 = camera.view_vector();
        let d: i64 = camera.distance_to_target();
        let nd: i64 = zoom_distance(d, factor, s.z_near, s.z_far);
        let back: Wide3 = displacement(r, d as i128, nd as i128);
        let wide: Wide3 = Wide3 {
            x: s.target.x as i128 - back.x,
            y: s.target.y as i128 - back.y,
            z: s.target.z as i128 - back.z,
        };
        match wide.narrow(COORD_LIMIT) {
            Some(position) => {
                let _ = camera.set_view(position, s.target, s.up);
            },
            None => {},
        }
        self.update_self(camera);
    }

    /// Looks at one event. An event that asks for a rotation leaves the
    /// camera as it is and is answered with the rotation; any other event is
    /// applied as [`step`] says.
    pub fn handle_event(&mut self, camera: &mut Camera, event: &Event) -> (rotation: Option<
        Rotation,
    >)
        ensures
            rotation == rotation_request(*event),
            rotation is Some ==> final(camera)@ == old(camera)@,
            rotation is None ==> final(camera)@ == step(old(camera)@, *event),
            valid_state(final(camera)@),
            final(self).describes(final(camera)@),
    {
        self.update_self(camera);
        match event {
            Event::MouseMotion { button, delta, .. } => {
                match button {
                    Some(MouseButton::Left) => Some(
                        Rotation::Orbit { yaw: delta.x, pitch: delta.y },
                    ),
                    _ => None,
                }
            },
            Event::MouseWheel { delta, .. } => {
                let factor: ZoomFactor = if delta.y > 0 {
                    ZoomFactor::FourFifths
                } else {
                    ZoomFactor::SixFifths
                };
                self.zoom_(camera, factor);
                None
            },
            _ => None,
        }
    }

    /// Folds the events from index `start` on into the camera, in order, and
    /// stops behind the first one that asks for a rotation. The host performs
    /// the rotation and calls again with the `next` it was given. The
    /// controller accepts every projection. On return the derived state is
    /// that of the camera as the call leaves it. With no event left the
    /// camera is not changed.
    pub fn handle_events(&mut self, camera: &mut Camera, events: &mut [Event], start: usize) -> (p:
        Progress)
        ensures
            final(events)@ == old(events)@,
            p.handled,
            final(camera)@ == run(old(camera)@, old(events)@, start as int).camera,
            p.next == run(old(camera)@, old(events)@, start as int).next,
            p.rotation == run(old(camera)@, old(events)@, start as int).rotation,
            start >= old(events)@.len() ==> final(camera)@ == old(camera)@ && p.rotation is None,
            valid_state(final(camera)@),
            final(self).describes(final(camera)@),
    {
        self.update_self(camera);
        let mut i: usize = start;
        while i < events.len()
            invariant
                start <= i,
                events@ == old(events)@,
                run(camera@, events@, i as int) == run(old(camera)@, events@, start as int),
                valid_state(camera@),
                self.describes(camera@),
            decreases events@.len() - i,
        {
            let rotation: Option<Rotation> = self.handle_event(camera, &events[i]);
            i = i + 1;
            if rotation.is_some() {
                return Progress { handled: true, next: i, rotation };
            }
        }
        Progress { handled: true, next: events.len(), rotation: None }
    }
}

} // verus!
