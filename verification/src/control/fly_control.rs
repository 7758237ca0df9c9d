//! The fly controller: glide over the ground plane `z = 0`.

use vstd::prelude::*;
use crate::arith::{floor_sqrt, lemma_product_bound, lemma_quot_bounds, magnitude, quot, quot_i128};
use crate::camera::{Camera, CameraState, valid_state, valid_view, COORD_LIMIT};
use crate::control::rotation::{Outcome, Progress, Rotation};
use crate::control::zoom::{zoom_distance, zoomed_distance, ZoomFactor};
use crate::event::{Event, Key, MouseButton};
use crate::vector::{along, displacement, Vec3, Vector, Wide3};

verus! {

/// Pans with a right-button drag and with the arrow keys, changes the
/// distance to the ground with the wheel and with `W` and `S`, and turns with
/// `A` and `D`.
#[derive(Clone, Copy, Debug)]
pub struct FlyControl {
    /// An arrow key pans by this many thousandths of the distance to the
    /// ground.
    pub speed: u32,
    /// The distance along the view ray from the position to the ground, if
    /// the ray is not parallel to the ground.
    pub distance_to_ground: Option<i64>,
    /// The vector from the position to the target.
    pub direction: Vec3,
}

/// By how many degrees `A` and `D` turn the camera.
pub const TURN_DEGREES: i64 = 5;

/// The distance along the view ray from the position to the plane `z = 0`,
/// rounded toward zero: the height above the ground times the length of the
/// view vector, divided by the vertical extent of the view vector. A view
/// parallel to the ground has none.
pub open spec fn ground_distance(s: CameraState) -> Option<int> {
    let r = s.target@.minus(s.position@);
    if r.z == 0 {
        None
    } else {
        Some(quot(magnitude(s.position.z as int) * floor_sqrt(r.norm2()), magnitude(r.z)))
    }
}

/// The camera after a move by `mx` world units to its right and `my` world
/// units along its up vector. Here right is the cross product of the up
/// vector and the view vector. A move that leaves the coordinate range is
/// dropped.
pub open spec fn pan(s: CameraState, mx: int, my: int) -> CameraState {
    let r = s.target@.minus(s.position@);
    let right = s.up@.cross(r);
    let delta = along(right, floor_sqrt(right.norm2()), mx).plus(
        along(s.up@, floor_sqrt(s.up@.norm2()), my),
    );
    let position = s.position@.plus(delta);
    let target = s.target@.plus(delta);
    if valid_view(position, target, s.up@) {
        CameraState { position: position.to_vec3(), target: target.to_vec3(), ..s }
    } else {
        s
    }
}

/// The camera after a zoom step. The distance to the ground is scaled and
/// clamped between the clip planes; the target is put where the view ray
/// meets the ground, and the position at the new distance before it, on the
/// view ray. Without a distance to the ground, or if the new view would be
/// invalid, nothing changes.
pub open spec fn zoom(s: CameraState, factor: ZoomFactor) -> CameraState {
    match ground_distance(s) {
        None => s,
        Some(g) => {
            let r = s.target@.minus(s.position@);
            let d = floor_sqrt(r.norm2());
            let ng = zoomed_distance(g, factor, s.z_near as int, s.z_far as int);
            let target = s.position@.plus(along(r, d, g));
            let position = target.minus(along(r, d, ng));
            if valid_view(position, target, s.up@) {
                CameraState { position: position.to_vec3(), target: target.to_vec3(), ..s }
            } else {
                s
            }
        },
    }
}

/// How far an arrow key moves the camera: `speed` thousandths of the
/// distance to the ground.
pub open spec fn key_stride(speed: u32, ground: int) -> int {
    quot(speed * ground, 1000)
}

/// The camera after an arrow key: a move by one stride, `sx` times to the
/// right and `sy` times upward. Without a distance to the ground, or with a
/// stride beyond 64 bits, nothing changes.
pub open spec fn key_pan(s: CameraState, speed: u32, sx: int, sy: int) -> CameraState {
    match ground_distance(s) {
        None => s,
        Some(g) => {
            let stride = key_stride(speed, g);
            if stride > i64::MAX {
                s
            } else {
                pan(s, sx * stride, sy * stride)
            }
        },
    }
}

/// The factor of a wheel event: 0.9 when it scrolls upward, else 1 / 0.9.
pub open spec fn wheel_factor(scroll_y: i64) -> ZoomFactor {
    if scroll_y > 0 {
        ZoomFactor::NineTenths
    } else {
        ZoomFactor::TenNinths
    }
}

/// The rotation that an event asks for: `A` turns the camera by five
/// degrees about its own vertical axis, `D` by as much the other way.
pub open spec fn rotation_request(e: Event) -> Option<Rotation> {
    match e {
        Event::KeyPress { kind: Key::A, .. } => Some(Rotation::Turn { yaw: TURN_DEGREES }),
        Event::KeyPress { kind: Key::D, .. } => Some(Rotation::Turn { yaw: (-TURN_DEGREES) as i64 }),
        _ => None,
    }
}

/// What an event that asks for no rotation does to the camera.
pub open spec fn step(s: CameraState, speed: u32, e: Event) -> CameraState {
    match e {
        Event::MouseMotion { button: Some(MouseButton::Right), delta, .. } => pan(
            s,
            delta.x as int,
            delta.y as int,
        ),
        Event::MouseWheel { delta, .. } => zoom(s, wheel_factor(delta.y)),
        Event::KeyPress { kind: Key::ArrowDown, .. } => key_pan(s, speed, 0, -1),
        Event::KeyPress { kind: Key::ArrowLeft, .. } => key_pan(s, speed, 1, 0),
        Event::KeyPress { kind: Key::ArrowRight, .. } => key_pan(s, speed, -1, 0),
        Event::KeyPress { kind: Key::ArrowUp, .. } => key_pan(s, speed, 0, 1),
        Event::KeyPress { kind: Key::S, .. } => zoom(s, ZoomFactor::TenNinths),
        Event::KeyPress { kind: Key::W, .. } => zoom(s, ZoomFactor::NineTenths),
        _ => s,
    }
}

/// A run from event `start` on: events are applied in order until one asks
/// for a rotation, or the batch ends.
pub open spec fn run(s: CameraState, speed: u32, events: Seq<Event>, start: int) -> Outcome
    decreases events.len() - start,
{
    if start < 0 || start >= events.len() {
        Outcome { camera: s, next: events.len() as int, rotation: None }
    } else if rotation_request(events[start]) is Some {
        Outcome { camera: s, next: start + 1, rotation: rotation_request(events[start]) }
    } else {
        run(step(s, speed, events[start]), speed, events, start + 1)
    }
}

/// Computes [`ground_distance`].
pub fn distance_to_ground(camera: &Camera) -> (g: Option<i64>)
    ensures
        g is Some <==> ground_distance(camera@) is Some,
        g matches Some(v) ==> ground_distance(camera@) == Some(v as int) && 0 <= v
            <= 0x4000_0000_0000_0000,
{
    let s: CameraState = camera.state();
    let r: Wide3 = camera.view_vector();
    if r.z == 0 {
        return None;
    }
    let d: i64 = camera.distance_to_target();
    let height: i128 = if s.position.z >= 0 {
        s.position.z as i128
    } else {
        -(s.position.z as i128)
    };
    let drop: i128 = if r.z >= 0 {
        r.z
    } else {
        -r.z
    };
    proof {
        lemma_product_bound(height as int, d as int, 0x4000_0000, 0x1_0000_0000);
        assert(height * d >= 0) by (nonlinear_arith)
            requires
                height >= 0,
                d >= 0,
        ;
        lemma_quot_bounds(height * d, drop as int);
    }
    let g: i128 = quot_i128(height * (d as i128), drop);
    Some(g as i64)
}

impl FlyControl {
    /// A controller whose arrow keys pan by `speed` thousandths of the
    /// distance to the ground. It has not seen a camera yet.
    pub fn new(speed: u32) -> (c: FlyControl)
        ensures
            c.speed == speed,
            c.distance_to_ground is None,
            c.direction == (Vec3 { x: 0, y: 0, z: -1i64 }),
    {
        FlyControl { speed, distance_to_ground: None, direction: Vec3 { x: 0, y: 0, z: -1 } }
    }

    /// Whether the derived state is the one of a camera in state `s`.
    pub open spec fn describes(self, s: CameraState) -> bool {
        &&& self.direction@ == s.target@.minus(s.position@)
        &&& self.distance_to_ground is Some <==> ground_distance(s) is Some
        &&& self.distance_to_ground matches Some(g) ==> ground_distance(s) == Some(g as int)
    }

    /// Takes direction and distance to the ground from the camera as it is
    /// now.
    fn update_self(&mut self, camera: &Camera)
        ensures
            final(self).speed == old(self).speed,
            final(self).describes(camera@),
            valid_state(camera@),
    {
        let _ = camera.state();
        let r: Wide3 = camera.view_vector();
        self.direction = Vec3 { x: r.x as i64, y: r.y as i64, z: r.z as i64 };
        self.distance_to_ground = distance_to_ground(camera);
    }

    /// Moves the camera as [`pan`] says.
    fn move_(&mut self, camera: &mut Camera, mx: i64, my: i64)
        ensures
            final(self).speed == old(self).speed,
            final(camera)@ == pan(old(camera)@, mx as int, my as int),
            valid_state(final(camera)@),
            final(self).describes(final(camera)@),
    {
        let s: CameraState = camera.state();
        let up: Wide3 = s.up.widen();
        let right: Wide3 = camera.right_vector();
        proof {
            let r = s.target@.minus(s.position@);
            if up@ == Vector::zero() {
                assert(up@.cross(r) == Vector::zero()) by (nonlinear_arith)
                    requires
                        up@ == Vector::zero(),
                ;
            }
        }
        let right_len: i128 = right.length();
        let up_len: i128 = up.length();
        let across: Wide3 = displacement(right, right_len, mx as i128);
        let upward: Wide3 = displacement(up, up_len, my as i128);
        proof {
            let l: int = 0x8000_0000_0000_0000;
            lemma_product_bound(right.x as int, mx as int, 0x4000_0000_0000_0000, l);
            lemma_product_bound(right.y as int, mx as int, 0x4000_0000_0000_0000, l);
            lemma_product_bound(right.z as int, mx as int, 0x4000_0000_0000_0000, l);
            lemma_product_bound(up.x as int, my as int, 0x4000_0000, l);
            lemma_product_bound(up.y as int, my as int, 0x4000_0000, l);
            lemma_product_bound(up.z as int, my as int, 0x4000_0000, l);
        }
        let dx: i128 = across.x + upward.x;
        let dy: i128 = across.y + upward.y;
        let dz: i128 = across.z + upward.z;
        let wide_position: Wide3 = Wide3 {
            x: s.position.x as i128 + dx,
            y: s.position.y as i128 + dy,
            z: s.position.z as i128 + dz,
        };
        let wide_target: Wide3 = Wide3 {
            x: s.target.x as i128 + dx,
            y: s.target.y as i128 + dy,
            z: s.target.z as i128 + dz,
        };
        match wide_position.narrow(COORD_LIMIT) {
            Some(position) => {
                match wide_target.narrow(COORD_LIMIT) {
                    Some(target) => {
                        let _ = camera.set_view(position, target, s.up);
                    },
                    None => {},
                }
            },
            None => {},
        }
        self.update_self(camera);
    }

    /// Changes the distance to the ground as [`zoom`] says.
    fn zoom_(&mut self, camera: &mut Camera, factor: ZoomFactor)
        ensures
            final(self).speed == old(self).speed,
            final(camera)@ == zoom(old(camera)@, factor),
            valid_state(final(camera)@),
            final(self).describes(final(camera)@),
    {
        let s: CameraState = camera.state();
        match distance_to_ground(camera) {
            None => {},
            Some(g) => {
                let r: Wide3 = camera.view_vector();
                let d: i64 = camera.distance_to_target();
                let ng: i64 = zoom_distance(g, factor, s.z_near, s.z_far);
                let back: Wide3 = displacement(r, d as i128, ng as i128);
                let forward: Wide3 = displacement(r, d as i128, g as i128);
                proof {
                    let l: int = 0x1_0000_0000_0000_0000;
                    lemma_product_bound(r.x as int, ng as int, 0x8000_0000, l);
                    lemma_product_bound(r.y as int, ng as int, 0x8000_0000, l);
                    lemma_product_bound(r.z as int, ng as int, 0x8000_0000, l);
                    lemma_product_bound(r.x as int, g as int, 0x8000_0000, l);
                    lemma_product_bound(r.y as int, g as int, 0x8000_0000, l);
                    lemma_product_bound(r.z as int, g as int, 0x8000_0000, l);
                }
                let wide_target: Wide3 = Wide3 {
                    x: s.position.x as i128 + forward.x,
                    y: s.position.y as i128 + forward.y,
                    z: s.position.z as i128 + forward.z,
                };
                let wide_position: Wide3 = Wide3 {
                    x: wide_target.x - back.x,
                    y: wide_target.y - back.y,
                    z: wide_target.z - back.z,
                };
                match wide_position.narrow(COORD_LIMIT) {
                    Some(position) => {
                        match wide_target.narrow(COORD_LIMIT) {
                            Some(target) => {
                                let _ = camera.set_view(position, target, s.up);
                            },
                            None => {},
                        }
                    },
                    None => {},
                }
            },
        }
        self.update_self(camera);
    }

    /// Moves the camera as [`key_pan`] says; `sx` and `sy` are -1, 0 or 1.
    fn key_move(&mut self, camera: &mut Camera, sx: i64, sy: i64)
        requires
            -1 <= sx <= 1,
            -1 <= sy <= 1,
        ensures
            final(self).speed == old(self).speed,
            final(camera)@ == key_pan(old(camera)@, old(self).speed, sx as int, sy as int),
            valid_state(final(camera)@),
            final(self).describes(final(camera)@),
    {
        match distance_to_ground(camera) {
            None => {
                self.update_self(camera);
            },
            Some(g) => {
                proof {
                    lemma_product_bound(
                        self.speed as int,
                        g as int,
                        0x1_0000_0000,
                        0x4000_0000_0000_0000,
                    );
                    assert(self.speed * g >= 0) by (nonlinear_arith)
                        requires
                            self.speed >= 0,
                            g >= 0,
                    ;
                    lemma_quot_bounds(self.speed * g, 1000);
                }
                let stride: i128 = quot_i128((self.speed as i128) * (g as i128), 1000);
                if stride > i64::MAX as i128 {
                    self.update_self(camera);
                } else {
                    let st: i64 = stride as i64;
                    assert(sx * stride == (if sx == 0 {
                        0
                    } else if sx == 1 {
                        stride as int
                    } else {
                        -stride
                    })) by (nonlinear_arith)
                        requires
                            -1 <= sx <= 1,
                    ;
                    assert(sy * stride == (if sy == 0 {
                        0
                    } else if sy == 1 {
                        stride as int
                    } else {
                        -stride
                    })) by (nonlinear_arith)
                        requires
                            -1 <= sy <= 1,
                    ;
                    let mx: i64 = if sx == 0 {
                        0
                    } else if sx == 1 {
                        st
                    } else {
                        -st
                    };
                    let my: i64 = if sy == 0 {
                        0
                    } else if sy == 1 {
                        st
                    } else {
                        -st
                    };
                    self.move_(camera, mx, my);
                }
            },
        }
    }

    /// Looks at one event. An event that asks for a rotation leaves the
    /// camera as it is and is answered with the rotation; any other event is
    /// applied as [`step`] says.
    pub fn handle_event(&mut self, camera: &mut Camera, event: &Event) -> (rotation: Option<
        Rotation,
    >)
        ensures
            final(self).speed == old(self).speed,
            rotation == rotation_request(*event),
            rotation is Some ==> final(camera)@ == old(camera)@,
            rotation is None ==> final(camera)@ == step(old(camera)@, old(self).speed, *event),
            valid_state(final(camera)@),
            final(self).describes(final(camera)@),
    {
        self.update_self(camera);
        match event {
            Event::MouseMotion { button, delta, .. } => {
                match button {
                    Some(MouseButton::Right) => {
                        self.move_(camera, delta.x, delta.y);
                    },
                    _ => {},
                }
                None
            },
            Event::MouseWheel { delta, .. } => {
                let factor: ZoomFactor = if delta.y > 0 {
                    ZoomFactor::NineTenths
                } else {
                    ZoomFactor::TenNinths
                };
                self.zoom_(camera, factor);
                None
            },
            Event::KeyPress { kind, .. } => {
                match kind {
                    Key::ArrowDown => {
                        self.key_move(camera, 0, -1);
                        None
                    },
                    Key::ArrowLeft => {
                        self.key_move(camera, 1, 0);
                        None
                    },
                    Key::ArrowRight => {
                        self.key_move(camera, -1, 0);
                        None
                    },
                    Key::ArrowUp => {
                        self.key_move(camera, 0, 1);
                        None
                    },
                    Key::A => Some(Rotation::Turn { yaw: TURN_DEGREES }),
                    Key::D => Some(Rotation::Turn { yaw: -TURN_DEGREES }),
                    Key::S => {
                        self.zoom_(camera, ZoomFactor::TenNinths);
                        None
                    },
                    Key::W => {
                        self.zoom_(camera, ZoomFactor::NineTenths);
                        None
                    },
                    _ => None,
                }
            },
            _ => None,
        }
    }

    /// Folds the events from index `start` on into the camera, in order, and
    /// stops behind the first one that asks for a rotation. The host performs
    /// the rotation and calls again with the `next` it was given. The
    /// controller accepts every projection. On return the derived state is
    /// that of the camera as the call leaves it. With no event left the
    /// camera is not changed.
    pub fn handle_events(&mut self, camera: &mut Camera, events: &mut [Event], start: usize) -> (p:
        Progress)
        ensures
            final(self).speed == old(self).speed,
            final(events)@ == old(events)@,
            p.handled,
            final(camera)@ == run(old(camera)@, old(self).speed, old(events)@, start as int).camera,
            p.next == run(old(camera)@, old(self).speed, old(events)@, start as int).next,
            p.rotation == run(old(camera)@, old(self).speed, old(events)@, start as int).rotation,
            start >= old(events)@.len() ==> final(camera)@ == old(camera)@ && p.rotation is None,
            valid_state(final(camera)@),
            final(self).describes(final(camera)@),
    {
        self.update_self(camera);
        let mut i: usize = start;
        while i < events.len()
            invariant
                start <= i,
                self.speed == old(self).speed,
                events@ == old(events)@,
                run(camera@, self.speed, events@, i as int) == run(
                    old(camera)@,
                    self.speed,
                    events@,
                    start as int,
                ),
                valid_state(camera@),
                self.describes(camera@),
            decreases events@.len() - i,
        {
            let rotation: Option<Rotation> = self.handle_event(camera, &events[i]);
            i = i + 1;
            if rotation.is_some() {
                return Progress { handled: true, next: i, rotation };
            }
        }
        Progress { handled: true, next: events.len(), rotation: None }
    }
}

} // verus!
