//! Camera state: where the camera stands, what it looks at, how it projects,
//! and the setters that keep the three consistent.

use vstd::prelude::*;
use crate::arith::floor_sqrt;
use crate::vector::{lemma_cross_bound, lemma_nonzero_norm, Vec3, Vector, Wide3};

verus! {

/// No coordinate, clip distance or orthographic height may exceed this many
/// world units in magnitude (`2^30`).
pub const COORD_LIMIT: i64 = 0x4000_0000;

/// The part of the render target that the camera projects into, in physical
/// pixels.
#[derive(Clone, Copy, Debug, PartialEq, Eq, Structural)]
pub struct Viewport {
    pub x: i32,
    pub y: i32,
    pub width: u32,
    pub height: u32,
}

impl Viewport {
    /// A viewport whose bottom left corner is the origin.
    pub fn new_at_origo(width: u32, height: u32) -> (v: Viewport)
        ensures
            v == (Viewport { x: 0, y: 0, width, height }),
    {
        Viewport { x: 0, y: 0, width, height }
    }
}

/// How the camera projects the world onto the viewport.
#[derive(Clone, Copy, Debug, PartialEq, Eq, Structural)]
pub enum ProjectionType {
    /// `height` world units are mapped onto the height of the viewport.
    Orthographic { height: i64 },
    /// The vertical field of view, in whole degrees.
    Perspective { field_of_view_y: i64 },
}

/// Why a camera state was refused.
#[derive(Clone, Copy, Debug, PartialEq, Eq, Structural)]
pub enum CameraError {
    /// The viewport has no width or no height.
    EmptyViewport,
    /// A coordinate lies beyond [`COORD_LIMIT`].
    OutOfRange,
    /// The target coincides with the position.
    DegenerateView,
    /// The up vector is parallel to the view direction, or zero.
    ParallelUp,
    /// The projection parameters are not usable.
    InvalidProjection,
}

/// Everything a camera holds, as plain data.
#[derive(Clone, Copy, Debug, PartialEq, Eq, Structural)]
pub struct CameraState {
    pub viewport: Viewport,
    pub projection: ProjectionType,
    pub z_near: i64,
    pub z_far: i64,
    pub position: Vec3,
    pub target: Vec3,
    pub up: Vec3,
}

/// The first reason, if any, for which a view is refused.
pub open spec fn view_error(position: Vector, target: Vector, up: Vector) -> Option<CameraError> {
    if !(position.within(COORD_LIMIT as int) && target.within(COORD_LIMIT as int) && up.within(
        COORD_LIMIT as int,
    )) {
        Some(CameraError::OutOfRange)
    } else if target == position {
        Some(CameraError::DegenerateView)
    } else if up.parallel(target.minus(position)) {
        Some(CameraError::ParallelUp)
    } else {
        None
    }
}

/// A view is usable when it is in range, looks somewhere, and has an up
/// vector that is not parallel to the view direction.
pub open spec fn valid_view(position: Vector, target: Vector, up: Vector) -> bool {
    &&& position.within(COORD_LIMIT as int)
    &&& target.within(COORD_LIMIT as int)
    &&& up.within(COORD_LIMIT as int)
    &&& target != position
    &&& !up.parallel(target.minus(position))
}

/// An orthographic projection needs a positive height and clip distances in
/// range, in any order; a perspective projection needs a field of view
/// strictly between 0 and 180 degrees and `0 < z_near < z_far`.
pub open spec fn valid_projection(projection: ProjectionType, z_near: int, z_far: int) -> bool {
    match projection {
        ProjectionType::Orthographic { height } => {
            &&& 0 < height <= COORD_LIMIT
            &&& -COORD_LIMIT <= z_near <= COORD_LIMIT
            &&& -COORD_LIMIT <= z_far <= COORD_LIMIT
        },
        ProjectionType::Perspective { field_of_view_y } => {
            &&& 0 < field_of_view_y < 180
            &&& 0 < z_near < z_far <= COORD_LIMIT
        },
    }
}

/// The first reason, if any, for which a camera state is refused.
pub open spec fn state_error(s: CameraState) -> Option<CameraError> {
    if s.viewport.width == 0 || s.viewport.height == 0 {
        Some(CameraError::EmptyViewport)
    } else if view_error(s.position@, s.target@, s.up@) is Some {
        view_error(s.position@, s.target@, s.up@)
    } else if !valid_projection(s.projection, s.z_near as int, s.z_far as int) {
        Some(CameraError::InvalidProjection)
    } else {
        None
    }
}

/// The invariant of every [`Camera`].
pub open spec fn valid_state(s: CameraState) -> bool {
    &&& s.viewport.width > 0
    &&& s.viewport.height > 0
    &&& valid_view(s.position@, s.target@, s.up@)
    &&& valid_projection(s.projection, s.z_near as int, s.z_far as int)
}

/// The state after an attempt to set a view: the state with the new view
/// if that view is valid, and the state as it was if not.
pub open spec fn with_view(s: CameraState, position: Vec3, target: Vec3, up: Vec3) -> CameraState {
    if valid_view(position@, target@, up@) {
        CameraState { position, target, up, ..s }
    } else {
        s
    }
}

/// The state after the first `n` of a sequence of attempts to set a view,
/// each given as position, target and up vector.
pub open spec fn after_views(s: CameraState, views: Seq<(Vec3, Vec3, Vec3)>, n: nat) -> CameraState
    decreases n,
{
    if n == 0 {
        s
    } else {
        let view = views[n - 1];
        with_view(after_views(s, views, (n - 1) as nat), view.0, view.1, view.2)
    }
}

/// Whatever views one tries to set, and however many, a valid camera stays
/// valid: its target differs from its position, and its up vector is not
/// parallel to the direction in which it looks.
pub proof fn lemma_views_keep_the_camera_valid(s: CameraState, views: Seq<(Vec3, Vec3, Vec3)>, n: nat)
    requires
        valid_state(s),
    ensures
        valid_state(after_views(s, views, n)),
        after_views(s, views, n).target@ != after_views(s, views, n).position@,
        !after_views(s, views, n).up@.parallel(
            after_views(s, views, n).target@.minus(after_views(s, views, n).position@),
        ),
    decreases n,
{
    if n > 0 {
        lemma_views_keep_the_camera_valid(s, views, (n - 1) as nat);
    }
}

/// Checks a view and names the first thing wrong with it.
pub fn check_view(position: Vec3, target: Vec3, up: Vec3) -> (e: Option<CameraError>)
    ensures
        e == view_error(position@, target@, up@),
{
    if !(in_range(position) && in_range(target) && in_range(up)) {
        return Some(CameraError::OutOfRange);
    }
    if target == position {
        return Some(CameraError::DegenerateView);
    }
    let direction: Wide3 = target.minus(position);
    let c: Wide3 = up.widen().cross(direction);
    if c.is_zero() {
        Some(CameraError::ParallelUp)
    } else {
        None
    }
}

/// Whether every component of `v` lies within [`COORD_LIMIT`].
pub fn in_range(v: Vec3) -> (b: bool)
    ensures
        b == v@.within(COORD_LIMIT as int),
{
    -COORD_LIMIT <= v.x && v.x <= COORD_LIMIT && -COORD_LIMIT <= v.y && v.y <= COORD_LIMIT
        && -COORD_LIMIT <= v.z && v.z <= COORD_LIMIT
}

/// Checks projection parameters.
pub fn check_projection(projection: ProjectionType, z_near: i64, z_far: i64) -> (ok: bool)
    ensures
        ok == valid_projection(projection, z_near as int, z_far as int),
{
    match projection {
        ProjectionType::Orthographic { height } => {
            0 < height && height <= COORD_LIMIT && -COORD_LIMIT <= z_near && z_near <= COORD_LIMIT
                && -COORD_LIMIT <= z_far && z_far <= COORD_LIMIT
        },
        ProjectionType::Perspective { field_of_view_y } => {
            0 < field_of_view_y && field_of_view_y < 180 && 0 < z_near && z_near < z_far && z_far
                <= COORD_LIMIT
        },
    }
}

/// Checks a whole camera state and names the first thing wrong with it.
pub fn check_state(s: CameraState) -> (e: Option<CameraError>)
    ensures
        e == state_error(s),
        e is None <==> valid_state(s),
{
    if s.viewport.width == 0 || s.viewport.height == 0 {
        return Some(CameraError::EmptyViewport);
    }
    let e: Option<CameraError> = check_view(s.position, s.target, s.up);
    if e.is_some() {
        return e;
    }
    if !check_projection(s.projection, s.z_near, s.z_far) {
        return Some(CameraError::InvalidProjection);
    }
    None
}

/// A camera whose state is valid at all times.
#[derive(Clone, Copy, Debug)]
pub struct Camera {
    state: CameraState,
}

impl View for Camera {
    type V = CameraState;

    closed spec fn view(&self) -> CameraState {
        self.state
    }
}

impl Camera {
    #[verifier::type_invariant]
    spec fn inv(self) -> bool {
        valid_state(self.state)
    }

    /// A camera in the given state, or the first thing wrong with the state.
    pub fn from_state(s: CameraState) -> (r: Result<Camera, CameraError>)
        ensures
            state_error(s) == (match r {
                Ok(_) => None,
                Err(e) => Some(e),
            }),
            r matches Ok(c) ==> c@ == s && valid_state(c@),
    {
        match check_state(s) {
            Some(e) => Err(e),
            None => Ok(Camera { state: s }),
        }
    }

    /// A camera with an orthographic projection.
    pub fn new_orthographic(
        viewport: Viewport,
        position: Vec3,
        target: Vec3,
        up: Vec3,
        height: i64,
        z_near: i64,
        z_far: i64,
    ) -> (r: Result<Camera, CameraError>)
        ensures
            ({
                let s = CameraState {
                    viewport,
                    projection: ProjectionType::Orthographic { height },
                    z_near,
                    z_far,
                    position,
                    target,
                    up,
                };
                &&& state_error(s) == (match r {
                    Ok(_) => None,
                    Err(e) => Some(e),
                })
                &&& r matches Ok(c) ==> c@ == s && valid_state(c@)
            }),
    {
        Camera::from_state(
            CameraState {
                viewport,
                projection: ProjectionType::Orthographic { height },
                z_near,
                z_far,
                position,
                target,
                up,
            },
        )
    }

    /// A camera with a perspective projection.
    pub fn new_perspective(
        viewport: Viewport,
        position: Vec3,
        target: Vec3,
        up: Vec3,
        field_of_view_y: i64,
        z_near: i64,
        z_far: i64,
    ) -> (r: Result<Camera, CameraError>)
        ensures
            ({
                let s = CameraState {
                    viewport,
                    projection: ProjectionType::Perspective { field_of_view_y },
                    z_near,
                    z_far,
                    position,
                    target,
                    up,
                };
                &&& state_error(s) == (match r {
                    Ok(_) => None,
                    Err(e) => Some(e),
                })
                &&& r matches Ok(c) ==> c@ == s && valid_state(c@)
            }),
    {
        Camera::from_state(
            CameraState {
                viewport,
                projection: ProjectionType::Perspective { field_of_view_y },
                z_near,
                z_far,
                position,
                target,
                up,
            },
        )
    }

    /// The whole state; it is always valid.
    pub fn state(&self) -> (s: CameraState)
        ensures
            s == self@,
            valid_state(s),
    {
        proof {
            use_type_invariant(self);
        }
        self.state
    }

    pub fn position(&self) -> (v: Vec3)
        ensures
            v == self@.position,
    {
        self.state.position
    }

    pub fn target(&self) -> (v: Vec3)
        ensures
            v == self@.target,
    {
        self.state.target
    }

    pub fn up(&self) -> (v: Vec3)
        ensures
            v == self@.up,
    {
        self.state.up
    }

    pub fn viewport(&self) -> (v: Viewport)
        ensures
            v == self@.viewport,
            v.width > 0,
            v.height > 0,
    {
        proof {
            use_type_invariant(self);
        }
        self.state.viewport
    }

    pub fn projection_type(&self) -> (p: ProjectionType)
        ensures
            p == self@.projection,
    {
        self.state.projection
    }

    pub fn z_near(&self) -> (z: i64)
        ensures
            z == self@.z_near,
    {
        self.state.z_near
    }

    pub fn z_far(&self) -> (z: i64)
        ensures
            z == self@.z_far,
    {
        self.state.z_far
    }

    /// Replaces the whole state if the new one is valid, and otherwise
    /// leaves the camera as it was.
    pub fn replace(&mut self, s: CameraState) -> (r: Result<(), CameraError>)
        ensures
            state_error(s) == (match r {
                Ok(_) => None,
                Err(e) => Some(e),
            }),
            r is Ok ==> final(self)@ == s,
            r is Err ==> final(self)@ == old(self)@,
            valid_state(final(self)@),
    {
        proof {
            use_type_invariant(&*self);
        }
        match check_state(s) {
            Some(e) => Err(e),
            None => {
                *self = Camera { state: s };
                Ok(())
            },
        }
    }

    /// Places the camera at `position`, looking at `target`, with the given
    /// up direction. A view that is out of range, looks nowhere, or whose up
    /// vector is parallel to the view direction is refused and changes
    /// nothing; so after any sequence of calls the target differs from the
    /// position and the up vector is not parallel to the view direction.
    pub fn set_view(&mut self, position: Vec3, target: Vec3, up: Vec3) -> (r: Result<
        (),
        CameraError,
    >)
        ensures
            view_error(position@, target@, up@) == (match r {
                Ok(_) => None,
                Err(e) => Some(e),
            }),
            final(self)@ == with_view(old(self)@, position, target, up),
            r is Ok ==> final(self)@ == (CameraState { position, target, up, ..old(self)@ }),
            r is Err ==> final(self)@ == old(self)@,
            final(self)@.target@ != final(self)@.position@,
            !final(self)@.up@.parallel(final(self)@.target@.minus(final(self)@.position@)),
            valid_state(final(self)@),
    {
        proof {
            use_type_invariant(&*self);
        }
        match check_view(position, target, up) {
            Some(e) => Err(e),
            None => {
                let s: CameraState = CameraState { position, target, up, ..self.state };
                *self = Camera { state: s };
                Ok(())
            },
        }
    }

    /// Switches to an orthographic projection of the given height and clip
    /// distances, or refuses them and changes nothing.
    pub fn set_orthographic_projection(&mut self, height: i64, z_near: i64, z_far: i64) -> (r:
        Result<(), CameraError>)
        ensures
            r is Ok <==> valid_projection(
                ProjectionType::Orthographic { height },
                z_near as int,
                z_far as int,
            ),
            r matches Err(e) ==> e == CameraError::InvalidProjection,
            r is Ok ==> final(self)@ == (CameraState {
                projection: ProjectionType::Orthographic { height },
                z_near,
                z_far,
                ..old(self)@
            }),
            r is Err ==> final(self)@ == old(self)@,
            valid_state(final(self)@),
    {
        proof {
            use_type_invariant(&*self);
        }
        let projection: ProjectionType = ProjectionType::Orthographic { height };
        if check_projection(projection, z_near, z_far) {
            let s: CameraState = CameraState { projection, z_near, z_far, ..self.state };
            *self = Camera { state: s };
            Ok(())
        } else {
            Err(CameraError::InvalidProjection)
        }
    }

    /// Switches to a perspective projection with the given vertical field of
    /// view in degrees and clip distances, or refuses them and changes
    /// nothing.
    pub fn set_perspective_projection(
        &mut self,
        field_of_view_y: i64,
        z_near: i64,
        z_far: i64,
    ) -> (r: Result<(), CameraError>)
        ensures
            r is Ok <==> valid_projection(
                ProjectionType::Perspective { field_of_view_y },
                z_near as int,
                z_far as int,
            ),
            r matches Err(e) ==> e == CameraError::InvalidProjection,
            r is Ok ==> final(self)@ == (CameraState {
                projection: ProjectionType::Perspective { field_of_view_y },
                z_near,
                z_far,
                ..old(self)@
            }),
            r is Err ==> final(self)@ == old(self)@,
            valid_state(final(self)@),
    {
        proof {
            use_type_invariant(&*self);
        }
        let projection: ProjectionType = ProjectionType::Perspective { field_of_view_y };
        if check_projection(projection, z_near, z_far) {
            let s: CameraState = CameraState { projection, z_near, z_far, ..self.state };
            *self = Camera { state: s };
            Ok(())
        } else {
            Err(CameraError::InvalidProjection)
        }
    }

    /// Changes the viewport; an empty one is refused and changes nothing.
    pub fn set_viewport(&mut self, viewport: Viewport) -> (r: Result<(), CameraError>)
        ensures
            r is Ok <==> viewport.width > 0 && viewport.height > 0,
            r matches Err(e) ==> e == CameraError::EmptyViewport,
            r is Ok ==> final(self)@ == (CameraState { viewport, ..old(self)@ }),
            r is Err ==> final(self)@ == old(self)@,
            valid_state(final(self)@),
    {
        proof {
            use_type_invariant(&*self);
        }
        if viewport.width == 0 || viewport.height == 0 {
            Err(CameraError::EmptyViewport)
        } else {
            let s: CameraState = CameraState { viewport, ..self.state };
            *self = Camera { state: s };
            Ok(())
        }
    }

    /// The vector from the position to the target; it is never zero.
    pub fn view_vector(&self) -> (v: Wide3)
        ensures
            v@ == self@.target@.minus(self@.position@),
            v@ != Vector::zero(),
            v@.within(2 * COORD_LIMIT),
    {
        proof {
            use_type_invariant(self);
        }
        self.state.target.minus(self.state.position)
    }

    /// The right vector, not normalized: the cross product of the up vector
    /// and the view vector. It is never zero.
    pub fn right_vector(&self) -> (v: Wide3)
        ensures
            v@ == self@.up@.cross(self@.target@.minus(self@.position@)),
            v@ != Vector::zero(),
            v@.within(0x4000_0000_0000_0000),
    {
        proof {
            use_type_invariant(self);
            lemma_cross_bound(
                self.state.up@,
                self.state.target@.minus(self.state.position@),
                0x4000_0000,
                0x8000_0000,
            );
        }
        let direction: Wide3 = self.state.target.minus(self.state.position);
        self.state.up.widen().cross(direction)
    }

    /// The distance from the position to the target, rounded down; it is at
    /// least one world unit.
    pub fn distance_to_target(&self) -> (d: i64)
        ensures
            d == floor_sqrt(self@.target@.minus(self@.position@).norm2()),
            1 <= d <= 0x1_0000_0000,
    {
        let v: Wide3 = self.view_vector();
        let len: i128 = v.length();
        proof {
            let n = v@.norm2();
            lemma_nonzero_norm(v@);
            // The view vector has components below 2^31, so its length fits.
            assert(n <= 3 * (0x8000_0000 * 0x8000_0000)) by (nonlinear_arith)
                requires
                    n == v.x * v.x + v.y * v.y + v.z * v.z,
                    -0x8000_0000 <= v.x <= 0x8000_0000,
                    -0x8000_0000 <= v.y <= 0x8000_0000,
                    -0x8000_0000 <= v.z <= 0x8000_0000,
            ;
            assert(len <= 0x1_0000_0000) by (nonlinear_arith)
                requires
                    len * len <= n,
                    n <= 3 * (0x8000_0000 * 0x8000_0000),
                    len >= 0,
            ;
        }
        len as i64
    }
}

} // verus!
