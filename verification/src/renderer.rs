//! Picking: the nearest surface point along a ray, found by rendering the
//! scene's depth from the ray's point of view into a single pixel.
//!
//! The library prepares the render and evaluates what was read back; the
//! host owns the graphics context and does the rendering in between:
//! [`ray_camera`] gives the camera to render with, and [`ray_intersect`] turns
//! the depth that was read back into the point that was hit.

use vstd::prelude::*;
use crate::arith::{
    floor_sqrt,
    is_floor_sqrt,
    lemma_product_bound,
    lemma_quot_bounds,
    magnitude,
    quot,
    quot_i128,
};
use crate::camera::{
    Camera,
    CameraError,
    CameraState,
    ProjectionType,
    Viewport,
    state_error,
    valid_state,
    COORD_LIMIT,
    in_range,
};
use crate::vector::{along, displacement, lemma_nonzero_norm, Vec3, Vector, Wide3};

verus! {

/// Why a pick failed.
#[derive(Clone, Copy, Debug, PartialEq, Eq, Structural)]
pub enum RendererError {
    /// The ray has no direction or no positive reach, or lies out of range.
    InvalidRay,
    /// The camera that looks along the ray could not be set up.
    Camera(CameraError),
    /// The host could not create the offscreen color and depth targets.
    TargetCreation,
    /// The host could not draw a geometry's depth.
    Draw,
    /// The host could not read the pixel back.
    Readback,
}

/// The depth value that stands for 1.0, the far sentinel to which the target
/// is cleared. A depth is a fraction of the reach, counted in units of
/// `1 / DEPTH_ONE`.
pub const DEPTH_ONE: u32 = 0x0100_0000;

/// The near distance and the orthographic height of the camera that looks
/// along a ray: the smallest positive length.
pub const RAY_EPSILON: i64 = 1;

/// A ray can be searched when origin and direction are in range, the
/// direction is not zero, and the reach is positive and in range.
pub open spec fn valid_ray(position: Vector, direction: Vector, max_depth: int) -> bool {
    &&& position.within(COORD_LIMIT as int)
    &&& direction.within(COORD_LIMIT as int)
    &&& direction != Vector::zero()
    &&& 0 < max_depth <= COORD_LIMIT
}

/// Whether the direction is within a cosine of 0.99 of the world's x axis:
/// `|x| / |direction| > 0.99`, stated without the square root.
pub open spec fn near_x_axis(direction: Vector) -> bool {
    10000 * (direction.x * direction.x) > 9801 * direction.norm2()
}

/// An up vector for a view along `direction`: the cross product with the x
/// axis, or, where the direction is too close to the x axis for that, the
/// cross product with the y axis.
pub open spec fn stable_up_vector(direction: Vector) -> Vector {
    if near_x_axis(direction) {
        Vector { x: -direction.z, y: 0, z: direction.x }
    } else {
        Vector { x: 0, y: direction.z, z: -direction.y }
    }
}

/// The up vector chosen for a direction is the cross product that its
/// definition names; it is perpendicular to the direction and, unless the
/// direction is zero, neither zero nor parallel to it.
pub proof fn lemma_stable_up(direction: Vector)
    ensures
        near_x_axis(direction) ==> stable_up_vector(direction) == direction.cross(
            Vector { x: 0, y: 1, z: 0 },
        ),
        !near_x_axis(direction) ==> stable_up_vector(direction) == direction.cross(
            Vector { x: 1, y: 0, z: 0 },
        ),
        stable_up_vector(direction).dot(direction) == 0,
        direction != Vector::zero() ==> stable_up_vector(direction) != Vector::zero(),
        direction != Vector::zero() ==> !stable_up_vector(direction).parallel(direction),
{
    let d = direction;
    let up = stable_up_vector(d);
    lemma_nonzero_norm(d);
    assert(d.x * d.x >= 0 && d.y * d.y >= 0 && d.z * d.z >= 0) by (nonlinear_arith);
    assert((-d.z) * d.x + 0 * d.y + d.x * d.z == 0) by (nonlinear_arith);
    assert(0 * d.x + d.z * d.y + (-d.y) * d.z == 0) by (nonlinear_arith);
    if d != Vector::zero() {
        if near_x_axis(d) {
            assert(d.x != 0) by (nonlinear_arith)
                requires
                    10000 * (d.x * d.x) > 9801 * (d.x * d.x + d.y * d.y + d.z * d.z),
                    d.y * d.y >= 0,
                    d.z * d.z >= 0,
            ;
            // The y component of up x direction is x^2 + z^2.
            assert(up.z * d.x - up.x * d.z == d.x * d.x + d.z * d.z) by (nonlinear_arith)
                requires
                    up.z == d.x,
                    up.x == -d.z,
            ;
            assert(d.x * d.x >= 1) by (nonlinear_arith)
                requires
                    d.x != 0,
            ;
        } else {
            if d.y == 0 && d.z == 0 {
                assert(d.x != 0);
                assert(d.x * d.x >= 1) by (nonlinear_arith)
                    requires
                        d.x != 0,
                ;
                assert(false);
            }
            // The x component of up x direction is y^2 + z^2.
            assert(up.y * d.z - up.z * d.y == d.z * d.z + d.y * d.y) by (nonlinear_arith)
                requires
                    up.y == d.z,
                    up.z == -d.y,
            ;
            assert(d.y != 0 ==> d.y * d.y >= 1) by (nonlinear_arith);
            assert(d.z != 0 ==> d.z * d.z >= 1) by (nonlinear_arith);
        }
    }
}

/// Computes [`stable_up_vector`].
pub fn stable_up(direction: Vec3) -> (up: Vec3)
    requires
        direction@.within(COORD_LIMIT as int),
    ensures
        up@ == stable_up_vector(direction@),
        up@.within(COORD_LIMIT as int),
{
    let x: i128 = direction.x as i128;
    let y: i128 = direction.y as i128;
    let z: i128 = direction.z as i128;
    proof {
        let l: int = 0x4000_0000;
        lemma_product_bound(x as int, x as int, l, l);
        lemma_product_bound(y as int, y as int, l, l);
        lemma_product_bound(z as int, z as int, l, l);
    }
    let xx: i128 = x * x;
    let norm2: i128 = xx + y * y + z * z;
    if 10000 * xx > 9801 * norm2 {
        Vec3 { x: -direction.z, y: 0, z: direction.x }
    } else {
        Vec3 { x: 0, y: direction.z, z: -direction.y }
    }
}

/// The state of the camera that looks along a ray: it stands at the origin
/// of the ray and looks at the point `max_depth` further along it, with an
/// orthographic projection onto a single pixel that reaches from
/// [`RAY_EPSILON`] to `max_depth`.
pub open spec fn ray_state(position: Vec3, direction: Vec3, max_depth: i64) -> CameraState {
    let reach = along(direction@, floor_sqrt(direction@.norm2()), max_depth as int);
    CameraState {
        viewport: Viewport { x: 0, y: 0, width: 1, height: 1 },
        projection: ProjectionType::Orthographic { height: RAY_EPSILON },
        z_near: RAY_EPSILON,
        z_far: max_depth,
        position,
        target: position@.plus(reach).to_vec3(),
        up: stable_up_vector(direction@).to_vec3(),
    }
}

/// No component of a displacement along a vector is longer than the
/// displacement is meant to be.
pub proof fn lemma_along_bound(v: Vector, len: int, s: int)
    requires
        is_floor_sqrt(v.norm2(), len),
        len > 0,
    ensures
        along(v, len, s).within(magnitude(s)),
{
    assert(v.x * v.x >= 0 && v.y * v.y >= 0 && v.z * v.z >= 0) by (nonlinear_arith);
    lemma_component_bound(v.x, v.norm2(), len, s);
    lemma_component_bound(v.y, v.norm2(), len, s);
    lemma_component_bound(v.z, v.norm2(), len, s);
}

/// If `c^2 <= n < (len + 1)^2` then `|c * s / len| <= |s|`.
proof fn lemma_component_bound(c: int, n: int, len: int, s: int)
    requires
        c * c <= n,
        is_floor_sqrt(n, len),
        len > 0,
    ensures
        -magnitude(s) <= quot(c * s, len) <= magnitude(s),
{
    let mc = magnitude(c);
    let ms = magnitude(s);
    assert(mc * mc == c * c) by (nonlinear_arith)
        requires
            mc == c || mc == -c,
    ;
    if mc > len {
        assert(mc * mc >= (len + 1) * (len + 1)) by (nonlinear_arith)
            requires
                mc >= len + 1,
                len > 0,
        ;
    }
    assert(magnitude(c * s) == mc * ms) by (nonlinear_arith)
        requires
            mc == magnitude(c),
            ms == magnitude(s),
    ;
    assert(mc * ms <= len * ms) by (nonlinear_arith)
        requires
            0 <= mc <= len,
            ms >= 0,
    ;
    let p = c * s;
    let mp = magnitude(p);
    assert(mp / len <= ms) by (nonlinear_arith)
        requires
            0 <= mp <= len * ms,
            len > 0,
    ;
}

/// A step along a vector points the way the vector points: no component of
/// the step has the opposite sign, and where the vector has no extent the
/// step has none.
proof fn lemma_step_sign(c: int, len: int, s: int)
    requires
        len > 0,
        s >= 0,
    ensures
        c * quot(c * s, len) >= 0,
        c == 0 ==> quot(c * s, len) == 0,
{
    let q = quot(c * s, len);
    lemma_quot_bounds(c * s, len);
    if c >= 0 {
        assert(c * s >= 0) by (nonlinear_arith)
            requires
                c >= 0,
                s >= 0,
        ;
        assert(q * len >= 0);
        assert(q >= 0) by (nonlinear_arith)
            requires
                q * len >= 0,
                len > 0,
        ;
        assert(c * q >= 0) by (nonlinear_arith)
            requires
                c >= 0,
                q >= 0,
        ;
    } else {
        assert(c * s <= 0) by (nonlinear_arith)
            requires
                c < 0,
                s >= 0,
        ;
        assert(q * len <= 0);
        assert(q <= 0) by (nonlinear_arith)
            requires
                q * len <= 0,
                len > 0,
        ;
        assert(c * q >= 0) by (nonlinear_arith)
            requires
                c < 0,
                q <= 0,
        ;
    }
    if c == 0 {
        assert(c * s == 0) by (nonlinear_arith)
            requires
                c == 0,
        ;
    }
}

/// A product vanishes only if a factor does.
proof fn lemma_zero_product(a: int, b: int)
    by (nonlinear_arith)
    requires
        a * b == 0,
        a != 0,
    ensures
        b == 0,
{
}

/// The up vector chosen for a ray is usable for the camera that looks along
/// it: it is not parallel to the step from the origin of the ray to its far
/// end, unless that step rounds to nothing.
pub proof fn lemma_ray_up_usable(direction: Vector, max_depth: int)
    requires
        direction != Vector::zero(),
        max_depth > 0,
    ensures
        ({
            let reach = along(direction, floor_sqrt(direction.norm2()), max_depth);
            reach != Vector::zero() ==> !stable_up_vector(direction).parallel(reach)
        }),
{
    let d = direction;
    let len = floor_sqrt(d.norm2());
    lemma_nonzero_norm(d);
    crate::arith::lemma_floor_sqrt_exists(d.norm2());
    if len == 0 {
        assert((len + 1) * (len + 1) == 1);
    }
    let r = along(d, len, max_depth);
    let up = stable_up_vector(d);
    lemma_stable_up(d);
    lemma_step_sign(d.x, len, max_depth);
    lemma_step_sign(d.y, len, max_depth);
    lemma_step_sign(d.z, len, max_depth);
    if r != Vector::zero() && up.parallel(r) {
        let c = up.cross(r);
        assert(c.x == 0 && c.y == 0 && c.z == 0);
        if near_x_axis(d) {
            // up = (-z, 0, x) with x != 0.
            assert(d.x != 0) by {
                if d.x == 0 {
                    assert(d.x * d.x == 0) by (nonlinear_arith)
                        requires
                            d.x == 0,
                    ;
                    assert(d.y * d.y >= 0 && d.z * d.z >= 0) by (nonlinear_arith);
                }
            }
            assert(c.x == 0 * r.z - d.x * r.y);
            assert(d.x * r.y == 0);
            lemma_zero_product(d.x, r.y);
            assert(c.y == d.x * r.x - (-d.z) * r.z);
            assert((-d.z) * r.z == -(d.z * r.z)) by (nonlinear_arith);
            assert(d.x * r.x == 0 && d.z * r.z == 0);
            lemma_zero_product(d.x, r.x);
            if d.z != 0 {
                lemma_zero_product(d.z, r.z);
            }
            assert(false);
        } else {
            // up = (0, z, -y).
            assert(c.x == d.z * r.z - (-d.y) * r.y);
            assert((-d.y) * r.y == -(d.y * r.y)) by (nonlinear_arith);
            assert(d.z * r.z == 0 && d.y * r.y == 0);
            if d.z != 0 {
                lemma_zero_product(d.z, r.z);
            }
            if d.y != 0 {
                lemma_zero_product(d.y, r.y);
            }
            assert(r.y == 0 && r.z == 0);
            assert(c.y == (-d.y) * r.x - 0 * r.z);
            assert(c.z == 0 * r.y - d.z * r.x);
            assert((-d.y) * r.x == -(d.y * r.x)) by (nonlinear_arith);
            assert(d.y * r.x == 0 && d.z * r.x == 0);
            if d.y != 0 {
                lemma_zero_product(d.y, r.x);
            } else if d.z != 0 {
                lemma_zero_product(d.z, r.x);
            } else {
                // A direction along the x axis is near the x axis.
                assert(d.x != 0);
                assert(d.x * d.x >= 1) by (nonlinear_arith)
                    requires
                        d.x != 0,
                ;
                assert(d.y * d.y == 0 && d.z * d.z == 0) by (nonlinear_arith)
                    requires
                        d.y == 0,
                        d.z == 0,
                ;
                assert(false);
            }
            assert(false);
        }
    }
}

/// The camera that looks along the ray from `position` in `direction` as
/// far as `max_depth`. An invalid ray is refused as such; a ray whose far
/// end is out of range, or so close that it coincides with the origin, is
/// refused with the camera's reason.
pub fn ray_camera(position: Vec3, direction: Vec3, max_depth: i64) -> (r: Result<
    Camera,
    RendererError,
>)
    ensures
        !valid_ray(position@, direction@, max_depth as int) ==> r == Err::<Camera, RendererError>(
            RendererError::InvalidRay,
        ),
        valid_ray(position@, direction@, max_depth as int) ==> match state_error(
            ray_state(position, direction, max_depth),
        ) {
            Some(e) => r == Err::<Camera, RendererError>(RendererError::Camera(e)),
            None => r is Ok,
        },
        r matches Ok(c) ==> c@ == ray_state(position, direction, max_depth) && valid_state(c@),
        r matches Err(e) ==> e == RendererError::InvalidRay || e == RendererError::Camera(
            CameraError::OutOfRange,
        ) || e == RendererError::Camera(CameraError::DegenerateView),
{
    if !(in_range(position) && in_range(direction)) {
        return Err(RendererError::InvalidRay);
    }
    let wide: Wide3 = direction.widen();
    if wide.is_zero() || max_depth <= 0 || max_depth > COORD_LIMIT {
        return Err(RendererError::InvalidRay);
    }
    let len: i128 = wide.length();
    let reach: Wide3 = displacement(wide, len, max_depth as i128);
    proof {
        lemma_along_bound(wide@, len as int, max_depth as int);
        lemma_ray_up_usable(direction@, max_depth as int);
    }
    let target: Vec3 = Vec3 {
        x: (position.x as i128 + reach.x) as i64,
        y: (position.y as i128 + reach.y) as i64,
        z: (position.z as i128 + reach.z) as i64,
    };
    let up: Vec3 = stable_up(direction);
    match Camera::new_orthographic(
        Viewport::new_at_origo(1, 1),
        position,
        target,
        up,
        RAY_EPSILON,
        RAY_EPSILON,
        max_depth,
    ) {
        Ok(camera) => Ok(camera),
        Err(e) => Err(RendererError::Camera(e)),
    }
}

/// How far along the ray a surface lies whose depth was read back as
/// `depth`: that fraction of the reach.
pub open spec fn hit_distance(depth: u32, max_depth: int) -> int {
    quot(depth * max_depth, DEPTH_ONE as int)
}

/// The point at the given depth along the ray.
pub open spec fn hit_point(position: Vector, direction: Vector, max_depth: int, depth: u32) -> Vector {
    position.plus(
        along(direction, floor_sqrt(direction.norm2()), hit_distance(depth, max_depth)),
    )
}

/// What a pick returns, given what the host read back from the pixel that
/// was rendered with [`ray_camera`]: the host's failure if it had one, no
/// point if nothing was drawn nearer than the far sentinel, and else the
/// point at the depth that was read.
pub open spec fn ray_result(
    position: Vec3,
    direction: Vec3,
    max_depth: i64,
    readback: Result<u32, RendererError>,
) -> Result<Option<Vec3>, RendererError> {
    if !valid_ray(position@, direction@, max_depth as int) {
        Err(RendererError::InvalidRay)
    } else {
        match readback {
            Err(e) => Err(e),
            Ok(depth) => if depth < DEPTH_ONE {
                Ok(Some(hit_point(position@, direction@, max_depth as int, depth).to_vec3()))
            } else {
                Ok(None)
            },
        }
    }
}

/// Finds the closest intersection of the ray with what was rendered, from
/// the depth that the host read back: see [`ray_result`]. A point that is
/// returned lies within `max_depth` of the origin along every axis.
pub fn ray_intersect(
    position: Vec3,
    direction: Vec3,
    max_depth: i64,
    readback: Result<u32, RendererError>,
) -> (r: Result<Option<Vec3>, RendererError>)
    ensures
        r == ray_result(position, direction, max_depth, readback),
        r matches Ok(Some(p)) ==> p@ == hit_point(position@, direction@, max_depth as int, readback->Ok_0)
            && p@.minus(position@).within(max_depth as int),
{
    if !(in_range(position) && in_range(direction)) {
        return Err(RendererError::InvalidRay);
    }
    let wide: Wide3 = direction.widen();
    if wide.is_zero() || max_depth <= 0 || max_depth > COORD_LIMIT {
        return Err(RendererError::InvalidRay);
    }
    match readback {
        Err(e) => Err(e),
        Ok(depth) => {
            if depth < DEPTH_ONE {
                proof {
                    lemma_product_bound(depth as int, max_depth as int, 0x0100_0000, 0x4000_0000);
                    assert(depth * max_depth >= 0) by (nonlinear_arith)
                        requires
                            depth >= 0,
                            max_depth > 0,
                    ;
                    assert(depth * max_depth <= 0x0100_0000 * max_depth) by (nonlinear_arith)
                        requires
                            0 <= depth <= 0x0100_0000,
                            max_depth > 0,
                    ;
                    lemma_quot_bounds(depth * max_depth, DEPTH_ONE as int);
                }
                let distance: i128 = quot_i128((depth as i128) * (max_depth as i128), DEPTH_ONE as i128);
                assert(0 <= distance <= max_depth) by (nonlinear_arith)
                    requires
                        distance >= 0,
                        distance * 0x0100_0000 <= depth * max_depth,
                        depth * max_depth <= 0x0100_0000 * max_depth,
                ;
                let len: i128 = wide.length();
                let offset: Wide3 = displacement(wide, len, distance);
                proof {
                    lemma_along_bound(wide@, len as int, distance as int);
                }
                Ok(
                    Some(
                        Vec3 {
                            x: (position.x as i128 + offset.x) as i64,
                            y: (position.y as i128 + offset.y) as i64,
                            z: (position.z as i128 + offset.z) as i64,
                        },
                    ),
                )
            } else {
                Ok(None)
            }
        },
    }
}

} // verus!
