//! Panning and zooming about the cursor for a camera that looks straight
//! down on the world's XY plane. The map and bird's-eye controllers share it.

use vstd::prelude::*;
use crate::arith::{lemma_product_bound, lemma_quot_bounds, magnitude, quot, quot_i128};
use crate::camera::{Camera, CameraState, ProjectionType, valid_state, COORD_LIMIT};
use crate::control::zoom::ZoomFactor;
use crate::event::{Event, MouseButton, PixelDelta, PixelPoint};
use crate::vector::{mul_wide, Vec3};

verus! {

/// The factor of a wheel step: 0.8 when zooming in, 1.2 when zooming out.
pub open spec fn wheel_factor(zoom_in: bool) -> ZoomFactor {
    if zoom_in {
        ZoomFactor::FourFifths
    } else {
        ZoomFactor::SixFifths
    }
}

/// A length after one wheel step.
pub open spec fn wheel_scaled(x: int, zoom_in: bool) -> int {
    wheel_factor(zoom_in).scaled(x)
}

/// The world distance that `pixels` cover when `height` world units span the
/// viewport height.
pub open spec fn world_span(pixels: int, height: int, viewport_height: int) -> int {
    quot(pixels * height, viewport_height)
}

/// How far the camera moves along one screen axis so that the point under
/// the cursor stays put while the orthographic height grows by `growth`:
/// the cursor's offset from the viewport centre times the change of the
/// world-units-per-pixel ratio.
pub open spec fn cursor_shift(extent: int, cursor: int, growth: int, viewport_height: int) -> int {
    quot((extent - 2 * cursor) * growth, 2 * viewport_height)
}

/// Position and target stay in range when both move by `(mx, my)`.
pub open spec fn fits_xy(s: CameraState, mx: int, my: int) -> bool {
    &&& -COORD_LIMIT <= s.position.x + mx <= COORD_LIMIT
    &&& -COORD_LIMIT <= s.position.y + my <= COORD_LIMIT
    &&& -COORD_LIMIT <= s.target.x + mx <= COORD_LIMIT
    &&& -COORD_LIMIT <= s.target.y + my <= COORD_LIMIT
}

/// The state with position and target moved by `(mx, my)` in the XY plane.
pub open spec fn moved_xy(s: CameraState, mx: int, my: int) -> CameraState {
    CameraState {
        position: Vec3 {
            x: (s.position.x + mx) as i64,
            y: (s.position.y + my) as i64,
            z: s.position.z,
        },
        target: Vec3 { x: (s.target.x + mx) as i64, y: (s.target.y + my) as i64, z: s.target.z },
        ..s
    }
}

/// A drag by `delta` pixels moves the camera by `(-dx, +dy)` pixels' worth of
/// world units; a move that would leave the coordinate range is dropped.
pub open spec fn pan(s: CameraState, height: i64, delta: PixelDelta) -> CameraState {
    let mx = world_span(-delta.x, height as int, s.viewport.height as int);
    let my = world_span(delta.y as int, height as int, s.viewport.height as int);
    if fits_xy(s, mx, my) {
        moved_xy(s, mx, my)
    } else {
        s
    }
}

/// A wheel step scales the orthographic height `height`, moves the camera so
/// that the point under `cursor` stays put, and sets the clip distances. The
/// step is applied as a whole or, if the move leaves the coordinate range or
/// the new projection is not valid, not at all.
pub open spec fn zoom(
    s: CameraState,
    height: i64,
    cursor: PixelPoint,
    zoom_in: bool,
    z_near: i64,
    z_far: i64,
) -> CameraState {
    let new_height = wheel_scaled(height as int, zoom_in);
    let growth = new_height - height;
    let mx = cursor_shift(s.viewport.width as int, cursor.x as int, growth, s.viewport.height as int);
    let my = cursor_shift(
        s.viewport.height as int,
        cursor.y as int,
        growth,
        s.viewport.height as int,
    );
    if zoom_applies(s, height, cursor, zoom_in, z_near, z_far) {
        CameraState {
            projection: ProjectionType::Orthographic { height: new_height as i64 },
            z_near,
            z_far,
            ..moved_xy(s, mx, my)
        }
    } else {
        s
    }
}

/// Whether a wheel step can be applied.
pub open spec fn zoom_applies(
    s: CameraState,
    height: i64,
    cursor: PixelPoint,
    zoom_in: bool,
    z_near: i64,
    z_far: i64,
) -> bool {
    let new_height = wheel_scaled(height as int, zoom_in);
    let growth = new_height - height;
    let mx = cursor_shift(s.viewport.width as int, cursor.x as int, growth, s.viewport.height as int);
    let my = cursor_shift(
        s.viewport.height as int,
        cursor.y as int,
        growth,
        s.viewport.height as int,
    );
    &&& fits_xy(s, mx, my)
    &&& 0 < new_height <= COORD_LIMIT
    &&& -COORD_LIMIT <= z_near <= COORD_LIMIT
    &&& -COORD_LIMIT <= z_far <= COORD_LIMIT
}

/// What one event does to the camera: a drag with the right button pans, a
/// wheel event zooms about the cursor (in when it scrolls upward), and every
/// other event does nothing.
pub open spec fn step(s: CameraState, height: i64, z_near: i64, z_far: i64, e: Event) -> CameraState {
    match e {
        Event::MouseMotion { button: Some(MouseButton::Right), delta, .. } => pan(s, height, delta),
        Event::MouseWheel { delta, position, .. } => zoom(
            s,
            height,
            position,
            delta.y > 0,
            z_near,
            z_far,
        ),
        _ => s,
    }
}

/// The camera after the first `n` events, each applied in order. `height`
/// is the orthographic height at the start of the batch: the
/// world-units-per-pixel ratio is fixed once per batch.
pub open spec fn fold(
    s: CameraState,
    height: i64,
    z_near: i64,
    z_far: i64,
    events: Seq<Event>,
    n: nat,
) -> CameraState
    decreases n,
{
    if n == 0 {
        s
    } else {
        step(fold(s, height, z_near, z_far, events, (n - 1) as nat), height, z_near, z_far, events[n - 1])
    }
}

/// `2 * viewport_height` times the world coordinate, along one screen axis,
/// of the point shown at pixel `cursor`: the camera stands at `position`,
/// `height` world units span the viewport height, and the viewport is
/// `extent` pixels long along that axis.
pub open spec fn scaled_world_coord(
    position: int,
    height: int,
    extent: int,
    cursor: int,
    viewport_height: int,
) -> int {
    2 * viewport_height * position + (2 * cursor - extent) * height
}

/// Zooming about the cursor keeps the world point under the cursor where it
/// is on the screen: that point moves by less than one world unit along
/// either axis, and not at all along an axis on which the cursor is at the
/// centre of the viewport.
pub proof fn lemma_zoom_fixes_cursor_point(
    s: CameraState,
    height: i64,
    cursor: PixelPoint,
    zoom_in: bool,
    z_near: i64,
    z_far: i64,
)
    requires
        s.viewport.height > 0,
        zoom_applies(s, height, cursor, zoom_in, z_near, z_far),
    ensures
        ({
            let after = zoom(s, height, cursor, zoom_in, z_near, z_far);
            let new_height = wheel_scaled(height as int, zoom_in);
            let vw = s.viewport.width as int;
            let vh = s.viewport.height as int;
            &&& after.projection == (ProjectionType::Orthographic { height: new_height as i64 })
            &&& after.target@.minus(after.position@) == s.target@.minus(s.position@)
            &&& magnitude(
                scaled_world_coord(after.position.x as int, new_height, vw, cursor.x as int, vh)
                    - scaled_world_coord(s.position.x as int, height as int, vw, cursor.x as int, vh),
            ) < 2 * vh
            &&& magnitude(
                scaled_world_coord(after.position.y as int, new_height, vh, cursor.y as int, vh)
                    - scaled_world_coord(s.position.y as int, height as int, vh, cursor.y as int, vh),
            ) < 2 * vh
            &&& 2 * cursor.x == vw ==> after.position.x == s.position.x
            &&& 2 * cursor.y == vh ==> after.position.y == s.position.y
        }),
{
    let new_height = wheel_scaled(height as int, zoom_in);
    let growth = new_height - height;
    let vw = s.viewport.width as int;
    let vh = s.viewport.height as int;
    let nx = (vw - 2 * cursor.x) * growth;
    let ny = (vh - 2 * cursor.y) * growth;
    lemma_quot_bounds(nx, 2 * vh);
    lemma_quot_bounds(ny, 2 * vh);
    assert((2 * cursor.x - vw) * new_height - (2 * cursor.x - vw) * height == -nx)
        by (nonlinear_arith)
        requires
            nx == (vw - 2 * cursor.x) * growth,
            growth == new_height - height,
    ;
    assert((2 * cursor.y - vh) * new_height - (2 * cursor.y - vh) * height == -ny)
        by (nonlinear_arith)
        requires
            ny == (vh - 2 * cursor.y) * growth,
            growth == new_height - height,
    ;
    let mx = quot(nx, 2 * vh);
    let my = quot(ny, 2 * vh);
    assert(2 * vh * mx == mx * (2 * vh)) by (nonlinear_arith);
    assert(2 * vh * my == my * (2 * vh)) by (nonlinear_arith);
    assert(2 * vh * (s.position.x + mx) == 2 * vh * s.position.x + 2 * vh * mx)
        by (nonlinear_arith);
    assert(2 * vh * (s.position.y + my) == 2 * vh * s.position.y + 2 * vh * my)
        by (nonlinear_arith);
    if 2 * cursor.x == vw {
        assert(nx == 0) by (nonlinear_arith)
            requires
                nx == (vw - 2 * cursor.x) * growth,
                vw - 2 * cursor.x == 0,
        ;
    }
    if 2 * cursor.y == vh {
        assert(ny == 0) by (nonlinear_arith)
            requires
                ny == (vh - 2 * cursor.y) * growth,
                vh - 2 * cursor.y == 0,
        ;
    }
}

/// The camera's state moved by `(mx, my)`, if position and target stay in
/// range.
fn moved_state(camera: &Camera, mx: i128, my: i128) -> (r: Option<CameraState>)
    requires
        -0x4000_0000_0000_0000_0000_0000_0000_0000 <= mx <= 0x4000_0000_0000_0000_0000_0000_0000_0000,
        -0x4000_0000_0000_0000_0000_0000_0000_0000 <= my <= 0x4000_0000_0000_0000_0000_0000_0000_0000,
    ensures
        r is Some <==> fits_xy(camera@, mx as int, my as int),
        r matches Some(s) ==> s == moved_xy(camera@, mx as int, my as int) && valid_state(s),
{
    let s: CameraState = camera.state();
    let limit: i128 = COORD_LIMIT as i128;
    let px: i128 = s.position.x as i128 + mx;
    let py: i128 = s.position.y as i128 + my;
    let tx: i128 = s.target.x as i128 + mx;
    let ty: i128 = s.target.y as i128 + my;
    if -limit <= px && px <= limit && -limit <= py && py <= limit && -limit <= tx && tx <= limit
        && -limit <= ty && ty <= limit {
        let moved: CameraState = CameraState {
            position: Vec3 { x: px as i64, y: py as i64, z: s.position.z },
            target: Vec3 { x: tx as i64, y: ty as i64, z: s.target.z },
            ..s
        };
        assert(moved.target@.minus(moved.position@) == s.target@.minus(s.position@));
        Some(moved)
    } else {
        None
    }
}

/// Pans the camera as [`pan`] says.
pub fn pan_camera(camera: &mut Camera, height: i64, delta: PixelDelta)
    ensures
        final(camera)@ == pan(old(camera)@, height, delta),
        valid_state(final(camera)@),
{
    let s: CameraState = camera.state();
    let vh: i128 = s.viewport.height as i128;
    proof {
        let l: int = 0x8000_0000_0000_0000;
        lemma_product_bound(-(delta.x as int), height as int, l, l);
        lemma_product_bound(delta.y as int, height as int, l, l);
        lemma_quot_bounds(-delta.x * height, vh as int);
        lemma_quot_bounds(delta.y * height, vh as int);
    }
    let mx: i128 = quot_i128(mul_wide(-(delta.x as i128), height as i128), vh);
    let my: i128 = quot_i128(mul_wide(delta.y as i128, height as i128), vh);
    match moved_state(camera, mx, my) {
        Some(moved) => {
            let _ = camera.replace(moved);
        },
        None => {},
    }
}

/// Zooms the camera about the cursor as [`zoom`] says.
pub fn zoom_camera(
    camera: &mut Camera,
    height: i64,
    cursor: PixelPoint,
    zoom_in: bool,
    z_near: i64,
    z_far: i64,
)
    ensures
        final(camera)@ == zoom(old(camera)@, height, cursor, zoom_in, z_near, z_far),
        valid_state(final(camera)@),
{
    let s: CameraState = camera.state();
    let vw: i128 = s.viewport.width as i128;
    let vh: i128 = s.viewport.height as i128;
    let h: i128 = height as i128;
    let new_height: i128 = if zoom_in {
        ZoomFactor::FourFifths.scale(height)
    } else {
        ZoomFactor::SixFifths.scale(height)
    };
    let limit: i128 = COORD_LIMIT as i128;
    if !(0 < new_height && new_height <= limit) {
        return ;
    }
    // A height that scales to something in range is itself below twice the
    // limit.
    assert(0 < h <= 2 * limit);
    let growth: i128 = new_height - h;
    let off_x: i128 = vw - 2 * (cursor.x as i128);
    let off_y: i128 = vh - 2 * (cursor.y as i128);
    proof {
        let p: int = 0x4_0000_0000_0000_0000;
        let q: int = 0x1_0000_0000;
        lemma_product_bound(off_x as int, growth as int, p, q);
        lemma_product_bound(off_y as int, growth as int, p, q);
        lemma_quot_bounds(off_x * growth, 2 * vh);
        lemma_quot_bounds(off_y * growth, 2 * vh);
    }
    let mx: i128 = quot_i128(off_x * growth, 2 * vh);
    let my: i128 = quot_i128(off_y * growth, 2 * vh);
    if !(-COORD_LIMIT <= z_near && z_near <= COORD_LIMIT && -COORD_LIMIT <= z_far && z_far
        <= COORD_LIMIT) {
        return ;
    }
    match moved_state(camera, mx, my) {
        Some(moved) => {
            let next: CameraState = CameraState {
                projection: ProjectionType::Orthographic { height: new_height as i64 },
                z_near,
                z_far,
                ..moved
            };
            let _ = camera.replace(next);
        },
        None => {},
    }
}

/// Applies one event as [`step`] says.
pub fn apply_event(camera: &mut Camera, height: i64, z_near: i64, z_far: i64, event: &Event)
    ensures
        final(camera)@ == step(old(camera)@, height, z_near, z_far, *event),
        valid_state(final(camera)@),
{
    let _ = camera.state();
    match event {
        Event::MouseMotion { button, delta, .. } => {
            match button {
                Some(MouseButton::Right) => {
                    pan_camera(camera, height, *delta);
                },
                _ => {},
            }
        },
        Event::MouseWheel { delta, position, .. } => {
            zoom_camera(camera, height, *position, delta.y > 0, z_near, z_far);
        },
        _ => {},
    }
}

/// Applies a batch of events in order, as [`fold`] says.
pub fn apply_events(camera: &mut Camera, height: i64, z_near: i64, z_far: i64, events: &[Event])
    ensures
        final(camera)@ == fold(old(camera)@, height, z_near, z_far, events@, events@.len()),
        valid_state(final(camera)@),
{
    let _ = camera.state();
    let mut i: usize = 0;
    while i < events.len()
        invariant
            i <= events@.len(),
            camera@ == fold(old(camera)@, height, z_near, z_far, events@, i as nat),
            valid_state(camera@),
        decreases events@.len() - i,
    {
        apply_event(camera, height, z_near, z_far, &events[i]);
        i = i + 1;
    }
}

} // verus!
