use scene_control::camera::{Camera, Viewport};
use scene_control::control::fly_control::{distance_to_ground, FlyControl, TURN_DEGREES};
use scene_control::control::rotation::{Progress, Rotation};
use scene_control::event::{Event, Key, Modifiers, MouseButton, PixelDelta, PixelPoint};
use scene_control::vector::Vec3;

fn v(x: i64, y: i64, z: i64) -> Vec3 {
    Vec3::new(x, y, z)
}

fn none() -> Modifiers {
    Modifiers { alt: false, ctrl: false, shift: false, command: false }
}

fn wheel(dy: i64) -> Event {
    Event::MouseWheel { delta: PixelDelta { x: 0, y: dy }, position: PixelPoint { x: 3, y: 4 }, modifiers: none(), handled: false }
}

fn key(kind: Key) -> Event {
    Event::KeyPress { kind, modifiers: none(), handled: false }
}

fn drag(button: Option<MouseButton>, dx: i64, dy: i64) -> Event {
    Event::MouseMotion {
        button,
        delta: PixelDelta { x: dx, y: dy },
        position: PixelPoint { x: 0, y: 0 },
        modifiers: none(),
        handled: false,
    }
}

fn above_the_ground() -> Camera {
    Camera::new_perspective(Viewport::new_at_origo(100, 100), v(0, 0, 10), v(0, 0, 0), v(0, 1, 0), 45, 1, 100)
        .unwrap()
}

fn run(camera: &mut Camera, event: Event) -> Progress {
    let mut events = vec![event];
    FlyControl::new(100).handle_events(camera, &mut events, 0)
}

#[test]
fn the_distance_to_the_ground_is_measured_along_the_view() {
    assert_eq!(distance_to_ground(&above_the_ground()), Some(10));
    let slanted =
        Camera::new_perspective(Viewport::new_at_origo(100, 100), v(0, 0, 12), v(3, 0, 8), v(0, 0, 1), 45, 1, 100)
            .unwrap();
    // The view (3, 0, -4) has length 5 and drops 4: 12 * 5 / 4.
    assert_eq!(distance_to_ground(&slanted), Some(15));
    let below =
        Camera::new_perspective(Viewport::new_at_origo(100, 100), v(0, 0, -7), v(0, 0, 7), v(0, 1, 0), 45, 1, 100)
            .unwrap();
    assert_eq!(distance_to_ground(&below), Some(7));
    let level =
        Camera::new_perspective(Viewport::new_at_origo(100, 100), v(0, 0, 10), v(10, 0, 10), v(0, 0, 1), 45, 1, 100)
            .unwrap();
    assert_eq!(distance_to_ground(&level), None);
}

#[test]
fn w_moves_towards_the_ground_and_s_away_from_it() {
    let mut camera = above_the_ground();
    assert_eq!(run(&mut camera, key(Key::W)), Progress { handled: true, next: 1, rotation: None });
    assert_eq!(camera.position(), v(0, 0, 9));
    assert_eq!(camera.target(), v(0, 0, 0));
    assert_eq!(camera.up(), v(0, 1, 0));
    let mut camera = above_the_ground();
    run(&mut camera, key(Key::S));
    // 10 / 0.9 = 11.1, rounded up.
    assert_eq!(camera.position(), v(0, 0, 12));
    assert_eq!(camera.target(), v(0, 0, 0));
}

#[test]
fn the_wheel_zooms_by_nine_tenths() {
    let mut camera = above_the_ground();
    run(&mut camera, wheel(1));
    assert_eq!(camera.position(), v(0, 0, 9));
    let mut camera = above_the_ground();
    run(&mut camera, wheel(-1));
    assert_eq!(camera.position(), v(0, 0, 12));
}

#[test]
fn zoom_puts_the_target_where_the_view_meets_the_ground() {
    let mut camera =
        Camera::new_perspective(Viewport::new_at_origo(100, 100), v(0, 0, 12), v(3, 0, 8), v(0, 0, 1), 45, 1, 100)
            .unwrap();
    let mut control = FlyControl::new(100);
    let mut events = vec![key(Key::W)];
    control.handle_events(&mut camera, &mut events, 0);
    // The ground is met (9, 0, -12) from the position, at (9, 0, 0). The
    // distance to the ground, 15, becomes 13: along (3, 0, -4) of length 5 that
    // is (39 / 5, 0, -52 / 5) = (7, 0, -10) back from there.
    assert_eq!(camera.position(), v(2, 0, 10));
    assert_eq!(camera.target(), v(9, 0, 0));
    assert_eq!(control.direction, v(7, 0, -10));
    // The view (7, 0, -10) has length 12 and drops 10: 10 * 12 / 10.
    assert_eq!(control.distance_to_ground, Some(12));
}

#[test]
fn fly_zoom_is_clamped_between_the_clip_planes() {
    let mut camera =
        Camera::new_perspective(Viewport::new_at_origo(100, 100), v(0, 0, 10), v(0, 0, 0), v(0, 1, 0), 45, 4, 12)
            .unwrap();
    let mut control = FlyControl::new(100);
    for z in [12, 12, 12, 12] {
        let mut events = vec![wheel(-1)];
        control.handle_events(&mut camera, &mut events, 0);
        assert_eq!(camera.position(), v(0, 0, z));
        assert_eq!(control.distance_to_ground, Some(z));
    }
    for z in [10, 9, 8, 7, 6, 5, 4, 4, 4] {
        let mut events = vec![key(Key::W)];
        control.handle_events(&mut camera, &mut events, 0);
        assert_eq!(camera.position(), v(0, 0, z));
    }
}

#[test]
fn right_drag_pans_across_and_along_the_up_vector() {
    let mut camera = above_the_ground();
    run(&mut camera, drag(Some(MouseButton::Right), 3, 4));
    // Right is up x view = (0, 1, 0) x (0, 0, -10) = (-10, 0, 0).
    assert_eq!(camera.position(), v(-3, 4, 10));
    assert_eq!(camera.target(), v(-3, 4, 0));
    let mut camera = above_the_ground();
    run(&mut camera, drag(Some(MouseButton::Left), 3, 4));
    run(&mut camera, drag(None, 3, 4));
    assert_eq!(camera.position(), v(0, 0, 10));
}

#[test]
fn arrow_keys_pan_by_a_share_of_the_distance_to_the_ground() {
    let cases = [
        (Key::ArrowUp, v(0, 1, 10)),
        (Key::ArrowDown, v(0, -1, 10)),
        (Key::ArrowLeft, v(-1, 0, 10)),
        (Key::ArrowRight, v(1, 0, 10)),
    ];
    for (kind, position) in cases {
        let mut camera = above_the_ground();
        run(&mut camera, key(kind));
        assert_eq!(camera.position(), position);
        assert_eq!(camera.target(), v(position.x, position.y, 0));
    }
    let mut camera = above_the_ground();
    let mut events = vec![key(Key::ArrowUp)];
    FlyControl::new(2500).handle_events(&mut camera, &mut events, 0);
    assert_eq!(camera.position(), v(0, 25, 10));
    let mut events = vec![key(Key::ArrowUp)];
    FlyControl::new(99).handle_events(&mut camera, &mut events, 0);
    assert_eq!(camera.position(), v(0, 25, 10));
}

#[test]
fn a_and_d_ask_for_a_turn() {
    let mut camera = above_the_ground();
    let before = camera.state();
    assert_eq!(
        run(&mut camera, key(Key::A)),
        Progress { handled: true, next: 1, rotation: Some(Rotation::Turn { yaw: 5 }) }
    );
    assert_eq!(
        run(&mut camera, key(Key::D)),
        Progress { handled: true, next: 1, rotation: Some(Rotation::Turn { yaw: -5 }) }
    );
    assert_eq!(TURN_DEGREES, 5);
    assert_eq!(camera.state(), before);
    let mut control = FlyControl::new(100);
    let mut events = vec![key(Key::W), key(Key::D), key(Key::W), key(Key::A)];
    let p = control.handle_events(&mut camera, &mut events, 0);
    assert_eq!(p, Progress { handled: true, next: 2, rotation: Some(Rotation::Turn { yaw: -5 }) });
    assert_eq!(camera.position(), v(0, 0, 9));
    let p = control.handle_events(&mut camera, &mut events, p.next);
    assert_eq!(p, Progress { handled: true, next: 4, rotation: Some(Rotation::Turn { yaw: 5 }) });
    assert_eq!(camera.position(), v(0, 0, 8));
    let p = control.handle_events(&mut camera, &mut events, p.next);
    assert_eq!(p, Progress { handled: true, next: 4, rotation: None });
    assert_eq!(camera.position(), v(0, 0, 8));
}

#[test]
fn a_view_along_the_ground_has_no_zoom_and_no_key_pan() {
    let mut camera =
        Camera::new_perspective(Viewport::new_at_origo(100, 100), v(0, 0, 10), v(10, 0, 10), v(0, 0, 1), 45, 1, 100)
            .unwrap();
    let before = camera.state();
    let mut control = FlyControl::new(100);
    let mut events = vec![key(Key::W), key(Key::S), wheel(1), key(Key::ArrowUp), key(Key::ArrowLeft)];
    let p = control.handle_events(&mut camera, &mut events, 0);
    assert_eq!(p, Progress { handled: true, next: 5, rotation: None });
    assert_eq!(camera.state(), before);
    assert_eq!(control.distance_to_ground, None);
    assert_eq!(control.direction, v(10, 0, 0));
    // A drag still pans: right is (0, 0, 1) x (10, 0, 0) = (0, 10, 0).
    let mut events = vec![drag(Some(MouseButton::Right), 2, 5)];
    control.handle_events(&mut camera, &mut events, 0);
    assert_eq!(camera.position(), v(0, 2, 15));
    assert_eq!(camera.target(), v(10, 2, 15));
}

#[test]
fn fly_changes_nothing_without_events() {
    let mut camera = above_the_ground();
    let before = camera.state();
    let mut control = FlyControl::new(100);
    assert_eq!(control.distance_to_ground, None);
    assert_eq!(control.direction, v(0, 0, -1));
    let mut events: Vec<Event> = Vec::new();
    let p = control.handle_events(&mut camera, &mut events, 0);
    assert_eq!(p, Progress { handled: true, next: 0, rotation: None });
    assert_eq!(camera.state(), before);
    assert_eq!(control.speed, 100);
    assert_eq!(control.distance_to_ground, Some(10));
    assert_eq!(control.direction, v(0, 0, -10));
}

#[test]
fn fly_ignores_other_events() {
    let mut camera = above_the_ground();
    let before = camera.state();
    let mut events = vec![
        key(Key::Escape),
        key(Key::Other),
        Event::KeyRelease { kind: Key::W, modifiers: none(), handled: false },
        Event::MouseLeave,
        Event::ModifiersChange { modifiers: none() },
    ];
    let p = FlyControl::new(100).handle_events(&mut camera, &mut events, 0);
    assert_eq!(p, Progress { handled: true, next: 5, rotation: None });
    assert_eq!(camera.state(), before);
}

#[test]
fn fly_handles_single_events() {
    let mut camera = above_the_ground();
    let mut control = FlyControl::new(100);
    assert_eq!(control.handle_event(&mut camera, &key(Key::A)), Some(Rotation::Turn { yaw: 5 }));
    assert_eq!(control.handle_event(&mut camera, &key(Key::W)), None);
    assert_eq!(camera.position(), v(0, 0, 9));
}
