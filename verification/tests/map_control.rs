use scene_control::camera::{Camera, ProjectionType, Viewport, COORD_LIMIT};
use scene_control::control::bev_control::{BevControl, PixelRatio};
use scene_control::control::map_control::MapControl;
use scene_control::control::pan_zoom::{apply_event, pan_camera, zoom_camera};
use scene_control::event::{Event, Key, Modifiers, MouseButton, PixelDelta, PixelPoint};
use scene_control::vector::Vec3;

fn v(x: i64, y: i64, z: i64) -> Vec3 {
    Vec3::new(x, y, z)
}

fn none() -> Modifiers {
    Modifiers { alt: false, ctrl: false, shift: false, command: false }
}

fn wheel(dy: i64, x: i64, y: i64) -> Event {
    Event::MouseWheel { delta: PixelDelta { x: 0, y: dy }, position: PixelPoint { x, y }, modifiers: none(), handled: false }
}

fn drag(button: Option<MouseButton>, dx: i64, dy: i64) -> Event {
    Event::MouseMotion {
        button,
        delta: PixelDelta { x: dx, y: dy },
        position: PixelPoint { x: 0, y: 0 },
        modifiers: none(),
        handled: false,
    }
}

fn looking_down(height: i64) -> Camera {
    Camera::new_orthographic(
        Viewport::new_at_origo(100, 100),
        v(0, 0, 10),
        v(0, 0, 0),
        v(0, 1, 0),
        height,
        1,
        100,
    )
    .unwrap()
}

fn perspective() -> Camera {
    Camera::new_perspective(Viewport::new_at_origo(100, 100), v(0, 0, 10), v(0, 0, 0), v(0, 1, 0), 45, 1, 100)
        .unwrap()
}

#[test]
fn wheel_in_at_the_centre_scales_the_height_and_moves_nothing() {
    let mut camera = looking_down(10);
    let mut control = MapControl::new(1, 100);
    let mut events = vec![wheel(1, 50, 50)];
    assert!(control.handle_events(&mut camera, &mut events));
    assert_eq!(camera.projection_type(), ProjectionType::Orthographic { height: 8 });
    assert_eq!(camera.position(), v(0, 0, 10));
    assert_eq!(camera.target(), v(0, 0, 0));
    assert_eq!(camera.up(), v(0, 1, 0));
}

#[test]
fn map_control_leaves_a_perspective_camera_alone() {
    let mut camera = perspective();
    let before = camera.state();
    let mut control = MapControl::new(1, 100);
    let mut events = vec![wheel(1, 10, 10), drag(Some(MouseButton::Right), 30, 30)];
    assert!(!control.handle_events(&mut camera, &mut events));
    assert_eq!(camera.state(), before);
}

#[test]
fn bev_control_leaves_a_perspective_camera_alone() {
    let mut camera = perspective();
    let before = camera.state();
    let mut control = BevControl::new(1, 100);
    let mut events = vec![wheel(1, 10, 10), drag(Some(MouseButton::Right), 30, 30)];
    assert!(!control.handle_events(&mut camera, &mut events));
    assert_eq!(camera.state(), before);
    assert_eq!(control.ratio, PixelRatio { world_units: 0, pixels: 1 });
}

#[test]
fn an_empty_batch_changes_no_camera() {
    let mut events: Vec<Event> = Vec::new();
    for mut camera in [looking_down(10), looking_down(1), perspective()] {
        let before = camera.state();
        MapControl::new(3, 7).handle_events(&mut camera, &mut events);
        assert_eq!(camera.state(), before);
        BevControl::new(3, 7).handle_events(&mut camera, &mut events);
        assert_eq!(camera.state(), before);
    }
}

#[test]
fn right_drag_pans_against_x_and_with_y() {
    let mut camera = looking_down(10);
    let mut events = vec![drag(Some(MouseButton::Right), 20, 10)];
    assert!(MapControl::new(1, 100).handle_events(&mut camera, &mut events));
    // 10 world units on 100 pixels: 20 pixels are 2 units, 10 pixels are 1.
    assert_eq!(camera.position(), v(-2, 1, 10));
    assert_eq!(camera.target(), v(-2, 1, 0));
    assert_eq!(camera.projection_type(), ProjectionType::Orthographic { height: 10 });
    assert_eq!((camera.z_near(), camera.z_far()), (1, 100));
}

#[test]
fn a_drag_shorter_than_one_world_unit_rounds_to_nothing() {
    let mut camera = looking_down(10);
    let mut events = vec![drag(Some(MouseButton::Right), 5, -9)];
    MapControl::new(1, 100).handle_events(&mut camera, &mut events);
    assert_eq!(camera.position(), v(0, 0, 10));
    assert_eq!(camera.target(), v(0, 0, 0));
}

#[test]
fn other_buttons_and_events_do_nothing() {
    let mut camera = looking_down(10);
    let before = camera.state();
    let mut events = vec![
        drag(Some(MouseButton::Left), 20, 10),
        drag(Some(MouseButton::Middle), 20, 10),
        drag(None, 20, 10),
        Event::MousePress { button: MouseButton::Right, position: PixelPoint { x: 1, y: 1 }, modifiers: none(), handled: false },
        Event::MouseRelease { button: MouseButton::Right, position: PixelPoint { x: 1, y: 1 }, modifiers: none(), handled: false },
        Event::MouseEnter,
        Event::MouseLeave,
        Event::KeyPress { kind: Key::W, modifiers: none(), handled: false },
        Event::KeyRelease { kind: Key::W, modifiers: none(), handled: false },
        Event::ModifiersChange { modifiers: none() },
        Event::Text(String::from("w")),
    ];
    assert!(MapControl::new(1, 100).handle_events(&mut camera, &mut events));
    assert_eq!(camera.state(), before);
    assert!(BevControl::new(1, 100).handle_events(&mut camera, &mut events));
    assert_eq!(camera.state(), before);
    assert_eq!(events.len(), 11);
}

#[test]
fn zoom_sets_the_clip_distances_of_the_controller() {
    let mut camera = looking_down(10);
    let mut events = vec![wheel(-1, 50, 50)];
    MapControl::new(-3, 250).handle_events(&mut camera, &mut events);
    assert_eq!(camera.projection_type(), ProjectionType::Orthographic { height: 12 });
    assert_eq!((camera.z_near(), camera.z_far()), (-3, 250));
}

#[test]
fn a_wheel_event_that_does_not_scroll_upward_zooms_out() {
    let mut camera = looking_down(10);
    let mut events = vec![wheel(0, 50, 50)];
    MapControl::new(1, 100).handle_events(&mut camera, &mut events);
    assert_eq!(camera.projection_type(), ProjectionType::Orthographic { height: 12 });
}

#[test]
fn zoom_keeps_the_point_under_the_cursor_at_a_corner() {
    let mut camera = looking_down(10);
    let mut events = vec![wheel(1, 0, 0)];
    MapControl::new(1, 100).handle_events(&mut camera, &mut events);
    assert_eq!(camera.projection_type(), ProjectionType::Orthographic { height: 8 });
    assert_eq!(camera.position(), v(-1, -1, 10));
    assert_eq!(camera.target(), v(-1, -1, 0));
    // The corner showed x = 0 - 50 * 10/100 = -5 and shows -1 - 50 * 8/100 = -5.
    let before = 100 * 0 + (0 - 50) * 10;
    let after = 100 * -1 + (0 - 50) * 8;
    assert_eq!(before, after);
}

#[test]
fn zoom_keeps_the_point_under_the_cursor_inside_the_viewport() {
    let mut camera = looking_down(10_000);
    let mut events = vec![wheel(-1, 75, 30)];
    MapControl::new(1, 100).handle_events(&mut camera, &mut events);
    assert_eq!(camera.projection_type(), ProjectionType::Orthographic { height: 12_000 });
    assert_eq!(camera.position(), v(-500, 400, 10));
    assert_eq!(camera.target(), v(-500, 400, 0));
    // x: 0 + 25 * 100 = -500 + 25 * 120; y: 0 - 20 * 100 = 400 - 20 * 120.
    assert_eq!(0 + 25 * 100, -500 + 25 * 120);
    assert_eq!(0 - 20 * 100, 400 - 20 * 120);
}

#[test]
fn zoom_moves_the_point_under_the_cursor_by_less_than_a_world_unit() {
    for (x, y) in [(0, 0), (99, 99), (13, 77), (50, 50), (100, 0), (-40, 260)] {
        for dy in [1, -1] {
            let mut camera = looking_down(977);
            let mut events = vec![wheel(dy, x, y)];
            MapControl::new(1, 100).handle_events(&mut camera, &mut events);
            let height = match camera.projection_type() {
                ProjectionType::Orthographic { height } => height,
                ProjectionType::Perspective { .. } => panic!("the projection changed"),
            };
            assert_eq!(height, if dy > 0 { 781 } else { 1173 });
            // 200 times the world coordinate under the cursor, before and after.
            let before_x = (2 * x - 100) * 977;
            let after_x = 200 * camera.position().x + (2 * x - 100) * height;
            let before_y = (2 * y - 100) * 977;
            let after_y = 200 * camera.position().y + (2 * y - 100) * height;
            assert!((after_x - before_x).abs() < 200);
            assert!((after_y - before_y).abs() < 200);
        }
    }
}

#[test]
fn the_ratio_of_a_batch_is_the_one_at_its_start() {
    let mut camera = looking_down(10);
    let mut events = vec![wheel(1, 50, 50), wheel(1, 50, 50), drag(Some(MouseButton::Right), 20, 10)];
    MapControl::new(1, 100).handle_events(&mut camera, &mut events);
    // Both wheel events scale the height that the batch started with, and the
    // drag is measured with that height too.
    assert_eq!(camera.projection_type(), ProjectionType::Orthographic { height: 8 });
    assert_eq!(camera.position(), v(-2, 1, 10));
    let mut events = vec![wheel(1, 50, 50)];
    MapControl::new(1, 100).handle_events(&mut camera, &mut events);
    assert_eq!(camera.projection_type(), ProjectionType::Orthographic { height: 6 });
}

#[test]
fn every_zoom_step_moves_the_height() {
    let mut camera = looking_down(1);
    let mut control = MapControl::new(1, 100);
    for height in [2, 3, 4, 5, 6, 8, 10, 12, 15] {
        let mut events = vec![wheel(-1, 50, 50)];
        control.handle_events(&mut camera, &mut events);
        assert_eq!(camera.projection_type(), ProjectionType::Orthographic { height });
    }
    for height in [12, 9, 7, 5, 4, 3, 2, 1, 1] {
        let mut events = vec![wheel(1, 50, 50)];
        control.handle_events(&mut camera, &mut events);
        assert_eq!(camera.projection_type(), ProjectionType::Orthographic { height });
    }
}

#[test]
fn a_zoom_that_would_make_the_height_vanish_is_dropped() {
    let mut camera = looking_down(1);
    let before = camera.state();
    let mut events = vec![wheel(1, 10, 90)];
    assert!(MapControl::new(5, 6).handle_events(&mut camera, &mut events));
    assert_eq!(camera.state(), before);
}

#[test]
fn a_zoom_with_clip_distances_out_of_range_is_dropped() {
    let mut camera = looking_down(10);
    let before = camera.state();
    let mut events = vec![wheel(1, 0, 0)];
    MapControl::new(1, COORD_LIMIT + 1).handle_events(&mut camera, &mut events);
    assert_eq!(camera.state(), before);
}

#[test]
fn a_pan_that_would_leave_the_range_is_dropped() {
    let mut camera = Camera::new_orthographic(
        Viewport::new_at_origo(100, 100),
        v(COORD_LIMIT - 1, 0, 10),
        v(COORD_LIMIT - 1, 0, 0),
        v(0, 1, 0),
        100,
        1,
        100,
    )
    .unwrap();
    let before = camera.state();
    let mut events = vec![drag(Some(MouseButton::Right), -2, 0), drag(Some(MouseButton::Right), i64::MIN, i64::MAX)];
    MapControl::new(1, 100).handle_events(&mut camera, &mut events);
    assert_eq!(camera.state(), before);
    let mut events = vec![drag(Some(MouseButton::Right), -1, 0)];
    MapControl::new(1, 100).handle_events(&mut camera, &mut events);
    assert_eq!(camera.position(), v(COORD_LIMIT, 0, 10));
}

#[test]
fn bev_control_pans_and_zooms_like_the_map_control() {
    let batch = || vec![wheel(1, 0, 0), drag(Some(MouseButton::Right), 20, 10), wheel(-1, 75, 30)];
    let mut a = looking_down(10_000);
    let mut b = looking_down(10_000);
    let mut events = batch();
    assert!(MapControl::new(2, 50).handle_events(&mut a, &mut events));
    let mut events = batch();
    let mut bev = BevControl::new(2, 50);
    assert!(bev.handle_events(&mut b, &mut events));
    assert_eq!(a.state(), b.state());
    assert_eq!(bev.ratio, PixelRatio { world_units: 10_000, pixels: 100 });
    assert_eq!((bev.min_distance, bev.max_distance), (2, 50));
    // wheel in at the corner: height 8000, shift (-1000, -1000);
    // drag: (-2000, 1000); wheel out from the starting height at (75, 30): height
    // 12000, shift (-500, 400).
    assert_eq!(b.position(), v(-3500, 400, 10));
    assert_eq!(b.projection_type(), ProjectionType::Orthographic { height: 12_000 });
}

#[test]
fn single_steps_match_the_batch() {
    let mut camera = looking_down(10);
    pan_camera(&mut camera, 10, PixelDelta { x: 20, y: 10 });
    assert_eq!(camera.position(), v(-2, 1, 10));
    zoom_camera(&mut camera, 10, PixelPoint { x: 0, y: 0 }, true, 1, 100);
    assert_eq!(camera.position(), v(-3, 0, 10));
    assert_eq!(camera.projection_type(), ProjectionType::Orthographic { height: 8 });
    apply_event(&mut camera, 8, 1, 100, &drag(Some(MouseButton::Right), -25, 0));
    assert_eq!(camera.position(), v(-1, 0, 10));
}
