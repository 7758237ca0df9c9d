use scene_control::camera::{
    check_projection, check_state, check_view, in_range, Camera, CameraError, CameraState,
    ProjectionType, Viewport, COORD_LIMIT,
};
use scene_control::vector::{Vec3, Wide3};

fn v(x: i64, y: i64, z: i64) -> Vec3 {
    Vec3::new(x, y, z)
}

fn ortho() -> Camera {
    Camera::new_orthographic(Viewport::new_at_origo(100, 100), v(0, 0, 10), v(0, 0, 0), v(0, 1, 0), 10, 1, 100)
        .unwrap()
}

#[test]
fn constructors_keep_what_they_are_given() {
    let camera = ortho();
    assert_eq!(camera.position(), v(0, 0, 10));
    assert_eq!(camera.target(), v(0, 0, 0));
    assert_eq!(camera.up(), v(0, 1, 0));
    assert_eq!(camera.viewport(), Viewport { x: 0, y: 0, width: 100, height: 100 });
    assert_eq!(camera.projection_type(), ProjectionType::Orthographic { height: 10 });
    assert_eq!(camera.z_near(), 1);
    assert_eq!(camera.z_far(), 100);
    let p = Camera::new_perspective(Viewport::new_at_origo(4, 3), v(1, 2, 3), v(4, 5, 6), v(0, 0, 1), 45, 1, 50)
        .unwrap();
    assert_eq!(p.projection_type(), ProjectionType::Perspective { field_of_view_y: 45 });
    assert_eq!(
        p.state(),
        CameraState {
            viewport: Viewport { x: 0, y: 0, width: 4, height: 3 },
            projection: ProjectionType::Perspective { field_of_view_y: 45 },
            z_near: 1,
            z_far: 50,
            position: v(1, 2, 3),
            target: v(4, 5, 6),
            up: v(0, 0, 1),
        }
    );
}

#[test]
fn constructors_name_the_first_fault() {
    let vp = Viewport::new_at_origo(100, 100);
    let e = |r: Result<Camera, CameraError>| r.err();
    assert_eq!(
        e(Camera::new_orthographic(Viewport::new_at_origo(0, 100), v(0, 0, 10), v(0, 0, 0), v(0, 1, 0), 10, 1, 100)),
        Some(CameraError::EmptyViewport)
    );
    assert_eq!(
        e(Camera::new_orthographic(Viewport::new_at_origo(100, 0), v(0, 0, 10), v(0, 0, 10), v(0, 1, 0), 0, 1, 100)),
        Some(CameraError::EmptyViewport)
    );
    assert_eq!(
        e(Camera::new_orthographic(vp, v(0, 0, COORD_LIMIT + 1), v(0, 0, 0), v(0, 1, 0), 10, 1, 100)),
        Some(CameraError::OutOfRange)
    );
    assert_eq!(
        e(Camera::new_orthographic(vp, v(1, 1, 1), v(1, 1, 1), v(0, 1, 0), 10, 1, 100)),
        Some(CameraError::DegenerateView)
    );
    assert_eq!(
        e(Camera::new_orthographic(vp, v(0, 0, 10), v(0, 0, 0), v(0, 0, -3), 10, 1, 100)),
        Some(CameraError::ParallelUp)
    );
    assert_eq!(
        e(Camera::new_orthographic(vp, v(0, 0, 10), v(0, 0, 0), v(0, 0, 0), 10, 1, 100)),
        Some(CameraError::ParallelUp)
    );
    assert_eq!(
        e(Camera::new_orthographic(vp, v(0, 0, 10), v(0, 0, 0), v(0, 1, 0), 0, 1, 100)),
        Some(CameraError::InvalidProjection)
    );
    assert_eq!(
        e(Camera::new_perspective(vp, v(0, 0, 10), v(0, 0, 0), v(0, 1, 0), 45, 0, 100)),
        Some(CameraError::InvalidProjection)
    );
    assert_eq!(
        e(Camera::new_perspective(vp, v(0, 0, 10), v(0, 0, 0), v(0, 1, 0), 45, 5, 5)),
        Some(CameraError::InvalidProjection)
    );
    assert_eq!(
        e(Camera::new_perspective(vp, v(0, 0, 10), v(0, 0, 0), v(0, 1, 0), 180, 1, 100)),
        Some(CameraError::InvalidProjection)
    );
}

#[test]
fn orthographic_clip_distances_may_come_in_any_order() {
    let vp = Viewport::new_at_origo(100, 100);
    let camera = Camera::new_orthographic(vp, v(0, 0, 10), v(0, 0, 0), v(0, 1, 0), 10, 100, -5).unwrap();
    assert_eq!(camera.z_near(), 100);
    assert_eq!(camera.z_far(), -5);
}

#[test]
fn set_view_takes_a_valid_view() {
    let mut camera = ortho();
    assert_eq!(camera.set_view(v(1, 2, 3), v(4, 5, 6), v(0, 0, 7)), Ok(()));
    assert_eq!(camera.position(), v(1, 2, 3));
    assert_eq!(camera.target(), v(4, 5, 6));
    assert_eq!(camera.up(), v(0, 0, 7));
    assert_eq!(camera.projection_type(), ProjectionType::Orthographic { height: 10 });
    assert_eq!(camera.z_near(), 1);
    assert_eq!(camera.z_far(), 100);
}

#[test]
fn set_view_refuses_a_target_at_the_position() {
    let mut camera = ortho();
    assert_eq!(camera.set_view(v(1, 2, 3), v(1, 2, 3), v(0, 1, 0)), Err(CameraError::DegenerateView));
    assert_eq!(camera.position(), v(0, 0, 10));
    assert_eq!(camera.target(), v(0, 0, 0));
    assert_eq!(camera.projection_type(), ProjectionType::Orthographic { height: 10 });
}

#[test]
fn set_view_refuses_a_parallel_up_vector() {
    let mut camera = ortho();
    assert_eq!(camera.set_view(v(0, 0, 0), v(2, 4, 6), v(-1, -2, -3)), Err(CameraError::ParallelUp));
    assert_eq!(camera.set_view(v(0, 0, 0), v(2, 4, 6), v(0, 0, 0)), Err(CameraError::ParallelUp));
    assert_eq!(camera.state(), ortho().state());
}

#[test]
fn set_view_refuses_what_is_out_of_range() {
    let mut camera = ortho();
    assert_eq!(camera.set_view(v(0, -COORD_LIMIT - 1, 0), v(0, 0, 0), v(0, 0, 1)), Err(CameraError::OutOfRange));
    assert_eq!(camera.set_view(v(0, 0, 0), v(i64::MAX, 0, 0), v(0, 0, 1)), Err(CameraError::OutOfRange));
    assert_eq!(camera.set_view(v(0, 0, 0), v(1, 0, 0), v(0, 0, i64::MIN)), Err(CameraError::OutOfRange));
    assert_eq!(camera.state(), ortho().state());
    assert_eq!(camera.set_view(v(COORD_LIMIT, 0, 0), v(-COORD_LIMIT, 0, 0), v(0, 0, 1)), Ok(()));
}

#[test]
fn after_any_sequence_of_set_view_calls_the_view_is_defined() {
    let mut camera = ortho();
    let attempts = [
        (v(0, 0, 0), v(0, 0, 0), v(0, 1, 0)),
        (v(5, 5, 5), v(6, 6, 6), v(1, 1, 1)),
        (v(5, 5, 5), v(6, 6, 6), v(1, 0, 0)),
        (v(1, 0, 0), v(1, 0, 0), v(0, 0, 1)),
        (v(0, 0, 1), v(0, 0, 2), v(0, 0, 9)),
        (v(-3, 2, 1), v(4, 4, 4), v(0, 1, 0)),
    ];
    for (position, target, up) in attempts {
        let _ = camera.set_view(position, target, up);
        assert_ne!(camera.target(), camera.position());
        let direction = camera.target().minus(camera.position());
        assert_ne!(camera.up().widen().cross(direction), Wide3 { x: 0, y: 0, z: 0 });
    }
    assert_eq!(camera.position(), v(-3, 2, 1));
}

#[test]
fn projection_setters_take_or_refuse_as_a_whole() {
    let mut camera = ortho();
    assert_eq!(camera.set_perspective_projection(60, 2, 200), Ok(()));
    assert_eq!(camera.projection_type(), ProjectionType::Perspective { field_of_view_y: 60 });
    assert_eq!((camera.z_near(), camera.z_far()), (2, 200));
    assert_eq!(camera.set_perspective_projection(60, 200, 2), Err(CameraError::InvalidProjection));
    assert_eq!(camera.set_perspective_projection(0, 2, 200), Err(CameraError::InvalidProjection));
    assert_eq!((camera.z_near(), camera.z_far()), (2, 200));
    assert_eq!(camera.set_orthographic_projection(7, -1, 3), Ok(()));
    assert_eq!(camera.projection_type(), ProjectionType::Orthographic { height: 7 });
    assert_eq!((camera.z_near(), camera.z_far()), (-1, 3));
    assert_eq!(camera.set_orthographic_projection(0, -1, 3), Err(CameraError::InvalidProjection));
    assert_eq!(camera.set_orthographic_projection(-4, -1, 3), Err(CameraError::InvalidProjection));
    assert_eq!(camera.set_orthographic_projection(7, -1, COORD_LIMIT + 1), Err(CameraError::InvalidProjection));
    assert_eq!(camera.projection_type(), ProjectionType::Orthographic { height: 7 });
    assert_eq!(camera.position(), v(0, 0, 10));
}

#[test]
fn viewport_setter_refuses_an_empty_viewport() {
    let mut camera = ortho();
    assert_eq!(camera.set_viewport(Viewport { x: 3, y: 4, width: 640, height: 480 }), Ok(()));
    assert_eq!(camera.viewport(), Viewport { x: 3, y: 4, width: 640, height: 480 });
    assert_eq!(camera.set_viewport(Viewport::new_at_origo(0, 480)), Err(CameraError::EmptyViewport));
    assert_eq!(camera.set_viewport(Viewport::new_at_origo(640, 0)), Err(CameraError::EmptyViewport));
    assert_eq!(camera.viewport(), Viewport { x: 3, y: 4, width: 640, height: 480 });
}

#[test]
fn replace_takes_only_valid_states() {
    let mut camera = ortho();
    let mut s = camera.state();
    s.position = v(7, 7, 7);
    assert_eq!(camera.replace(s), Ok(()));
    assert_eq!(camera.position(), v(7, 7, 7));
    s.target = v(7, 7, 7);
    assert_eq!(camera.replace(s), Err(CameraError::DegenerateView));
    assert_eq!(camera.target(), v(0, 0, 0));
    assert!(Camera::from_state(s).is_err());
    s.target = v(0, 0, 0);
    assert_eq!(Camera::from_state(s).unwrap().state(), s);
}

#[test]
fn view_vector_and_distance() {
    let mut camera = ortho();
    assert_eq!(camera.view_vector(), Wide3 { x: 0, y: 0, z: -10 });
    assert_eq!(camera.distance_to_target(), 10);
    assert_eq!(camera.right_vector(), Wide3 { x: -10, y: 0, z: 0 });
    camera.set_view(v(1, 1, 1), v(4, 5, 1), v(0, 0, 1)).unwrap();
    assert_eq!(camera.view_vector(), Wide3 { x: 3, y: 4, z: 0 });
    assert_eq!(camera.right_vector(), Wide3 { x: -4, y: 3, z: 0 });
    assert_eq!(camera.distance_to_target(), 5);
    camera.set_view(v(0, 0, 0), v(1, 1, 1), v(0, 0, 1)).unwrap();
    assert_eq!(camera.distance_to_target(), 1);
    camera.set_view(v(COORD_LIMIT, COORD_LIMIT, COORD_LIMIT), v(-COORD_LIMIT, -COORD_LIMIT, -COORD_LIMIT), v(0, 0, 1))
        .unwrap();
    // 2^31 * sqrt(3), rounded down.
    assert_eq!(camera.distance_to_target(), 3_719_550_786);
}

#[test]
fn checks_agree_with_the_constructors() {
    assert_eq!(check_view(v(0, 0, 1), v(0, 0, 0), v(0, 1, 0)), None);
    assert_eq!(check_view(v(0, 0, 1), v(0, 0, 1), v(0, 1, 0)), Some(CameraError::DegenerateView));
    assert!(in_range(v(COORD_LIMIT, -COORD_LIMIT, 0)));
    assert!(!in_range(v(COORD_LIMIT + 1, 0, 0)));
    assert!(check_projection(ProjectionType::Orthographic { height: 1 }, 5, -5));
    assert!(!check_projection(ProjectionType::Orthographic { height: COORD_LIMIT + 1 }, 5, -5));
    assert!(check_projection(ProjectionType::Perspective { field_of_view_y: 179 }, 1, 2));
    assert!(!check_projection(ProjectionType::Perspective { field_of_view_y: 179 }, -1, 2));
    assert_eq!(check_state(ortho().state()), None);
}
