//! Tests of the scene description: its invariant, the initial scene, and the
//! camera operations that mutate it.

use raymarch_core::fixed::SCALE;
use raymarch_core::scene::MAX_SHAPES;
use raymarch_core::scene::SceneDescription;
use raymarch_core::scene::Shape;
use raymarch_core::scene::ShapeKind;
use raymarch_core::scene::initial_scene;
use raymarch_core::vec3::Vec3;

/// A well-formed scene with the camera somewhere specific, for tests that
/// need a state the initial scene does not provide.
fn scene_with_camera(cam: Vec3, look: Vec3) -> SceneDescription {
    let mut s = initial_scene();
    s.camera_pos = cam;
    s.look_at = look;
    s
}

#[test]
fn initial_scene_is_within_capacity() {
    let s = initial_scene();
    assert_eq!(s.shapes.len(), MAX_SHAPES);
    assert!(s.shape_count as usize <= MAX_SHAPES);
    assert_eq!(s.shape_count, 3);
    for i in 3..MAX_SHAPES {
        assert_eq!(s.shapes[i], Shape::default());
    }
}

#[test]
fn initial_scene_shapes() {
    let s = initial_scene();
    assert_eq!(s.camera_pos, Vec3 { x: 0, y: 0, z: 10 * SCALE });
    assert_eq!(s.look_at, Vec3 { x: 0, y: 0, z: 0 });
    assert_eq!(s.canvas_dist, 10 * SCALE);
    assert_eq!(s.point_light, Vec3 { x: 0, y: 100 * SCALE, z: 200 * SCALE });
    assert_eq!(s.light_colour, Vec3 { x: SCALE, y: SCALE, z: SCALE });
    assert_eq!(s.shapes[0].kind, ShapeKind::Mandelbulb);
    assert_eq!(s.shapes[0].size, Vec3 { x: 600_000, y: 600_000, z: 600_000 });
    assert_eq!(s.shapes[1].kind, ShapeKind::Sphere);
    assert_eq!(s.shapes[1].position, Vec3 { x: 1_600_000, y: 0, z: 0 });
    assert_eq!(s.shapes[2].kind, ShapeKind::Sphere);
    assert_eq!(
        s.shapes[2].position,
        Vec3 { x: -1_200_000, y: 500_000, z: -400_000 }
    );
}

#[test]
fn dolly_forward_one_unit_step() {
    // camera at (0, 0, 10) looking at the origin; one forward unit step moves
    // both points by (0, 0, -1)
    let mut s = initial_scene();
    s.dolly(SCALE);
    assert_eq!(s.camera_pos, Vec3 { x: 0, y: 0, z: 9 * SCALE });
    assert_eq!(s.look_at, Vec3 { x: 0, y: 0, z: -SCALE });
}

#[test]
fn dolly_preserves_the_offset() {
    let mut s = scene_with_camera(
        Vec3 { x: 3 * SCALE, y: -2 * SCALE, z: 7 * SCALE },
        Vec3 { x: -SCALE, y: 0, z: 500_000 },
    );
    let before = s.look_at.minus(s.camera_pos);
    s.dolly(SCALE);
    let after = s.look_at.minus(s.camera_pos);
    assert_eq!(before, after);
    s.dolly(-300_000);
    assert_eq!(s.look_at.minus(s.camera_pos), before);
}

#[test]
fn strafe_moves_sideways_and_preserves_the_offset() {
    let mut s = initial_scene();
    s.strafe(100_000);
    assert_eq!(s.camera_pos, Vec3 { x: -100_000, y: 0, z: 10 * SCALE });
    assert_eq!(s.look_at, Vec3 { x: -100_000, y: 0, z: 0 });
    assert_eq!(
        s.look_at.minus(s.camera_pos),
        Vec3 { x: 0, y: 0, z: -10 * SCALE }
    );
}

#[test]
fn strafe_is_ignored_looking_straight_up() {
    let mut s = scene_with_camera(
        Vec3 { x: 0, y: 0, z: 0 },
        Vec3 { x: 0, y: 5 * SCALE, z: 0 },
    );
    s.strafe(100_000);
    assert_eq!(s.camera_pos, Vec3 { x: 0, y: 0, z: 0 });
    assert_eq!(s.look_at, Vec3 { x: 0, y: 5 * SCALE, z: 0 });
}

#[test]
fn vertical_moves_both_points_along_world_up() {
    let mut s = initial_scene();
    s.vertical(100_000);
    assert_eq!(s.camera_pos, Vec3 { x: 0, y: 100_000, z: 10 * SCALE });
    assert_eq!(s.look_at, Vec3 { x: 0, y: 100_000, z: 0 });
    s.vertical(-100_000);
    assert_eq!(s.camera_pos, Vec3 { x: 0, y: 0, z: 10 * SCALE });
    assert_eq!(s.look_at, Vec3 { x: 0, y: 0, z: 0 });
}

#[test]
fn camera_operations_leave_the_shapes_alone() {
    let mut s = initial_scene();
    let shapes_before: Vec<Shape> = s.shapes.clone();
    let count_before = s.shape_count;
    s.dolly(SCALE);
    s.strafe(100_000);
    s.vertical(-100_000);
    s.apply_orbit_offset(Vec3 { x: SCALE, y: 0, z: SCALE });
    assert_eq!(s.shapes, shapes_before);
    assert_eq!(s.shape_count, count_before);
    assert!(s.shape_count as usize <= s.shapes.len());
}

#[test]
fn orbit_offset_repoints_the_look_at() {
    let mut s = initial_scene();
    s.apply_orbit_offset(Vec3 { x: 2 * SCALE, y: SCALE, z: 0 });
    assert_eq!(s.camera_pos, Vec3 { x: 0, y: 0, z: 10 * SCALE });
    assert_eq!(s.look_at, Vec3 { x: 2 * SCALE, y: SCALE, z: 10 * SCALE });
}

#[test]
fn zero_orbit_offset_is_ignored() {
    let mut s = initial_scene();
    s.apply_orbit_offset(Vec3 { x: 0, y: 0, z: 0 });
    assert_eq!(s.look_at, Vec3 { x: 0, y: 0, z: 0 });
    assert_ne!(s.camera_pos, s.look_at);
}

#[test]
fn shape_kinds_encode_for_the_gpu_record() {
    assert_eq!(ShapeKind::Empty.code(), 0);
    assert_eq!(ShapeKind::Sphere.code(), 1);
    assert_eq!(ShapeKind::WobblySphere.code(), 2);
    assert_eq!(ShapeKind::Mandelbulb.code(), 3);
}

#[test]
fn default_shape_is_zeroed() {
    let s = Shape::default();
    assert_eq!(s.position, Vec3 { x: 0, y: 0, z: 0 });
    assert_eq!(s.size, Vec3 { x: 0, y: 0, z: 0 });
    assert_eq!(s.albedo, Vec3 { x: 0, y: 0, z: 0 });
    assert_eq!(s.kind, ShapeKind::Empty);
}
