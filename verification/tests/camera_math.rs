//! Tests of the fixed-point camera mathematics: wraparound, orbit steps,
//! quadrant selection, degenerate-input substitution, pointer projection and
//! the drag state machine.

use raymarch_core::camera::DragTracker;
use raymarch_core::camera::PhiBranch;
use raymarch_core::camera::Spherical;
use raymarch_core::camera::TWO_PI_FX;
use raymarch_core::camera::looparound;
use raymarch_core::camera::phi_branch;
use raymarch_core::camera::resolve_components;
use raymarch_core::camera::to_camera_space;
use raymarch_core::fixed::SCALE;
use raymarch_core::fixed::isqrt;
use raymarch_core::fixed::mul_fx;
use raymarch_core::vec3::Vec3;

#[test]
fn looparound_keeps_in_range_values() {
    assert_eq!(looparound(3_000_000, 0, TWO_PI_FX), 3_000_000);
    assert_eq!(looparound(0, 0, TWO_PI_FX), 0);
    assert_eq!(looparound(-500_000, -1_000_000, 1_000_000), -500_000);
}

#[test]
fn looparound_wraps_values_below_the_range() {
    assert_eq!(looparound(-1_000_000, 0, TWO_PI_FX), TWO_PI_FX - 1_000_000);
    let r: i64 = looparound(-1, 0, TWO_PI_FX);
    assert!(0 <= r && r < TWO_PI_FX);
}

#[test]
fn looparound_wraps_values_above_the_range() {
    assert_eq!(looparound(TWO_PI_FX + 500_000, 0, TWO_PI_FX), 500_000);
    let r: i64 = looparound(TWO_PI_FX + 1, 0, TWO_PI_FX);
    assert!(0 <= r && r < TWO_PI_FX);
}

#[test]
fn looparound_maps_the_upper_bound_to_the_lower() {
    assert_eq!(looparound(TWO_PI_FX, 0, TWO_PI_FX), 0);
    assert_eq!(looparound(1_000_000, -1_000_000, 1_000_000), -1_000_000);
}

#[test]
fn looparound_wraps_values_many_widths_out() {
    assert_eq!(looparound(-10, 0, 5), 0);
    assert_eq!(looparound(3 * TWO_PI_FX + 7, 0, TWO_PI_FX), 7);
    assert_eq!(looparound(-2 * TWO_PI_FX - 1, 0, TWO_PI_FX), TWO_PI_FX - 1);
    let r: i64 = looparound(-3_999_999_999_999, 0, TWO_PI_FX);
    assert!(0 <= r && r < TWO_PI_FX);
}

#[test]
fn cross_products_follow_the_right_hand_rule() {
    let x_axis = Vec3 { x: SCALE, y: 0, z: 0 };
    let y_axis = Vec3 { x: 0, y: SCALE, z: 0 };
    let z_axis = Vec3 { x: 0, y: 0, z: SCALE };
    assert_eq!(x_axis.crossed(y_axis), z_axis);
    assert_eq!(y_axis.crossed(x_axis), Vec3 { x: 0, y: 0, z: -SCALE });
    assert_eq!(x_axis.crossed(x_axis), Vec3 { x: 0, y: 0, z: 0 });
}

#[test]
fn orbit_step_preserves_the_radius() {
    let s = Spherical { r: 123_456_789, theta: 1_000_000, phi: 6_000_000 };
    let t = s.orbit_step(500_000, 500_000);
    assert_eq!(t.r, 123_456_789);
    assert_eq!(t.theta, 1_500_000);
    assert_eq!(t.phi, 6_500_000 - TWO_PI_FX);
}

#[test]
fn orbit_step_wraps_negative_angles() {
    let s = Spherical { r: 5_000_000, theta: 100_000, phi: 0 };
    let t = s.orbit_step(-300_000, -1);
    assert_eq!(t.r, 5_000_000);
    assert_eq!(t.theta, TWO_PI_FX - 200_000);
    assert_eq!(t.phi, TWO_PI_FX - 1);
}

#[test]
fn phi_branch_covers_the_four_quadrants() {
    assert_eq!(phi_branch(1, 7), PhiBranch::Atan);
    assert_eq!(phi_branch(1, -7), PhiBranch::Atan);
    assert_eq!(phi_branch(-1, 7), PhiBranch::AtanPlusPi);
    assert_eq!(phi_branch(-1, 0), PhiBranch::AtanPlusPi);
    assert_eq!(phi_branch(-1, -7), PhiBranch::AtanMinusPi);
}

#[test]
fn phi_branch_defines_the_vertical_plane_by_the_sign_of_y() {
    assert_eq!(phi_branch(0, 3), PhiBranch::PosHalfPi);
    assert_eq!(phi_branch(0, -3), PhiBranch::NegHalfPi);
}

#[test]
fn phi_branch_is_undefined_only_on_the_axis() {
    assert_eq!(phi_branch(0, 0), PhiBranch::Undefined);
    assert_ne!(phi_branch(0, 1), PhiBranch::Undefined);
    assert_ne!(phi_branch(1, 0), PhiBranch::Undefined);
}

#[test]
fn undefined_components_become_zero() {
    let v = resolve_components(None, Some(5), None);
    assert_eq!(v, Vec3 { x: 0, y: 5, z: 0 });
    let w = resolve_components(Some(-3), None, Some(9));
    assert_eq!(w, Vec3 { x: -3, y: 0, z: 9 });
}

#[test]
fn drag_tracker_emits_one_tick_deltas() {
    let mut t = DragTracker::new();
    assert!(!t.dragging);
    // button pressed: no delta yet, but the sample is retained
    assert!(!t.observe(true, Some((10, 20))));
    assert!(t.dragging);
    assert_eq!((t.prev_x, t.prev_y), (10, 20));
    // held: this tick contributes a delta
    assert!(t.observe(true, Some((30, 40))));
    assert_eq!((t.prev_x, t.prev_y), (30, 40));
    // released with no pointer sample: no delta, sample kept
    assert!(!t.observe(false, None));
    assert!(!t.dragging);
    assert_eq!((t.prev_x, t.prev_y), (30, 40));
}

#[test]
fn pointer_center_projects_onto_the_look_at_point() {
    let cam = Vec3 { x: 0, y: 0, z: 10_000_000 };
    let look = Vec3 { x: 0, y: 0, z: 0 };
    // the window center, in fixed-point pixel coordinates
    let p = to_camera_space(512 * SCALE, 512 * SCALE, cam, look, 10 * SCALE);
    assert_eq!(p, Some(Vec3 { x: 0, y: 0, z: 0 }));
}

#[test]
fn pointer_projection_degenerates_looking_along_world_up() {
    let cam = Vec3 { x: 0, y: 0, z: 0 };
    let look = Vec3 { x: 0, y: 5_000_000, z: 0 };
    let p = to_camera_space(512 * SCALE, 512 * SCALE, cam, look, 10 * SCALE);
    assert_eq!(p, None);
}

#[test]
fn fixed_point_products_truncate_toward_zero() {
    assert_eq!(mul_fx(1_500_000, 2_000_000), 3_000_000);
    assert_eq!(mul_fx(-1_500_000, 2_000_000), -3_000_000);
    assert_eq!(mul_fx(1, 1), 0);
    assert_eq!(mul_fx(-1_999_999, 1), -1);
}

#[test]
fn integer_square_roots_round_down() {
    assert_eq!(isqrt(0), 0);
    assert_eq!(isqrt(1), 1);
    assert_eq!(isqrt(99), 9);
    assert_eq!(isqrt(100), 10);
    assert_eq!(isqrt(100_000_000_000_000), 10_000_000);
}

#[test]
fn unit_vectors_have_unit_components() {
    let v = Vec3 { x: 1_000_000, y: 2_000_000, z: 2_000_000 };
    let u = v.unit();
    assert_eq!(u, Vec3 { x: 333_333, y: 666_666, z: 666_666 });
    let w = Vec3 { x: 0, y: 0, z: -10_000_000 };
    assert_eq!(w.unit(), Vec3 { x: 0, y: 0, z: -1_000_000 });
}
