use orrery::angle::{advance_angle, turn_fraction};
use orrery::geometry::{scale_length, UnitPoint, Vec3, LENGTH_ONE, UNIT};
use orrery::params::{ParamStore, Params, DEFAULT_PRIMARY_RADIUS, DEFAULT_SECONDARY_RADIUS, SCALE_ONE};
use orrery::scene::{
    EllipticalOrbit, Scene, CENTER_SPIN, ORBITING_SPIN, ORBITING_TILT, PRIMARY_ORBIT_SPEED,
    SATELLITE_SPIN, SECONDARY_ORBIT_SPEED, TURN_PER_SECOND,
};

const TURN: f64 = 18446744073709551616.0;

fn unit_point(theta: f64) -> UnitPoint {
    UnitPoint {
        cos: (theta.cos() * UNIT as f64).round() as i64,
        sin: (theta.sin() * UNIT as f64).round() as i64,
    }
}

fn radians(angle: u64) -> f64 {
    angle as f64 / TURN * 2.0 * std::f64::consts::PI
}

fn expected_angle(start: u64, speed: i64, scale: u32, dt: u64) -> u64 {
    let rate = (speed as i128 * scale as i128) as u64;
    start.wrapping_add(rate.wrapping_mul(dt))
}

fn no_point() -> UnitPoint {
    UnitPoint { cos: UNIT, sin: 0 }
}

#[test]
fn default_params_values() {
    let p = Params::default();
    assert_eq!(p.orbit_speed_scale, SCALE_ONE);
    assert_eq!(p.spin_speed_scale, SCALE_ONE);
    assert_eq!(p.primary_orbit_radius, 3 * LENGTH_ONE);
    assert_eq!(p.secondary_orbit_radius, 900_000);
    assert_eq!(DEFAULT_PRIMARY_RADIUS, 3_000_000);
    assert_eq!(DEFAULT_SECONDARY_RADIUS, 900_000);
    assert!(!p.elliptical_mode_enabled);
}

#[test]
fn new_scene_layout() {
    let p = Params::default();
    let s = Scene::new(&p);
    assert_eq!(s.orbiting.transform.translation, Vec3::new(3_000_000, 0, 0));
    assert_eq!(s.satellite.transform.translation, Vec3::new(900_000, 0, 0));
    assert_eq!(s.orbiting.transform.tilt, ORBITING_TILT);
    assert_eq!(s.center.spin.angular_speed, CENTER_SPIN);
    assert_eq!(s.orbiting.spin.angular_speed, ORBITING_SPIN);
    assert_eq!(s.satellite.spin.angular_speed, SATELLITE_SPIN);
    assert_eq!(s.orbit_pivot.orbit.angular_speed, PRIMARY_ORBIT_SPEED);
    assert_eq!(s.sub_orbit_pivot.orbit.angular_speed, SECONDARY_ORBIT_SPEED);
    assert_eq!(s.orbit_pivot.transform.yaw, 0);
    assert_eq!(s.ellipse, Some(EllipticalOrbit::preset()));
    let e = s.ellipse.unwrap();
    assert_eq!((e.semi_major, e.semi_minor, e.angular_speed, e.theta), (3_200_000, 2_600_000, PRIMARY_ORBIT_SPEED, 0));
}

#[test]
fn speed_constants_match_radians() {
    let turn_per_s = |speed: i64| speed as f64 / TURN_PER_SECOND as f64;
    let two_pi = 2.0 * std::f64::consts::PI;
    assert!((turn_per_s(PRIMARY_ORBIT_SPEED) * two_pi - std::f64::consts::PI / 10.0).abs() < 1e-9);
    assert!((turn_per_s(ORBITING_SPIN) * two_pi - two_pi).abs() < 1e-9);
    assert!((turn_per_s(SECONDARY_ORBIT_SPEED) * two_pi - 3.0 * std::f64::consts::PI).abs() < 1e-9);
    assert!((turn_per_s(CENTER_SPIN) * two_pi - 0.2).abs() < 1e-9);
    assert!((turn_per_s(SATELLITE_SPIN) * two_pi - 0.3 * std::f64::consts::PI).abs() < 1e-9);
}

#[test]
fn advance_angle_exact_values() {
    assert_eq!(advance_angle(0, 1, 1, 5), 5);
    assert_eq!(advance_angle(10, 3, 2, 4), 34);
    assert_eq!(advance_angle(0, -1, 1, 1), u64::MAX);
    assert_eq!(advance_angle(u64::MAX, 1, 1, 1), 0);
    assert_eq!(advance_angle(7, 5, 0, 1000), 7);
    assert_eq!(advance_angle(7, 5, 3, 0), 7);
    assert_eq!(advance_angle(0, i64::MIN, 2, 1), 0);
}

#[test]
fn scale_length_exact_values() {
    assert_eq!(scale_length(2_000_000, UNIT / 2), 1_000_000);
    assert_eq!(scale_length(3, -UNIT / 2), -1);
    assert_eq!(scale_length(3, UNIT / 2), 1);
    assert_eq!(scale_length(5, UNIT), 5);
    assert_eq!(scale_length(5, -UNIT), -5);
    assert_eq!(scale_length(5, 0), 0);
}

#[test]
fn store_tracks_changes() {
    let mut store = ParamStore::new(Params::default());
    assert!(store.is_changed());
    assert!(store.take_changed());
    assert!(!store.is_changed());
    assert!(!store.take_changed());
    store.set_orbit_speed_scale(250);
    assert!(store.is_changed());
    assert_eq!(store.snapshot().orbit_speed_scale, 250);
    store.take_changed();
    store.set_spin_speed_scale(0);
    assert!(store.take_changed());
    store.set_primary_orbit_radius(5_000_000);
    assert!(store.take_changed());
    store.set_secondary_orbit_radius(200_000);
    assert!(store.take_changed());
    let p = store.snapshot();
    assert_eq!(p.spin_speed_scale, 0);
    assert_eq!(p.primary_orbit_radius, 5_000_000);
    assert_eq!(p.secondary_orbit_radius, 200_000);
}

#[test]
fn mode_switch_keeps_other_params() {
    let mut store = ParamStore::new(Params::default());
    store.set_orbit_speed_scale(420);
    store.set_primary_orbit_radius(7_500_000);
    let mut scene = Scene::new(&store.snapshot());
    for _ in 0..5 {
        scene.run_frame(&mut store, 16_667, no_point());
    }
    let before = store.snapshot();
    store.set_elliptical_mode_enabled(true);
    let after = store.snapshot();
    assert!(after.elliptical_mode_enabled);
    assert_eq!(after.orbit_speed_scale, before.orbit_speed_scale);
    assert_eq!(after.spin_speed_scale, before.spin_speed_scale);
    assert_eq!(after.primary_orbit_radius, before.primary_orbit_radius);
    assert_eq!(after.secondary_orbit_radius, before.secondary_orbit_radius);
    scene.run_frame(&mut store, 16_667, no_point());
    assert_eq!(Params { elliptical_mode_enabled: false, ..store.snapshot() }, before);
}

#[test]
fn zero_dt_is_a_no_op() {
    let p = Params::default();
    let mut s = Scene::new(&p);
    s.animate_orbits(&p, 1_000);
    s.spin_bodies(&p, 1_000);
    let before = s;
    s.animate_orbits(&p, 0);
    s.spin_bodies(&p, 0);
    assert_eq!(s, before);
}

#[test]
fn rotation_is_time_additive() {
    let mut p = Params::default();
    p.orbit_speed_scale = 237;
    p.spin_speed_scale = 45;
    let mut stepped = Scene::new(&p);
    let mut once = stepped;
    let dts: [u64; 6] = [16_667, 0, 1, 33_333, 250_000, 7];
    let mut sum: u64 = 0;
    for dt in dts {
        stepped.animate_orbits(&p, dt);
        stepped.spin_bodies(&p, dt);
        sum += dt;
    }
    once.animate_orbits(&p, sum);
    once.spin_bodies(&p, sum);
    assert_eq!(stepped, once);
    assert_eq!(
        once.orbit_pivot.transform.yaw,
        expected_angle(0, PRIMARY_ORBIT_SPEED, 237, sum)
    );
    assert_ne!(once.orbit_pivot.transform.yaw, 0);
}

#[test]
fn reverse_speed_turns_backwards() {
    let p = Params::default();
    let mut s = Scene::new(&p);
    s.orbit_pivot.orbit.angular_speed = -PRIMARY_ORBIT_SPEED;
    s.animate_orbits(&p, 1_000_000);
    let mut fwd = Scene::new(&p);
    fwd.animate_orbits(&p, 1_000_000);
    assert_eq!(s.orbit_pivot.transform.yaw.wrapping_add(fwd.orbit_pivot.transform.yaw), 0);
}

#[test]
fn zero_orbit_scale_freezes_pivots() {
    let mut store = ParamStore::new(Params::default());
    store.set_orbit_speed_scale(0);
    let mut s = Scene::new(&store.snapshot());
    s.animate_orbits(&store.snapshot(), 123_456);
    let pivot = s.orbit_pivot;
    let sub = s.sub_orbit_pivot;
    let spin = s.orbiting.transform.yaw;
    for i in 0..200u64 {
        s.run_frame(&mut store, 16_667 + i, no_point());
        assert_eq!(s.orbit_pivot, pivot);
        assert_eq!(s.sub_orbit_pivot, sub);
    }
    assert_ne!(s.orbiting.transform.yaw, spin);
}

#[test]
fn theta_frozen_while_circular() {
    let mut store = ParamStore::new(Params::default());
    store.set_elliptical_mode_enabled(true);
    let mut s = Scene::new(&store.snapshot());
    for _ in 0..10 {
        let theta = s.next_theta(&store.snapshot(), 16_667).unwrap();
        s.run_frame(&mut store, 16_667, unit_point(radians(turn_fraction(theta))));
    }
    let frozen = s.ellipse.unwrap().theta;
    assert_ne!(frozen, 0);
    store.set_elliptical_mode_enabled(false);
    for _ in 0..37 {
        assert_eq!(s.next_theta(&store.snapshot(), 16_667), None);
        s.run_frame(&mut store, 16_667, no_point());
        assert_eq!(s.ellipse.unwrap().theta, frozen);
    }
    store.set_elliptical_mode_enabled(true);
    let params = store.snapshot();
    let theta = s.next_theta(&params, 16_667).unwrap();
    s.run_frame(&mut store, 16_667, unit_point(radians(turn_fraction(theta))));
    assert_eq!(
        s.ellipse.unwrap().theta,
        frozen + PRIMARY_ORBIT_SPEED as i128 * SCALE_ONE as i128 * 16_667
    );
}

#[test]
fn radius_edit_snaps_in_circular_mode() {
    let mut store = ParamStore::new(Params::default());
    let mut s = Scene::new(&store.snapshot());
    for _ in 0..30 {
        s.run_frame(&mut store, 16_667, no_point());
    }
    let yaw = s.orbit_pivot.transform.yaw;
    assert_ne!(yaw, 0);
    s.orbiting.transform.translation = Vec3::new(1, 2, 3);
    store.set_primary_orbit_radius(6_500_000);
    s.run_frame(&mut store, 16_667, no_point());
    assert_eq!(s.orbiting.transform.translation, Vec3::new(6_500_000, 0, 0));
    assert_eq!(s.satellite.transform.translation, Vec3::new(900_000, 0, 0));
    assert_eq!(
        s.orbit_pivot.transform.yaw,
        expected_angle(yaw, PRIMARY_ORBIT_SPEED, SCALE_ONE, 16_667)
    );
    let yaw = s.orbit_pivot.transform.yaw;
    s.orbiting.transform.translation = Vec3::new(4, 5, 6);
    s.run_frame(&mut store, 16_667, no_point());
    assert_eq!(s.orbiting.transform.translation, Vec3::new(4, 5, 6));
    assert_ne!(s.orbit_pivot.transform.yaw, yaw);
}

#[test]
fn reconciliation_skips_elliptical_mode() {
    let p = Params { elliptical_mode_enabled: true, ..Params::default() };
    let mut s = Scene::new(&p);
    s.orbiting.transform.translation = Vec3::new(1, 1, 1);
    s.satellite.transform.translation = Vec3::new(2, 2, 2);
    let before = s;
    s.enforce_orbit_radii(&p, true);
    assert_eq!(s, before);
    let circular = Params::default();
    s.enforce_orbit_radii(&circular, false);
    assert_eq!(s, before);
    s.enforce_orbit_radii(&circular, true);
    assert_eq!(s.orbiting.transform.translation, Vec3::new(3_000_000, 0, 0));
    assert_eq!(s.satellite.transform.translation, Vec3::new(900_000, 0, 0));
}

#[test]
fn missing_ellipse_is_skipped() {
    let p = Params { elliptical_mode_enabled: true, ..Params::default() };
    let mut s = Scene::new(&p);
    s.ellipse = None;
    let before = s;
    s.animate_elliptical_orbits(&p, 16_667, UnitPoint { cos: 0, sin: UNIT });
    assert_eq!(s, before);
    assert_eq!(s.next_theta(&p, 16_667), None);
}

#[test]
fn ellipse_axis_points() {
    let e = EllipticalOrbit { semi_major: 2 * LENGTH_ONE, semi_minor: LENGTH_ONE, angular_speed: 0, theta: 0 };
    assert_eq!(e.position(unit_point(0.0)), Vec3::new(2_000_000, 0, 0));
    let q = e.position(unit_point(std::f64::consts::FRAC_PI_2));
    assert!(q.x.abs() <= 1);
    assert_eq!(q.y, 0);
    assert_eq!(q.z, 1_000_000);
    assert_eq!(e.position(UnitPoint { cos: 0, sin: UNIT }), Vec3::new(0, 0, 1_000_000));
}

#[test]
fn elliptical_frame_places_body_on_ellipse() {
    let mut store = ParamStore::new(Params::default());
    store.set_elliptical_mode_enabled(true);
    store.set_orbit_speed_scale(300);
    let e = EllipticalOrbit { semi_major: 2 * LENGTH_ONE, semi_minor: LENGTH_ONE, angular_speed: PRIMARY_ORBIT_SPEED, theta: 0 };
    let mut s = Scene::new(&store.snapshot());
    s.ellipse = Some(e);
    let theta = s.next_theta(&store.snapshot(), 1_250_000).unwrap();
    assert_eq!(theta, PRIMARY_ORBIT_SPEED as i128 * 300 * 1_250_000);
    let pivot_before = s.orbit_pivot.transform.yaw;
    s.run_frame(&mut store, 1_250_000, unit_point(radians(turn_fraction(theta))));
    assert_eq!(s.ellipse.unwrap().theta, theta);
    let t = radians(turn_fraction(theta));
    let pos = s.orbiting.transform.translation;
    assert!((pos.x as f64 - 2.0e6 * t.cos()).abs() < 2.0);
    assert_eq!(pos.y, 0);
    assert!((pos.z as f64 - 1.0e6 * t.sin()).abs() < 2.0);
    assert_ne!(s.orbit_pivot.transform.yaw, pivot_before);
    assert_ne!(pos, Vec3::new(3_000_000, 0, 0));
}

#[test]
fn circular_run_of_a_thousand_frames() {
    let params = Params::default();
    let mut store = ParamStore::new(params);
    let mut s = Scene::new(&params);
    let dt: u64 = 16_667;
    let mut elapsed: u64 = 0;
    for _ in 0..1000 {
        s.run_frame(&mut store, dt, no_point());
        elapsed += dt;
        assert_eq!(s.orbiting.transform.translation, Vec3::new(params.primary_orbit_radius, 0, 0));
        let yaw = s.orbit_pivot.transform.yaw;
        assert_eq!(yaw, expected_angle(0, PRIMARY_ORBIT_SPEED, SCALE_ONE, elapsed));
        let two_pi = 2.0 * std::f64::consts::PI;
        let want = (std::f64::consts::PI / 10.0 * elapsed as f64 / 1e6) % two_pi;
        let diff = (radians(yaw) - want).abs();
        assert!(diff < 1e-6 || (two_pi - diff) < 1e-6);
    }
    assert_eq!(s.ellipse.unwrap().theta, 0);
}

#[test]
fn theta_keeps_growing_past_a_turn() {
    let mut store = ParamStore::new(Params::default());
    store.set_elliptical_mode_enabled(true);
    let mut s = Scene::new(&store.snapshot());
    let start: i128 = (1i128 << 64) - 1;
    s.ellipse = Some(EllipticalOrbit { theta: start, ..EllipticalOrbit::preset() });
    let theta = s.next_theta(&store.snapshot(), 1_000_000).unwrap();
    s.run_frame(&mut store, 1_000_000, unit_point(radians(turn_fraction(theta))));
    let after = s.ellipse.unwrap().theta;
    assert_eq!(after, start + PRIMARY_ORBIT_SPEED as i128 * 100 * 1_000_000);
    assert!(after > 1i128 << 64);
}

#[test]
fn turn_fraction_values() {
    assert_eq!(turn_fraction(0), 0);
    assert_eq!(turn_fraction(5), 5);
    assert_eq!(turn_fraction(-1), u64::MAX);
    assert_eq!(turn_fraction(1i128 << 64), 0);
    assert_eq!(turn_fraction((3i128 << 64) + 7), 7);
    assert_eq!(turn_fraction(-(1i128 << 64)), 0);
    assert_eq!(turn_fraction(-(1i128 << 64) - 2), u64::MAX - 1);
}

#[test]
fn unit_circle_check() {
    assert!(UnitPoint { cos: UNIT, sin: 0 }.is_on_circle());
    assert!(UnitPoint { cos: 0, sin: -UNIT }.is_on_circle());
    assert!(unit_point(0.7).is_on_circle());
    assert!(unit_point(-2.3).is_on_circle());
    assert!(!UnitPoint { cos: 0, sin: 0 }.is_on_circle());
    assert!(!UnitPoint { cos: UNIT / 2, sin: UNIT / 2 }.is_on_circle());
    assert!(!UnitPoint { cos: UNIT + 1, sin: 0 }.is_on_circle());
}

#[test]
fn theta_overflow_is_refused() {
    let p = Params { elliptical_mode_enabled: true, ..Params::default() };
    let mut s = Scene::new(&p);
    assert!(s.can_run_frame(&p, 16_667));
    s.ellipse = Some(EllipticalOrbit { theta: i128::MAX - 5, ..EllipticalOrbit::preset() });
    assert!(!s.can_run_frame(&p, 16_667));
    assert_eq!(s.ellipse.unwrap().next_theta(&p, 16_667), None);
    assert!(s.can_run_frame(&p, 0));
    let off = Params::default();
    assert!(s.can_run_frame(&off, 16_667));
    let huge = EllipticalOrbit { angular_speed: i64::MAX, theta: 0, ..EllipticalOrbit::preset() };
    let wide = Params { orbit_speed_scale: 500, ..p };
    assert_eq!(huge.next_theta(&wide, u64::MAX), None);
}

#[test]
fn apply_marks_only_differences() {
    let mut store = ParamStore::new(Params::default());
    store.take_changed();
    store.apply(Params::default());
    assert!(!store.is_changed());
    let edited = Params { secondary_orbit_radius: 1_500_000, ..Params::default() };
    store.apply(edited);
    assert!(store.is_changed());
    assert_eq!(store.snapshot(), edited);
    store.take_changed();
    store.apply(edited);
    assert!(!store.take_changed());
}
