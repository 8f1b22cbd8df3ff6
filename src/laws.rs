use crate::angle::{advanced, lemma_two_steps, scaled_rate, total, turn};
use crate::geometry::{UnitPoint, Vec3, UNIT};
use crate::params::Params;
use crate::geometry::LocalTransform;
use crate::scene::{turned, Body, EllipticalOrbit, Pivot, Scene};
use vstd::arithmetic::div_mod::lemma_small_mod;
use vstd::arithmetic::mul::lemma_mul_basics;
use vstd::prelude::*;

verus! {

/// What one frame is given besides the parameters: whether the store changed,
/// the time step, and the unit point for the ellipse.
pub type FrameInput = (bool, u64, UnitPoint);

/// The scene after running `frames` in turn under constant parameters.
pub open spec fn run(scene: Scene, params: Params, frames: Seq<FrameInput>) -> Scene
    decreases frames.len(),
{
    if frames.len() == 0 {
        scene
    } else {
        let f = frames.last();
        run(scene, params, frames.drop_last()).stepped(params, f.0, f.1, f.2)
    }
}

/// The time steps of `frames`.
pub open spec fn steps(frames: Seq<FrameInput>) -> Seq<u64> {
    frames.map_values(|f: FrameInput| f.1)
}

proof fn lemma_steps_drop_last(frames: Seq<FrameInput>)
    requires
        frames.len() > 0,
    ensures
        steps(frames).drop_last() == steps(frames.drop_last()),
        steps(frames).last() == frames.last().1,
{
    assert(steps(frames).drop_last() =~= steps(frames.drop_last()));
}

/// Over any run of frames, each pivot's yaw is the angle reached by turning at
/// its scaled speed for the whole elapsed time at once, and so is each body's
/// spin: accumulation does not depend on how time is split into frames.
pub proof fn lemma_rotation_is_time_additive(scene: Scene, params: Params, frames: Seq<FrameInput>)
    ensures
        run(scene, params, frames).orbit_pivot.transform.yaw == advanced(
            scene.orbit_pivot.transform.yaw as int,
            scaled_rate(scene.orbit_pivot.orbit.angular_speed, params.orbit_speed_scale),
            total(steps(frames)),
        ),
        run(scene, params, frames).sub_orbit_pivot.transform.yaw == advanced(
            scene.sub_orbit_pivot.transform.yaw as int,
            scaled_rate(scene.sub_orbit_pivot.orbit.angular_speed, params.orbit_speed_scale),
            total(steps(frames)),
        ),
        run(scene, params, frames).center.transform.yaw == advanced(
            scene.center.transform.yaw as int,
            scaled_rate(scene.center.spin.angular_speed, params.spin_speed_scale),
            total(steps(frames)),
        ),
        run(scene, params, frames).orbiting.transform.yaw == advanced(
            scene.orbiting.transform.yaw as int,
            scaled_rate(scene.orbiting.spin.angular_speed, params.spin_speed_scale),
            total(steps(frames)),
        ),
        run(scene, params, frames).satellite.transform.yaw == advanced(
            scene.satellite.transform.yaw as int,
            scaled_rate(scene.satellite.spin.angular_speed, params.spin_speed_scale),
            total(steps(frames)),
        ),
        run(scene, params, frames).orbit_pivot.orbit == scene.orbit_pivot.orbit,
        run(scene, params, frames).sub_orbit_pivot.orbit == scene.sub_orbit_pivot.orbit,
        run(scene, params, frames).center.spin == scene.center.spin,
        run(scene, params, frames).orbiting.spin == scene.orbiting.spin,
        run(scene, params, frames).satellite.spin == scene.satellite.spin,
    decreases frames.len(),
{
    if frames.len() == 0 {
        assert(steps(frames).len() == 0);
        vstd::arithmetic::div_mod::lemma_small_mod(scene.orbit_pivot.transform.yaw as nat, turn() as nat);
        vstd::arithmetic::div_mod::lemma_small_mod(scene.sub_orbit_pivot.transform.yaw as nat, turn() as nat);
        vstd::arithmetic::div_mod::lemma_small_mod(scene.center.transform.yaw as nat, turn() as nat);
        vstd::arithmetic::div_mod::lemma_small_mod(scene.orbiting.transform.yaw as nat, turn() as nat);
        vstd::arithmetic::div_mod::lemma_small_mod(scene.satellite.transform.yaw as nat, turn() as nat);
    } else {
        let rest = frames.drop_last();
        let dt = frames.last().1 as int;
        lemma_rotation_is_time_additive(scene, params, rest);
        lemma_steps_drop_last(frames);
        let t = total(steps(rest));
        lemma_two_steps(scene.orbit_pivot.transform.yaw as int,
            scaled_rate(scene.orbit_pivot.orbit.angular_speed, params.orbit_speed_scale), t, dt);
        lemma_two_steps(scene.sub_orbit_pivot.transform.yaw as int,
            scaled_rate(scene.sub_orbit_pivot.orbit.angular_speed, params.orbit_speed_scale), t, dt);
        lemma_two_steps(scene.center.transform.yaw as int,
            scaled_rate(scene.center.spin.angular_speed, params.spin_speed_scale), t, dt);
        lemma_two_steps(scene.orbiting.transform.yaw as int,
            scaled_rate(scene.orbiting.spin.angular_speed, params.spin_speed_scale), t, dt);
        lemma_two_steps(scene.satellite.transform.yaw as int,
            scaled_rate(scene.satellite.spin.angular_speed, params.spin_speed_scale), t, dt);
    }
}

/// With the orbit scale at zero, no pivot turns, over any number of frames.
pub proof fn lemma_zero_orbit_scale_holds_pivots(scene: Scene, params: Params, frames: Seq<FrameInput>)
    requires
        params.orbit_speed_scale == 0,
    ensures
        run(scene, params, frames).orbit_pivot.transform.yaw == scene.orbit_pivot.transform.yaw,
        run(scene, params, frames).sub_orbit_pivot.transform.yaw
            == scene.sub_orbit_pivot.transform.yaw,
{
    lemma_rotation_is_time_additive(scene, params, frames);
    assert(scaled_rate(scene.orbit_pivot.orbit.angular_speed, 0) == 0);
    assert(scaled_rate(scene.sub_orbit_pivot.orbit.angular_speed, 0) == 0);
    vstd::arithmetic::mul::lemma_mul_basics(total(steps(frames)));
    vstd::arithmetic::div_mod::lemma_small_mod(scene.orbit_pivot.transform.yaw as nat, turn() as nat);
    vstd::arithmetic::div_mod::lemma_small_mod(scene.sub_orbit_pivot.transform.yaw as nat, turn() as nat);
}

/// In circular mode the ellipse, and so its angle, is left as it is over any
/// number of frames.
pub proof fn lemma_circular_frames_freeze_theta(scene: Scene, params: Params, frames: Seq<FrameInput>)
    requires
        !params.elliptical_mode_enabled,
    ensures
        run(scene, params, frames).ellipse == scene.ellipse,
    decreases frames.len(),
{
    if frames.len() > 0 {
        lemma_circular_frames_freeze_theta(scene, params, frames.drop_last());
    }
}

/// After any number of circular frames, the first elliptical frame advances
/// the angle by exactly one step from the value it held before them, with no
/// reduction to one turn.
pub proof fn lemma_theta_resumes(
    scene: Scene,
    off: Params,
    frames: Seq<FrameInput>,
    on: Params,
    changed: bool,
    dt: u64,
    p: UnitPoint,
    e: EllipticalOrbit,
)
    requires
        !off.elliptical_mode_enabled,
        on.elliptical_mode_enabled,
        scene.ellipse == Some(e),
        e.can_advance(on, dt),
    ensures
        run(scene, off, frames).stepped(on, changed, dt, p).ellipse == Some(
            EllipticalOrbit { theta: e.theta_after(on, dt) as i128, ..e },
        ),
        e.theta_after(on, dt) as i128 as int == e.theta as int + scaled_rate(
            e.angular_speed,
            on.orbit_speed_scale,
        ) * dt as int,
{
    lemma_circular_frames_freeze_theta(scene, off, frames);
}

/// In circular mode, a frame in which the primary radius was set to `r`
/// leaves the orbiting body at `(r, 0, 0)` in its pivot's frame, whatever the
/// pivot's angle, with the pivot turned as usual. A following frame with no
/// change keeps that translation while the pivot keeps turning.
pub proof fn lemma_radius_edit_snaps(
    scene: Scene,
    params: Params,
    r: i64,
    dt1: u64,
    p1: UnitPoint,
    dt2: u64,
    p2: UnitPoint,
)
    requires
        !params.elliptical_mode_enabled,
    ensures
        ({
            let edited = Params { primary_orbit_radius: r, ..params };
            let first = scene.stepped(edited, true, dt1, p1);
            let second = first.stepped(edited, false, dt2, p2);
            &&& first.orbiting.transform.translation == Vec3::on_x_axis(r)
            &&& first.orbit_pivot.transform == turned(
                scene.orbit_pivot.transform,
                scene.orbit_pivot.orbit.angular_speed,
                params.orbit_speed_scale,
                dt1,
            )
            &&& second.orbiting.transform.translation == Vec3::on_x_axis(r)
            &&& second.orbit_pivot.transform == turned(
                first.orbit_pivot.transform,
                first.orbit_pivot.orbit.angular_speed,
                params.orbit_speed_scale,
                dt2,
            )
        }),
{
}

/// In circular mode, with the orbiting body at the primary radius to begin
/// with, it stays at exactly that radius on the x axis of its pivot after any
/// run of frames, while the pivot's angle is its scaled speed times the whole
/// elapsed time, reduced to one turn.
pub proof fn lemma_circular_run(scene: Scene, params: Params, frames: Seq<FrameInput>)
    requires
        !params.elliptical_mode_enabled,
        scene.orbiting.transform.translation == Vec3::on_x_axis(params.primary_orbit_radius),
    ensures
        run(scene, params, frames).orbiting.transform.translation == Vec3::on_x_axis(
            params.primary_orbit_radius,
        ),
        run(scene, params, frames).orbit_pivot.transform.yaw == advanced(
            scene.orbit_pivot.transform.yaw as int,
            scaled_rate(scene.orbit_pivot.orbit.angular_speed, params.orbit_speed_scale),
            total(steps(frames)),
        ),
    decreases frames.len(),
{
    lemma_rotation_is_time_additive(scene, params, frames);
    if frames.len() > 0 {
        lemma_circular_run(scene, params, frames.drop_last());
    }
}

/// The ellipse passes through `(semi_major, 0, 0)` at the angle whose cosine
/// is 1 and through `(0, 0, semi_minor)` at the angle whose sine is 1.
pub proof fn lemma_ellipse_axis_points(e: EllipticalOrbit)
    requires
        e.wf(),
    ensures
        e.point_at(UnitPoint { cos: UNIT, sin: 0 }) == (Vec3 { x: e.semi_major, y: 0, z: 0 }),
        e.point_at(UnitPoint { cos: 0, sin: UNIT }) == (Vec3 { x: 0, y: 0, z: e.semi_minor }),
{
    vstd::arithmetic::div_mod::lemma_div_multiples_vanish(e.semi_major as int, UNIT as int);
    vstd::arithmetic::div_mod::lemma_div_multiples_vanish(e.semi_minor as int, UNIT as int);
}

/// In elliptical mode the ellipse alone decides where the orbiting body is:
/// after a frame it stands at the ellipse point given, whether or not the
/// parameters changed, while its rotation and the pivots turn as in any frame.
pub proof fn lemma_elliptical_frame_owns_position(
    scene: Scene,
    params: Params,
    changed: bool,
    dt: u64,
    p: UnitPoint,
    e: EllipticalOrbit,
)
    requires
        params.elliptical_mode_enabled,
        scene.ellipse == Some(e),
    ensures
        scene.stepped(params, changed, dt, p).orbiting.transform.translation == (EllipticalOrbit {
            theta: e.theta_after(params, dt) as i128,
            ..e
        }).point_at(p),
        scene.stepped(params, changed, dt, p).orbit_pivot == scene.rotated(params, dt).orbit_pivot,
        scene.stepped(params, changed, dt, p).satellite.transform.translation
            == scene.satellite.transform.translation,
{
}

/// The scene after `animate_orbits` runs once for each step of `dts`.
pub open spec fn orbits_animated(scene: Scene, params: Params, dts: Seq<u64>) -> Scene
    decreases dts.len(),
{
    if dts.len() == 0 {
        scene
    } else {
        orbits_animated(scene, params, dts.drop_last()).rotated(params, dts.last())
    }
}

/// The scene after `spin_bodies` runs once for each step of `dts`.
pub open spec fn spins_applied(scene: Scene, params: Params, dts: Seq<u64>) -> Scene
    decreases dts.len(),
{
    if dts.len() == 0 {
        scene
    } else {
        spins_applied(scene, params, dts.drop_last()).spun(params, dts.last())
    }
}

/// The scene after `animate_elliptical_orbits` runs once for each step and
/// point of `calls`.
pub open spec fn ellipse_animated(scene: Scene, params: Params, calls: Seq<(u64, UnitPoint)>) -> Scene
    decreases calls.len(),
{
    if calls.len() == 0 {
        scene
    } else {
        let c = calls.last();
        ellipse_animated(scene, params, calls.drop_last()).ellipse_moved(params, c.0, c.1)
    }
}

/// Any number of `animate_orbits` calls turn each pivot to the angle that
/// one call over the whole elapsed time reaches, and change nothing else;
/// where that time fits in a `u64`, the scene is exactly the one a single
/// call gives.
pub proof fn lemma_animate_orbits_time_additive(scene: Scene, params: Params, dts: Seq<u64>)
    ensures
        orbits_animated(scene, params, dts).orbit_pivot.transform.yaw == advanced(
            scene.orbit_pivot.transform.yaw as int,
            scaled_rate(scene.orbit_pivot.orbit.angular_speed, params.orbit_speed_scale),
            total(dts),
        ),
        orbits_animated(scene, params, dts).sub_orbit_pivot.transform.yaw == advanced(
            scene.sub_orbit_pivot.transform.yaw as int,
            scaled_rate(scene.sub_orbit_pivot.orbit.angular_speed, params.orbit_speed_scale),
            total(dts),
        ),
        orbits_animated(scene, params, dts) == (Scene {
            orbit_pivot: Pivot {
                transform: LocalTransform {
                    yaw: orbits_animated(scene, params, dts).orbit_pivot.transform.yaw,
                    ..scene.orbit_pivot.transform
                },
                ..scene.orbit_pivot
            },
            sub_orbit_pivot: Pivot {
                transform: LocalTransform {
                    yaw: orbits_animated(scene, params, dts).sub_orbit_pivot.transform.yaw,
                    ..scene.sub_orbit_pivot.transform
                },
                ..scene.sub_orbit_pivot
            },
            ..scene
        }),
        0 <= total(dts) <= u64::MAX ==> orbits_animated(scene, params, dts) == scene.rotated(
            params,
            total(dts) as u64,
        ),
    decreases dts.len(),
{
    if dts.len() == 0 {
        lemma_small_mod(scene.orbit_pivot.transform.yaw as nat, turn() as nat);
        lemma_small_mod(scene.sub_orbit_pivot.transform.yaw as nat, turn() as nat);
        lemma_mul_basics(scaled_rate(scene.orbit_pivot.orbit.angular_speed, params.orbit_speed_scale));
        lemma_mul_basics(scaled_rate(scene.sub_orbit_pivot.orbit.angular_speed, params.orbit_speed_scale));
    } else {
        let rest = dts.drop_last();
        lemma_animate_orbits_time_additive(scene, params, rest);
        lemma_total_nonneg(rest);
        lemma_two_steps(scene.orbit_pivot.transform.yaw as int,
            scaled_rate(scene.orbit_pivot.orbit.angular_speed, params.orbit_speed_scale),
            total(rest), dts.last() as int);
        lemma_two_steps(scene.sub_orbit_pivot.transform.yaw as int,
            scaled_rate(scene.sub_orbit_pivot.orbit.angular_speed, params.orbit_speed_scale),
            total(rest), dts.last() as int);
    }
}

/// Any number of `spin_bodies` calls spin each body to the angle that one
/// call over the whole elapsed time reaches, and change nothing else; where
/// that time fits in a `u64`, the scene is exactly the one a single call gives.
pub proof fn lemma_spin_bodies_time_additive(scene: Scene, params: Params, dts: Seq<u64>)
    ensures
        spins_applied(scene, params, dts).center.transform.yaw == advanced(
            scene.center.transform.yaw as int,
            scaled_rate(scene.center.spin.angular_speed, params.spin_speed_scale),
            total(dts),
        ),
        spins_applied(scene, params, dts).orbiting.transform.yaw == advanced(
            scene.orbiting.transform.yaw as int,
            scaled_rate(scene.orbiting.spin.angular_speed, params.spin_speed_scale),
            total(dts),
        ),
        spins_applied(scene, params, dts).satellite.transform.yaw == advanced(
            scene.satellite.transform.yaw as int,
            scaled_rate(scene.satellite.spin.angular_speed, params.spin_speed_scale),
            total(dts),
        ),
        spins_applied(scene, params, dts) == (Scene {
            center: Body {
                transform: LocalTransform {
                    yaw: spins_applied(scene, params, dts).center.transform.yaw,
                    ..scene.center.transform
                },
                ..scene.center
            },
            orbiting: Body {
                transform: LocalTransform {
                    yaw: spins_applied(scene, params, dts).orbiting.transform.yaw,
                    ..scene.orbiting.transform
                },
                ..scene.orbiting
            },
            satellite: Body {
                transform: LocalTransform {
                    yaw: spins_applied(scene, params, dts).satellite.transform.yaw,
                    ..scene.satellite.transform
                },
                ..scene.satellite
            },
            ..scene
        }),
        0 <= total(dts) <= u64::MAX ==> spins_applied(scene, params, dts) == scene.spun(
            params,
            total(dts) as u64,
        ),
    decreases dts.len(),
{
    if dts.len() == 0 {
        lemma_small_mod(scene.center.transform.yaw as nat, turn() as nat);
        lemma_small_mod(scene.orbiting.transform.yaw as nat, turn() as nat);
        lemma_small_mod(scene.satellite.transform.yaw as nat, turn() as nat);
        lemma_mul_basics(scaled_rate(scene.center.spin.angular_speed, params.spin_speed_scale));
        lemma_mul_basics(scaled_rate(scene.orbiting.spin.angular_speed, params.spin_speed_scale));
        lemma_mul_basics(scaled_rate(scene.satellite.spin.angular_speed, params.spin_speed_scale));
    } else {
        let rest = dts.drop_last();
        lemma_spin_bodies_time_additive(scene, params, rest);
        lemma_total_nonneg(rest);
        lemma_two_steps(scene.center.transform.yaw as int,
            scaled_rate(scene.center.spin.angular_speed, params.spin_speed_scale),
            total(rest), dts.last() as int);
        lemma_two_steps(scene.orbiting.transform.yaw as int,
            scaled_rate(scene.orbiting.spin.angular_speed, params.spin_speed_scale),
            total(rest), dts.last() as int);
        lemma_two_steps(scene.satellite.transform.yaw as int,
            scaled_rate(scene.satellite.spin.angular_speed, params.spin_speed_scale),
            total(rest), dts.last() as int);
    }
}

proof fn lemma_total_nonneg(dts: Seq<u64>)
    ensures
        total(dts) >= 0,
    decreases dts.len(),
{
    if dts.len() > 0 {
        lemma_total_nonneg(dts.drop_last());
    }
}

/// With the orbit scale at zero, any number of `animate_orbits` calls leave
/// the scene exactly as it was.
pub proof fn lemma_zero_orbit_scale_animate_orbits(scene: Scene, params: Params, dts: Seq<u64>)
    requires
        params.orbit_speed_scale == 0,
    ensures
        orbits_animated(scene, params, dts) == scene,
{
    lemma_animate_orbits_time_additive(scene, params, dts);
    assert(scaled_rate(scene.orbit_pivot.orbit.angular_speed, 0) == 0);
    assert(scaled_rate(scene.sub_orbit_pivot.orbit.angular_speed, 0) == 0);
    lemma_mul_basics(total(dts));
    lemma_small_mod(scene.orbit_pivot.transform.yaw as nat, turn() as nat);
    lemma_small_mod(scene.sub_orbit_pivot.transform.yaw as nat, turn() as nat);
}

/// In circular mode any number of `animate_elliptical_orbits` calls leave the
/// scene, the ellipse's angle included, exactly as it was.
pub proof fn lemma_circular_calls_freeze_ellipse(
    scene: Scene,
    params: Params,
    calls: Seq<(u64, UnitPoint)>,
)
    requires
        !params.elliptical_mode_enabled,
    ensures
        ellipse_animated(scene, params, calls) == scene,
    decreases calls.len(),
{
    if calls.len() > 0 {
        lemma_circular_calls_freeze_ellipse(scene, params, calls.drop_last());
    }
}

/// After any number of `animate_elliptical_orbits` calls in circular mode,
/// the first call in elliptical mode sets the angle to exactly the frozen
/// value plus one step, without reduction.
pub proof fn lemma_ellipse_resumes_after_circular_calls(
    scene: Scene,
    off: Params,
    calls: Seq<(u64, UnitPoint)>,
    on: Params,
    dt: u64,
    p: UnitPoint,
    e: EllipticalOrbit,
)
    requires
        !off.elliptical_mode_enabled,
        on.elliptical_mode_enabled,
        scene.ellipse == Some(e),
        e.can_advance(on, dt),
    ensures
        ellipse_animated(scene, off, calls).ellipse_moved(on, dt, p).ellipse matches Some(m)
            && m.theta as int == e.theta as int + scaled_rate(e.angular_speed, on.orbit_speed_scale)
            * dt as int,
{
    lemma_circular_calls_freeze_ellipse(scene, off, calls);
}

} // verus!
