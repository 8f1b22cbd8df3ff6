use crate::angle::{advance_angle, advanced, scaled_rate};
use crate::geometry::{scale_length, scaled, LocalTransform, UnitPoint, Vec3};
use crate::params::{ParamStore, Params};
use vstd::prelude::*;

verus! {

/// Angular speeds are in angle units per microsecond at a speed scale of one
/// hundredth; `TURN_PER_SECOND` of them make one turn per second at scale 1.
pub const TURN_PER_SECOND: i64 = 184_467_440_737;

/// Spin of the center body: 0.2 rad/s.
pub const CENTER_SPIN: i64 = 5_871_781_007;

/// Revolution of the orbit pivot: pi/10 rad/s, one turn in 20 s.
pub const PRIMARY_ORBIT_SPEED: i64 = 9_223_372_037;

/// Spin of the orbiting body: one turn per second.
pub const ORBITING_SPIN: i64 = 184_467_440_737;

/// Revolution of the sub-orbit pivot: 3 pi rad/s.
pub const SECONDARY_ORBIT_SPEED: i64 = 276_701_161_106;

/// Spin of the satellite: 0.3 pi rad/s.
pub const SATELLITE_SPIN: i64 = 27_670_116_111;

/// Axial tilt of the orbiting body, 23.44 degrees, as a fraction of a turn.
pub const ORBITING_TILT: u64 = 1_201_088_003_021_533_184;

/// Revolution of a pivot node, which carries its children round with it.
#[derive(Clone, Copy, Debug, PartialEq, Eq, Structural)]
pub struct Orbit {
    pub angular_speed: i64,
}

/// Rotation of a body about its own vertical axis.
#[derive(Clone, Copy, Debug, PartialEq, Eq, Structural)]
pub struct Spin {
    pub angular_speed: i64,
}

/// A parametric ellipse `(semi_major cos theta, 0, semi_minor sin theta)`
/// whose angle `theta` is integrated frame by frame. `theta` counts angle
/// units without reduction: it is reduced to one turn only where its cosine
/// and sine are taken.
#[derive(Clone, Copy, Debug, PartialEq, Eq, Structural)]
pub struct EllipticalOrbit {
    pub semi_major: i64,
    pub semi_minor: i64,
    pub angular_speed: i64,
    pub theta: i128,
}

/// An invisible node that rotates its children as a rigid group.
#[derive(Clone, Copy, Debug, PartialEq, Eq, Structural)]
pub struct Pivot {
    pub transform: LocalTransform,
    pub orbit: Orbit,
}

/// A visible node that spins about its own vertical axis.
#[derive(Clone, Copy, Debug, PartialEq, Eq, Structural)]
pub struct Body {
    pub transform: LocalTransform,
    pub spin: Spin,
}

/// The fixed hierarchy: center body, orbit pivot, orbiting body, sub-orbit
/// pivot, satellite, each the child of the one before. The orbiting body may
/// carry an ellipse, which drives its position in elliptical mode.
#[derive(Clone, Copy, Debug, PartialEq, Eq, Structural)]
pub struct Scene {
    pub center: Body,
    pub orbit_pivot: Pivot,
    pub orbiting: Body,
    pub sub_orbit_pivot: Pivot,
    pub satellite: Body,
    pub ellipse: Option<EllipticalOrbit>,
}

/// `t` turned about its vertical axis at `speed` under `scale` for `dt`.
pub open spec fn turned(t: LocalTransform, speed: i64, scale: u32, dt: u64) -> LocalTransform {
    LocalTransform {
        yaw: advanced(t.yaw as int, scaled_rate(speed, scale), dt as int) as u64,
        ..t
    }
}

fn turn_transform(t: &mut LocalTransform, speed: i64, scale: u32, dt: u64)
    ensures
        *final(t) == turned(*old(t), speed, scale, dt),
{
    t.yaw = advance_angle(t.yaw, speed, scale, dt);
}

impl EllipticalOrbit {
    /// Both semi-axes are positive.
    pub open spec fn wf(self) -> bool {
        self.semi_major > 0 && self.semi_minor > 0
    }

    /// The point of the ellipse at the angle whose cosine and sine are `p`.
    pub open spec fn point_at(self, p: UnitPoint) -> Vec3 {
        Vec3 {
            x: scaled(self.semi_major as int, p.cos as int) as i64,
            y: 0,
            z: scaled(self.semi_minor as int, p.sin as int) as i64,
        }
    }

    /// The starting ellipse: semi-axes 3.2 and 2.6 length units, the orbit
    /// pivot's speed, and `theta` at zero.
    pub open spec fn spec_preset() -> EllipticalOrbit {
        EllipticalOrbit {
            semi_major: 3_200_000,
            semi_minor: 2_600_000,
            angular_speed: PRIMARY_ORBIT_SPEED,
            theta: 0,
        }
    }

    pub fn preset() -> (r: EllipticalOrbit)
        ensures
            r == EllipticalOrbit::spec_preset(),
            r.wf(),
    {
        EllipticalOrbit {
            semi_major: 3_200_000,
            semi_minor: 2_600_000,
            angular_speed: PRIMARY_ORBIT_SPEED,
            theta: 0,
        }
    }

    /// The step of `theta` in a frame of `dt` under the orbit scale.
    pub open spec fn theta_step(self, params: Params, dt: u64) -> int {
        scaled_rate(self.angular_speed, params.orbit_speed_scale) * dt as int
    }

    /// The angle after `dt` at this ellipse's speed under the orbit scale,
    /// accumulated without reduction.
    pub open spec fn theta_after(self, params: Params, dt: u64) -> int {
        self.theta as int + self.theta_step(params, dt)
    }

    /// The step and the new angle both fit in an `i128`.
    pub open spec fn can_advance(self, params: Params, dt: u64) -> bool {
        i128::MIN <= self.theta_step(params, dt) <= i128::MAX
            && i128::MIN <= self.theta_after(params, dt) <= i128::MAX
    }

    /// The point of the ellipse at the angle whose cosine and sine are `p`.
    pub fn position(&self, p: UnitPoint) -> (r: Vec3)
        requires
            self.wf(),
            p.on_circle(),
        ensures
            r == self.point_at(p),
    {
        Vec3 {
            x: scale_length(self.semi_major, p.cos),
            y: 0,
            z: scale_length(self.semi_minor, p.sin),
        }
    }

    /// The angle this ellipse reaches after `dt` under `params`, or `None`
    /// where it does not fit in an `i128`.
    pub fn next_theta(&self, params: &Params, dt: u64) -> (r: Option<i128>)
        ensures
            r == (if self.can_advance(*params, dt) {
                Some(self.theta_after(*params, dt) as i128)
            } else {
                None
            }),
    {
        proof {
            let (a, b) = (self.angular_speed as int, params.orbit_speed_scale as int);
            assert(-0x8000_0000_0000_0000 * 0x1_0000_0000 <= a * b <= 0x8000_0000_0000_0000
                * 0x1_0000_0000) by (nonlinear_arith)
                requires
                    -0x8000_0000_0000_0000 <= a < 0x8000_0000_0000_0000,
                    0 <= b < 0x1_0000_0000,
            ;
        }
        let rate: i128 = self.angular_speed as i128 * params.orbit_speed_scale as i128;
        match rate.checked_mul(dt as i128) {
            Some(step) => self.theta.checked_add(step),
            None => None,
        }
    }
}

impl Scene {
    /// The ellipse, if there is one, has positive semi-axes.
    pub open spec fn wf(self) -> bool {
        match self.ellipse {
            Some(e) => e.wf(),
            None => true,
        }
    }

    /// A frame of `dt` under `params` keeps the ellipse's angle within an
    /// `i128`; only an ellipse in elliptical mode moves.
    pub open spec fn frame_fits(self, params: Params, dt: u64) -> bool {
        match self.ellipse {
            Some(e) => params.elliptical_mode_enabled ==> e.can_advance(params, dt),
            None => true,
        }
    }

    /// The scene after the pivots turn for `dt`.
    pub open spec fn rotated(self, params: Params, dt: u64) -> Scene {
        Scene {
            orbit_pivot: Pivot {
                transform: turned(self.orbit_pivot.transform, self.orbit_pivot.orbit.angular_speed,
                    params.orbit_speed_scale, dt),
                ..self.orbit_pivot
            },
            sub_orbit_pivot: Pivot {
                transform: turned(self.sub_orbit_pivot.transform,
                    self.sub_orbit_pivot.orbit.angular_speed, params.orbit_speed_scale, dt),
                ..self.sub_orbit_pivot
            },
            ..self
        }
    }

    /// The scene after the bodies spin for `dt`.
    pub open spec fn spun(self, params: Params, dt: u64) -> Scene {
        Scene {
            center: Body {
                transform: turned(self.center.transform, self.center.spin.angular_speed,
                    params.spin_speed_scale, dt),
                ..self.center
            },
            orbiting: Body {
                transform: turned(self.orbiting.transform, self.orbiting.spin.angular_speed,
                    params.spin_speed_scale, dt),
                ..self.orbiting
            },
            satellite: Body {
                transform: turned(self.satellite.transform, self.satellite.spin.angular_speed,
                    params.spin_speed_scale, dt),
                ..self.satellite
            },
            ..self
        }
    }

    /// The scene after the elliptical system runs: in elliptical mode the
    /// ellipse's angle advances and the orbiting body is placed at the point
    /// `p` stands for; otherwise nothing changes.
    pub open spec fn ellipse_moved(self, params: Params, dt: u64, p: UnitPoint) -> Scene {
        match self.ellipse {
            Some(e) if params.elliptical_mode_enabled => {
                let moved = EllipticalOrbit { theta: e.theta_after(params, dt) as i128, ..e };
                Scene {
                    orbiting: Body {
                        transform: LocalTransform {
                            translation: moved.point_at(p),
                            ..self.orbiting.transform
                        },
                        ..self.orbiting
                    },
                    ellipse: Some(moved),
                    ..self
                }
            },
            _ => self,
        }
    }

    /// The scene after radius reconciliation: when the parameters changed in
    /// circular mode, the orbiting body and the satellite are put back on the
    /// x axis of their pivots at the configured radii; otherwise nothing changes.
    pub open spec fn reconciled(self, params: Params, changed: bool) -> Scene {
        if changed && !params.elliptical_mode_enabled {
            Scene {
                orbiting: Body {
                    transform: LocalTransform {
                        translation: Vec3::on_x_axis(params.primary_orbit_radius),
                        ..self.orbiting.transform
                    },
                    ..self.orbiting
                },
                satellite: Body {
                    transform: LocalTransform {
                        translation: Vec3::on_x_axis(params.secondary_orbit_radius),
                        ..self.satellite.transform
                    },
                    ..self.satellite
                },
                ..self
            }
        } else {
            self
        }
    }

    /// One frame: pivots turn, bodies spin, the ellipse moves, radii reconcile.
    pub open spec fn stepped(self, params: Params, changed: bool, dt: u64, p: UnitPoint) -> Scene {
        self.rotated(params, dt).spun(params, dt).ellipse_moved(params, dt, p).reconciled(
            params,
            changed,
        )
    }
}

impl Scene {
    /// The scene as it starts: every node at rest, the orbiting body and the
    /// satellite on the x axis of their pivots at the radii of `params`, the
    /// orbiting body tilted, and the starting ellipse attached to it.
    pub fn new(params: &Params) -> (r: Scene)
        ensures
            r.center == (Body {
                transform: LocalTransform { translation: Vec3::on_x_axis(0), tilt: 0, yaw: 0 },
                spin: Spin { angular_speed: CENTER_SPIN },
            }),
            r.orbit_pivot == (Pivot {
                transform: LocalTransform { translation: Vec3::on_x_axis(0), tilt: 0, yaw: 0 },
                orbit: Orbit { angular_speed: PRIMARY_ORBIT_SPEED },
            }),
            r.orbiting == (Body {
                transform: LocalTransform {
                    translation: Vec3::on_x_axis(params.primary_orbit_radius),
                    tilt: ORBITING_TILT,
                    yaw: 0,
                },
                spin: Spin { angular_speed: ORBITING_SPIN },
            }),
            r.sub_orbit_pivot == (Pivot {
                transform: LocalTransform { translation: Vec3::on_x_axis(0), tilt: 0, yaw: 0 },
                orbit: Orbit { angular_speed: SECONDARY_ORBIT_SPEED },
            }),
            r.satellite == (Body {
                transform: LocalTransform {
                    translation: Vec3::on_x_axis(params.secondary_orbit_radius),
                    tilt: 0,
                    yaw: 0,
                },
                spin: Spin { angular_speed: SATELLITE_SPIN },
            }),
            r.ellipse == Some(EllipticalOrbit::spec_preset()),
            r.wf(),
    {
        let origin = Vec3::new(0, 0, 0);
        Scene {
            center: Body {
                transform: LocalTransform::at(origin),
                spin: Spin { angular_speed: CENTER_SPIN },
            },
            orbit_pivot: Pivot {
                transform: LocalTransform::at(origin),
                orbit: Orbit { angular_speed: PRIMARY_ORBIT_SPEED },
            },
            orbiting: Body {
                transform: LocalTransform {
                    translation: Vec3::new(params.primary_orbit_radius, 0, 0),
                    tilt: ORBITING_TILT,
                    yaw: 0,
                },
                spin: Spin { angular_speed: ORBITING_SPIN },
            },
            sub_orbit_pivot: Pivot {
                transform: LocalTransform::at(origin),
                orbit: Orbit { angular_speed: SECONDARY_ORBIT_SPEED },
            },
            satellite: Body {
                transform: LocalTransform::at(Vec3::new(params.secondary_orbit_radius, 0, 0)),
                spin: Spin { angular_speed: SATELLITE_SPIN },
            },
            ellipse: Some(EllipticalOrbit::preset()),
        }
    }

    /// Turns every pivot about its vertical axis by its angular speed times
    /// the orbit scale times `dt`; nothing else changes.
    pub fn animate_orbits(&mut self, params: &Params, dt: u64)
        ensures
            *final(self) == old(self).rotated(*params, dt),
    {
        let scale = params.orbit_speed_scale;
        turn_transform(&mut self.orbit_pivot.transform, self.orbit_pivot.orbit.angular_speed, scale, dt);
        turn_transform(
            &mut self.sub_orbit_pivot.transform,
            self.sub_orbit_pivot.orbit.angular_speed,
            scale,
            dt,
        );
    }

    /// Spins every body about its own vertical axis by its spin speed times
    /// the spin scale times `dt`; nothing else changes.
    pub fn spin_bodies(&mut self, params: &Params, dt: u64)
        ensures
            *final(self) == old(self).spun(*params, dt),
    {
        let scale = params.spin_speed_scale;
        turn_transform(&mut self.center.transform, self.center.spin.angular_speed, scale, dt);
        turn_transform(&mut self.orbiting.transform, self.orbiting.spin.angular_speed, scale, dt);
        turn_transform(&mut self.satellite.transform, self.satellite.spin.angular_speed, scale, dt);
    }

    /// Whether a frame of `dt` under `params` keeps the ellipse's angle
    /// within an `i128`.
    pub fn can_run_frame(&self, params: &Params, dt: u64) -> (r: bool)
        ensures
            r == self.frame_fits(*params, dt),
    {
        match &self.ellipse {
            Some(e) => !params.elliptical_mode_enabled || e.next_theta(params, dt).is_some(),
            None => true,
        }
    }

    /// The angle the ellipse reaches in a frame of `dt` under `params`, if the
    /// orbiting body carries one and elliptical mode is on. A caller gives
    /// `run_frame` the cosine and sine of this angle.
    pub fn next_theta(&self, params: &Params, dt: u64) -> (r: Option<i128>)
        requires
            self.frame_fits(*params, dt),
        ensures
            r == (match self.ellipse {
                Some(e) if params.elliptical_mode_enabled => Some(e.theta_after(*params, dt) as i128),
                _ => None,
            }),
    {
        match &self.ellipse {
            Some(e) => {
                if params.elliptical_mode_enabled {
                    e.next_theta(params, dt)
                } else {
                    None
                }
            },
            None => None,
        }
    }

    /// In elliptical mode, advances the ellipse's angle and sets the orbiting
    /// body's translation to the point of the ellipse that `p` stands for. In
    /// circular mode, or with no ellipse, nothing changes.
    pub fn animate_elliptical_orbits(&mut self, params: &Params, dt: u64, p: UnitPoint)
        requires
            old(self).wf(),
            old(self).frame_fits(*params, dt),
            p.on_circle(),
        ensures
            *final(self) == old(self).ellipse_moved(*params, dt, p),
    {
        if !params.elliptical_mode_enabled {
            return;
        }
        match self.ellipse {
            Some(e) => {
                let theta = match e.next_theta(params, dt) {
                    Some(t) => t,
                    None => e.theta,
                };
                let moved = EllipticalOrbit { theta, ..e };
                self.orbiting.transform.translation = moved.position(p);
                self.ellipse = Some(moved);
            },
            None => {},
        }
    }

    /// When `changed` in circular mode, puts the orbiting body and the
    /// satellite at the configured radii on the x axis of their pivots, leaving
    /// every rotation as it is. Otherwise nothing changes.
    pub fn enforce_orbit_radii(&mut self, params: &Params, changed: bool)
        ensures
            *final(self) == old(self).reconciled(*params, changed),
    {
        if changed && !params.elliptical_mode_enabled {
            self.orbiting.transform.translation = Vec3::new(params.primary_orbit_radius, 0, 0);
            self.satellite.transform.translation = Vec3::new(params.secondary_orbit_radius, 0, 0);
        }
    }

    /// Runs one frame of `dt` microseconds against one snapshot of the store,
    /// and takes its changed flag. `p` is the cosine and sine of the angle
    /// `next_theta` gives; it is read only in elliptical mode, and any point of
    /// the unit circle does otherwise.
    pub fn run_frame(&mut self, store: &mut ParamStore, dt: u64, p: UnitPoint)
        requires
            old(self).wf(),
            old(self).frame_fits(old(store).params(), dt),
            p.on_circle(),
        ensures
            *final(self) == old(self).stepped(old(store).params(), old(store).changed(), dt, p),
            final(self).wf(),
            final(store).params() == old(store).params(),
            !final(store).changed(),
    {
        let params = store.snapshot();
        let changed = store.take_changed();
        self.animate_orbits(&params, dt);
        self.spin_bodies(&params, dt);
        self.animate_elliptical_orbits(&params, dt, p);
        self.enforce_orbit_radii(&params, changed);
    }
}

} // verus!
