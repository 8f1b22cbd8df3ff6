use vstd::prelude::*;

verus! {

/// Speed scales are fixed-point: `SCALE_ONE` stands for a factor of 1.
pub const SCALE_ONE: u32 = 100;

/// Starting distance of the orbiting body from the center: 3 length units.
pub const DEFAULT_PRIMARY_RADIUS: i64 = 3_000_000;

/// Starting distance of the satellite from the orbiting body: 0.9 length units.
pub const DEFAULT_SECONDARY_RADIUS: i64 = 900_000;

/// The live-tunable simulation parameters.
#[derive(Clone, Copy, Debug, PartialEq, Eq, Structural)]
pub struct Params {
    /// Multiplies every pivot's angular speed, in hundredths.
    pub orbit_speed_scale: u32,
    /// Multiplies every body's spin speed, in hundredths.
    pub spin_speed_scale: u32,
    /// Distance of the orbiting body from the center in circular mode.
    pub primary_orbit_radius: i64,
    /// Distance of the satellite from the orbiting body in circular mode.
    pub secondary_orbit_radius: i64,
    /// Selects the elliptical motion model for the orbiting body.
    pub elliptical_mode_enabled: bool,
}

impl Params {
    /// The parameters a scene starts with.
    pub open spec fn spec_default() -> Params {
        Params {
            orbit_speed_scale: SCALE_ONE,
            spin_speed_scale: SCALE_ONE,
            primary_orbit_radius: DEFAULT_PRIMARY_RADIUS,
            secondary_orbit_radius: DEFAULT_SECONDARY_RADIUS,
            elliptical_mode_enabled: false,
        }
    }
}

impl Default for Params {
    fn default() -> (r: Params)
        ensures
            r == Params::spec_default(),
    {
        Params {
            orbit_speed_scale: SCALE_ONE,
            spin_speed_scale: SCALE_ONE,
            primary_orbit_radius: DEFAULT_PRIMARY_RADIUS,
            secondary_orbit_radius: DEFAULT_SECONDARY_RADIUS,
            elliptical_mode_enabled: false,
        }
    }
}

/// The single parameter store: the current parameters and a flag that says
/// whether they were written since the flag was last taken.
///
/// Every write marks the store changed, the mode toggle included, so a switch
/// back to circular mode snaps the bodies onto their radii at the next frame.
pub struct ParamStore {
    params: Params,
    changed: bool,
}

impl ParamStore {
    /// The parameters held.
    pub closed spec fn params(&self) -> Params {
        self.params
    }

    /// Whether the parameters were written since the flag was last taken.
    pub closed spec fn changed(&self) -> bool {
        self.changed
    }

    /// A store holding `params`, counted as changed so that the first frame
    /// applies them.
    pub fn new(params: Params) -> (r: ParamStore)
        ensures
            r.params() == params,
            r.changed(),
    {
        ParamStore { params, changed: true }
    }

    /// The parameters, as one snapshot.
    pub fn snapshot(&self) -> (r: Params)
        ensures
            r == self.params(),
    {
        self.params
    }

    pub fn is_changed(&self) -> (r: bool)
        ensures
            r == self.changed(),
    {
        self.changed
    }

    /// Reads and clears the changed flag.
    pub fn take_changed(&mut self) -> (r: bool)
        ensures
            r == old(self).changed(),
            !final(self).changed(),
            final(self).params() == old(self).params(),
    {
        let r = self.changed;
        self.changed = false;
        r
    }

    /// Writes a whole set of parameters, as a control panel does each frame;
    /// the store is marked changed only where they differ from those held.
    pub fn apply(&mut self, params: Params)
        ensures
            final(self).params() == params,
            final(self).changed() == (old(self).changed() || params != old(self).params()),
    {
        if params != self.params {
            self.params = params;
            self.changed = true;
        }
    }

    pub fn set_orbit_speed_scale(&mut self, v: u32)
        ensures
            final(self).params() == (Params { orbit_speed_scale: v, ..old(self).params() }),
            final(self).changed(),
    {
        self.params.orbit_speed_scale = v;
        self.changed = true;
    }

    pub fn set_spin_speed_scale(&mut self, v: u32)
        ensures
            final(self).params() == (Params { spin_speed_scale: v, ..old(self).params() }),
            final(self).changed(),
    {
        self.params.spin_speed_scale = v;
        self.changed = true;
    }

    pub fn set_primary_orbit_radius(&mut self, v: i64)
        ensures
            final(self).params() == (Params { primary_orbit_radius: v, ..old(self).params() }),
            final(self).changed(),
    {
        self.params.primary_orbit_radius = v;
        self.changed = true;
    }

    pub fn set_secondary_orbit_radius(&mut self, v: i64)
        ensures
            final(self).params() == (Params { secondary_orbit_radius: v, ..old(self).params() }),
            final(self).changed(),
    {
        self.params.secondary_orbit_radius = v;
        self.changed = true;
    }

    /// Switches the motion model; no other parameter is touched.
    pub fn set_elliptical_mode_enabled(&mut self, v: bool)
        ensures
            final(self).params() == (Params { elliptical_mode_enabled: v, ..old(self).params() }),
            final(self).params().orbit_speed_scale == old(self).params().orbit_speed_scale,
            final(self).params().spin_speed_scale == old(self).params().spin_speed_scale,
            final(self).params().primary_orbit_radius == old(self).params().primary_orbit_radius,
            final(self).params().secondary_orbit_radius == old(
                self,
            ).params().secondary_orbit_radius,
            final(self).changed(),
    {
        self.params.elliptical_mode_enabled = v;
        self.changed = true;
    }
}

} // verus!
