//! The celestial-body record and its construction from noise-derived
//! properties.
//!
//! A body's static substate (type, size, capacities, generation speeds,
//! range, launch velocity, comets) is fixed at creation and only changed by
//! upgrades; the dynamic substate (ship count, metal count, ownership) moves
//! with every transition.  The well-formedness invariant keeps both resource
//! counts within their capacities.

use vstd::prelude::*;

verus! {

/// Full planet state, held encrypted on the ledger and operated on in clear
/// inside the confidential transitions.
///
/// `body_type`: 0 = Planet, 1 = Quasar, 2 = SpacetimeRip, 3 = AsteroidBelt.
/// `comet_0` / `comet_1`: comet boost kind (0-5), or 255 when absent.
/// The owner identity is split into four 64-bit limbs.
#[derive(Clone, Copy, PartialEq, Eq, Structural, Debug)]
#[verifier::ext_equal]
pub struct PlanetState {
    pub body_type: u8,
    pub size: u8,
    pub owner_exists: u8,
    pub owner_0: u64,
    pub owner_1: u64,
    pub owner_2: u64,
    pub owner_3: u64,
    pub ship_count: u64,
    pub max_ship_capacity: u64,
    pub ship_gen_speed: u64,
    pub metal_count: u64,
    pub max_metal_capacity: u64,
    pub metal_gen_speed: u64,
    pub range: u64,
    pub launch_velocity: u64,
    pub level: u8,
    pub comet_count: u8,
    pub comet_0: u8,
    pub comet_1: u8,
}

impl PlanetState {
    /// Capacity invariant: each resource count stays within its capacity.
    pub open spec fn wf(self) -> bool {
        &&& self.ship_count <= self.max_ship_capacity
        &&& self.metal_count <= self.max_metal_capacity
    }

    /// True when this owner identity matches the given limbs and an owner is
    /// set at all.
    pub open spec fn spec_owned_by(self, k0: u64, k1: u64, k2: u64, k3: u64) -> bool {
        &&& self.owner_exists == 1
        &&& self.owner_0 == k0
        &&& self.owner_1 == k1
        &&& self.owner_2 == k2
        &&& self.owner_3 == k3
    }
}

/// Base stats of a body before comet boosts, as
/// `(ship_cap, ship_gen, metal_cap, metal_gen, range, velocity, native_ships)`:
/// capacities scale quadratically with the size class, generation and native
/// garrisons linearly.
pub open spec fn spec_base_stats(body_type: u8, size: u8) -> (int, int, int, int, int, int, int) {
    let s = size as int;
    let s_sq = s * s;
    if body_type == 0 {
        let native: int = if size == 1 {
            0
        } else {
            10 * s
        };
        (100 * s_sq, 1 * s, 0, 0, 3 + s, 1 + s, native)
    } else if body_type == 1 {
        (500 * s_sq, 0, 500 * s_sq, 0, 2 + s, 1 + s, 20 * s)
    } else if body_type == 2 {
        (50 * s_sq, 1 * s, 0, 0, 2 + s, 1 + s, 15 * s)
    } else {
        (80 * s_sq, 0, 200 * s_sq, 2 * s, 2 + s, 1 + s, 10 * s)
    }
}

/// Compute the base stats for a body type and size class.
pub fn base_stats(body_type: u8, size: u8) -> (r: (u64, u64, u64, u64, u64, u64, u64))
    ensures
        (r.0 as int, r.1 as int, r.2 as int, r.3 as int, r.4 as int, r.5 as int, r.6 as int)
            == spec_base_stats(body_type, size),
        r.6 <= r.0,
        r.0 <= 32512500,
        r.1 <= 255,
        r.2 <= 32512500,
        r.3 <= 510,
        r.4 <= 258,
        r.5 <= 256,
{
    let s = size as u64;
    proof {
        assert(s * s <= 65025) by (nonlinear_arith)
            requires
                s <= 255,
        ;
        assert(s <= s * s) by (nonlinear_arith)
            requires
                s <= 255,
        ;
    }
    let s_sq = s * s;

    if body_type == 0 {
        let native = if size == 1 {
            0u64
        } else {
            10 * s
        };
        (100 * s_sq, 1 * s, 0, 0, 3 + s, 1 + s, native)
    } else if body_type == 1 {
        (500 * s_sq, 0, 500 * s_sq, 0, 2 + s, 1 + s, 20 * s)
    } else if body_type == 2 {
        (50 * s_sq, 1 * s, 0, 0, 2 + s, 1 + s, 15 * s)
    } else {
        (80 * s_sq, 0, 200 * s_sq, 2 * s, 2 + s, 1 + s, 10 * s)
    }
}

/// One comet boost applied to the six boostable stats, as
/// `(ship_cap, ship_gen, metal_cap, metal_gen, range, velocity)`.  An
/// inactive comet changes nothing; an active one doubles exactly the stat
/// named by its kind: 0 = ship capacity, 1 = metal capacity, 2 = ship
/// generation, 3 = metal generation, 4 = range, 5 = launch velocity.
pub open spec fn spec_apply_one_comet(
    comet_val: u8,
    active: u8,
    ship_cap: int,
    ship_gen: int,
    metal_cap: int,
    metal_gen: int,
    range: int,
    velocity: int,
) -> (int, int, int, int, int, int) {
    if active == 0 {
        (ship_cap, ship_gen, metal_cap, metal_gen, range, velocity)
    } else {
        (
            if comet_val == 0 {
                2 * ship_cap
            } else {
                ship_cap
            },
            if comet_val == 2 {
                2 * ship_gen
            } else {
                ship_gen
            },
            if comet_val == 1 {
                2 * metal_cap
            } else {
                metal_cap
            },
            if comet_val == 3 {
                2 * metal_gen
            } else {
                metal_gen
            },
            if comet_val == 4 {
                2 * range
            } else {
                range
            },
            if comet_val == 5 {
                2 * velocity
            } else {
                velocity
            },
        )
    }
}

/// Apply one comet boost, conditionally on its activity flag.
pub fn apply_one_comet(
    comet_val: u8,
    active: u8,
    ship_cap: u64,
    ship_gen: u64,
    metal_cap: u64,
    metal_gen: u64,
    range: u64,
    velocity: u64,
) -> (r: (u64, u64, u64, u64, u64, u64))
    requires
        active != 0 && comet_val == 0 ==> 2 * ship_cap <= u64::MAX,
        active != 0 && comet_val == 2 ==> 2 * ship_gen <= u64::MAX,
        active != 0 && comet_val == 1 ==> 2 * metal_cap <= u64::MAX,
        active != 0 && comet_val == 3 ==> 2 * metal_gen <= u64::MAX,
        active != 0 && comet_val == 4 ==> 2 * range <= u64::MAX,
        active != 0 && comet_val == 5 ==> 2 * velocity <= u64::MAX,
    ensures
        (r.0 as int, r.1 as int, r.2 as int, r.3 as int, r.4 as int, r.5 as int)
            == spec_apply_one_comet(
            comet_val,
            active,
            ship_cap as int,
            ship_gen as int,
            metal_cap as int,
            metal_gen as int,
            range as int,
            velocity as int,
        ),
        r.0 >= ship_cap,
        r.1 >= ship_gen,
        r.2 >= metal_cap,
        r.3 >= metal_gen,
        r.4 >= range,
        r.5 >= velocity,
{
    if active == 0 {
        (ship_cap, ship_gen, metal_cap, metal_gen, range, velocity)
    } else {
        let new_ship_cap = if comet_val == 0 {
            ship_cap * 2
        } else {
            ship_cap
        };
        let new_metal_cap = if comet_val == 1 {
            metal_cap * 2
        } else {
            metal_cap
        };
        let new_ship_gen = if comet_val == 2 {
            ship_gen * 2
        } else {
            ship_gen
        };
        let new_metal_gen = if comet_val == 3 {
            metal_gen * 2
        } else {
            metal_gen
        };
        let new_range = if comet_val == 4 {
            range * 2
        } else {
            range
        };
        let new_velocity = if comet_val == 5 {
            velocity * 2
        } else {
            velocity
        };
        (new_ship_cap, new_ship_gen, new_metal_cap, new_metal_gen, new_range, new_velocity)
    }
}

/// The planet state built from noise-derived properties: base stats by body
/// type and size, the first comet applied when at least one is active, then
/// the second when two are, native ships suppressed for an owned planet,
/// metal starting at zero and the level at one.
pub open spec fn spec_build_planet_state(
    body_type: u8,
    size: u8,
    comet_count: u8,
    comet_0: u8,
    comet_1: u8,
    owner_exists: u8,
    owner_0: u64,
    owner_1: u64,
    owner_2: u64,
    owner_3: u64,
) -> PlanetState {
    let b = spec_base_stats(body_type, size);
    let c0_active: u8 = if comet_count >= 1 {
        1
    } else {
        0
    };
    let a1 = spec_apply_one_comet(comet_0, c0_active, b.0, b.1, b.2, b.3, b.4, b.5);
    let c1_active: u8 = if comet_count >= 2 {
        1
    } else {
        0
    };
    let a2 = spec_apply_one_comet(comet_1, c1_active, a1.0, a1.1, a1.2, a1.3, a1.4, a1.5);
    let ship_count: int = if owner_exists == 1 {
        0
    } else {
        b.6
    };
    PlanetState {
        body_type,
        size,
        owner_exists,
        owner_0,
        owner_1,
        owner_2,
        owner_3,
        ship_count: ship_count as u64,
        max_ship_capacity: a2.0 as u64,
        ship_gen_speed: a2.1 as u64,
        metal_count: 0,
        max_metal_capacity: a2.2 as u64,
        metal_gen_speed: a2.3 as u64,
        range: a2.4 as u64,
        launch_velocity: a2.5 as u64,
        level: 1,
        comet_count,
        comet_0,
        comet_1,
    }
}

/// Build a planet state from noise-derived properties.  The result always
/// satisfies the capacity invariant: native garrisons never exceed the base
/// ship capacity, and comet boosts only enlarge stats.
pub fn build_planet_state(
    body_type: u8,
    size: u8,
    comet_count: u8,
    comet_0: u8,
    comet_1: u8,
    owner_exists: u8,
    owner_0: u64,
    owner_1: u64,
    owner_2: u64,
    owner_3: u64,
) -> (r: PlanetState)
    ensures
        r == spec_build_planet_state(
            body_type,
            size,
            comet_count,
            comet_0,
            comet_1,
            owner_exists,
            owner_0,
            owner_1,
            owner_2,
            owner_3,
        ),
        r.wf(),
{
    let (ship_cap, ship_gen, metal_cap, metal_gen, range, velocity, native_ships) = base_stats(
        body_type,
        size,
    );

    let c0_active: u8 = if comet_count >= 1 {
        1
    } else {
        0
    };
    let (sc1, sg1, mc1, mg1, r1, v1) = apply_one_comet(
        comet_0,
        c0_active,
        ship_cap,
        ship_gen,
        metal_cap,
        metal_gen,
        range,
        velocity,
    );

    let c1_active: u8 = if comet_count >= 2 {
        1
    } else {
        0
    };
    let (sc2, sg2, mc2, mg2, r2, v2) = apply_one_comet(comet_1, c1_active, sc1, sg1, mc1, mg1, r1, v1);

    let ship_count = if owner_exists == 1 {
        0u64
    } else {
        native_ships
    };

    PlanetState {
        body_type,
        size,
        owner_exists,
        owner_0,
        owner_1,
        owner_2,
        owner_3,
        ship_count,
        max_ship_capacity: sc2,
        ship_gen_speed: sg2,
        metal_count: 0,
        max_metal_capacity: mc2,
        metal_gen_speed: mg2,
        range: r2,
        launch_velocity: v2,
        level: 1,
        comet_count,
        comet_0,
        comet_1,
    }
}

} // verus!
