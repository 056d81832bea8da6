//! Resource and combat model: lazy regeneration, distance, decay, landing
//! time, the upgrade-cost schedule and the combat law.
//!
//! All functions are total over their admitted domain and written as full
//! if/else cascades with no early return, mirroring the data-oblivious
//! discipline of the confidential circuits.

use vstd::prelude::*;

verus! {

/// Landing-slot offset standing for "never arrives" when launch velocity is
/// zero.
pub const NEVER_LANDS_OFFSET: u64 = 999999999;

/// The lazy-regeneration law: the current value of a resource given its last
/// stored value and the elapsed logical time.  The value is unchanged when
/// nothing can be generated (zero generation speed, zero game speed, or no
/// positive elapsed time); otherwise the generated amount accrues and the
/// result is capped at the capacity.
pub open spec fn spec_current_resource(
    last_count: u64,
    max_capacity: u64,
    gen_speed: u64,
    last_updated_slot: u64,
    current_slot: u64,
    game_speed: u64,
) -> int {
    if gen_speed == 0 || game_speed == 0 || current_slot <= last_updated_slot {
        last_count as int
    } else {
        let generated = gen_speed * (current_slot - last_updated_slot) / (game_speed as int);
        let total = last_count + generated;
        if total > max_capacity {
            max_capacity as int
        } else {
            total
        }
    }
}

/// True when the regeneration arithmetic for these inputs stays inside the
/// machine word.
pub open spec fn regen_in_range(
    last_count: u64,
    gen_speed: u64,
    last_updated_slot: u64,
    current_slot: u64,
    game_speed: u64,
) -> bool {
    gen_speed > 0 && game_speed > 0 && current_slot > last_updated_slot ==> {
        &&& gen_speed * (current_slot - last_updated_slot) <= u64::MAX
        &&& last_count + gen_speed * (current_slot - last_updated_slot) / (game_speed as int) <= u64::MAX
    }
}

/// Compute the current resource count by lazy regeneration.
pub fn compute_current_resource(
    last_count: u64,
    max_capacity: u64,
    gen_speed: u64,
    last_updated_slot: u64,
    current_slot: u64,
    game_speed: u64,
) -> (r: u64)
    requires
        regen_in_range(last_count, gen_speed, last_updated_slot, current_slot, game_speed),
    ensures
        r == spec_current_resource(
            last_count,
            max_capacity,
            gen_speed,
            last_updated_slot,
            current_slot,
            game_speed,
        ),
{
    if gen_speed == 0 {
        last_count
    } else if game_speed == 0 {
        last_count
    } else if current_slot <= last_updated_slot {
        last_count
    } else {
        let elapsed = current_slot - last_updated_slot;
        let generated = gen_speed * elapsed / game_speed;
        let total = last_count + generated;
        if total > max_capacity {
            max_capacity
        } else {
            total
        }
    }
}

/// Regeneration never lifts a resource above its capacity, and never lowers
/// it below its last stored value once that value respects the capacity.
pub proof fn lemma_current_resource_capped(
    last_count: u64,
    max_capacity: u64,
    gen_speed: u64,
    last_updated_slot: u64,
    current_slot: u64,
    game_speed: u64,
)
    requires
        last_count <= max_capacity,
    ensures
        last_count <= spec_current_resource(
            last_count,
            max_capacity,
            gen_speed,
            last_updated_slot,
            current_slot,
            game_speed,
        ) <= max_capacity,
{
    if gen_speed > 0 && game_speed > 0 && current_slot > last_updated_slot {
        vstd::arithmetic::div_mod::lemma_div_is_ordered_by_denominator(
            gen_speed * (current_slot - last_updated_slot),
            1,
            game_speed as int,
        );
        vstd::arithmetic::div_mod::lemma_div_basics(
            gen_speed * (current_slot - last_updated_slot),
        );
    }
}

/// Absolute difference of two coordinates.
pub open spec fn spec_abs_diff(a: u64, b: u64) -> int {
    if a > b {
        a - b
    } else {
        b - a
    }
}

/// Compute the absolute difference of two coordinates.
pub fn compute_abs_diff(a: u64, b: u64) -> (r: u64)
    ensures
        r == spec_abs_diff(a, b),
{
    if a > b {
        a - b
    } else {
        b - a
    }
}

/// Chebyshev-plus-half-Manhattan distance: the larger coordinate difference
/// plus half the smaller, a cheap stand-in for the Euclidean norm.
pub open spec fn spec_distance(sx: u64, sy: u64, tx: u64, ty: u64) -> int {
    let dx = spec_abs_diff(sx, tx);
    let dy = spec_abs_diff(sy, ty);
    let max_d = if dx > dy {
        dx
    } else {
        dy
    };
    let min_d = if dx > dy {
        dy
    } else {
        dx
    };
    max_d + min_d / 2
}

/// Compute the map distance between a source and a target coordinate.
pub fn compute_distance(sx: u64, sy: u64, tx: u64, ty: u64) -> (r: u64)
    requires
        spec_distance(sx, sy, tx, ty) <= u64::MAX,
    ensures
        r == spec_distance(sx, sy, tx, ty),
{
    let dx = compute_abs_diff(sx, tx);
    let dy = compute_abs_diff(sy, ty);
    let max_d = if dx > dy {
        dx
    } else {
        dy
    };
    let min_d = if dx > dy {
        dy
    } else {
        dx
    };
    max_d + min_d / 2
}

/// Ships surviving a journey: one ship is lost for every full range-length of
/// the distance; a zero range loses everything.
pub open spec fn spec_distance_decay(ships: u64, distance: int, range: u64) -> int {
    if range == 0 {
        0
    } else {
        let lost = distance / (range as int);
        if ships > lost {
            ships - lost
        } else {
            0
        }
    }
}

/// Apply distance decay to a shipment.
pub fn apply_distance_decay(ships: u64, distance: u64, range: u64) -> (r: u64)
    ensures
        r == spec_distance_decay(ships, distance as int, range),
        r <= ships,
{
    if range == 0 {
        0
    } else {
        let lost = distance / range;
        if ships > lost {
            ships - lost
        } else {
            0
        }
    }
}

/// The logical time at which a shipment lands: travel time grows with
/// distance and game speed and shrinks with launch velocity; a zero velocity
/// lands effectively never.
pub open spec fn spec_landing_slot(
    current_slot: u64,
    distance: int,
    velocity: u64,
    game_speed: u64,
) -> int {
    if velocity == 0 {
        current_slot + NEVER_LANDS_OFFSET
    } else {
        current_slot + distance * game_speed / (velocity as int)
    }
}

/// True when the landing-slot arithmetic for these inputs stays inside the
/// machine word.
pub open spec fn landing_in_range(
    current_slot: u64,
    distance: int,
    velocity: u64,
    game_speed: u64,
) -> bool {
    &&& velocity == 0 ==> current_slot + NEVER_LANDS_OFFSET <= u64::MAX
    &&& velocity > 0 ==> {
        &&& distance * game_speed <= u64::MAX
        &&& current_slot + distance * game_speed / (velocity as int) <= u64::MAX
    }
}

/// Compute the landing slot of a shipment.
pub fn compute_landing_slot(current_slot: u64, distance: u64, velocity: u64, game_speed: u64) -> (r:
    u64)
    requires
        landing_in_range(current_slot, distance as int, velocity, game_speed),
    ensures
        r == spec_landing_slot(current_slot, distance as int, velocity, game_speed),
{
    if velocity == 0 {
        current_slot + NEVER_LANDS_OFFSET
    } else {
        let travel_time = distance * game_speed / velocity;
        current_slot + travel_time
    }
}

/// For a fixed departure, distance and game speed, a faster launch never
/// lands later.  Strict decrease can fail under integer division: nearby
/// velocities may land on the same slot.
pub proof fn lemma_landing_slot_monotonic(
    current_slot: u64,
    distance: int,
    v1: u64,
    v2: u64,
    game_speed: u64,
)
    requires
        distance >= 0,
        0 < v1 < v2,
    ensures
        spec_landing_slot(current_slot, distance, v2, game_speed) <= spec_landing_slot(
            current_slot,
            distance,
            v1,
            game_speed,
        ),
{
    vstd::arithmetic::div_mod::lemma_div_is_ordered_by_denominator(
        distance * game_speed,
        v1 as int,
        v2 as int,
    );
}

/// A positive velocity whose travel time stays under the sentinel offset
/// lands no later than a zero-velocity launch ever would.
pub proof fn lemma_landing_slot_sentinel(
    current_slot: u64,
    distance: int,
    velocity: u64,
    game_speed: u64,
)
    requires
        distance >= 0,
        velocity > 0,
        distance * game_speed / (velocity as int) <= NEVER_LANDS_OFFSET,
    ensures
        spec_landing_slot(current_slot, distance, velocity, game_speed) <= spec_landing_slot(
            current_slot,
            distance,
            0,
            game_speed,
        ),
{
}

/// Powers of two.
pub open spec fn pow2(n: nat) -> nat
    decreases n,
{
    if n == 0 {
        1
    } else {
        2 * pow2((n - 1) as nat)
    }
}

/// The metal cost of raising a planet one level: doubles with each level,
/// clamped to the level-10 cost beyond the schedule (and below it).
pub open spec fn spec_upgrade_cost(level: u8) -> u64 {
    if level == 1 {
        200
    } else if level == 2 {
        400
    } else if level == 3 {
        800
    } else if level == 4 {
        1600
    } else if level == 5 {
        3200
    } else if level == 6 {
        6400
    } else if level == 7 {
        12800
    } else if level == 8 {
        25600
    } else if level == 9 {
        51200
    } else {
        102400
    }
}

/// The combat law, as
/// `(ships, metal, owner_exists, owner_0, owner_1, owner_2, owner_3)`.
///
/// A shipment from the current owner reinforces: both resources add and cap.
/// A hostile shipment with strictly more ships than the defender conquers:
/// ownership transfers, the surviving attacker ships (capped) become the
/// garrison and the shipped metal (capped) replaces the defender's metal.
/// Otherwise the defender wins and merely loses the attacking ship count;
/// ties favor the defender.
pub open spec fn spec_resolve_combat(
    defender_ships: u64,
    defender_metal: u64,
    max_ship_capacity: u64,
    max_metal_capacity: u64,
    owner_exists: u8,
    owner_0: u64,
    owner_1: u64,
    owner_2: u64,
    owner_3: u64,
    attacker_ships: u64,
    attacker_metal: u64,
    attacker_0: u64,
    attacker_1: u64,
    attacker_2: u64,
    attacker_3: u64,
) -> (int, int, u8, u64, u64, u64, u64) {
    let friendly = owner_exists == 1 && owner_0 == attacker_0 && owner_1 == attacker_1 && owner_2
        == attacker_2 && owner_3 == attacker_3;
    if friendly {
        let added_ships = defender_ships + attacker_ships;
        let capped_ships: int = if added_ships > max_ship_capacity {
            max_ship_capacity as int
        } else {
            added_ships
        };
        let added_metal = defender_metal + attacker_metal;
        let capped_metal: int = if added_metal > max_metal_capacity {
            max_metal_capacity as int
        } else {
            added_metal
        };
        (capped_ships, capped_metal, owner_exists, owner_0, owner_1, owner_2, owner_3)
    } else if attacker_ships > defender_ships {
        let remaining = attacker_ships - defender_ships;
        let capped: int = if remaining > max_ship_capacity {
            max_ship_capacity as int
        } else {
            remaining
        };
        let metal_capped: int = if attacker_metal > max_metal_capacity {
            max_metal_capacity as int
        } else {
            attacker_metal as int
        };
        (capped, metal_capped, 1u8, attacker_0, attacker_1, attacker_2, attacker_3)
    } else {
        (
            defender_ships - attacker_ships,
            defender_metal as int,
            owner_exists,
            owner_0,
            owner_1,
            owner_2,
            owner_3,
        )
    }
}

/// Resolve one landed shipment against a defender.
pub fn resolve_combat(
    defender_ships: u64,
    defender_metal: u64,
    max_ship_capacity: u64,
    max_metal_capacity: u64,
    owner_exists: u8,
    owner_0: u64,
    owner_1: u64,
    owner_2: u64,
    owner_3: u64,
    attacker_ships: u64,
    attacker_metal: u64,
    attacker_0: u64,
    attacker_1: u64,
    attacker_2: u64,
    attacker_3: u64,
) -> (r: (u64, u64, u8, u64, u64, u64, u64))
    requires
        defender_ships + attacker_ships <= u64::MAX,
        defender_metal + attacker_metal <= u64::MAX,
    ensures
        (r.0 as int, r.1 as int, r.2, r.3, r.4, r.5, r.6) == spec_resolve_combat(
            defender_ships,
            defender_metal,
            max_ship_capacity,
            max_metal_capacity,
            owner_exists,
            owner_0,
            owner_1,
            owner_2,
            owner_3,
            attacker_ships,
            attacker_metal,
            attacker_0,
            attacker_1,
            attacker_2,
            attacker_3,
        ),
        defender_ships <= max_ship_capacity ==> r.0 <= max_ship_capacity,
        defender_metal <= max_metal_capacity ==> r.1 <= max_metal_capacity,
{
    let friendly = owner_exists == 1 && owner_0 == attacker_0 && owner_1 == attacker_1 && owner_2
        == attacker_2 && owner_3 == attacker_3;
    if friendly {
        let added_ships = defender_ships + attacker_ships;
        let capped_ships = if added_ships > max_ship_capacity {
            max_ship_capacity
        } else {
            added_ships
        };
        let added_metal = defender_metal + attacker_metal;
        let capped_metal = if added_metal > max_metal_capacity {
            max_metal_capacity
        } else {
            added_metal
        };
        (capped_ships, capped_metal, owner_exists, owner_0, owner_1, owner_2, owner_3)
    } else if attacker_ships > defender_ships {
        let remaining = attacker_ships - defender_ships;
        let capped = if remaining > max_ship_capacity {
            max_ship_capacity
        } else {
            remaining
        };
        let metal_capped = if attacker_metal > max_metal_capacity {
            max_metal_capacity
        } else {
            attacker_metal
        };
        (capped, metal_capped, 1, attacker_0, attacker_1, attacker_2, attacker_3)
    } else {
        (
            defender_ships - attacker_ships,
            defender_metal,
            owner_exists,
            owner_0,
            owner_1,
            owner_2,
            owner_3,
        )
    }
}

/// Compute the upgrade cost for a level.
pub fn upgrade_cost(level: u8) -> (r: u64)
    ensures
        r == spec_upgrade_cost(level),
        1 <= level <= 10 ==> r == 100 * pow2(level as nat),
{
    proof {
        reveal_with_fuel(pow2, 11);
    }
    let base: u64 = 100;
    let mult: u64 = if level == 1 {
        2
    } else if level == 2 {
        4
    } else if level == 3 {
        8
    } else if level == 4 {
        16
    } else if level == 5 {
        32
    } else if level == 6 {
        64
    } else if level == 7 {
        128
    } else if level == 8 {
        256
    } else if level == 9 {
        512
    } else {
        1024
    };
    base * mult
}

} // verus!
