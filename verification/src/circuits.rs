//! The confidential circuit set: the five state transitions evaluated
//! obliviously over secret planet state.
//!
//! Each circuit is a pure, total function from its inputs to a new state and
//! a small set of revealed scalars.  There is no abort path: invalidity is
//! reported through a revealed flag, and a rejected move leaves the state
//! byte-for-byte unchanged, while a flush or upgrade still applies the
//! unconditional lazy regeneration.  Validity is a conjunction of
//! predicates, mirroring the multiplicative AND over 0/1 values used in the
//! arithmetic-circuit execution model.

use vstd::prelude::*;

use crate::noise::{
    comet_from_byte, comet_from_byte_avoiding, determine_body_type, determine_comet_count,
    determine_size, extract_byte, mix_a, mix_b, mix_c, mix_d, mix_hash, spec_comet_from_byte,
    spec_comet_from_byte_avoiding, spec_determine_body_type, spec_determine_comet_count,
    spec_determine_size, spec_extract_byte,
};
use crate::planet::{build_planet_state, spec_build_planet_state, PlanetState};
use crate::resources::{
    apply_distance_decay, compute_current_resource, compute_distance, compute_landing_slot,
    landing_in_range, regen_in_range, resolve_combat, spec_current_resource, spec_distance,
    spec_distance_decay, spec_landing_slot, spec_resolve_combat, spec_upgrade_cost, upgrade_cost,
};

verus! {

/// Marker for an absent comet slot.
pub const NO_COMET: u8 = 255;

// ===========================================================================
// Input structs
// ===========================================================================

/// Input to `init_planet`: the secret coordinate, the game identifier and
/// the game's classification thresholds.
#[derive(Clone, Copy, PartialEq, Eq, Structural, Debug)]
pub struct InitPlanetInput {
    pub x: u64,
    pub y: u64,
    pub game_id: u64,
    pub dead_space_threshold: u8,
    pub planet_threshold: u8,
    pub quasar_threshold: u8,
    pub spacetime_rip_threshold: u8,
    pub size_threshold_1: u8,
    pub size_threshold_2: u8,
    pub size_threshold_3: u8,
    pub size_threshold_4: u8,
    pub size_threshold_5: u8,
}

/// Input to `init_spawn_planet`: as `init_planet`, plus the identity of the
/// player claiming the spawn.
#[derive(Clone, Copy, PartialEq, Eq, Structural, Debug)]
pub struct InitSpawnPlanetInput {
    pub x: u64,
    pub y: u64,
    pub game_id: u64,
    pub dead_space_threshold: u8,
    pub planet_threshold: u8,
    pub quasar_threshold: u8,
    pub spacetime_rip_threshold: u8,
    pub size_threshold_1: u8,
    pub size_threshold_2: u8,
    pub size_threshold_3: u8,
    pub size_threshold_4: u8,
    pub size_threshold_5: u8,
    pub player_key_0: u64,
    pub player_key_1: u64,
    pub player_key_2: u64,
    pub player_key_3: u64,
}

/// Input to `process_move`: the requesting identity, the shipment, both
/// coordinates and the timing context.
#[derive(Clone, Copy, PartialEq, Eq, Structural, Debug)]
pub struct ProcessMoveInput {
    pub player_key_0: u64,
    pub player_key_1: u64,
    pub player_key_2: u64,
    pub player_key_3: u64,
    pub ships_to_send: u64,
    pub metal_to_send: u64,
    pub source_x: u64,
    pub source_y: u64,
    pub target_x: u64,
    pub target_y: u64,
    pub current_slot: u64,
    pub game_speed: u64,
    pub last_updated_slot: u64,
}

/// Input to `flush_planet`: the timing context and at most one landed move.
#[derive(Clone, Copy, PartialEq, Eq, Structural, Debug)]
pub struct FlushPlanetInput {
    pub current_slot: u64,
    pub game_speed: u64,
    pub last_updated_slot: u64,
    pub move_ships: u64,
    pub move_metal: u64,
    pub move_attacker_0: u64,
    pub move_attacker_1: u64,
    pub move_attacker_2: u64,
    pub move_attacker_3: u64,
    /// 1 when the move's landing slot has been reached.
    pub move_has_landed: u8,
}

/// Input to `upgrade_planet`: the requesting identity, the chosen focus
/// (0 = range, 1 = launch velocity) and the timing context.
#[derive(Clone, Copy, PartialEq, Eq, Structural, Debug)]
pub struct UpgradePlanetInput {
    pub player_key_0: u64,
    pub player_key_1: u64,
    pub player_key_2: u64,
    pub player_key_3: u64,
    pub focus: u8,
    pub current_slot: u64,
    pub game_speed: u64,
    pub last_updated_slot: u64,
}

// ===========================================================================
// Revealed output structs
// ===========================================================================

/// Revealed by `init_planet`: the four mixing words and the is-body flag.
#[derive(Clone, Copy, PartialEq, Eq, Structural, Debug)]
pub struct InitPlanetRevealed {
    pub hash_0: u64,
    pub hash_1: u64,
    pub hash_2: u64,
    pub hash_3: u64,
    pub valid: u8,
}

/// Revealed by `init_spawn_planet`: as `init_planet`, plus the distinct
/// spawn-validity flag, so a client can tell dead space from a wrong body
/// type or size.
#[derive(Clone, Copy, PartialEq, Eq, Structural, Debug)]
pub struct SpawnPlanetRevealed {
    pub hash_0: u64,
    pub hash_1: u64,
    pub hash_2: u64,
    pub hash_3: u64,
    pub valid: u8,
    pub is_spawn_valid: u8,
}

/// Revealed by `process_move`: this transaction's outcome only, never the
/// secret totals.
#[derive(Clone, Copy, PartialEq, Eq, Structural, Debug)]
pub struct MoveRevealed {
    pub landing_slot: u64,
    pub surviving_ships: u64,
    pub valid: u8,
}

/// Revealed by `flush_planet`.
#[derive(Clone, Copy, PartialEq, Eq, Structural, Debug)]
pub struct FlushRevealed {
    pub success: u8,
}

/// Revealed by `upgrade_planet`.
#[derive(Clone, Copy, PartialEq, Eq, Structural, Debug)]
pub struct UpgradeRevealed {
    pub success: u8,
    pub new_level: u8,
}

/// The payload of a shipment in transit: what arrives and who sent it.
#[derive(Clone, Copy, PartialEq, Eq, Structural, Debug)]
pub struct PendingMoveData {
    pub ships_arriving: u64,
    pub metal_arriving: u64,
    pub attacker_0: u64,
    pub attacker_1: u64,
    pub attacker_2: u64,
    pub attacker_3: u64,
}

// ===========================================================================
// Shared derivation
// ===========================================================================

/// True when the coordinate hashes to a celestial body at all: its lowest
/// hash digit reaches the dead-space threshold.
pub open spec fn spec_is_body(h0: u64, dead_space_threshold: u8) -> bool {
    spec_extract_byte(h0, 0) >= dead_space_threshold
}

/// The planet state derived from the first mixing word and the thresholds:
/// body type from digit 1, size from digit 2, comet count from digit 3 and
/// comet kinds from digits 4 and 5, then built into a full state.
pub open spec fn spec_derived_state(
    h0: u64,
    planet_threshold: u8,
    quasar_threshold: u8,
    spacetime_rip_threshold: u8,
    t1: u8,
    t2: u8,
    t3: u8,
    t4: u8,
    t5: u8,
    owner_exists: u8,
    owner_0: u64,
    owner_1: u64,
    owner_2: u64,
    owner_3: u64,
) -> PlanetState {
    let body_type = spec_determine_body_type(
        spec_extract_byte(h0, 1),
        planet_threshold,
        quasar_threshold,
        spacetime_rip_threshold,
    );
    let size = spec_determine_size(spec_extract_byte(h0, 2), t1, t2, t3, t4, t5);
    let comet_count = spec_determine_comet_count(spec_extract_byte(h0, 3));
    let comet_0 = spec_comet_from_byte(spec_extract_byte(h0, 4));
    let comet_1_raw = spec_comet_from_byte_avoiding(spec_extract_byte(h0, 5), comet_0);
    let comet_1 = if comet_count >= 2 {
        comet_1_raw
    } else {
        NO_COMET
    };
    let comet_0_final = if comet_count >= 1 {
        comet_0
    } else {
        NO_COMET
    };
    spec_build_planet_state(
        body_type,
        size,
        comet_count,
        comet_0_final,
        comet_1,
        owner_exists,
        owner_0,
        owner_1,
        owner_2,
        owner_3,
    )
}

// ===========================================================================
// init_planet
// ===========================================================================

/// The first mixing word of an `init_planet` input, under the circuit's
/// range precondition.
pub open spec fn spec_init_h0(input: InitPlanetInput) -> u64 {
    mix_a(input.x as int, input.y as int, input.game_id as int) as u64
}

/// The state produced by `init_planet`: a neutral (unowned) body derived
/// from the hash.
pub open spec fn spec_init_planet_state(input: InitPlanetInput) -> PlanetState {
    spec_derived_state(
        spec_init_h0(input),
        input.planet_threshold,
        input.quasar_threshold,
        input.spacetime_rip_threshold,
        input.size_threshold_1,
        input.size_threshold_2,
        input.size_threshold_3,
        input.size_threshold_4,
        input.size_threshold_5,
        0,
        0,
        0,
        0,
        0,
    )
}

/// The scalars revealed by `init_planet`.
pub open spec fn spec_init_planet_revealed(input: InitPlanetInput) -> InitPlanetRevealed {
    let x = input.x as int;
    let y = input.y as int;
    let g = input.game_id as int;
    InitPlanetRevealed {
        hash_0: mix_a(x, y, g) as u64,
        hash_1: mix_b(x, y, g) as u64,
        hash_2: mix_c(x, y, g) as u64,
        hash_3: mix_d(x, y, g) as u64,
        valid: if spec_is_body(spec_init_h0(input), input.dead_space_threshold) {
            1
        } else {
            0
        },
    }
}

/// Create a new planet from a secret coordinate.  A coordinate in dead space
/// still yields a state, with the revealed `valid` flag 0; the circuit never
/// aborts.
pub fn init_planet(input: &InitPlanetInput) -> (r: (PlanetState, InitPlanetRevealed))
    requires
        mix_d(input.x as int, input.y as int, input.game_id as int) <= u64::MAX,
    ensures
        r.0 == spec_init_planet_state(*input),
        r.1 == spec_init_planet_revealed(*input),
        r.0.wf(),
{
    let (h0, h1, h2, h3) = mix_hash(input.x, input.y, input.game_id);

    let byte0 = extract_byte(h0, 0);
    let byte1 = extract_byte(h0, 1);
    let byte2 = extract_byte(h0, 2);
    let byte3 = extract_byte(h0, 3);
    let byte4 = extract_byte(h0, 4);
    let byte5 = extract_byte(h0, 5);

    let is_body: u8 = if byte0 >= input.dead_space_threshold {
        1
    } else {
        0
    };

    let body_type = determine_body_type(
        byte1,
        input.planet_threshold,
        input.quasar_threshold,
        input.spacetime_rip_threshold,
    );

    let size = determine_size(
        byte2,
        input.size_threshold_1,
        input.size_threshold_2,
        input.size_threshold_3,
        input.size_threshold_4,
        input.size_threshold_5,
    );

    let comet_count = determine_comet_count(byte3);
    let comet_0 = comet_from_byte(byte4);
    let comet_1_raw = comet_from_byte_avoiding(byte5, comet_0);
    let comet_1 = if comet_count >= 2 {
        comet_1_raw
    } else {
        NO_COMET
    };
    let comet_0_final = if comet_count >= 1 {
        comet_0
    } else {
        NO_COMET
    };

    let state = build_planet_state(
        body_type,
        size,
        comet_count,
        comet_0_final,
        comet_1,
        0,
        0,
        0,
        0,
        0,
    );

    let revealed = InitPlanetRevealed { hash_0: h0, hash_1: h1, hash_2: h2, hash_3: h3, valid: is_body };

    (state, revealed)
}

// ===========================================================================
// init_spawn_planet
// ===========================================================================

/// The first mixing word of an `init_spawn_planet` input.
pub open spec fn spec_spawn_h0(input: InitSpawnPlanetInput) -> u64 {
    mix_a(input.x as int, input.y as int, input.game_id as int) as u64
}

/// A coordinate is a valid spawn target exactly when it is a body at all,
/// that body is Planet-typed, and its size class is 1 ("Miniscule").
pub open spec fn spec_spawn_valid(input: InitSpawnPlanetInput) -> bool {
    let h0 = spec_spawn_h0(input);
    &&& spec_is_body(h0, input.dead_space_threshold)
    &&& spec_determine_body_type(
        spec_extract_byte(h0, 1),
        input.planet_threshold,
        input.quasar_threshold,
        input.spacetime_rip_threshold,
    ) == 0
    &&& spec_determine_size(
        spec_extract_byte(h0, 2),
        input.size_threshold_1,
        input.size_threshold_2,
        input.size_threshold_3,
        input.size_threshold_4,
        input.size_threshold_5,
    ) == 1
}

/// The state produced by `init_spawn_planet`: owned by the requesting
/// player exactly when the spawn is valid, in which case native ships are
/// suppressed and the garrison starts at zero.
pub open spec fn spec_init_spawn_planet_state(input: InitSpawnPlanetInput) -> PlanetState {
    let valid = spec_spawn_valid(input);
    let owner_exists: u8 = if valid {
        1
    } else {
        0
    };
    spec_derived_state(
        spec_spawn_h0(input),
        input.planet_threshold,
        input.quasar_threshold,
        input.spacetime_rip_threshold,
        input.size_threshold_1,
        input.size_threshold_2,
        input.size_threshold_3,
        input.size_threshold_4,
        input.size_threshold_5,
        owner_exists,
        if valid {
            input.player_key_0
        } else {
            0
        },
        if valid {
            input.player_key_1
        } else {
            0
        },
        if valid {
            input.player_key_2
        } else {
            0
        },
        if valid {
            input.player_key_3
        } else {
            0
        },
    )
}

/// The scalars revealed by `init_spawn_planet`.
pub open spec fn spec_init_spawn_planet_revealed(input: InitSpawnPlanetInput)
    -> SpawnPlanetRevealed {
    let x = input.x as int;
    let y = input.y as int;
    let g = input.game_id as int;
    SpawnPlanetRevealed {
        hash_0: mix_a(x, y, g) as u64,
        hash_1: mix_b(x, y, g) as u64,
        hash_2: mix_c(x, y, g) as u64,
        hash_3: mix_d(x, y, g) as u64,
        valid: if spec_is_body(spec_spawn_h0(input), input.dead_space_threshold) {
            1
        } else {
            0
        },
        is_spawn_valid: if spec_spawn_valid(input) {
            1
        } else {
            0
        },
    }
}

/// Create a planet and claim it as a spawn in one step.  Ownership is set
/// only when the derived body is a size-1 Planet; the two revealed flags
/// distinguish "not a body" from "not a spawnable body".
pub fn init_spawn_planet(input: &InitSpawnPlanetInput) -> (r: (PlanetState, SpawnPlanetRevealed))
    requires
        mix_d(input.x as int, input.y as int, input.game_id as int) <= u64::MAX,
    ensures
        r.0 == spec_init_spawn_planet_state(*input),
        r.1 == spec_init_spawn_planet_revealed(*input),
        r.0.wf(),
{
    let (h0, h1, h2, h3) = mix_hash(input.x, input.y, input.game_id);

    let byte0 = extract_byte(h0, 0);
    let byte1 = extract_byte(h0, 1);
    let byte2 = extract_byte(h0, 2);
    let byte3 = extract_byte(h0, 3);
    let byte4 = extract_byte(h0, 4);
    let byte5 = extract_byte(h0, 5);

    let is_body: u8 = if byte0 >= input.dead_space_threshold {
        1
    } else {
        0
    };

    let body_type = determine_body_type(
        byte1,
        input.planet_threshold,
        input.quasar_threshold,
        input.spacetime_rip_threshold,
    );

    let size = determine_size(
        byte2,
        input.size_threshold_1,
        input.size_threshold_2,
        input.size_threshold_3,
        input.size_threshold_4,
        input.size_threshold_5,
    );

    let comet_count = determine_comet_count(byte3);
    let comet_0 = comet_from_byte(byte4);
    let comet_1_raw = comet_from_byte_avoiding(byte5, comet_0);
    let comet_1 = if comet_count >= 2 {
        comet_1_raw
    } else {
        NO_COMET
    };
    let comet_0_final = if comet_count >= 1 {
        comet_0
    } else {
        NO_COMET
    };

    let is_planet: u8 = if body_type == 0 {
        1
    } else {
        0
    };
    let is_miniscule: u8 = if size == 1 {
        1
    } else {
        0
    };
    let is_spawn_valid = is_body * is_planet * is_miniscule;

    let owner_exists = is_spawn_valid;
    let o0 = if is_spawn_valid == 1 {
        input.player_key_0
    } else {
        0u64
    };
    let o1 = if is_spawn_valid == 1 {
        input.player_key_1
    } else {
        0u64
    };
    let o2 = if is_spawn_valid == 1 {
        input.player_key_2
    } else {
        0u64
    };
    let o3 = if is_spawn_valid == 1 {
        input.player_key_3
    } else {
        0u64
    };

    let state = build_planet_state(
        body_type,
        size,
        comet_count,
        comet_0_final,
        comet_1,
        owner_exists,
        o0,
        o1,
        o2,
        o3,
    );

    let revealed = SpawnPlanetRevealed {
        hash_0: h0,
        hash_1: h1,
        hash_2: h2,
        hash_3: h3,
        valid: is_body,
        is_spawn_valid,
    };

    (state, revealed)
}

// ===========================================================================
// Laws of the derivation
// ===========================================================================

/// For one coordinate, game and threshold set, the plain and the spawn
/// initialisation derive the same static body: same type, size, comets,
/// capacities, generation speeds, range and launch velocity.  They differ
/// only in ownership and the suppressed native garrison.
pub proof fn lemma_init_derivations_agree(a: InitPlanetInput, b: InitSpawnPlanetInput)
    requires
        a.x == b.x,
        a.y == b.y,
        a.game_id == b.game_id,
        a.planet_threshold == b.planet_threshold,
        a.quasar_threshold == b.quasar_threshold,
        a.spacetime_rip_threshold == b.spacetime_rip_threshold,
        a.size_threshold_1 == b.size_threshold_1,
        a.size_threshold_2 == b.size_threshold_2,
        a.size_threshold_3 == b.size_threshold_3,
        a.size_threshold_4 == b.size_threshold_4,
        a.size_threshold_5 == b.size_threshold_5,
    ensures
        spec_init_planet_state(a).body_type == spec_init_spawn_planet_state(b).body_type,
        spec_init_planet_state(a).size == spec_init_spawn_planet_state(b).size,
        spec_init_planet_state(a).comet_count == spec_init_spawn_planet_state(b).comet_count,
        spec_init_planet_state(a).comet_0 == spec_init_spawn_planet_state(b).comet_0,
        spec_init_planet_state(a).comet_1 == spec_init_spawn_planet_state(b).comet_1,
        spec_init_planet_state(a).max_ship_capacity == spec_init_spawn_planet_state(
            b,
        ).max_ship_capacity,
        spec_init_planet_state(a).ship_gen_speed == spec_init_spawn_planet_state(b).ship_gen_speed,
        spec_init_planet_state(a).max_metal_capacity == spec_init_spawn_planet_state(
            b,
        ).max_metal_capacity,
        spec_init_planet_state(a).metal_gen_speed == spec_init_spawn_planet_state(
            b,
        ).metal_gen_speed,
        spec_init_planet_state(a).range == spec_init_spawn_planet_state(b).range,
        spec_init_planet_state(a).launch_velocity == spec_init_spawn_planet_state(
            b,
        ).launch_velocity,
{
}

/// A coordinate in dead space never spawns: both revealed flags are 0,
/// whatever the remaining hash digits classify.
pub proof fn lemma_dead_space_never_spawns(input: InitSpawnPlanetInput)
    requires
        spec_extract_byte(spec_spawn_h0(input), 0) < input.dead_space_threshold,
    ensures
        spec_init_spawn_planet_revealed(input).valid == 0,
        spec_init_spawn_planet_revealed(input).is_spawn_valid == 0,
{
}

// ===========================================================================
// process_move
// ===========================================================================

/// The source planet's current ship count at the move's timing context.
pub open spec fn spec_move_current_ships(state: PlanetState, mv: ProcessMoveInput) -> int {
    spec_current_resource(
        state.ship_count,
        state.max_ship_capacity,
        state.ship_gen_speed,
        mv.last_updated_slot,
        mv.current_slot,
        mv.game_speed,
    )
}

/// The source planet's current metal count at the move's timing context.
pub open spec fn spec_move_current_metal(state: PlanetState, mv: ProcessMoveInput) -> int {
    spec_current_resource(
        state.metal_count,
        state.max_metal_capacity,
        state.metal_gen_speed,
        mv.last_updated_slot,
        mv.current_slot,
        mv.game_speed,
    )
}

/// The distance the shipment travels.
pub open spec fn spec_move_distance(mv: ProcessMoveInput) -> int {
    spec_distance(mv.source_x, mv.source_y, mv.target_x, mv.target_y)
}

/// The ships surviving the journey after distance decay.
pub open spec fn spec_move_surviving(state: PlanetState, mv: ProcessMoveInput) -> int {
    spec_distance_decay(mv.ships_to_send, spec_move_distance(mv), state.range)
}

/// The slot the shipment lands at.
pub open spec fn spec_move_landing_slot(state: PlanetState, mv: ProcessMoveInput) -> int {
    spec_landing_slot(mv.current_slot, spec_move_distance(mv), state.launch_velocity, mv.game_speed)
}

/// A move is valid exactly when the requester owns the source, at least one
/// ship is requested and available, enough metal is available, and at least
/// one ship would survive the journey.
pub open spec fn spec_move_valid(state: PlanetState, mv: ProcessMoveInput) -> bool {
    &&& state.spec_owned_by(mv.player_key_0, mv.player_key_1, mv.player_key_2, mv.player_key_3)
    &&& mv.ships_to_send > 0
    &&& spec_move_current_ships(state, mv) >= mv.ships_to_send
    &&& spec_move_current_metal(state, mv) >= mv.metal_to_send
    &&& spec_move_surviving(state, mv) > 0
}

/// The source state after `process_move`: a valid move deducts the full
/// requested ships and metal from the regenerated counts; an invalid one
/// hands the state back byte-for-byte unchanged — no partial effect of any
/// kind on a rejected action.
pub open spec fn spec_process_move_state(state: PlanetState, mv: ProcessMoveInput) -> PlanetState {
    let cs = spec_move_current_ships(state, mv);
    let cm = spec_move_current_metal(state, mv);
    if spec_move_valid(state, mv) {
        PlanetState {
            ship_count: (cs - mv.ships_to_send) as u64,
            metal_count: (cm - mv.metal_to_send) as u64,
            ..state
        }
    } else {
        state
    }
}

/// The in-flight payload produced by `process_move`: the surviving ships and
/// the shipped metal for a valid move, empty otherwise; the sender identity
/// travels with it either way.
pub open spec fn spec_process_move_data(state: PlanetState, mv: ProcessMoveInput)
    -> PendingMoveData {
    let valid = spec_move_valid(state, mv);
    PendingMoveData {
        ships_arriving: if valid {
            spec_move_surviving(state, mv) as u64
        } else {
            0
        },
        metal_arriving: if valid {
            mv.metal_to_send
        } else {
            0
        },
        attacker_0: mv.player_key_0,
        attacker_1: mv.player_key_1,
        attacker_2: mv.player_key_2,
        attacker_3: mv.player_key_3,
    }
}

/// The scalars revealed by `process_move`: landing slot and surviving count
/// for a valid move, zeroes otherwise, and the validity flag itself.
pub open spec fn spec_process_move_revealed(state: PlanetState, mv: ProcessMoveInput)
    -> MoveRevealed {
    let valid = spec_move_valid(state, mv);
    MoveRevealed {
        landing_slot: if valid {
            spec_move_landing_slot(state, mv) as u64
        } else {
            0
        },
        surviving_ships: if valid {
            spec_move_surviving(state, mv) as u64
        } else {
            0
        },
        valid: if valid {
            1
        } else {
            0
        },
    }
}

/// Validate and process a ship movement from a source planet.
///
/// Validity is the conjunction of owner match, ship availability, metal
/// availability and journey survival; a rejected move leaves the source
/// byte-for-byte unchanged.
pub fn process_move(state: &PlanetState, mv: &ProcessMoveInput) -> (r: (
    PlanetState,
    PendingMoveData,
    MoveRevealed,
))
    requires
        regen_in_range(
            state.ship_count,
            state.ship_gen_speed,
            mv.last_updated_slot,
            mv.current_slot,
            mv.game_speed,
        ),
        regen_in_range(
            state.metal_count,
            state.metal_gen_speed,
            mv.last_updated_slot,
            mv.current_slot,
            mv.game_speed,
        ),
        spec_move_distance(*mv) <= u64::MAX,
        landing_in_range(
            mv.current_slot,
            spec_move_distance(*mv),
            state.launch_velocity,
            mv.game_speed,
        ),
    ensures
        r.0 == spec_process_move_state(*state, *mv),
        r.1 == spec_process_move_data(*state, *mv),
        r.2 == spec_process_move_revealed(*state, *mv),
        state.wf() ==> r.0.wf(),
{
    proof {
        if state.wf() {
            crate::resources::lemma_current_resource_capped(
                state.ship_count,
                state.max_ship_capacity,
                state.ship_gen_speed,
                mv.last_updated_slot,
                mv.current_slot,
                mv.game_speed,
            );
            crate::resources::lemma_current_resource_capped(
                state.metal_count,
                state.max_metal_capacity,
                state.metal_gen_speed,
                mv.last_updated_slot,
                mv.current_slot,
                mv.game_speed,
            );
        }
    }
    let owner_match: u8 = if state.owner_exists == 1 && state.owner_0 == mv.player_key_0
        && state.owner_1 == mv.player_key_1 && state.owner_2 == mv.player_key_2 && state.owner_3
        == mv.player_key_3 {
        1
    } else {
        0
    };

    let current_ships = compute_current_resource(
        state.ship_count,
        state.max_ship_capacity,
        state.ship_gen_speed,
        mv.last_updated_slot,
        mv.current_slot,
        mv.game_speed,
    );
    let current_metal = compute_current_resource(
        state.metal_count,
        state.max_metal_capacity,
        state.metal_gen_speed,
        mv.last_updated_slot,
        mv.current_slot,
        mv.game_speed,
    );

    let has_ships: u8 = if current_ships >= mv.ships_to_send && mv.ships_to_send > 0 {
        1
    } else {
        0
    };
    let has_metal: u8 = if current_metal >= mv.metal_to_send {
        1
    } else {
        0
    };

    let distance = compute_distance(mv.source_x, mv.source_y, mv.target_x, mv.target_y);
    let surviving = apply_distance_decay(mv.ships_to_send, distance, state.range);
    let ships_survive: u8 = if surviving > 0 {
        1
    } else {
        0
    };

    let valid = owner_match * has_ships * has_metal * ships_survive;

    let landing_slot = compute_landing_slot(
        mv.current_slot,
        distance,
        state.launch_velocity,
        mv.game_speed,
    );

    let new_ships = if valid == 1 {
        current_ships - mv.ships_to_send
    } else {
        state.ship_count
    };
    let new_metal = if valid == 1 {
        current_metal - mv.metal_to_send
    } else {
        state.metal_count
    };

    let updated_source = PlanetState {
        body_type: state.body_type,
        size: state.size,
        owner_exists: state.owner_exists,
        owner_0: state.owner_0,
        owner_1: state.owner_1,
        owner_2: state.owner_2,
        owner_3: state.owner_3,
        ship_count: new_ships,
        max_ship_capacity: state.max_ship_capacity,
        ship_gen_speed: state.ship_gen_speed,
        metal_count: new_metal,
        max_metal_capacity: state.max_metal_capacity,
        metal_gen_speed: state.metal_gen_speed,
        range: state.range,
        launch_velocity: state.launch_velocity,
        level: state.level,
        comet_count: state.comet_count,
        comet_0: state.comet_0,
        comet_1: state.comet_1,
    };

    let move_data = PendingMoveData {
        ships_arriving: if valid == 1 {
            surviving
        } else {
            0
        },
        metal_arriving: if valid == 1 {
            mv.metal_to_send
        } else {
            0
        },
        attacker_0: mv.player_key_0,
        attacker_1: mv.player_key_1,
        attacker_2: mv.player_key_2,
        attacker_3: mv.player_key_3,
    };

    let revealed = MoveRevealed {
        landing_slot: if valid == 1 {
            landing_slot
        } else {
            0
        },
        surviving_ships: if valid == 1 {
            surviving
        } else {
            0
        },
        valid,
    };

    (updated_source, move_data, revealed)
}

// ===========================================================================
// flush_planet
// ===========================================================================

/// The defending planet's ship count after regeneration; an unowned body
/// never regenerates.
pub open spec fn spec_flush_gen_ships(state: PlanetState, fi: FlushPlanetInput) -> int {
    if state.owner_exists == 1 {
        spec_current_resource(
            state.ship_count,
            state.max_ship_capacity,
            state.ship_gen_speed,
            fi.last_updated_slot,
            fi.current_slot,
            fi.game_speed,
        )
    } else {
        state.ship_count as int
    }
}

/// The defending planet's metal count after regeneration.
pub open spec fn spec_flush_gen_metal(state: PlanetState, fi: FlushPlanetInput) -> int {
    if state.owner_exists == 1 {
        spec_current_resource(
            state.metal_count,
            state.max_metal_capacity,
            state.metal_gen_speed,
            fi.last_updated_slot,
            fi.current_slot,
            fi.game_speed,
        )
    } else {
        state.metal_count as int
    }
}

/// The state after `flush_planet`: regeneration always applies; when a move
/// has landed, the combat law then resolves it against the regenerated
/// state.
pub open spec fn spec_flush_state(state: PlanetState, fi: FlushPlanetInput) -> PlanetState {
    let gs = spec_flush_gen_ships(state, fi);
    let gm = spec_flush_gen_metal(state, fi);
    if fi.move_has_landed == 0 {
        PlanetState { ship_count: gs as u64, metal_count: gm as u64, ..state }
    } else {
        let c = spec_resolve_combat(
            gs as u64,
            gm as u64,
            state.max_ship_capacity,
            state.max_metal_capacity,
            state.owner_exists,
            state.owner_0,
            state.owner_1,
            state.owner_2,
            state.owner_3,
            fi.move_ships,
            fi.move_metal,
            fi.move_attacker_0,
            fi.move_attacker_1,
            fi.move_attacker_2,
            fi.move_attacker_3,
        );
        PlanetState {
            ship_count: c.0 as u64,
            metal_count: c.1 as u64,
            owner_exists: c.2,
            owner_0: c.3,
            owner_1: c.4,
            owner_2: c.5,
            owner_3: c.6,
            ..state
        }
    }
}

/// Apply lazy regeneration and then at most one landed move to a planet.
///
/// Moves must be flushed one at a time in landing-slot order, because the
/// combat outcome depends on the state at the moment of arrival; that order
/// is enforced structurally by the pending-move queue.
pub fn flush_planet(state: &PlanetState, fi: &FlushPlanetInput) -> (r: (PlanetState, FlushRevealed))
    requires
        state.wf(),
        state.owner_exists == 1 ==> regen_in_range(
            state.ship_count,
            state.ship_gen_speed,
            fi.last_updated_slot,
            fi.current_slot,
            fi.game_speed,
        ),
        state.owner_exists == 1 ==> regen_in_range(
            state.metal_count,
            state.metal_gen_speed,
            fi.last_updated_slot,
            fi.current_slot,
            fi.game_speed,
        ),
        state.max_ship_capacity + fi.move_ships <= u64::MAX,
        state.max_metal_capacity + fi.move_metal <= u64::MAX,
    ensures
        r.0 == spec_flush_state(*state, *fi),
        r.1 == (FlushRevealed { success: 1 }),
        r.0.wf(),
{
    proof {
        crate::resources::lemma_current_resource_capped(
            state.ship_count,
            state.max_ship_capacity,
            state.ship_gen_speed,
            fi.last_updated_slot,
            fi.current_slot,
            fi.game_speed,
        );
        crate::resources::lemma_current_resource_capped(
            state.metal_count,
            state.max_metal_capacity,
            state.metal_gen_speed,
            fi.last_updated_slot,
            fi.current_slot,
            fi.game_speed,
        );
    }
    let gen_ships = if state.owner_exists == 1 {
        compute_current_resource(
            state.ship_count,
            state.max_ship_capacity,
            state.ship_gen_speed,
            fi.last_updated_slot,
            fi.current_slot,
            fi.game_speed,
        )
    } else {
        state.ship_count
    };
    let gen_metal = if state.owner_exists == 1 {
        compute_current_resource(
            state.metal_count,
            state.max_metal_capacity,
            state.metal_gen_speed,
            fi.last_updated_slot,
            fi.current_slot,
            fi.game_speed,
        )
    } else {
        state.metal_count
    };

    let (new_ships, new_metal, new_owner_exists, new_o0, new_o1, new_o2, new_o3) = if fi
        .move_has_landed == 0 {
        (
            gen_ships,
            gen_metal,
            state.owner_exists,
            state.owner_0,
            state.owner_1,
            state.owner_2,
            state.owner_3,
        )
    } else {
        resolve_combat(
            gen_ships,
            gen_metal,
            state.max_ship_capacity,
            state.max_metal_capacity,
            state.owner_exists,
            state.owner_0,
            state.owner_1,
            state.owner_2,
            state.owner_3,
            fi.move_ships,
            fi.move_metal,
            fi.move_attacker_0,
            fi.move_attacker_1,
            fi.move_attacker_2,
            fi.move_attacker_3,
        )
    };

    let updated = PlanetState {
        body_type: state.body_type,
        size: state.size,
        owner_exists: new_owner_exists,
        owner_0: new_o0,
        owner_1: new_o1,
        owner_2: new_o2,
        owner_3: new_o3,
        ship_count: new_ships,
        max_ship_capacity: state.max_ship_capacity,
        ship_gen_speed: state.ship_gen_speed,
        metal_count: new_metal,
        max_metal_capacity: state.max_metal_capacity,
        metal_gen_speed: state.metal_gen_speed,
        range: state.range,
        launch_velocity: state.launch_velocity,
        level: state.level,
        comet_count: state.comet_count,
        comet_0: state.comet_0,
        comet_1: state.comet_1,
    };

    (updated, FlushRevealed { success: 1 })
}

// ===========================================================================
// upgrade_planet
// ===========================================================================

/// The planet's current ship count at the upgrade's timing context.
pub open spec fn spec_upgrade_current_ships(state: PlanetState, ui: UpgradePlanetInput) -> int {
    spec_current_resource(
        state.ship_count,
        state.max_ship_capacity,
        state.ship_gen_speed,
        ui.last_updated_slot,
        ui.current_slot,
        ui.game_speed,
    )
}

/// The planet's current metal count at the upgrade's timing context.
pub open spec fn spec_upgrade_current_metal(state: PlanetState, ui: UpgradePlanetInput) -> int {
    spec_current_resource(
        state.metal_count,
        state.max_metal_capacity,
        state.metal_gen_speed,
        ui.last_updated_slot,
        ui.current_slot,
        ui.game_speed,
    )
}

/// An upgrade is valid exactly when the requester owns the planet, the body
/// is Planet-typed, and the regenerated metal covers the level's cost.
pub open spec fn spec_upgrade_valid(state: PlanetState, ui: UpgradePlanetInput) -> bool {
    &&& state.spec_owned_by(ui.player_key_0, ui.player_key_1, ui.player_key_2, ui.player_key_3)
    &&& state.body_type == 0
    &&& spec_upgrade_current_metal(state, ui) >= spec_upgrade_cost(state.level)
}

/// The state after `upgrade_planet`: regeneration always applies; a valid
/// upgrade additionally spends the cost, raises the level, doubles both
/// capacities and the ship generation speed, and doubles range or launch
/// velocity according to the chosen focus.
pub open spec fn spec_upgrade_state(state: PlanetState, ui: UpgradePlanetInput) -> PlanetState {
    let cs = spec_upgrade_current_ships(state, ui);
    let cm = spec_upgrade_current_metal(state, ui);
    if spec_upgrade_valid(state, ui) {
        PlanetState {
            ship_count: cs as u64,
            metal_count: (cm - spec_upgrade_cost(state.level)) as u64,
            max_ship_capacity: (2 * state.max_ship_capacity) as u64,
            max_metal_capacity: (2 * state.max_metal_capacity) as u64,
            ship_gen_speed: (2 * state.ship_gen_speed) as u64,
            range: if ui.focus == 0 {
                (2 * state.range) as u64
            } else {
                state.range
            },
            launch_velocity: if ui.focus == 1 {
                (2 * state.launch_velocity) as u64
            } else {
                state.launch_velocity
            },
            level: (state.level + 1) as u8,
            ..state
        }
    } else {
        PlanetState { ship_count: cs as u64, metal_count: cm as u64, ..state }
    }
}

/// The scalars revealed by `upgrade_planet`.
pub open spec fn spec_upgrade_revealed(state: PlanetState, ui: UpgradePlanetInput)
    -> UpgradeRevealed {
    if spec_upgrade_valid(state, ui) {
        UpgradeRevealed { success: 1, new_level: (state.level + 1) as u8 }
    } else {
        UpgradeRevealed { success: 0, new_level: state.level }
    }
}

/// Upgrade a planet, spending metal.
///
/// Regeneration applies whether or not the upgrade succeeds; a rejected
/// upgrade changes nothing else.
pub fn upgrade_planet(state: &PlanetState, ui: &UpgradePlanetInput) -> (r: (
    PlanetState,
    UpgradeRevealed,
))
    requires
        regen_in_range(
            state.ship_count,
            state.ship_gen_speed,
            ui.last_updated_slot,
            ui.current_slot,
            ui.game_speed,
        ),
        regen_in_range(
            state.metal_count,
            state.metal_gen_speed,
            ui.last_updated_slot,
            ui.current_slot,
            ui.game_speed,
        ),
        spec_upgrade_valid(*state, *ui) ==> {
            &&& state.level < 255
            &&& 2 * state.max_ship_capacity <= u64::MAX
            &&& 2 * state.max_metal_capacity <= u64::MAX
            &&& 2 * state.ship_gen_speed <= u64::MAX
            &&& ui.focus == 0 ==> 2 * state.range <= u64::MAX
            &&& ui.focus == 1 ==> 2 * state.launch_velocity <= u64::MAX
        },
    ensures
        r.0 == spec_upgrade_state(*state, *ui),
        r.1 == spec_upgrade_revealed(*state, *ui),
        state.wf() ==> r.0.wf(),
{
    proof {
        if state.wf() {
            crate::resources::lemma_current_resource_capped(
                state.ship_count,
                state.max_ship_capacity,
                state.ship_gen_speed,
                ui.last_updated_slot,
                ui.current_slot,
                ui.game_speed,
            );
            crate::resources::lemma_current_resource_capped(
                state.metal_count,
                state.max_metal_capacity,
                state.metal_gen_speed,
                ui.last_updated_slot,
                ui.current_slot,
                ui.game_speed,
            );
        }
    }
    let owner_match: u8 = if state.owner_exists == 1 && state.owner_0 == ui.player_key_0
        && state.owner_1 == ui.player_key_1 && state.owner_2 == ui.player_key_2 && state.owner_3
        == ui.player_key_3 {
        1
    } else {
        0
    };

    let is_planet: u8 = if state.body_type == 0 {
        1
    } else {
        0
    };

    let current_metal = compute_current_resource(
        state.metal_count,
        state.max_metal_capacity,
        state.metal_gen_speed,
        ui.last_updated_slot,
        ui.current_slot,
        ui.game_speed,
    );
    let current_ships = compute_current_resource(
        state.ship_count,
        state.max_ship_capacity,
        state.ship_gen_speed,
        ui.last_updated_slot,
        ui.current_slot,
        ui.game_speed,
    );

    let cost = upgrade_cost(state.level);
    let can_afford: u8 = if current_metal >= cost {
        1
    } else {
        0
    };

    let valid = owner_match * is_planet * can_afford;

    let new_level = if valid == 1 {
        state.level + 1
    } else {
        state.level
    };
    let new_metal = if valid == 1 {
        current_metal - cost
    } else {
        current_metal
    };
    let new_ship_cap = if valid == 1 {
        state.max_ship_capacity * 2
    } else {
        state.max_ship_capacity
    };
    let new_metal_cap = if valid == 1 {
        state.max_metal_capacity * 2
    } else {
        state.max_metal_capacity
    };
    let new_ship_gen = if valid == 1 {
        state.ship_gen_speed * 2
    } else {
        state.ship_gen_speed
    };

    let new_range = if valid == 1 && ui.focus == 0 {
        state.range * 2
    } else {
        state.range
    };
    let new_velocity = if valid == 1 && ui.focus == 1 {
        state.launch_velocity * 2
    } else {
        state.launch_velocity
    };

    let updated = PlanetState {
        body_type: state.body_type,
        size: state.size,
        owner_exists: state.owner_exists,
        owner_0: state.owner_0,
        owner_1: state.owner_1,
        owner_2: state.owner_2,
        owner_3: state.owner_3,
        ship_count: current_ships,
        max_ship_capacity: new_ship_cap,
        ship_gen_speed: new_ship_gen,
        metal_count: new_metal,
        max_metal_capacity: new_metal_cap,
        metal_gen_speed: state.metal_gen_speed,
        range: new_range,
        launch_velocity: new_velocity,
        level: new_level,
        comet_count: state.comet_count,
        comet_0: state.comet_0,
        comet_1: state.comet_1,
    };

    let revealed = UpgradeRevealed { success: valid, new_level };

    (updated, revealed)
}

// ===========================================================================
// Laws of the transitions
// ===========================================================================

/// Rejection is a no-op: a move that fails validation hands the source
/// state back byte-for-byte unchanged, whatever time has elapsed.
pub proof fn lemma_rejected_move_is_noop(state: PlanetState, mv: ProcessMoveInput)
    requires
        !spec_move_valid(state, mv),
    ensures
        spec_process_move_state(state, mv) == state,
{
}

/// Capacity preservation through a move: the transition keeps both resource
/// counts within their capacities.
pub proof fn lemma_process_move_preserves_capacity(state: PlanetState, mv: ProcessMoveInput)
    requires
        state.wf(),
    ensures
        spec_process_move_state(state, mv).wf(),
{
    crate::resources::lemma_current_resource_capped(
        state.ship_count,
        state.max_ship_capacity,
        state.ship_gen_speed,
        mv.last_updated_slot,
        mv.current_slot,
        mv.game_speed,
    );
    crate::resources::lemma_current_resource_capped(
        state.metal_count,
        state.max_metal_capacity,
        state.metal_gen_speed,
        mv.last_updated_slot,
        mv.current_slot,
        mv.game_speed,
    );
}

/// Capacity preservation through a flush: regeneration caps at the
/// capacities and the combat law never exceeds them.
pub proof fn lemma_flush_preserves_capacity(state: PlanetState, fi: FlushPlanetInput)
    requires
        state.wf(),
    ensures
        spec_flush_state(state, fi).wf(),
{
    crate::resources::lemma_current_resource_capped(
        state.ship_count,
        state.max_ship_capacity,
        state.ship_gen_speed,
        fi.last_updated_slot,
        fi.current_slot,
        fi.game_speed,
    );
    crate::resources::lemma_current_resource_capped(
        state.metal_count,
        state.max_metal_capacity,
        state.metal_gen_speed,
        fi.last_updated_slot,
        fi.current_slot,
        fi.game_speed,
    );
}

/// Capacity preservation through an upgrade: the counts stay within the
/// (possibly doubled) capacities whether or not the upgrade succeeds, as
/// long as the doubled capacities still fit the machine word.
pub proof fn lemma_upgrade_preserves_capacity(state: PlanetState, ui: UpgradePlanetInput)
    requires
        state.wf(),
        spec_upgrade_valid(state, ui) ==> 2 * state.max_ship_capacity <= u64::MAX && 2
            * state.max_metal_capacity <= u64::MAX,
    ensures
        spec_upgrade_state(state, ui).wf(),
{
    crate::resources::lemma_current_resource_capped(
        state.ship_count,
        state.max_ship_capacity,
        state.ship_gen_speed,
        ui.last_updated_slot,
        ui.current_slot,
        ui.game_speed,
    );
    crate::resources::lemma_current_resource_capped(
        state.metal_count,
        state.max_metal_capacity,
        state.metal_gen_speed,
        ui.last_updated_slot,
        ui.current_slot,
        ui.game_speed,
    );
}

} // verus!
