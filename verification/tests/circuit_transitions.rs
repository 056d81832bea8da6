//! Tests of the five confidential circuits: determinism, spawn validity,
//! rejection-as-no-op, combat resolution and upgrades.

use encrypted_forest::circuits::{
    flush_planet, init_planet, init_spawn_planet, process_move, upgrade_planet, FlushPlanetInput,
    InitPlanetInput, InitSpawnPlanetInput, ProcessMoveInput, UpgradePlanetInput, NO_COMET,
};
use encrypted_forest::noise::{extract_byte, mix_hash};
use encrypted_forest::planet::PlanetState;

fn thresholds_input(x: u64, y: u64, game_id: u64) -> InitPlanetInput {
    InitPlanetInput {
        x,
        y,
        game_id,
        dead_space_threshold: 10,
        planet_threshold: 100,
        quasar_threshold: 150,
        spacetime_rip_threshold: 200,
        size_threshold_1: 50,
        size_threshold_2: 90,
        size_threshold_3: 130,
        size_threshold_4: 170,
        size_threshold_5: 210,
    }
}

fn spawn_input(x: u64, y: u64, game_id: u64, key: u64) -> InitSpawnPlanetInput {
    InitSpawnPlanetInput {
        x,
        y,
        game_id,
        dead_space_threshold: 10,
        planet_threshold: 100,
        quasar_threshold: 150,
        spacetime_rip_threshold: 200,
        size_threshold_1: 50,
        size_threshold_2: 90,
        size_threshold_3: 130,
        size_threshold_4: 170,
        size_threshold_5: 210,
        player_key_0: key,
        player_key_1: key + 1,
        player_key_2: key + 2,
        player_key_3: key + 3,
    }
}

fn owned_planet() -> PlanetState {
    PlanetState {
        body_type: 0,
        size: 2,
        owner_exists: 1,
        owner_0: 11,
        owner_1: 12,
        owner_2: 13,
        owner_3: 14,
        ship_count: 100,
        max_ship_capacity: 400,
        ship_gen_speed: 2,
        metal_count: 500,
        max_metal_capacity: 1000,
        metal_gen_speed: 1,
        range: 5,
        launch_velocity: 3,
        level: 1,
        comet_count: 0,
        comet_0: NO_COMET,
        comet_1: NO_COMET,
    }
}

#[test]
fn init_planet_is_deterministic() {
    let input = thresholds_input(17, 23, 42);
    let (s1, r1) = init_planet(&input);
    let (s2, r2) = init_planet(&input);
    assert_eq!(s1, s2);
    assert_eq!(r1, r2);
}

#[test]
fn init_planet_reveals_mixing_words() {
    let input = thresholds_input(17, 23, 42);
    let (h0, h1, h2, h3) = mix_hash(17, 23, 42);
    let (_, revealed) = init_planet(&input);
    assert_eq!(revealed.hash_0, h0);
    assert_eq!(revealed.hash_1, h1);
    assert_eq!(revealed.hash_2, h2);
    assert_eq!(revealed.hash_3, h3);
    let is_body = extract_byte(h0, 0) >= 10;
    assert_eq!(revealed.valid, if is_body { 1 } else { 0 });
}

#[test]
fn init_matches_spawn_on_static_derivation() {
    for x in 0..40u64 {
        let plain = thresholds_input(x, 5, 9);
        let spawn = spawn_input(x, 5, 9, 77);
        let (a, _) = init_planet(&plain);
        let (b, _) = init_spawn_planet(&spawn);
        assert_eq!(a.body_type, b.body_type);
        assert_eq!(a.size, b.size);
        assert_eq!(a.comet_count, b.comet_count);
        assert_eq!(a.comet_0, b.comet_0);
        assert_eq!(a.comet_1, b.comet_1);
        assert_eq!(a.max_ship_capacity, b.max_ship_capacity);
        assert_eq!(a.ship_gen_speed, b.ship_gen_speed);
        assert_eq!(a.max_metal_capacity, b.max_metal_capacity);
        assert_eq!(a.metal_gen_speed, b.metal_gen_speed);
        assert_eq!(a.range, b.range);
        assert_eq!(a.launch_velocity, b.launch_velocity);
    }
}

#[test]
fn dead_space_is_invalid_whatever_else_classifies() {
    // Search a coordinate whose lowest hash digit falls under the
    // dead-space threshold.
    let mut found = None;
    for x in 0..5000u64 {
        let (h0, _, _, _) = mix_hash(x, 3, 11);
        if extract_byte(h0, 0) < 10 {
            found = Some(x);
            break;
        }
    }
    let x = found.expect("no dead-space coordinate in range");
    let (_, revealed) = init_spawn_planet(&spawn_input(x, 3, 11, 55));
    assert_eq!(revealed.valid, 0);
    assert_eq!(revealed.is_spawn_valid, 0);
}

#[test]
fn spawn_succeeds_only_on_miniscule_planets() {
    // Search a coordinate that is a body, Planet-typed, size 1.
    let mut found = None;
    for x in 0..20000u64 {
        let (h0, _, _, _) = mix_hash(x, 3, 11);
        if extract_byte(h0, 0) >= 10 && extract_byte(h0, 1) < 100 && extract_byte(h0, 2) < 50 {
            found = Some(x);
            break;
        }
    }
    let x = found.expect("no spawnable coordinate in range");
    let input = spawn_input(x, 3, 11, 55);
    let (state, revealed) = init_spawn_planet(&input);
    assert_eq!(revealed.valid, 1);
    assert_eq!(revealed.is_spawn_valid, 1);
    assert_eq!(state.body_type, 0);
    assert_eq!(state.size, 1);
    assert_eq!(state.owner_exists, 1);
    assert_eq!(state.owner_0, 55);
    assert_eq!(state.owner_3, 58);
    // Owned planets start with zero ships whatever the body formula says.
    assert_eq!(state.ship_count, 0);
    assert_eq!(state.metal_count, 0);
    assert_eq!(state.level, 1);
}

#[test]
fn init_planet_never_sets_an_owner() {
    for x in 0..50u64 {
        let (state, _) = init_planet(&thresholds_input(x, 9, 3));
        assert_eq!(state.owner_exists, 0);
        assert!(state.ship_count <= state.max_ship_capacity);
        assert!(state.metal_count <= state.max_metal_capacity);
    }
}

#[test]
fn process_move_deducts_full_request() {
    let state = owned_planet();
    let mv = ProcessMoveInput {
        player_key_0: 11,
        player_key_1: 12,
        player_key_2: 13,
        player_key_3: 14,
        ships_to_send: 40,
        metal_to_send: 10,
        source_x: 0,
        source_y: 0,
        target_x: 6,
        target_y: 2,
        current_slot: 20,
        game_speed: 2,
        last_updated_slot: 20,
    };
    let (updated, data, revealed) = process_move(&state, &mv);
    assert_eq!(revealed.valid, 1);
    // distance = max(6,2) + min(6,2)/2 = 7; one ship lost per range 5.
    assert_eq!(data.ships_arriving, 39);
    assert_eq!(revealed.surviving_ships, 39);
    // travel = 7 * 2 / 3 = 4.
    assert_eq!(revealed.landing_slot, 24);
    assert_eq!(data.metal_arriving, 10);
    assert_eq!((data.attacker_0, data.attacker_3), (11, 14));
    // The full request leaves the source, not the survived amount.
    assert_eq!(updated.ship_count, 60);
    assert_eq!(updated.metal_count, 490);
    assert_eq!(updated.max_ship_capacity, state.max_ship_capacity);
    assert_eq!(updated.owner_0, state.owner_0);
}

#[test]
fn rejected_move_changes_nothing() {
    let state = owned_planet();
    // Insufficient ships: more requested than available.  Time has elapsed
    // and both generation speeds are positive, yet the rejected move must
    // not even write the regenerated counts back.
    let mv = ProcessMoveInput {
        player_key_0: 11,
        player_key_1: 12,
        player_key_2: 13,
        player_key_3: 14,
        ships_to_send: 1000,
        metal_to_send: 0,
        source_x: 0,
        source_y: 0,
        target_x: 6,
        target_y: 2,
        current_slot: 30,
        game_speed: 2,
        last_updated_slot: 20,
    };
    let (updated, data, revealed) = process_move(&state, &mv);
    assert_eq!(revealed.valid, 0);
    assert_eq!(revealed.landing_slot, 0);
    assert_eq!(revealed.surviving_ships, 0);
    assert_eq!(data.ships_arriving, 0);
    assert_eq!(data.metal_arriving, 0);
    // The state comes back byte-identical.
    assert_eq!(updated, state);
}

#[test]
fn wrong_owner_is_rejected() {
    let state = owned_planet();
    let mv = ProcessMoveInput {
        player_key_0: 99,
        player_key_1: 12,
        player_key_2: 13,
        player_key_3: 14,
        ships_to_send: 10,
        metal_to_send: 0,
        source_x: 0,
        source_y: 0,
        target_x: 6,
        target_y: 2,
        current_slot: 45,
        game_speed: 2,
        last_updated_slot: 20,
    };
    let (updated, _, revealed) = process_move(&state, &mv);
    assert_eq!(revealed.valid, 0);
    assert_eq!(updated, state);
}

#[test]
fn move_that_would_not_survive_is_rejected() {
    let mut state = owned_planet();
    state.range = 1;
    let mv = ProcessMoveInput {
        player_key_0: 11,
        player_key_1: 12,
        player_key_2: 13,
        player_key_3: 14,
        // distance 7 with range 1 loses 7 ships: nothing survives.
        ships_to_send: 7,
        metal_to_send: 0,
        source_x: 0,
        source_y: 0,
        target_x: 6,
        target_y: 2,
        current_slot: 20,
        game_speed: 2,
        last_updated_slot: 20,
    };
    let (updated, _, revealed) = process_move(&state, &mv);
    assert_eq!(revealed.valid, 0);
    assert_eq!(updated, state);
}

#[test]
fn flush_resolves_hostile_conquest() {
    // Defender: 100 ships, owner A, capacity 200.  Attacker B: 150 ships,
    // no metal -> owner becomes B with min(150 - 100, 200) = 50 ships.
    let mut state = owned_planet();
    state.ship_count = 100;
    state.max_ship_capacity = 200;
    state.ship_gen_speed = 0;
    state.metal_gen_speed = 0;
    let fi = FlushPlanetInput {
        current_slot: 30,
        game_speed: 2,
        last_updated_slot: 30,
        move_ships: 150,
        move_metal: 0,
        move_attacker_0: 21,
        move_attacker_1: 22,
        move_attacker_2: 23,
        move_attacker_3: 24,
        move_has_landed: 1,
    };
    let (updated, revealed) = flush_planet(&state, &fi);
    assert_eq!(revealed.success, 1);
    assert_eq!(updated.owner_exists, 1);
    assert_eq!(
        (updated.owner_0, updated.owner_1, updated.owner_2, updated.owner_3),
        (21, 22, 23, 24)
    );
    assert_eq!(updated.ship_count, 50);
    // The defender's prior metal is destroyed; the shipped metal (capped)
    // replaces it.
    assert_eq!(updated.metal_count, 0);
}

#[test]
fn flush_applies_friendly_reinforcement() {
    let mut state = owned_planet();
    state.ship_count = 390;
    state.ship_gen_speed = 0;
    state.metal_gen_speed = 0;
    let fi = FlushPlanetInput {
        current_slot: 30,
        game_speed: 2,
        last_updated_slot: 30,
        move_ships: 50,
        move_metal: 700,
        move_attacker_0: 11,
        move_attacker_1: 12,
        move_attacker_2: 13,
        move_attacker_3: 14,
        move_has_landed: 1,
    };
    let (updated, _) = flush_planet(&state, &fi);
    // Adds cap at 400 ships and 1000 metal.
    assert_eq!(updated.ship_count, 400);
    assert_eq!(updated.metal_count, 1000);
    assert_eq!(updated.owner_0, 11);
}

#[test]
fn flush_without_landed_move_only_regenerates() {
    let state = owned_planet();
    let fi = FlushPlanetInput {
        current_slot: 30,
        game_speed: 2,
        last_updated_slot: 20,
        move_ships: 0,
        move_metal: 0,
        move_attacker_0: 0,
        move_attacker_1: 0,
        move_attacker_2: 0,
        move_attacker_3: 0,
        move_has_landed: 0,
    };
    let (updated, _) = flush_planet(&state, &fi);
    // 2 ships per slot over 10 slots at speed 2 -> 10 generated; metal 5.
    assert_eq!(updated.ship_count, 110);
    assert_eq!(updated.metal_count, 505);
    assert_eq!(updated.owner_0, state.owner_0);
}

#[test]
fn unowned_planet_never_regenerates() {
    let mut state = owned_planet();
    state.owner_exists = 0;
    let fi = FlushPlanetInput {
        current_slot: 30,
        game_speed: 2,
        last_updated_slot: 0,
        move_ships: 0,
        move_metal: 0,
        move_attacker_0: 0,
        move_attacker_1: 0,
        move_attacker_2: 0,
        move_attacker_3: 0,
        move_has_landed: 0,
    };
    let (updated, _) = flush_planet(&state, &fi);
    assert_eq!(updated.ship_count, state.ship_count);
    assert_eq!(updated.metal_count, state.metal_count);
}

#[test]
fn upgrade_spends_and_doubles() {
    let state = owned_planet();
    let ui = UpgradePlanetInput {
        player_key_0: 11,
        player_key_1: 12,
        player_key_2: 13,
        player_key_3: 14,
        focus: 0,
        current_slot: 20,
        game_speed: 2,
        last_updated_slot: 20,
    };
    let (updated, revealed) = upgrade_planet(&state, &ui);
    assert_eq!(revealed.success, 1);
    assert_eq!(revealed.new_level, 2);
    assert_eq!(updated.level, 2);
    // Level-1 cost is 200.
    assert_eq!(updated.metal_count, 300);
    assert_eq!(updated.max_ship_capacity, 800);
    assert_eq!(updated.max_metal_capacity, 2000);
    assert_eq!(updated.ship_gen_speed, 4);
    // Focus 0 doubles range, not launch velocity.
    assert_eq!(updated.range, 10);
    assert_eq!(updated.launch_velocity, 3);
}

#[test]
fn upgrade_focus_velocity() {
    let state = owned_planet();
    let ui = UpgradePlanetInput {
        player_key_0: 11,
        player_key_1: 12,
        player_key_2: 13,
        player_key_3: 14,
        focus: 1,
        current_slot: 20,
        game_speed: 2,
        last_updated_slot: 20,
    };
    let (updated, _) = upgrade_planet(&state, &ui);
    assert_eq!(updated.range, 5);
    assert_eq!(updated.launch_velocity, 6);
}

#[test]
fn upgrade_rejected_when_unaffordable() {
    let mut state = owned_planet();
    state.metal_count = 150;
    state.metal_gen_speed = 0;
    let ui = UpgradePlanetInput {
        player_key_0: 11,
        player_key_1: 12,
        player_key_2: 13,
        player_key_3: 14,
        focus: 0,
        current_slot: 20,
        game_speed: 2,
        last_updated_slot: 20,
    };
    let (updated, revealed) = upgrade_planet(&state, &ui);
    assert_eq!(revealed.success, 0);
    assert_eq!(revealed.new_level, 1);
    assert_eq!(updated, state);
}

#[test]
fn upgrade_rejected_on_non_planet_body() {
    let mut state = owned_planet();
    state.body_type = 1;
    let ui = UpgradePlanetInput {
        player_key_0: 11,
        player_key_1: 12,
        player_key_2: 13,
        player_key_3: 14,
        focus: 0,
        current_slot: 20,
        game_speed: 2,
        last_updated_slot: 20,
    };
    let (updated, revealed) = upgrade_planet(&state, &ui);
    assert_eq!(revealed.success, 0);
    assert_eq!(updated, state);
}

#[test]
fn capacity_invariant_holds_across_a_transition_chain() {
    let check = |s: &PlanetState| {
        assert!(s.ship_count <= s.max_ship_capacity);
        assert!(s.metal_count <= s.max_metal_capacity);
    };
    let (mut state, _) = init_planet(&thresholds_input(29, 31, 37));
    state.owner_exists = 1;
    state.owner_0 = 11;
    state.owner_1 = 12;
    state.owner_2 = 13;
    state.owner_3 = 14;
    check(&state);

    let fi = FlushPlanetInput {
        current_slot: 50,
        game_speed: 2,
        last_updated_slot: 0,
        move_ships: u64::MAX / 2,
        move_metal: u64::MAX / 2,
        move_attacker_0: 11,
        move_attacker_1: 12,
        move_attacker_2: 13,
        move_attacker_3: 14,
        move_has_landed: 1,
    };
    let (state, _) = flush_planet(&state, &fi);
    check(&state);

    let ui = UpgradePlanetInput {
        player_key_0: 11,
        player_key_1: 12,
        player_key_2: 13,
        player_key_3: 14,
        focus: 1,
        current_slot: 60,
        game_speed: 2,
        last_updated_slot: 50,
    };
    let (state, _) = upgrade_planet(&state, &ui);
    check(&state);
}
