//! Tests of the noise engine and the scalar resource/combat model.

use encrypted_forest::noise::{
    comet_from_byte, comet_from_byte_avoiding, determine_body_type, determine_comet_count,
    determine_size, extract_byte, mix_hash,
};
use encrypted_forest::resources::{
    apply_distance_decay, compute_abs_diff, compute_current_resource, compute_distance,
    compute_landing_slot, resolve_combat, upgrade_cost, NEVER_LANDS_OFFSET,
};

#[test]
fn mix_hash_is_deterministic() {
    let a = mix_hash(123, 456, 789);
    let b = mix_hash(123, 456, 789);
    assert_eq!(a, b);
    let c = mix_hash(124, 456, 789);
    assert_ne!(a, c);
}

#[test]
fn mix_hash_exact_words() {
    let (h0, h1, h2, h3) = mix_hash(2, 3, 5);
    assert_eq!(h0, 2 * 31 + 3 * 37 + 5 * 41 + 7);
    assert_eq!(h1, 3 * 43 + 5 * 47 + 2 * 53 + 13);
    assert_eq!(h2, 5 * 59 + 2 * 61 + 3 * 67 + 17);
    assert_eq!(h3, 3 * h0 + 5 * h1 + 7 * h2 + 19);
}

#[test]
fn extract_byte_digits() {
    let h: u64 = 0x0605040302010099;
    assert_eq!(extract_byte(h, 0), 0x99);
    assert_eq!(extract_byte(h, 1), 0x00);
    assert_eq!(extract_byte(h, 2), 0x01);
    assert_eq!(extract_byte(h, 3), 0x02);
    assert_eq!(extract_byte(h, 4), 0x03);
    assert_eq!(extract_byte(h, 5), 0x04);
    // Digits past the fifth fall back to the sixth.
    assert_eq!(extract_byte(h, 6), 0x04);
}

#[test]
fn body_type_thresholds() {
    assert_eq!(determine_body_type(0, 100, 150, 200), 0);
    assert_eq!(determine_body_type(99, 100, 150, 200), 0);
    assert_eq!(determine_body_type(100, 100, 150, 200), 1);
    assert_eq!(determine_body_type(149, 100, 150, 200), 1);
    assert_eq!(determine_body_type(150, 100, 150, 200), 2);
    assert_eq!(determine_body_type(199, 100, 150, 200), 2);
    assert_eq!(determine_body_type(200, 100, 150, 200), 3);
    assert_eq!(determine_body_type(255, 100, 150, 200), 3);
}

#[test]
fn size_thresholds() {
    assert_eq!(determine_size(0, 40, 80, 120, 160, 200), 1);
    assert_eq!(determine_size(40, 40, 80, 120, 160, 200), 2);
    assert_eq!(determine_size(80, 40, 80, 120, 160, 200), 3);
    assert_eq!(determine_size(120, 40, 80, 120, 160, 200), 4);
    assert_eq!(determine_size(160, 40, 80, 120, 160, 200), 5);
    assert_eq!(determine_size(200, 40, 80, 120, 160, 200), 6);
    assert_eq!(determine_size(255, 40, 80, 120, 160, 200), 6);
}

#[test]
fn comet_count_thresholds() {
    assert_eq!(determine_comet_count(0), 0);
    assert_eq!(determine_comet_count(216), 0);
    assert_eq!(determine_comet_count(217), 1);
    assert_eq!(determine_comet_count(242), 1);
    assert_eq!(determine_comet_count(243), 2);
    assert_eq!(determine_comet_count(255), 2);
}

#[test]
fn comet_selection_avoids_collision() {
    assert_eq!(comet_from_byte(13), 1);
    // No collision: the second comet keeps its own selection.
    assert_eq!(comet_from_byte_avoiding(14, 1), 2);
    // Collision: the second comet is perturbed to the next kind.
    assert_eq!(comet_from_byte_avoiding(13, 1), 2);
    // Perturbation wraps around the six kinds.
    assert_eq!(comet_from_byte_avoiding(5, 5), 0);
    // Total even at the largest digit value.
    assert_eq!(comet_from_byte_avoiding(255, 3), 4);
    assert_eq!(comet_from_byte_avoiding(255, 0), 3);
}

#[test]
fn upgrade_cost_schedule() {
    assert_eq!(upgrade_cost(1), 200);
    assert_eq!(upgrade_cost(2), 400);
    assert_eq!(upgrade_cost(3), 800);
    assert_eq!(upgrade_cost(9), 51200);
    assert_eq!(upgrade_cost(10), 102400);
    // Levels beyond the schedule clamp to the level-10 cost.
    assert_eq!(upgrade_cost(11), 102400);
    assert_eq!(upgrade_cost(255), 102400);
}

#[test]
fn regeneration_accrues_and_caps() {
    // 3 per slot over 10 slots at game speed 2 -> 15 generated.
    assert_eq!(compute_current_resource(10, 100, 3, 0, 10, 2), 25);
    // Capped at the capacity.
    assert_eq!(compute_current_resource(90, 100, 3, 0, 10, 1), 100);
}

#[test]
fn regeneration_idle_cases() {
    // Zero generation speed.
    assert_eq!(compute_current_resource(10, 100, 0, 0, 50, 2), 10);
    // Zero game speed.
    assert_eq!(compute_current_resource(10, 100, 3, 0, 50, 0), 10);
    // No positive elapsed time, including a clock that moved backwards.
    assert_eq!(compute_current_resource(10, 100, 3, 50, 50, 2), 10);
    assert_eq!(compute_current_resource(10, 100, 3, 50, 40, 2), 10);
}

#[test]
fn distance_formula() {
    assert_eq!(compute_abs_diff(3, 10), 7);
    assert_eq!(compute_abs_diff(10, 3), 7);
    // max(|dx|, |dy|) + min(|dx|, |dy|) / 2 with dx = 3, dy = 7.
    assert_eq!(compute_distance(0, 0, 3, 7), 7 + 1);
    assert_eq!(compute_distance(3, 7, 0, 0), 8);
    assert_eq!(compute_distance(5, 5, 5, 5), 0);
}

#[test]
fn decay_loses_one_ship_per_range_length() {
    assert_eq!(apply_distance_decay(10, 9, 3), 7);
    assert_eq!(apply_distance_decay(10, 30, 3), 0);
    assert_eq!(apply_distance_decay(10, 31, 3), 0);
    // Zero range loses everything.
    assert_eq!(apply_distance_decay(10, 0, 0), 0);
}

#[test]
fn landing_slot_formula() {
    // distance 6, game speed 2, velocity 3 -> travel 4.
    assert_eq!(compute_landing_slot(10, 6, 3, 2), 14);
    // Zero velocity lands effectively never.
    assert_eq!(compute_landing_slot(10, 6, 0, 2), 10 + NEVER_LANDS_OFFSET);
}

#[test]
fn landing_slot_monotone_in_velocity() {
    let now = 100;
    let distance = 600;
    let game_speed = 4;
    let mut prev = compute_landing_slot(now, distance, 1, game_speed);
    let mut strict_drops = 0;
    for v in 2..200u64 {
        let next = compute_landing_slot(now, distance, v, game_speed);
        assert!(next <= prev, "velocity {} landed later", v);
        if next < prev {
            strict_drops += 1;
        }
        prev = next;
    }
    assert!(strict_drops > 0);
    // Every positive velocity here lands before the zero-velocity sentinel.
    let sentinel = compute_landing_slot(now, distance, 0, game_speed);
    assert!(compute_landing_slot(now, distance, 1, game_speed) <= sentinel);
}

#[test]
fn combat_friendly_reinforcement_caps() {
    let r = resolve_combat(180, 90, 200, 100, 1, 1, 2, 3, 4, 50, 20, 1, 2, 3, 4);
    assert_eq!((r.0, r.1), (200, 100));
    assert_eq!((r.2, r.3, r.4, r.5, r.6), (1, 1, 2, 3, 4));
}

#[test]
fn combat_attacker_conquers() {
    let r = resolve_combat(100, 70, 200, 100, 1, 1, 2, 3, 4, 150, 30, 9, 8, 7, 6);
    assert_eq!((r.0, r.1), (50, 30));
    assert_eq!((r.2, r.3, r.4, r.5, r.6), (1, 9, 8, 7, 6));
}

#[test]
fn combat_tie_favors_defender() {
    let r = resolve_combat(100, 70, 200, 100, 1, 1, 2, 3, 4, 100, 30, 9, 8, 7, 6);
    assert_eq!((r.0, r.1), (0, 70));
    assert_eq!((r.2, r.3, r.4, r.5, r.6), (1, 1, 2, 3, 4));
}
