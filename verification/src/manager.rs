//! Ledger-side orchestration: the admission checks run before a
//! confidential computation is submitted, and the reconciliation of its
//! outputs into durable records when the callback arrives.
//!
//! Ciphertext blobs are opaque here: each encrypted section pairs exactly
//! one re-encryption public key and one nonce with its ciphertexts, and
//! every write replaces a whole section atomically.  The checks reject a
//! structurally invalid request before any costly confidential round is
//! spent on it.

use vstd::prelude::*;

use crate::game::{bytes32_eq, ErrorCode, Game, Player};
use crate::hashing::{compute_planet_hash, spec_planet_hash};
use crate::queue::{PendingMoveEntry, PendingMovesMetadata, MAX_QUEUED_CALLBACKS};

verus! {

broadcast use vstd::array::group_array_axioms;

// ===========================================================================
// Durable records
// ===========================================================================

/// The encrypted static substate of a planet: one re-encryption public key,
/// one nonce and the packed ciphertexts, replaced together as one unit.
#[derive(Clone, Copy, PartialEq, Eq, Debug)]
pub struct StaticSection {
    pub pubkey: [u8; 32],
    pub nonce: [u8; 16],
    pub ciphertexts: [[u8; 32]; 4],
}

/// The encrypted dynamic substate of a planet, independently addressable so
/// transitions that only touch dynamic state re-transmit nothing else.
#[derive(Clone, Copy, PartialEq, Eq, Debug)]
pub struct DynamicSection {
    pub pubkey: [u8; 32],
    pub nonce: [u8; 16],
    pub ciphertexts: [[u8; 32]; 2],
}

/// A planet's durable record: the public coordinate hash that names it, the
/// lazy-regeneration bookkeeping slots, and the two encrypted sections.
#[derive(Clone, Copy, PartialEq, Eq, Debug)]
pub struct EncryptedCelestialBody {
    pub planet_hash: [u8; 32],
    pub last_updated_slot: u64,
    pub last_flushed_slot: u64,
    pub static_section: StaticSection,
    pub dynamic_section: DynamicSection,
}

/// The durable record of one in-flight move, keyed by its move identifier;
/// the payload ciphertexts are written by the confirmation callback.
#[derive(Clone, Copy, PartialEq, Eq, Debug)]
pub struct PendingMoveAccount {
    pub game_id: u64,
    pub planet_hash: [u8; 32],
    pub move_id: u64,
    pub landing_slot: u64,
    pub payer: [u8; 32],
    pub enc_nonce: u128,
    pub enc_ciphertexts: [[u8; 32]; 4],
}

// ===========================================================================
// Public events
// ===========================================================================

/// Emitted when a planet initialisation completes.
#[derive(Clone, Copy, PartialEq, Eq, Debug)]
pub struct InitPlanetEvent {
    pub encrypted_planet_hash: [u8; 32],
    pub encrypted_valid: [u8; 32],
    pub encryption_key: [u8; 32],
    pub nonce: [u8; 16],
}

/// Emitted when a spawn initialisation completes.
#[derive(Clone, Copy, PartialEq, Eq, Debug)]
pub struct InitSpawnPlanetEvent {
    pub encrypted_planet_hash: [u8; 32],
    pub encrypted_valid: [u8; 32],
    pub encrypted_spawn_valid: [u8; 32],
    pub encryption_key: [u8; 32],
    pub nonce: [u8; 16],
}

/// Emitted when a move completes.
#[derive(Clone, Copy, PartialEq, Eq, Debug)]
pub struct ProcessMoveEvent {
    pub encrypted_landing_slot: [u8; 32],
    pub encrypted_surviving_ships: [u8; 32],
    pub encrypted_valid: [u8; 32],
    pub encryption_key: [u8; 32],
    pub nonce: [u8; 16],
}

/// Emitted when a flush completes; carries no secret payload.
#[derive(Clone, Copy, PartialEq, Eq, Debug)]
pub struct FlushPlanetEvent {
    pub planet_hash: [u8; 32],
    pub flushed_count: u8,
}

/// Emitted when an upgrade completes.
#[derive(Clone, Copy, PartialEq, Eq, Debug)]
pub struct UpgradePlanetEvent {
    pub planet_hash: [u8; 32],
    pub encrypted_success: [u8; 32],
    pub encrypted_new_level: [u8; 32],
    pub encryption_key: [u8; 32],
    pub nonce: [u8; 16],
}

/// Emitted when a holder of a coordinate publishes it openly.
#[derive(Clone, Copy, PartialEq, Eq, Debug)]
pub struct BroadcastEvent {
    pub x: i64,
    pub y: i64,
    pub game_id: u64,
    pub planet_hash: [u8; 32],
    pub broadcaster: [u8; 32],
}

// ===========================================================================
// Planet creation
// ===========================================================================

/// Admit a planet-initialisation request and allocate its durable records.
/// Succeeds exactly while the game has not ended, handing back a body
/// record stamped with the request slot and a fresh pending-move queue.
pub fn queue_init_planet(game: &Game, now: u64, planet_hash: [u8; 32]) -> (r: Result<
    (EncryptedCelestialBody, PendingMovesMetadata),
    ErrorCode,
>)
    ensures
        now >= game.end_slot ==> r == Err::<(EncryptedCelestialBody, PendingMovesMetadata),
            ErrorCode,
        >(ErrorCode::GameEnded),
        now < game.end_slot ==> {
            &&& r is Ok
            &&& (r->Ok_0).0.planet_hash == planet_hash
            &&& (r->Ok_0).0.last_updated_slot == now
            &&& (r->Ok_0).0.last_flushed_slot == now
            &&& (r->Ok_0).1.wf()
            &&& (r->Ok_0).1.game_id == game.game_id
            &&& (r->Ok_0).1.planet_hash == planet_hash
            &&& (r->Ok_0).1.next_move_id == 0
            &&& (r->Ok_0).1.queued_landing_slots@.len() == 0
            &&& (r->Ok_0).1.moves@.len() == 0
        },
{
    if now >= game.end_slot {
        return Err(ErrorCode::GameEnded);
    }
    let body = EncryptedCelestialBody {
        planet_hash,
        last_updated_slot: now,
        last_flushed_slot: now,
        static_section: StaticSection {
            pubkey: [0u8; 32],
            nonce: [0u8; 16],
            ciphertexts: [[0u8; 32]; 4],
        },
        dynamic_section: DynamicSection {
            pubkey: [0u8; 32],
            nonce: [0u8; 16],
            ciphertexts: [[0u8; 32]; 2],
        },
    };
    let pending = PendingMovesMetadata::new(game.game_id, planet_hash);
    Ok((body, pending))
}

/// Persist the output of a completed planet initialisation: both encrypted
/// sections are replaced atomically, the update slot is stamped, and the
/// revealed ciphertexts are surfaced as a public event.
pub fn init_planet_callback(
    planet: &mut EncryptedCelestialBody,
    static_section: StaticSection,
    dynamic_section: DynamicSection,
    encrypted_planet_hash: [u8; 32],
    encrypted_valid: [u8; 32],
    encryption_key: [u8; 32],
    nonce: [u8; 16],
    now: u64,
) -> (r: InitPlanetEvent)
    ensures
        final(planet).static_section == static_section,
        final(planet).dynamic_section == dynamic_section,
        final(planet).last_updated_slot == now,
        final(planet).planet_hash == old(planet).planet_hash,
        final(planet).last_flushed_slot == old(planet).last_flushed_slot,
        r == (InitPlanetEvent { encrypted_planet_hash, encrypted_valid, encryption_key, nonce }),
{
    planet.static_section = static_section;
    planet.dynamic_section = dynamic_section;
    planet.last_updated_slot = now;
    InitPlanetEvent { encrypted_planet_hash, encrypted_valid, encryption_key, nonce }
}

// ===========================================================================
// Spawn
// ===========================================================================

/// Admit a spawn request.  Succeeds exactly for a player who has not yet
/// spawned, while the game is running; the records are allocated as for a
/// plain initialisation.
pub fn queue_init_spawn_planet(game: &Game, player: &Player, now: u64, planet_hash: [u8; 32]) -> (r:
    Result<(EncryptedCelestialBody, PendingMovesMetadata), ErrorCode>)
    ensures
        player.has_spawned ==> r == Err::<(EncryptedCelestialBody, PendingMovesMetadata),
            ErrorCode,
        >(ErrorCode::AlreadySpawned),
        !player.has_spawned && now < game.start_slot ==> r == Err::<
            (EncryptedCelestialBody, PendingMovesMetadata),
            ErrorCode,
        >(ErrorCode::GameNotStarted),
        !player.has_spawned && now >= game.start_slot && now >= game.end_slot ==> r == Err::<
            (EncryptedCelestialBody, PendingMovesMetadata),
            ErrorCode,
        >(ErrorCode::GameEnded),
        !player.has_spawned && game.spec_is_active(now) ==> {
            &&& r is Ok
            &&& (r->Ok_0).0.planet_hash == planet_hash
            &&& (r->Ok_0).0.last_updated_slot == now
            &&& (r->Ok_0).0.last_flushed_slot == now
            &&& (r->Ok_0).1.wf()
            &&& (r->Ok_0).1.game_id == game.game_id
            &&& (r->Ok_0).1.planet_hash == planet_hash
            &&& (r->Ok_0).1.next_move_id == 0
            &&& (r->Ok_0).1.queued_landing_slots@.len() == 0
            &&& (r->Ok_0).1.moves@.len() == 0
        },
{
    if player.has_spawned {
        return Err(ErrorCode::AlreadySpawned);
    }
    if now < game.start_slot {
        return Err(ErrorCode::GameNotStarted);
    }
    if now >= game.end_slot {
        return Err(ErrorCode::GameEnded);
    }
    let body = EncryptedCelestialBody {
        planet_hash,
        last_updated_slot: now,
        last_flushed_slot: now,
        static_section: StaticSection {
            pubkey: [0u8; 32],
            nonce: [0u8; 16],
            ciphertexts: [[0u8; 32]; 4],
        },
        dynamic_section: DynamicSection {
            pubkey: [0u8; 32],
            nonce: [0u8; 16],
            ciphertexts: [[0u8; 32]; 2],
        },
    };
    let pending = PendingMovesMetadata::new(game.game_id, planet_hash);
    Ok((body, pending))
}

/// Persist the output of a completed spawn: as the plain initialisation,
/// and additionally flip the player's spawn flag — only when the circuit's
/// revealed spawn-validity scalar reports success, and then irreversibly.
/// A player whose spawn landed on dead space or an unspawnable body keeps a
/// clear flag and may try again; a set flag is never cleared.
pub fn init_spawn_planet_callback(
    player: &mut Player,
    planet: &mut EncryptedCelestialBody,
    static_section: StaticSection,
    dynamic_section: DynamicSection,
    is_spawn_valid: u8,
    encrypted_planet_hash: [u8; 32],
    encrypted_valid: [u8; 32],
    encrypted_spawn_valid: [u8; 32],
    encryption_key: [u8; 32],
    nonce: [u8; 16],
    now: u64,
) -> (r: InitSpawnPlanetEvent)
    ensures
        final(planet).static_section == static_section,
        final(planet).dynamic_section == dynamic_section,
        final(planet).last_updated_slot == now,
        final(planet).planet_hash == old(planet).planet_hash,
        final(planet).last_flushed_slot == old(planet).last_flushed_slot,
        final(player).has_spawned <==> (old(player).has_spawned || is_spawn_valid == 1),
        final(player).owner == old(player).owner,
        final(player).game_id == old(player).game_id,
        final(player).points == old(player).points,
        r == (InitSpawnPlanetEvent {
            encrypted_planet_hash,
            encrypted_valid,
            encrypted_spawn_valid,
            encryption_key,
            nonce,
        }),
{
    planet.static_section = static_section;
    planet.dynamic_section = dynamic_section;
    planet.last_updated_slot = now;
    if is_spawn_valid == 1 {
        player.has_spawned = true;
    }
    InitSpawnPlanetEvent {
        encrypted_planet_hash,
        encrypted_valid,
        encrypted_spawn_valid,
        encryption_key,
        nonce,
    }
}

// ===========================================================================
// Moves
// ===========================================================================

/// Admit a move request.  Succeeds exactly while the game is running, the
/// claimed landing slot lies in the future, the source planet has no landed
/// move still unflushed, and the target's admission buffer has room; the
/// landing slot is then buffered and the in-flight record allocated under
/// the identifier the move will take once confirmed.
pub fn queue_process_move(
    game: &Game,
    now: u64,
    landing_slot: u64,
    payer: [u8; 32],
    source_pending: &PendingMovesMetadata,
    target_pending: &mut PendingMovesMetadata,
) -> (r: Result<PendingMoveAccount, ErrorCode>)
    requires
        old(target_pending).wf(),
        old(target_pending).next_move_id + old(target_pending).queued_landing_slots@.len()
            <= u64::MAX,
    ensures
        final(target_pending).wf(),
        now < game.start_slot ==> r == Err::<PendingMoveAccount, ErrorCode>(
            ErrorCode::GameNotStarted,
        ),
        now >= game.start_slot && now >= game.end_slot ==> r == Err::<
            PendingMoveAccount,
            ErrorCode,
        >(ErrorCode::GameEnded),
        game.spec_is_active(now) && landing_slot <= now ==> r == Err::<
            PendingMoveAccount,
            ErrorCode,
        >(ErrorCode::InvalidMoveInput),
        game.spec_is_active(now) && landing_slot > now && !source_pending.spec_may_launch(now)
            ==> r == Err::<PendingMoveAccount, ErrorCode>(ErrorCode::MustFlushFirst),
        game.spec_is_active(now) && landing_slot > now && source_pending.spec_may_launch(now)
            && old(target_pending).queued_landing_slots@.len() >= MAX_QUEUED_CALLBACKS ==> r
            == Err::<PendingMoveAccount, ErrorCode>(ErrorCode::TooManyPendingMoves),
        r is Err ==> *final(target_pending) == *old(target_pending),
        game.spec_is_active(now) && landing_slot > now && source_pending.spec_may_launch(now)
            && old(target_pending).queued_landing_slots@.len() < MAX_QUEUED_CALLBACKS ==> {
            &&& r is Ok
            &&& r->Ok_0 == (PendingMoveAccount {
                game_id: old(target_pending).game_id,
                planet_hash: old(target_pending).planet_hash,
                move_id: (old(target_pending).next_move_id + old(
                    target_pending,
                ).queued_landing_slots@.len()) as u64,
                landing_slot,
                payer,
                enc_nonce: 0,
                enc_ciphertexts: r->Ok_0.enc_ciphertexts,
            })
            &&& final(target_pending).queued_landing_slots@ == old(
                target_pending,
            ).queued_landing_slots@.push(landing_slot)
            &&& final(target_pending).moves@ == old(target_pending).moves@
            &&& final(target_pending).next_move_id == old(target_pending).next_move_id
        },
{
    if now < game.start_slot {
        return Err(ErrorCode::GameNotStarted);
    }
    if now >= game.end_slot {
        return Err(ErrorCode::GameEnded);
    }
    if landing_slot <= now {
        return Err(ErrorCode::InvalidMoveInput);
    }
    if !source_pending.may_launch(now) {
        return Err(ErrorCode::MustFlushFirst);
    }
    let move_id = match target_pending.admit_move(now, landing_slot) {
        Ok(id) => id,
        Err(e) => {
            return Err(e);
        },
    };
    Ok(
        PendingMoveAccount {
            game_id: target_pending.game_id,
            planet_hash: target_pending.planet_hash,
            move_id,
            landing_slot,
            payer,
            enc_nonce: 0,
            enc_ciphertexts: [[0u8; 32]; 4],
        },
    )
}

/// Persist the output of a completed move: the source planet's dynamic
/// section is replaced (its static section is untouched), the buffered
/// landing slot is confirmed into the sorted queue, and the in-flight
/// payload ciphertexts are stored under the move's record.  Fails exactly
/// when no admitted move awaits confirmation, changing nothing.
pub fn process_move_callback(
    source: &mut EncryptedCelestialBody,
    target_pending: &mut PendingMovesMetadata,
    move_account: &mut PendingMoveAccount,
    dynamic_section: DynamicSection,
    move_enc_nonce: u128,
    move_enc_ciphertexts: [[u8; 32]; 4],
    encrypted_landing_slot: [u8; 32],
    encrypted_surviving_ships: [u8; 32],
    encrypted_valid: [u8; 32],
    encryption_key: [u8; 32],
    nonce: [u8; 16],
    now: u64,
) -> (r: Result<ProcessMoveEvent, ErrorCode>)
    requires
        old(target_pending).wf(),
        old(target_pending).next_move_id < u64::MAX,
        old(target_pending).moves@.len() < u16::MAX,
    ensures
        final(target_pending).wf(),
        old(target_pending).queued_landing_slots@.len() == 0 ==> {
            &&& r == Err::<ProcessMoveEvent, ErrorCode>(ErrorCode::InvalidMoveInput)
            &&& *final(source) == *old(source)
            &&& *final(target_pending) == *old(target_pending)
            &&& *final(move_account) == *old(move_account)
        },
        old(target_pending).queued_landing_slots@.len() > 0 ==> {
            &&& r == Ok::<ProcessMoveEvent, ErrorCode>(
                ProcessMoveEvent {
                    encrypted_landing_slot,
                    encrypted_surviving_ships,
                    encrypted_valid,
                    encryption_key,
                    nonce,
                },
            )
            &&& final(source).dynamic_section == dynamic_section
            &&& final(source).static_section == old(source).static_section
            &&& final(source).planet_hash == old(source).planet_hash
            &&& final(source).last_flushed_slot == old(source).last_flushed_slot
            &&& final(source).last_updated_slot == now
            &&& final(target_pending).queued_landing_slots@ == old(
                target_pending,
            ).queued_landing_slots@.subrange(
                1,
                old(target_pending).queued_landing_slots@.len() as int,
            )
            &&& final(target_pending).next_move_id == old(target_pending).next_move_id + 1
            &&& (exists|pos: int|
                0 <= pos <= old(target_pending).moves@.len() && final(target_pending).moves@
                    == old(target_pending).moves@.insert(
                    pos,
                    PendingMoveEntry {
                        landing_slot: old(target_pending).queued_landing_slots@[0],
                        move_id: old(target_pending).next_move_id,
                    },
                ))
            &&& final(move_account).enc_nonce == move_enc_nonce
            &&& final(move_account).enc_ciphertexts == move_enc_ciphertexts
            &&& final(move_account).game_id == old(move_account).game_id
            &&& final(move_account).planet_hash == old(move_account).planet_hash
            &&& final(move_account).move_id == old(move_account).move_id
            &&& final(move_account).landing_slot == old(move_account).landing_slot
            &&& final(move_account).payer == old(move_account).payer
        },
{
    if target_pending.queued_landing_slots.len() == 0 {
        return Err(ErrorCode::InvalidMoveInput);
    }
    let confirmed = target_pending.confirm_move();
    match confirmed {
        Ok(_) => (),
        Err(e) => {
            return Err(e);
        },
    }

    source.dynamic_section = dynamic_section;
    source.last_updated_slot = now;

    move_account.enc_nonce = move_enc_nonce;
    move_account.enc_ciphertexts = move_enc_ciphertexts;

    Ok(
        ProcessMoveEvent {
            encrypted_landing_slot,
            encrypted_surviving_ships,
            encrypted_valid,
            encryption_key,
            nonce,
        },
    )
}

// ===========================================================================
// Flush
// ===========================================================================

/// Admit a flush request.  Succeeds exactly when the queue's front entry
/// exists and has landed, naming the move to flush; no other entry may ever
/// be flushed.
pub fn queue_flush_planet(pending: &PendingMovesMetadata, now: u64) -> (r: Result<u64, ErrorCode>)
    ensures
        !pending.spec_can_flush(now) ==> r == Err::<u64, ErrorCode>(ErrorCode::FlushFailed),
        pending.spec_can_flush(now) ==> r == Ok::<u64, ErrorCode>(pending.moves@[0].move_id),
{
    if pending.moves.len() == 0 {
        return Err(ErrorCode::FlushFailed);
    }
    if pending.moves[0].landing_slot > now {
        return Err(ErrorCode::FlushFailed);
    }
    Ok(pending.moves[0].move_id)
}

/// Persist the output of a completed flush: the planet's dynamic section is
/// replaced, both bookkeeping slots are stamped, and exactly the front
/// (earliest-landing) entry is removed — provided it has landed, as a
/// concurrent flush may already have removed it.
pub fn flush_planet_callback(
    planet: &mut EncryptedCelestialBody,
    pending: &mut PendingMovesMetadata,
    dynamic_section: DynamicSection,
    now: u64,
) -> (r: FlushPlanetEvent)
    requires
        old(pending).wf(),
    ensures
        final(pending).wf(),
        final(planet).dynamic_section == dynamic_section,
        final(planet).static_section == old(planet).static_section,
        final(planet).planet_hash == old(planet).planet_hash,
        final(planet).last_updated_slot == now,
        final(planet).last_flushed_slot == now,
        old(pending).spec_can_flush(now) ==> {
            &&& final(pending).moves@ == old(pending).moves@.subrange(
                1,
                old(pending).moves@.len() as int,
            )
            &&& forall|i: int|
                0 <= i < final(pending).moves@.len() ==> old(pending).moves@[0].landing_slot
                    <= #[trigger] final(pending).moves@[i].landing_slot
        },
        !old(pending).spec_can_flush(now) ==> *final(pending) == *old(pending),
        final(pending).queued_landing_slots@ == old(pending).queued_landing_slots@,
        final(pending).next_move_id == old(pending).next_move_id,
        r == (FlushPlanetEvent { planet_hash: old(planet).planet_hash, flushed_count: 1 }),
{
    planet.dynamic_section = dynamic_section;
    planet.last_updated_slot = now;
    planet.last_flushed_slot = now;

    let flushed = pending.flush_front(now);
    match flushed {
        Ok(_) => (),
        Err(_) => (),
    }

    FlushPlanetEvent { planet_hash: planet.planet_hash, flushed_count: 1 }
}

// ===========================================================================
// Upgrade
// ===========================================================================

/// Admit an upgrade request.  Succeeds exactly while the game is running.
pub fn queue_upgrade_planet(game: &Game, now: u64) -> (r: Result<(), ErrorCode>)
    ensures
        now < game.start_slot ==> r == Err::<(), ErrorCode>(ErrorCode::GameNotStarted),
        now >= game.start_slot && now >= game.end_slot ==> r == Err::<(), ErrorCode>(
            ErrorCode::GameEnded,
        ),
        game.spec_is_active(now) ==> r == Ok::<(), ErrorCode>(()),
{
    if now < game.start_slot {
        return Err(ErrorCode::GameNotStarted);
    }
    if now >= game.end_slot {
        return Err(ErrorCode::GameEnded);
    }
    Ok(())
}

/// Persist the output of a completed upgrade: both encrypted sections are
/// replaced atomically and the update slot is stamped.
pub fn upgrade_planet_callback(
    planet: &mut EncryptedCelestialBody,
    static_section: StaticSection,
    dynamic_section: DynamicSection,
    encrypted_success: [u8; 32],
    encrypted_new_level: [u8; 32],
    encryption_key: [u8; 32],
    nonce: [u8; 16],
    now: u64,
) -> (r: UpgradePlanetEvent)
    ensures
        final(planet).static_section == static_section,
        final(planet).dynamic_section == dynamic_section,
        final(planet).last_updated_slot == now,
        final(planet).planet_hash == old(planet).planet_hash,
        final(planet).last_flushed_slot == old(planet).last_flushed_slot,
        r == (UpgradePlanetEvent {
            planet_hash: old(planet).planet_hash,
            encrypted_success,
            encrypted_new_level,
            encryption_key,
            nonce,
        }),
{
    planet.static_section = static_section;
    planet.dynamic_section = dynamic_section;
    planet.last_updated_slot = now;
    UpgradePlanetEvent {
        planet_hash: planet.planet_hash,
        encrypted_success,
        encrypted_new_level,
        encryption_key,
        nonce,
    }
}

// ===========================================================================
// Broadcast and cleanup
// ===========================================================================

/// Publish a coordinate openly.  Succeeds exactly when the claimed hash is
/// the coordinate's true public identifier, closing the loop between the
/// secret coordinate and its discoverable key; this is the one operation
/// that moves data from the secret domain to the public domain without a
/// circuit.
pub fn broadcast(game: &Game, broadcaster: [u8; 32], x: i64, y: i64, planet_hash: [u8; 32]) -> (r:
    Result<BroadcastEvent, ErrorCode>)
    ensures
        planet_hash@ != spec_planet_hash(x, y, game.game_id, game.hash_rounds) ==> r == Err::<
            BroadcastEvent,
            ErrorCode,
        >(ErrorCode::InvalidPlanetHash),
        planet_hash@ == spec_planet_hash(x, y, game.game_id, game.hash_rounds) ==> r == Ok::<
            BroadcastEvent,
            ErrorCode,
        >(BroadcastEvent { x, y, game_id: game.game_id, planet_hash, broadcaster }),
{
    let computed = compute_planet_hash(x, y, game.game_id, game.hash_rounds);
    if !bytes32_eq(&computed, &planet_hash) {
        proof {
            assert(computed@ != planet_hash@) by {
                if computed@ == planet_hash@ {
                    assert(computed =~= planet_hash);
                }
            }
        }
        return Err(ErrorCode::InvalidPlanetHash);
    }
    Ok(BroadcastEvent { x, y, game_id: game.game_id, planet_hash, broadcaster })
}

/// Release a game's record.  Allowed exactly once the game has ended.
pub fn cleanup_game(game: &Game, now: u64) -> (r: Result<(), ErrorCode>)
    ensures
        now <= game.end_slot ==> r == Err::<(), ErrorCode>(ErrorCode::GameNotEnded),
        now > game.end_slot ==> r == Ok::<(), ErrorCode>(()),
{
    if now <= game.end_slot {
        Err(ErrorCode::GameNotEnded)
    } else {
        Ok(())
    }
}

/// Release a player's record.  Allowed exactly once the game has ended.
pub fn cleanup_player(game: &Game, now: u64) -> (r: Result<(), ErrorCode>)
    ensures
        now <= game.end_slot ==> r == Err::<(), ErrorCode>(ErrorCode::GameNotEnded),
        now > game.end_slot ==> r == Ok::<(), ErrorCode>(()),
{
    if now <= game.end_slot {
        Err(ErrorCode::GameNotEnded)
    } else {
        Ok(())
    }
}

/// Release a planet's records.  Allowed exactly once the game has ended.
pub fn cleanup_planet(game: &Game, now: u64) -> (r: Result<(), ErrorCode>)
    ensures
        now <= game.end_slot ==> r == Err::<(), ErrorCode>(ErrorCode::GameNotEnded),
        now > game.end_slot ==> r == Ok::<(), ErrorCode>(()),
{
    if now <= game.end_slot {
        Err(ErrorCode::GameNotEnded)
    } else {
        Ok(())
    }
}

} // verus!
