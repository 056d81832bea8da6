//! Per-game configuration and per-player records, with the admission checks
//! performed at game creation and player registration.
//!
//! A `Game` is immutable after creation and read by every other operation; a
//! `Player` is created once per account per game, and its `has_spawned` flag
//! flips exactly once, inside the spawn confirmation.

use vstd::prelude::*;

verus! {

/// Rejection reasons across the ledger-side admission checks.
#[derive(Clone, Copy, PartialEq, Eq, Structural, Debug)]
pub enum ErrorCode {
    AbortedComputation,
    ClusterNotSet,
    InvalidMapDiameter,
    InvalidGameSpeed,
    InvalidHashRounds,
    InvalidTimeRange,
    WhitelistRequiresServer,
    WhitelistServerRequired,
    InvalidServerKey,
    AlreadySpawned,
    NotSpawned,
    GameNotStarted,
    GameEnded,
    GameNotEnded,
    InvalidPlanetHash,
    CoordinatesOutOfBounds,
    TooManyPendingMoves,
    InvalidInitPlanet,
    InvalidSpawnValidation,
    InvalidMoveInput,
    FlushFailed,
    UpgradeFailed,
    MustFlushFirst,
}

/// The mutually exclusive celestial-body kinds, in the order of their
/// circuit codes.
#[derive(Clone, Copy, PartialEq, Eq, Structural, Debug)]
pub enum CelestialBodyType {
    Planet,
    Quasar,
    SpacetimeRip,
    AsteroidBelt,
}

impl CelestialBodyType {
    /// The code this kind carries inside the circuits.
    pub open spec fn spec_code(self) -> u8 {
        match self {
            CelestialBodyType::Planet => 0,
            CelestialBodyType::Quasar => 1,
            CelestialBodyType::SpacetimeRip => 2,
            CelestialBodyType::AsteroidBelt => 3,
        }
    }

    /// Return the circuit code of this kind.
    pub fn code(self) -> (r: u8)
        ensures
            r == self.spec_code(),
    {
        match self {
            CelestialBodyType::Planet => 0,
            CelestialBodyType::Quasar => 1,
            CelestialBodyType::SpacetimeRip => 2,
            CelestialBodyType::AsteroidBelt => 3,
        }
    }
}

/// How a game is won.
#[derive(Clone, Copy, PartialEq, Eq, Structural, Debug)]
pub enum WinCondition {
    PointsBurning { points_per_metal: u64 },
    RaceToCenter { min_spawn_distance: u64 },
}

/// The two upgrade focus choices, in the order of their circuit codes.
#[derive(Clone, Copy, PartialEq, Eq, Structural, Debug)]
pub enum UpgradeFocus {
    Range,
    LaunchVelocity,
}

impl UpgradeFocus {
    /// The code this focus carries inside the circuits.
    pub open spec fn spec_code(self) -> u8 {
        match self {
            UpgradeFocus::Range => 0,
            UpgradeFocus::LaunchVelocity => 1,
        }
    }

    /// Return the circuit code of this focus.
    pub fn code(self) -> (r: u8)
        ensures
            r == self.spec_code(),
    {
        match self {
            UpgradeFocus::Range => 0,
            UpgradeFocus::LaunchVelocity => 1,
        }
    }
}

/// The six comet boost kinds, in the order of their circuit codes; each
/// doubles exactly the stat it names.
#[derive(Clone, Copy, PartialEq, Eq, Structural, Debug)]
pub enum CometBoost {
    ShipCapacity,
    MetalCapacity,
    ShipGenSpeed,
    MetalGenSpeed,
    Range,
    LaunchVelocity,
}

impl CometBoost {
    /// The code this boost carries inside the circuits.
    pub open spec fn spec_code(self) -> u8 {
        match self {
            CometBoost::ShipCapacity => 0,
            CometBoost::MetalCapacity => 1,
            CometBoost::ShipGenSpeed => 2,
            CometBoost::MetalGenSpeed => 3,
            CometBoost::Range => 4,
            CometBoost::LaunchVelocity => 5,
        }
    }

    /// Return the circuit code of this boost.
    pub fn code(self) -> (r: u8)
        ensures
            r == self.spec_code(),
    {
        match self {
            CometBoost::ShipCapacity => 0,
            CometBoost::MetalCapacity => 1,
            CometBoost::ShipGenSpeed => 2,
            CometBoost::MetalGenSpeed => 3,
            CometBoost::Range => 4,
            CometBoost::LaunchVelocity => 5,
        }
    }
}

/// The nine ordered classification cut-points (plus the asteroid-belt bound
/// kept for layout fidelity), read-only after game creation.
#[derive(Clone, Copy, PartialEq, Eq, Structural, Debug)]
pub struct NoiseThresholds {
    pub dead_space_threshold: u8,
    pub planet_threshold: u8,
    pub quasar_threshold: u8,
    pub spacetime_rip_threshold: u8,
    pub asteroid_belt_threshold: u8,
    pub size_threshold_1: u8,
    pub size_threshold_2: u8,
    pub size_threshold_3: u8,
    pub size_threshold_4: u8,
    pub size_threshold_5: u8,
}

/// Global per-game configuration, immutable after creation.
#[derive(Clone, Copy, PartialEq, Eq, Debug)]
pub struct Game {
    pub admin: [u8; 32],
    pub game_id: u64,
    pub map_diameter: u64,
    pub game_speed: u64,
    pub start_slot: u64,
    pub end_slot: u64,
    pub win_condition: WinCondition,
    pub whitelist: bool,
    pub server_pubkey: Option<[u8; 32]>,
    pub noise_thresholds: NoiseThresholds,
    /// Number of iterated hash rounds for the planet-hash difficulty.
    pub hash_rounds: u16,
}

impl Game {
    /// The game accepts mutating requests at `now`.
    pub open spec fn spec_is_active(self, now: u64) -> bool {
        self.start_slot <= now < self.end_slot
    }
}

/// Per-player record.
#[derive(Clone, Copy, PartialEq, Eq, Debug)]
pub struct Player {
    pub owner: [u8; 32],
    pub game_id: u64,
    pub points: u64,
    pub has_spawned: bool,
}

/// What `create_game` produces: the first failing admission check's error,
/// or the fully populated configuration.
pub open spec fn spec_create_game(
    admin: [u8; 32],
    game_id: u64,
    map_diameter: u64,
    game_speed: u64,
    start_slot: u64,
    end_slot: u64,
    win_condition: WinCondition,
    whitelist: bool,
    server_pubkey: Option<[u8; 32]>,
    noise_thresholds: NoiseThresholds,
    hash_rounds: u16,
) -> Result<Game, ErrorCode> {
    if map_diameter == 0 {
        Err(ErrorCode::InvalidMapDiameter)
    } else if game_speed == 0 {
        Err(ErrorCode::InvalidGameSpeed)
    } else if end_slot <= start_slot {
        Err(ErrorCode::InvalidTimeRange)
    } else if hash_rounds < 1 {
        Err(ErrorCode::InvalidHashRounds)
    } else if whitelist && server_pubkey is None {
        Err(ErrorCode::WhitelistRequiresServer)
    } else {
        Ok(
            Game {
                admin,
                game_id,
                map_diameter,
                game_speed,
                start_slot,
                end_slot,
                win_condition,
                whitelist,
                server_pubkey,
                noise_thresholds,
                hash_rounds,
            },
        )
    }
}

/// Validate and build a game configuration.  Succeeds exactly when the map
/// diameter and game speed are positive, the end slot is after the start
/// slot, at least one hash round is requested, and a whitelist game names a
/// server key.
pub fn create_game(
    admin: [u8; 32],
    game_id: u64,
    map_diameter: u64,
    game_speed: u64,
    start_slot: u64,
    end_slot: u64,
    win_condition: WinCondition,
    whitelist: bool,
    server_pubkey: Option<[u8; 32]>,
    noise_thresholds: NoiseThresholds,
    hash_rounds: u16,
) -> (r: Result<Game, ErrorCode>)
    ensures
        r == spec_create_game(
            admin,
            game_id,
            map_diameter,
            game_speed,
            start_slot,
            end_slot,
            win_condition,
            whitelist,
            server_pubkey,
            noise_thresholds,
            hash_rounds,
        ),
{
    if map_diameter == 0 {
        Err(ErrorCode::InvalidMapDiameter)
    } else if game_speed == 0 {
        Err(ErrorCode::InvalidGameSpeed)
    } else if end_slot <= start_slot {
        Err(ErrorCode::InvalidTimeRange)
    } else if hash_rounds < 1 {
        Err(ErrorCode::InvalidHashRounds)
    } else if whitelist && server_pubkey.is_none() {
        Err(ErrorCode::WhitelistRequiresServer)
    } else {
        Ok(
            Game {
                admin,
                game_id,
                map_diameter,
                game_speed,
                start_slot,
                end_slot,
                win_condition,
                whitelist,
                server_pubkey,
                noise_thresholds,
                hash_rounds,
            },
        )
    }
}

/// Compare two 32-byte keys.
pub fn bytes32_eq(a: &[u8; 32], b: &[u8; 32]) -> (r: bool)
    ensures
        r == (*a == *b),
{
    let mut i: usize = 0;
    while i < 32
        invariant
            i <= 32,
            forall|j: int| 0 <= j < i ==> a[j] == b[j],
        decreases 32 - i,
    {
        if a[i] != b[i] {
            return false;
        }
        i += 1;
    }
    proof {
        assert((*a) =~= (*b));
    }
    true
}

/// What `init_player` produces: a whitelist game demands a signing server
/// whose key matches the configured one; otherwise a fresh record with zero
/// points and the spawn flag clear.
pub open spec fn spec_init_player(game: Game, owner: [u8; 32], server: Option<[u8; 32]>) -> Result<
    Player,
    ErrorCode,
> {
    if game.whitelist && server is None {
        Err(ErrorCode::WhitelistServerRequired)
    } else if game.whitelist && Some(server->0) != game.server_pubkey {
        Err(ErrorCode::InvalidServerKey)
    } else {
        Ok(Player { owner, game_id: game.game_id, points: 0, has_spawned: false })
    }
}

/// Register a player for a game.
pub fn init_player(game: &Game, owner: [u8; 32], server: Option<[u8; 32]>) -> (r: Result<
    Player,
    ErrorCode,
>)
    ensures
        r == spec_init_player(*game, owner, server),
{
    if game.whitelist {
        match server {
            None => {
                return Err(ErrorCode::WhitelistServerRequired);
            },
            Some(server_key) => {
                let key_matches = match &game.server_pubkey {
                    Some(expected) => bytes32_eq(&server_key, expected),
                    None => false,
                };
                if !key_matches {
                    return Err(ErrorCode::InvalidServerKey);
                }
            },
        }
    }
    Ok(Player { owner, game_id: game.game_id, points: 0, has_spawned: false })
}

} // verus!
