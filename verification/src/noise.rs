//! Deterministic noise engine: mixes a secret coordinate and a game
//! identifier into wide pseudorandom words, and classifies celestial bodies
//! from extracted base-256 digits.
//!
//! Everything here is a total function built from addition, multiplication,
//! integer division and modulo, with full if/else coverage and no early
//! return, so that the same arithmetic can be evaluated obliviously.

use vstd::prelude::*;

verus! {

/// First mixing word: a weighted linear combination of the inputs.
pub open spec fn mix_a(x: int, y: int, g: int) -> int {
    31 * x + 37 * y + 41 * g + 7
}

/// Second mixing word.
pub open spec fn mix_b(x: int, y: int, g: int) -> int {
    43 * y + 47 * g + 53 * x + 13
}

/// Third mixing word.
pub open spec fn mix_c(x: int, y: int, g: int) -> int {
    59 * g + 61 * x + 67 * y + 17
}

/// Fourth mixing word, a combination of the first three.
pub open spec fn mix_d(x: int, y: int, g: int) -> int {
    3 * mix_a(x, y, g) + 5 * mix_b(x, y, g) + 7 * mix_c(x, y, g) + 19
}

/// Mix a coordinate and a game identifier into four pseudorandom words.
///
/// The fourth word bounds the other three, so a single precondition keeps
/// every intermediate sum inside the machine word.
pub fn mix_hash(x: u64, y: u64, game_id: u64) -> (r: (u64, u64, u64, u64))
    requires
        mix_d(x as int, y as int, game_id as int) <= u64::MAX,
    ensures
        r.0 == mix_a(x as int, y as int, game_id as int),
        r.1 == mix_b(x as int, y as int, game_id as int),
        r.2 == mix_c(x as int, y as int, game_id as int),
        r.3 == mix_d(x as int, y as int, game_id as int),
{
    let a = x * 31 + y * 37 + game_id * 41 + 7;
    let b = y * 43 + game_id * 47 + x * 53 + 13;
    let c = game_id * 59 + x * 61 + y * 67 + 17;
    let d = a * 3 + b * 5 + c * 7 + 19;
    (a, b, c, d)
}

/// The base-256 divisor selecting a digit of a 64-bit word; digits past the
/// fifth fall back to the sixth.
pub open spec fn byte_divisor(index: u8) -> u64 {
    if index == 0 {
        1
    } else if index == 1 {
        256
    } else if index == 2 {
        65536
    } else if index == 3 {
        16777216
    } else if index == 4 {
        4294967296
    } else {
        1099511627776
    }
}

/// The `index`-th base-256 digit of `h` (digit 0 is the lowest).
pub open spec fn spec_extract_byte(h: u64, index: u8) -> u8 {
    ((h / byte_divisor(index)) % 256) as u8
}

/// Extract a base-256 digit by integer division and modulo.
pub fn extract_byte(h: u64, index: u8) -> (r: u8)
    ensures
        r == spec_extract_byte(h, index),
{
    let divisor: u64 = if index == 0 {
        1
    } else if index == 1 {
        256
    } else if index == 2 {
        65536
    } else if index == 3 {
        16777216
    } else if index == 4 {
        4294967296
    } else {
        1099511627776
    };
    ((h / divisor) % 256) as u8
}

/// Body-type code determined by where a digit falls among the thresholds:
/// 0 = Planet, 1 = Quasar, 2 = SpacetimeRip, 3 = AsteroidBelt.
pub open spec fn spec_determine_body_type(
    byte1: u8,
    planet_threshold: u8,
    quasar_threshold: u8,
    spacetime_rip_threshold: u8,
) -> u8 {
    if byte1 < planet_threshold {
        0
    } else if byte1 < quasar_threshold {
        1
    } else if byte1 < spacetime_rip_threshold {
        2
    } else {
        3
    }
}

/// Classify a body type from a hash digit.
pub fn determine_body_type(
    byte1: u8,
    planet_threshold: u8,
    quasar_threshold: u8,
    spacetime_rip_threshold: u8,
) -> (r: u8)
    ensures
        r == spec_determine_body_type(
            byte1,
            planet_threshold,
            quasar_threshold,
            spacetime_rip_threshold,
        ),
{
    if byte1 < planet_threshold {
        0
    } else if byte1 < quasar_threshold {
        1
    } else if byte1 < spacetime_rip_threshold {
        2
    } else {
        3
    }
}

/// Size class (1-6) determined by five ordered digit thresholds.
pub open spec fn spec_determine_size(byte2: u8, t1: u8, t2: u8, t3: u8, t4: u8, t5: u8) -> u8 {
    if byte2 < t1 {
        1
    } else if byte2 < t2 {
        2
    } else if byte2 < t3 {
        3
    } else if byte2 < t4 {
        4
    } else if byte2 < t5 {
        5
    } else {
        6
    }
}

/// Classify a size class from a hash digit.
pub fn determine_size(byte2: u8, t1: u8, t2: u8, t3: u8, t4: u8, t5: u8) -> (r: u8)
    ensures
        r == spec_determine_size(byte2, t1, t2, t3, t4, t5),
        1 <= r <= 6,
{
    if byte2 < t1 {
        1
    } else if byte2 < t2 {
        2
    } else if byte2 < t3 {
        3
    } else if byte2 < t4 {
        4
    } else if byte2 < t5 {
        5
    } else {
        6
    }
}

/// Number of comet boosts (0-2) granted by a hash digit.
pub open spec fn spec_determine_comet_count(byte3: u8) -> u8 {
    if byte3 <= 216 {
        0
    } else if byte3 <= 242 {
        1
    } else {
        2
    }
}

/// Classify the comet count from a hash digit.
pub fn determine_comet_count(byte3: u8) -> (r: u8)
    ensures
        r == spec_determine_comet_count(byte3),
        r <= 2,
{
    if byte3 <= 216 {
        0
    } else if byte3 <= 242 {
        1
    } else {
        2
    }
}

/// A comet boost kind selected from a digit, one of six.
pub open spec fn spec_comet_from_byte(b: u8) -> u8 {
    (b % 6) as u8
}

/// Select a comet boost kind from a digit.
pub fn comet_from_byte(b: u8) -> (r: u8)
    ensures
        r == spec_comet_from_byte(b),
        r < 6,
{
    b % 6
}

/// A second comet boost kind, perturbed when it collides with the first so
/// that two active comets never double the same stat.
pub open spec fn spec_comet_from_byte_avoiding(b: u8, first: u8) -> u8 {
    if b % 6 == first {
        ((b + 1) % 6) as u8
    } else {
        (b % 6) as u8
    }
}

/// Select the second comet boost kind, avoiding the first.
///
/// `(b + 1) % 6` is computed as `(b % 6 + 1) % 6` so that the selection is
/// total over every digit value.
pub fn comet_from_byte_avoiding(b: u8, first: u8) -> (r: u8)
    ensures
        r == spec_comet_from_byte_avoiding(b, first),
        r < 6,
{
    let c = b % 6;
    if c == first {
        proof {
            vstd::arithmetic::div_mod::lemma_add_mod_noop(b as int, 1int, 6int);
        }
        assert((b % 6 + 1) % 6 == (b + 1) % 6);
        (c + 1) % 6
    } else {
        c
    }
}

} // verus!
