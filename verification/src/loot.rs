//! The loot generator: randomized pickup placement and effect.

use crate::player::Position;
use rand::Rng;
use vstd::prelude::*;

verus! {

/// An ephemeral world pickup: an id supplied by the caller (uniqueness is
/// the caller's responsibility), an effect, and a grid position.
#[derive(Debug, Clone, PartialEq, Eq, Structural)]
pub struct Loot {
    pub id: u64,
    pub loot_type: LootType,
    pub position: Position,
}

/// The effect a pickup carries, a closed tagged variant so the record can
/// cross the host boundary exhaustively and losslessly. `Health(m)`
/// restores `m` health on consumption.
#[derive(Debug, Clone, PartialEq, Eq, Structural)]
pub enum LootType {
    Health(u64),
}

/// How many loot-effect variants the spawner draws from. The draw below is
/// sized by this count, so adding a variant widens the range with it.
pub const LOOT_VARIANT_COUNT: u64 = 1;

/// Relies on rand::thread_rng and rand::Rng::gen_range over the half-open
/// range `low..high`: the sample lies in `[low, high)`. gen_range panics on
/// an empty range, so a non-empty one is required. Nothing more is promised
/// of the value: it comes from the process-local random source.
#[verifier::external_body]
fn random_in_range(low: u64, high: u64) -> (r: u64)
    requires
        low < high,
    ensures
        low <= r < high,
{
    rand::thread_rng().gen_range(low..high)
}

/// What every spawned pickup satisfies: the caller's id, a position inside
/// the exclusive map bounds, and a health magnitude drawn from `[25, 75)`.
pub open spec fn spawned_loot_ok(loot: Loot, id: u64, max_x: usize, max_y: usize) -> bool {
    &&& loot.id == id
    &&& loot.position.x < max_x
    &&& loot.position.y < max_y
    &&& match loot.loot_type {
        LootType::Health(magnitude) => 25 <= magnitude < 75,
    }
}

/// Spawn a pickup at a position drawn uniformly from the `max_x` by `max_y`
/// grid, with an effect variant drawn uniformly from the defined variants.
/// A zero-sized spawn area is a configuration bug and is rejected by
/// contract rather than degraded silently.
pub fn spawn_random_loot(id: u64, max_x: usize, max_y: usize) -> (loot: Loot)
    requires
        max_x > 0,
        max_y > 0,
    ensures
        spawned_loot_ok(loot, id, max_x, max_y),
{
    let x = random_in_range(0, max_x as u64) as usize;
    let y = random_in_range(0, max_y as u64) as usize;
    let position = Position { x, y };
    match random_in_range(0, LOOT_VARIANT_COUNT) {
        _ => random_health_loot(id, position),
    }
}

/// Build a health pickup with a magnitude drawn uniformly from `[25, 75)`.
fn random_health_loot(id: u64, position: Position) -> (loot: Loot)
    ensures
        loot.id == id,
        loot.position == position,
        match loot.loot_type {
            LootType::Health(magnitude) => 25 <= magnitude < 75,
        },
{
    let value: u64 = random_in_range(25, 75);
    let loot_type = LootType::Health(value);
    Loot { id, position, loot_type }
}

} // verus!
