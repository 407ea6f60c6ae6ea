//! The player entity: its state machine (health, status, cooldowns) and
//! the transition operations the game loop invokes once per tick.
//!
//! Cooldowns are tracked by storing the timestamp at which the cooldown was
//! armed plus a snapshot of the seconds then remaining, rather than an opaque
//! timer handle, because a player record must cross the host boundary as
//! plain data. Aging a cooldown recomputes the remaining time directly from
//! that pair and the current time, so coarse and fine-grained polling agree.

use crate::character::Character;
use crate::time_utils::time_now;
use vstd::prelude::*;

verus! {

/// An absolute grid cell. Both coordinates are non-negative by
/// representation; upper bounds are supplied by callers (map size).
#[derive(Debug, Clone, Copy, PartialEq, Eq, Structural)]
pub struct Position {
    pub x: usize,
    pub y: usize,
}

impl Position {
    pub fn new(x: usize, y: usize) -> (p: Position)
        ensures
            p.x == x,
            p.y == y,
    {
        Position { x, y }
    }
}

/// A signed displacement between two positions, used for targeting math.
/// Not clamped to any map bounds.
#[derive(Debug, Clone, PartialEq, Eq, Structural)]
pub struct RelativePosition {
    pub x: i64,
    pub y: i64,
}

impl RelativePosition {
    pub fn new(x: i64, y: i64) -> (p: RelativePosition)
        ensures
            p.x == x,
            p.y == y,
    {
        RelativePosition { x, y }
    }
}

/// Player life-cycle status. `ALIVE -> DEAD` is the only transition this
/// core performs, and it is one-way; `DISCONNECTED` is set and cleared by
/// external connection management and only guarded on here.
#[derive(Debug, Clone, PartialEq, Eq, Structural)]
pub enum Status {
    ALIVE,
    DEAD,
    DISCONNECTED,
}

/// The player's declared intent for the current tick; set externally and
/// consumed by combat resolution, never changed by this core after
/// construction.
#[derive(Debug, Clone, PartialEq, Eq, Structural)]
pub enum PlayerAction {
    NOTHING,
    ATTACKING,
    ATTACKINGAOE,
    EXECUTINGSKILL1,
}

/// The authoritative per-connection entity.
///
/// Cooldowns are pairs: `<name>_cooldown_start` is the timestamp (whole
/// seconds since the epoch) at which the cooldown was armed, and
/// `<name>_cooldown_left` the snapshot of seconds then remaining, updated
/// by [`Player::update_cooldowns`].
#[derive(Debug, Clone)]
pub struct Player {
    pub id: u64,
    pub health: i64,
    pub position: Position,
    /// Time of the last melee attack done by the player, in whole seconds.
    pub last_melee_attack: u64,
    pub status: Status,
    pub character: Character,
    pub action: PlayerAction,
    pub aoe_position: Position,
    pub kill_count: u64,
    pub death_count: u64,
    pub basic_cooldown_left: u64,
    pub first_cooldown_left: u64,
    pub second_cooldown_left: u64,
    pub ultimate_cooldown_left: u64,
    pub basic_cooldown_start: u64,
    pub first_cooldown_start: u64,
    pub second_cooldown_start: u64,
    pub ultimate_cooldown_start: u64,
}

/// Addition over the mathematical integers, clamped to the `i64` range.
pub open spec fn sat_add_i64(a: int, b: int) -> int {
    if a + b > i64::MAX {
        i64::MAX as int
    } else if a + b < i64::MIN {
        i64::MIN as int
    } else {
        a + b
    }
}

/// The player after a health delta: a no-op unless the player is alive;
/// otherwise health moves by `hp_points` with saturation, and a result at
/// or below zero is a death, counted exactly once.
pub open spec fn modified_health(p: Player, hp_points: i64) -> Player {
    if p.status is ALIVE {
        let h = sat_add_i64(p.health as int, hp_points as int);
        if h <= 0 {
            Player {
                health: h as i64,
                status: Status::DEAD,
                death_count: (p.death_count + 1) as u64,
                ..p
            }
        } else {
            Player { health: h as i64, ..p }
        }
    } else {
        p
    }
}

/// The player after a whole sequence of health deltas, applied in order.
pub open spec fn modified_health_all(p: Player, deltas: Seq<i64>) -> Player
    decreases deltas.len(),
{
    if deltas.len() == 0 {
        p
    } else {
        modified_health_all(modified_health(p, deltas[0]), deltas.drop_first())
    }
}

/// The player after a kill credit: `kills` more on the kill counter,
/// regardless of status.
pub open spec fn with_kills(p: Player, kills: u64) -> Player {
    Player { kill_count: (p.kill_count + kills) as u64, ..p }
}

/// Seconds remaining at time `now` of a cooldown armed at `start` with
/// `left` seconds then remaining: the distance to its expiry time
/// `start + left`, or zero once `now` has passed it.
pub open spec fn remaining_cooldown(start: u64, left: u64, now: u64) -> u64 {
    if start + left >= now {
        ((start + left) - now) as u64
    } else {
        0
    }
}

/// The player after its cooldowns are aged to time `now`. The `basic`,
/// `first` and `second` pairs are recomputed; the `ultimate` pair is left
/// untouched, faithfully to the observed behaviour of the tick loop.
pub open spec fn aged_cooldowns(p: Player, now: u64) -> Player {
    Player {
        basic_cooldown_left: remaining_cooldown(p.basic_cooldown_start, p.basic_cooldown_left, now),
        first_cooldown_left: remaining_cooldown(p.first_cooldown_start, p.first_cooldown_left, now),
        second_cooldown_left: remaining_cooldown(
            p.second_cooldown_start,
            p.second_cooldown_left,
            now,
        ),
        ..p
    }
}

/// The freshly constructed player: alive, idle, all counters and cooldown
/// fields zero, last melee attack stamped `now`.
pub open spec fn initial_player(
    id: u64,
    health: i64,
    position: Position,
    character: Character,
    now: u64,
) -> Player {
    Player {
        id,
        health,
        position,
        last_melee_attack: now,
        status: Status::ALIVE,
        character,
        action: PlayerAction::NOTHING,
        aoe_position: Position { x: 0, y: 0 },
        kill_count: 0,
        death_count: 0,
        basic_cooldown_left: 0,
        first_cooldown_left: 0,
        second_cooldown_left: 0,
        ultimate_cooldown_left: 0,
        basic_cooldown_start: 0,
        first_cooldown_start: 0,
        second_cooldown_start: 0,
        ultimate_cooldown_start: 0,
    }
}

/// `i64` addition that clamps to the representable range instead of
/// wrapping, so lethal damage can never overflow health into a large
/// positive value.
fn saturating_add_i64(a: i64, b: i64) -> (r: i64)
    ensures
        r == sat_add_i64(a as int, b as int),
{
    match a.checked_add(b) {
        Some(s) => s,
        None => if b >= 0 {
            i64::MAX
        } else {
            i64::MIN
        },
    }
}

impl Player {
    /// Construct a player with the given id, starting health, position and
    /// character, stamped with the given creation time.
    pub fn new_at(id: u64, health: i64, position: Position, character: Character, now: u64) -> (p:
        Player)
        ensures
            p == initial_player(id, health, position, character, now),
    {
        Player {
            id,
            health,
            position,
            last_melee_attack: now,
            status: Status::ALIVE,
            character,
            action: PlayerAction::NOTHING,
            aoe_position: Position::new(0, 0),
            kill_count: 0,
            death_count: 0,
            basic_cooldown_left: 0,
            first_cooldown_left: 0,
            second_cooldown_left: 0,
            ultimate_cooldown_left: 0,
            basic_cooldown_start: 0,
            first_cooldown_start: 0,
            second_cooldown_start: 0,
            ultimate_cooldown_start: 0,
        }
    }

    /// Construct a player stamped with the current time, read once from the
    /// clock source. Every field but `last_melee_attack` is pinned; the
    /// stamp itself depends on the clock.
    pub fn new(id: u64, health: i64, position: Position, character: Character) -> (p: Player)
        ensures
            p == initial_player(id, health, position, character, p.last_melee_attack),
    {
        let now = time_now();
        Player::new_at(id, health, position, character, now)
    }

    /// Apply a health delta: negative for damage, positive for healing.
    /// A no-op on a player that is not alive, so a dead or disconnected
    /// player can neither be healed nor further damaged; on a live player
    /// the delta is added with saturation, and a result at or below zero
    /// kills the player and counts the death exactly once.
    pub fn modify_health(&mut self, hp_points: i64)
        requires
            old(self).status is ALIVE && sat_add_i64(
                old(self).health as int,
                hp_points as int,
            ) <= 0 ==> old(self).death_count < u64::MAX,
        ensures
            *final (self) == modified_health(*old(self), hp_points),
    {
        if matches!(self.status, Status::ALIVE) {
            self.health = saturating_add_i64(self.health, hp_points);
            if self.health <= 0 {
                self.status = Status::DEAD;
                self.death_count = self.death_count + 1;
            }
        }
    }

    /// Credit `kills` kills to the player. No status guard: kills can be
    /// attributed even to a dead player (simultaneous-death credit).
    pub fn add_kills(&mut self, kills: u64)
        requires
            old(self).kill_count + kills <= u64::MAX,
        ensures
            *final (self) == with_kills(*old(self), kills),
    {
        self.kill_count = self.kill_count + kills;
    }

    /// Age the `basic`, `first` and `second` cooldowns to time `now`,
    /// recomputing each remaining time from the arm timestamp and the
    /// remaining-seconds snapshot; a cooldown whose expiry has passed
    /// reads exactly zero, never a wrapped value. The `ultimate` pair is
    /// not aged here.
    pub fn update_cooldowns(&mut self, now: u64)
        requires
            old(self).basic_cooldown_start + old(self).basic_cooldown_left <= u64::MAX,
            old(self).first_cooldown_start + old(self).first_cooldown_left <= u64::MAX,
            old(self).second_cooldown_start + old(self).second_cooldown_left <= u64::MAX,
        ensures
            *final (self) == aged_cooldowns(*old(self), now),
    {
        self.basic_cooldown_left = (self.basic_cooldown_start
            + self.basic_cooldown_left).checked_sub(now).unwrap_or(0);
        self.first_cooldown_left = (self.first_cooldown_start
            + self.first_cooldown_left).checked_sub(now).unwrap_or(0);
        self.second_cooldown_left = (self.second_cooldown_start
            + self.second_cooldown_left).checked_sub(now).unwrap_or(0);
    }
}

/// A health delta followed by its opposite restores the original health,
/// provided the first application neither saturated nor crossed zero; and
/// if health was positive to begin with, the whole record is restored.
pub proof fn lemma_health_delta_round_trip(p: Player, d: i64, e: i64)
    requires
        p.status is ALIVE,
        d + e == 0,
        i64::MIN <= p.health + d <= i64::MAX,
        p.health + d > 0,
    ensures
        modified_health(modified_health(p, d), e).health == p.health,
        p.health > 0 ==> modified_health(modified_health(p, d), e) == p,
{
}

/// One application of a health delta to a dead player changes nothing.
pub proof fn lemma_dead_player_delta_is_noop(p: Player, d: i64)
    requires
        p.status is DEAD,
    ensures
        modified_health(p, d) == p,
{
}

/// Once dead, any number of health deltas, in any order, leave the player
/// — health, status and death count included — unchanged.
pub proof fn lemma_dead_player_unchanged(p: Player, deltas: Seq<i64>)
    requires
        p.status is DEAD,
    ensures
        modified_health_all(p, deltas) == p,
    decreases deltas.len(),
{
    if deltas.len() > 0 {
        lemma_dead_player_delta_is_noop(p, deltas[0]);
        lemma_dead_player_unchanged(p, deltas.drop_first());
    }
}

/// A single lethal delta — one taking health to or below zero — kills the
/// player and increments the death count by exactly one, however negative
/// the delta: saturation keeps the resulting health at or below zero, so
/// lethal damage can never wrap health to a large positive value.
pub proof fn lemma_lethal_delta_kills(p: Player, d: i64)
    requires
        p.status is ALIVE,
        p.health + d <= 0,
        p.death_count < u64::MAX,
    ensures
        modified_health(p, d).status is DEAD,
        modified_health(p, d).death_count == p.death_count + 1,
        modified_health(p, d).health <= 0,
{
}

/// An aged cooldown is never negative, reads exactly zero from the expiry
/// time `start + left` onward, and before expiry reads exactly the distance
/// to it.
pub proof fn lemma_remaining_cooldown_bounds(start: u64, left: u64, now: u64)
    requires
        start + left <= u64::MAX,
    ensures
        remaining_cooldown(start, left, now) >= 0,
        now >= start + left ==> remaining_cooldown(start, left, now) == 0,
        now < start + left ==> remaining_cooldown(start, left, now) == start + left - now,
{
}

/// Crediting `n` kills and then `m` accumulates to exactly `n + m` more,
/// in one step or two, independent of the player's status.
pub proof fn lemma_kills_accumulate(p: Player, n: u64, m: u64)
    requires
        p.kill_count + n + m <= u64::MAX,
    ensures
        with_kills(with_kills(p, n), m) == with_kills(p, (n + m) as u64),
        with_kills(with_kills(p, n), m).kill_count == p.kill_count + n + m,
{
}

} // verus!
