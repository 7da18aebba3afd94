use vstd::prelude::*;
use crate::side::Side;

verus! {

/// Health of a goblin.
pub const DEFAULT_ENEMY_HEALTH: i32 = 100;

/// Speed of a goblin, in thousandths of a world unit per second.
pub const DEFAULT_ENEMY_SPEED: u32 = 10000;

/// Experience the castle gains for any enemy.
pub const DEFAULT_ENEMY_EXP: u32 = 10;

/// Health of a spear goblin.
pub const SPEAR_GOBLIN_HEALTH: i32 = 80;

/// Speed of a spear goblin, in thousandths of a world unit per second.
pub const SPEAR_GOBLIN_SPEED: u32 = 12000;

/// The neutral buff factor, in thousandths.
pub const NEUTRAL_BUFF: u32 = 1000;

/// The two kinds of enemy.
#[derive(Clone, Copy, Debug, PartialEq, Eq, Structural, Hash)]
pub enum EnemyKind {
    Goblin,
    SpearGoblin,
}

/// The combat stats of an enemy. Health at or below zero means the enemy is dead.
#[derive(Clone, Copy, Debug, PartialEq, Eq, Structural)]
pub struct Enemy {
    pub health: i32,
    /// Thousandths of a world unit per second.
    pub speed: u32,
    /// Experience the castle gains when this enemy dies.
    pub exp: u32,
}

/// An enemy with the side it attacks and its kind.
#[derive(Clone, Copy, Debug, PartialEq, Eq, Structural)]
pub struct EnemyBundle {
    pub enemy: Enemy,
    pub side: Side,
    pub kind: EnemyKind,
}

/// Multipliers on the stats of spawned enemies, each in thousandths (1000 leaves a stat as it is).
#[derive(Clone, Copy, Debug, PartialEq, Eq, Structural)]
pub struct EnemySpawnBuffs {
    pub health: u32,
    pub speed: u32,
    pub exp: u32,
    pub damage: u32,
    pub attack_speed: u32,
}

impl Default for EnemySpawnBuffs {
    fn default() -> (r: EnemySpawnBuffs)
        ensures
            r.health == NEUTRAL_BUFF,
            r.speed == NEUTRAL_BUFF,
            r.exp == NEUTRAL_BUFF,
            r.damage == NEUTRAL_BUFF,
            r.attack_speed == NEUTRAL_BUFF,
    {
        EnemySpawnBuffs {
            health: NEUTRAL_BUFF,
            speed: NEUTRAL_BUFF,
            exp: NEUTRAL_BUFF,
            damage: NEUTRAL_BUFF,
            attack_speed: NEUTRAL_BUFF,
        }
    }
}

/// `base` times `factor` thousandths, rounded down and capped at `cap`.
pub open spec fn scaled(base: int, factor: int, cap: int) -> int {
    let v = base * factor / 1000;
    if v > cap {
        cap
    } else {
        v
    }
}

/// `base` times `factor` thousandths, rounded down and capped at `cap`.
pub fn scale_stat(base: u32, factor: u32, cap: u32) -> (r: u32)
    ensures
        r == scaled(base as int, factor as int, cap as int),
{
    let b: u64 = base as u64;
    let f: u64 = factor as u64;
    assert(b * f <= u32::MAX as int * u32::MAX as int) by (nonlinear_arith)
        requires
            b <= u32::MAX,
            f <= u32::MAX,
    ;
    let v: u64 = b * f / 1000;
    if v > cap as u64 {
        cap
    } else {
        v as u32
    }
}

/// Base health of a kind.
pub open spec fn base_health(kind: EnemyKind) -> i32 {
    match kind {
        EnemyKind::Goblin => DEFAULT_ENEMY_HEALTH,
        EnemyKind::SpearGoblin => SPEAR_GOBLIN_HEALTH,
    }
}

/// Base speed of a kind.
pub open spec fn base_speed(kind: EnemyKind) -> u32 {
    match kind {
        EnemyKind::Goblin => DEFAULT_ENEMY_SPEED,
        EnemyKind::SpearGoblin => SPEAR_GOBLIN_SPEED,
    }
}

/// An enemy of `kind` on `side` with the kind's base stats.
pub open spec fn base_bundle(kind: EnemyKind, side: Side) -> EnemyBundle {
    EnemyBundle {
        enemy: Enemy { health: base_health(kind), speed: base_speed(kind), exp: DEFAULT_ENEMY_EXP },
        side,
        kind,
    }
}

/// An enemy of `kind` on `side` whose base stats are multiplied by `buffs`.
pub open spec fn buffed_bundle(kind: EnemyKind, side: Side, buffs: EnemySpawnBuffs) -> EnemyBundle {
    EnemyBundle {
        enemy: Enemy {
            health: scaled(base_health(kind) as int, buffs.health as int, i32::MAX as int) as i32,
            speed: scaled(base_speed(kind) as int, buffs.speed as int, u32::MAX as int) as u32,
            exp: scaled(DEFAULT_ENEMY_EXP as int, buffs.exp as int, u32::MAX as int) as u32,
        },
        side,
        kind,
    }
}

impl Enemy {
    /// Whether the enemy is dead.
    pub open spec fn is_dead(self) -> bool {
        self.health <= 0
    }
}

impl EnemyBundle {
    /// An enemy with the given stats.
    pub fn new(health: i32, speed: u32, exp: u32, kind: EnemyKind, side: Side) -> (r: EnemyBundle)
        ensures
            r.enemy.health == health,
            r.enemy.speed == speed,
            r.enemy.exp == exp,
            r.kind == kind,
            r.side == side,
    {
        EnemyBundle { enemy: Enemy { health, speed, exp }, side, kind }
    }

    /// A goblin on `side`.
    pub fn goblin(side: Side) -> (r: EnemyBundle)
        ensures
            r == base_bundle(EnemyKind::Goblin, side),
    {
        EnemyBundle::new(
            DEFAULT_ENEMY_HEALTH,
            DEFAULT_ENEMY_SPEED,
            DEFAULT_ENEMY_EXP,
            EnemyKind::Goblin,
            side,
        )
    }

    /// A spear goblin on `side`: less health, more speed.
    pub fn spear_goblin(side: Side) -> (r: EnemyBundle)
        ensures
            r == base_bundle(EnemyKind::SpearGoblin, side),
    {
        EnemyBundle::new(
            SPEAR_GOBLIN_HEALTH,
            SPEAR_GOBLIN_SPEED,
            DEFAULT_ENEMY_EXP,
            EnemyKind::SpearGoblin,
            side,
        )
    }

    /// An enemy of `kind` on `side` with the kind's base stats.
    pub fn of_kind(kind: EnemyKind, side: Side) -> (r: EnemyBundle)
        ensures
            r == base_bundle(kind, side),
    {
        match kind {
            EnemyKind::Goblin => EnemyBundle::goblin(side),
            EnemyKind::SpearGoblin => EnemyBundle::spear_goblin(side),
        }
    }

    /// An enemy of `kind` on `side` whose health, speed and experience are the
    /// kind's base values times the buffs, rounded down.
    pub fn buffed(kind: EnemyKind, side: Side, buffs: &EnemySpawnBuffs) -> (r: EnemyBundle)
        ensures
            r == buffed_bundle(kind, side, *buffs),
    {
        let base = EnemyBundle::of_kind(kind, side);
        let health = scale_stat(base.enemy.health as u32, buffs.health, i32::MAX as u32);
        let speed = scale_stat(base.enemy.speed, buffs.speed, u32::MAX);
        let exp = scale_stat(base.enemy.exp, buffs.exp, u32::MAX);
        EnemyBundle::new(health as i32, speed, exp, kind, side)
    }

    /// Whether the enemy is dead.
    pub fn is_dead(&self) -> (r: bool)
        ensures
            r == self.enemy.is_dead(),
    {
        self.enemy.health <= 0
    }
}

impl Default for EnemyBundle {
    fn default() -> (r: EnemyBundle)
        ensures
            r == base_bundle(EnemyKind::Goblin, Side::North),
    {
        EnemyBundle::goblin(Side::North)
    }
}

} // verus!
