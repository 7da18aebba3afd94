use vstd::prelude::*;
use crate::enemy::{base_bundle, buffed_bundle, EnemyBundle, EnemyKind, EnemySpawnBuffs};
use crate::side::Side;
use crate::timer::RepeatingTimer;

verus! {

/// Enemies in one wave of a fresh spawner.
pub const DEFAULT_ENEMY_SPAWN_NUMBER: u32 = 1;

/// Distance of a wave's enemies from the spawn point, in world units.
pub const DEFAULT_ENEMY_SPAWN_RADIUS: u32 = 200;

/// Time between waves, in nanoseconds (five seconds).
pub const DEFAULT_ENEMY_SPAWN_RATE: u64 = 5_000_000_000;

/// Distance of each spawn point from the centre of the map, in world units.
pub const SPAWN_DISTANCE: i32 = 500;

/// Relies on rand::random: a value drawn from the thread-local generator.
/// Nothing is promised of the value.
pub assume_specification<T>[ rand::random::<T> ]() -> (r: T)
    where
        rand::distributions::Standard: rand::distributions::Distribution<T>,
;

/// The kind that a random bit selects.
pub open spec fn kind_of_roll(roll: bool) -> EnemyKind {
    if roll {
        EnemyKind::Goblin
    } else {
        EnemyKind::SpearGoblin
    }
}

/// The kind that a random bit selects.
pub fn kind_for_roll(roll: bool) -> (r: EnemyKind)
    ensures
        r == kind_of_roll(roll),
{
    if roll {
        EnemyKind::Goblin
    } else {
        EnemyKind::SpearGoblin
    }
}

/// Where the spawner of `side` stands.
pub open spec fn spec_spawn_point(side: Side) -> (i32, i32) {
    match side {
        Side::North => (0, SPAWN_DISTANCE),
        Side::South => (0, (-SPAWN_DISTANCE) as i32),
        Side::West => ((-SPAWN_DISTANCE) as i32, 0),
        Side::East => (SPAWN_DISTANCE, 0),
    }
}

/// Where the spawner of `side` stands: on the map edge that the side faces.
pub fn spawn_point(side: Side) -> (r: (i32, i32))
    ensures
        r == spec_spawn_point(side),
{
    match side {
        Side::North => (0, SPAWN_DISTANCE),
        Side::South => (0, -SPAWN_DISTANCE),
        Side::West => (-SPAWN_DISTANCE, 0),
        Side::East => (SPAWN_DISTANCE, 0),
    }
}

/// One enemy of a wave. It stands at `radius` from the spawn point, turned
/// `slot / count` of a full turn from the axis that points north.
#[derive(Clone, Copy, Debug, PartialEq, Eq, Structural)]
pub struct SpawnedEnemy {
    pub bundle: EnemyBundle,
    pub slot: u32,
    pub count: u32,
    pub radius: u32,
    /// The spawn point.
    pub origin_x: i32,
    pub origin_y: i32,
}

/// A spawner: on each completed period it emits a wave of `number` enemies.
#[derive(Clone, Copy, Debug, PartialEq, Eq, Structural)]
pub struct EnemySpawn {
    pub side: Side,
    pub number: u32,
    pub radius: u32,
    pub timer: RepeatingTimer,
    pub x: i32,
    pub y: i32,
}

/// The `i`th enemy of a wave of `spawn`, of the kind that `roll` selects,
/// with its stats multiplied by `buffs` where there are any.
pub open spec fn wave_member(
    spawn: EnemySpawn,
    buffs: Option<EnemySpawnBuffs>,
    roll: bool,
    i: int,
) -> SpawnedEnemy {
    SpawnedEnemy {
        bundle: match buffs {
            Some(b) => buffed_bundle(kind_of_roll(roll), spawn.side, b),
            None => base_bundle(kind_of_roll(roll), spawn.side),
        },
        slot: i as u32,
        count: spawn.number,
        radius: spawn.radius,
        origin_x: spawn.x,
        origin_y: spawn.y,
    }
}

/// The wave of `spawn` whose kinds the first `number` bits of `rolls` select.
pub open spec fn wave_of(
    spawn: EnemySpawn,
    buffs: Option<EnemySpawnBuffs>,
    rolls: Seq<bool>,
) -> Seq<SpawnedEnemy> {
    Seq::new(spawn.number as nat, |i: int| wave_member(spawn, buffs, rolls[i], i))
}

/// `w` is a wave of `spawn` with the kinds left open: each enemy is a goblin or a spear goblin.
pub open spec fn is_some_wave(spawn: EnemySpawn, buffs: Option<EnemySpawnBuffs>, w: Seq<SpawnedEnemy>) -> bool {
    &&& w.len() == spawn.number
    &&& forall|i: int|
        0 <= i < w.len() ==> #[trigger] w[i] == wave_member(spawn, buffs, true, i) || w[i]
            == wave_member(spawn, buffs, false, i)
}

/// Draws `n` independent random bits.
pub fn draw_rolls(n: u32) -> (r: Vec<bool>)
    ensures
        r@.len() == n,
{
    let mut rolls: Vec<bool> = Vec::new();
    let mut i: u32 = 0;
    while i < n
        invariant
            i <= n,
            rolls@.len() == i,
        decreases n - i,
    {
        let roll: bool = rand::random::<bool>();
        rolls.push(roll);
        i = i + 1;
    }
    rolls
}

/// The spawner of `side` as a session starts it.
pub open spec fn spec_default_spawn(side: Side) -> EnemySpawn {
    EnemySpawn {
        side,
        number: DEFAULT_ENEMY_SPAWN_NUMBER,
        radius: DEFAULT_ENEMY_SPAWN_RADIUS,
        timer: RepeatingTimer { duration: DEFAULT_ENEMY_SPAWN_RATE, elapsed: 0 },
        x: spec_spawn_point(side).0,
        y: spec_spawn_point(side).1,
    }
}

impl EnemySpawn {
    /// The timer is well formed.
    pub open spec fn wf(self) -> bool {
        self.timer.wf()
    }

    /// The spawner of `side` with the default wave size, radius and period, at its spawn point.
    pub fn new(side: Side) -> (r: EnemySpawn)
        ensures
            r == spec_default_spawn(side),
            r.wf(),
            r.side == side,
            r.number == DEFAULT_ENEMY_SPAWN_NUMBER,
            r.radius == DEFAULT_ENEMY_SPAWN_RADIUS,
            r.timer == (RepeatingTimer { duration: DEFAULT_ENEMY_SPAWN_RATE, elapsed: 0 }),
            (r.x, r.y) == spec_spawn_point(side),
    {
        let (x, y) = spawn_point(side);
        EnemySpawn {
            side,
            number: DEFAULT_ENEMY_SPAWN_NUMBER,
            radius: DEFAULT_ENEMY_SPAWN_RADIUS,
            timer: RepeatingTimer::new(DEFAULT_ENEMY_SPAWN_RATE),
            x,
            y,
        }
    }

    /// The wave whose kinds the first `number` bits of `rolls` select
    /// (`true` a goblin, `false` a spear goblin), one enemy per slot.
    pub fn wave(&self, buffs: Option<EnemySpawnBuffs>, rolls: &Vec<bool>) -> (r: Vec<SpawnedEnemy>)
        requires
            rolls@.len() >= self.number,
        ensures
            r@ == wave_of(*self, buffs, rolls@),
    {
        let mut out: Vec<SpawnedEnemy> = Vec::new();
        let mut i: u32 = 0;
        while i < self.number
            invariant
                i <= self.number,
                rolls@.len() >= self.number,
                out@.len() == i,
                forall|j: int| 0 <= j < i ==> out@[j] == wave_member(*self, buffs, rolls@[j], j),
            decreases self.number - i,
        {
            let kind = kind_for_roll(rolls[i as usize]);
            let bundle = match buffs {
                Some(b) => EnemyBundle::buffed(kind, self.side, &b),
                None => EnemyBundle::of_kind(kind, self.side),
            };
            out.push(
                SpawnedEnemy {
                    bundle,
                    slot: i,
                    count: self.number,
                    radius: self.radius,
                    origin_x: self.x,
                    origin_y: self.y,
                },
            );
            i = i + 1;
        }
        assert(out@ =~= wave_of(*self, buffs, rolls@));
        out
    }

    /// Advances the timer by `delta` nanoseconds; when a period completes,
    /// returns the wave that `rolls` selects, else nothing.
    pub fn tick(&mut self, delta: u64, rolls: &Vec<bool>) -> (r: Vec<SpawnedEnemy>)
        requires
            old(self).wf(),
            rolls@.len() >= old(self).number,
        ensures
            final(self).wf(),
            *final(self) == (EnemySpawn { timer: old(self).timer.advanced(delta), ..*old(self) }),
            r@ == if old(self).timer.finishes(delta) {
                wave_of(*old(self), None, rolls@)
            } else {
                Seq::empty()
            },
    {
        self.tick_with(delta, None, rolls)
    }

    /// As `tick`, with the wave's stats multiplied by `buffs` where there are any.
    pub fn tick_with(&mut self, delta: u64, buffs: Option<EnemySpawnBuffs>, rolls: &Vec<bool>) -> (r: Vec<SpawnedEnemy>)
        requires
            old(self).wf(),
            rolls@.len() >= old(self).number,
        ensures
            final(self).wf(),
            *final(self) == (EnemySpawn { timer: old(self).timer.advanced(delta), ..*old(self) }),
            r@ == if old(self).timer.finishes(delta) {
                wave_of(*old(self), buffs, rolls@)
            } else {
                Seq::empty()
            },
    {
        let before = *self;
        if self.timer.tick(delta) {
            before.wave(buffs, rolls)
        } else {
            Vec::new()
        }
    }

    /// As `tick_with`, drawing the kinds at random: each enemy of a wave is a
    /// goblin or a spear goblin, chosen by a fresh random bit.
    pub fn tick_random(&mut self, delta: u64, buffs: Option<EnemySpawnBuffs>) -> (r: Vec<SpawnedEnemy>)
        requires
            old(self).wf(),
        ensures
            final(self).wf(),
            *final(self) == (EnemySpawn { timer: old(self).timer.advanced(delta), ..*old(self) }),
            old(self).timer.finishes(delta) ==> is_some_wave(*old(self), buffs, r@),
            !old(self).timer.finishes(delta) ==> r@.len() == 0,
    {
        let before = *self;
        if self.timer.tick(delta) {
            let rolls = draw_rolls(before.number);
            let w = before.wave(buffs, &rolls);
            assert forall|i: int| 0 <= i < w@.len() implies #[trigger] w@[i] == wave_member(
                before,
                buffs,
                true,
                i,
            ) || w@[i] == wave_member(before, buffs, false, i) by {
                assert(w@[i] == wave_member(before, buffs, rolls@[i], i));
            }
            w
        } else {
            Vec::new()
        }
    }
}

/// A spawner together with the buffs applied to its waves.
#[derive(Clone, Copy, Debug, PartialEq, Eq, Structural)]
pub struct EnemySpawnBundle {
    pub spawn: EnemySpawn,
    pub buffs: EnemySpawnBuffs,
}

impl EnemySpawnBundle {
    /// The default spawner of `side` with neutral buffs.
    pub fn new(side: Side) -> (r: EnemySpawnBundle)
        ensures
            r.spawn.wf(),
            r.spawn.side == side,
            r.spawn.number == DEFAULT_ENEMY_SPAWN_NUMBER,
            r.spawn.radius == DEFAULT_ENEMY_SPAWN_RADIUS,
            r.spawn.timer == (RepeatingTimer { duration: DEFAULT_ENEMY_SPAWN_RATE, elapsed: 0 }),
            (r.spawn.x, r.spawn.y) == spec_spawn_point(side),
            r.buffs.health == 1000 && r.buffs.speed == 1000 && r.buffs.exp == 1000,
            r.buffs.damage == 1000 && r.buffs.attack_speed == 1000,
    {
        EnemySpawnBundle { spawn: EnemySpawn::new(side), buffs: EnemySpawnBuffs::default() }
    }

    /// Advances the spawner by `delta` nanoseconds; when a period completes,
    /// returns the buffed wave that `rolls` selects, else nothing.
    pub fn tick(&mut self, delta: u64, rolls: &Vec<bool>) -> (r: Vec<SpawnedEnemy>)
        requires
            old(self).spawn.wf(),
            rolls@.len() >= old(self).spawn.number,
        ensures
            final(self).spawn.wf(),
            final(self).buffs == old(self).buffs,
            final(self).spawn == (EnemySpawn { timer: old(self).spawn.timer.advanced(delta), ..old(self).spawn }),
            r@ == if old(self).spawn.timer.finishes(delta) {
                wave_of(old(self).spawn, Some(old(self).buffs), rolls@)
            } else {
                Seq::empty()
            },
    {
        let buffs = self.buffs;
        self.spawn.tick_with(delta, Some(buffs), rolls)
    }
}

} // verus!
