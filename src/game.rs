use vstd::prelude::*;
use crate::castle::{Castle, CastleOp};
use crate::death::{
    credited_by_order, dying_exp_in, lemma_dying_exp_nonneg, lemma_resolution_order_independent,
    resolve_deaths, survivors_by_order, survivors_in,
};
use crate::enemy::EnemyBundle;
use crate::side::{all_sides, Side};
use crate::spawn::{spec_default_spawn, wave_of, EnemySpawn, SpawnedEnemy};
use crate::state::{watching, GameState};
use crate::wall::{CastleWall, CastleWallBundle, WALL_HEALTH};

verus! {

/// Notice that a wall has fallen.
#[derive(Clone, Copy, Debug, PartialEq, Eq, Structural)]
pub struct GameOverEvent;

/// One game session: the castle, its four walls and four spawners (stored in
/// the order of `all_sides`), the living enemies, the game state and the
/// game-over notices of the current tick.
#[derive(Clone, Debug)]
pub struct Game {
    pub castle: Castle,
    pub walls: Vec<CastleWallBundle>,
    pub spawns: Vec<EnemySpawn>,
    pub enemies: Vec<EnemyBundle>,
    pub state: GameState,
    pub game_over_events: Vec<GameOverEvent>,
}

/// The set of all four sides.
pub open spec fn every_side() -> Set<Side> {
    set![Side::North, Side::South, Side::West, Side::East]
}

/// Number of destroyed walls among `walls`.
pub open spec fn destroyed_count(walls: Seq<CastleWallBundle>) -> nat
    decreases walls.len(),
{
    if walls.len() == 0 {
        0
    } else {
        destroyed_count(walls.drop_last()) + if walls.last().wall.is_destroyed() {
            1nat
        } else {
            0nat
        }
    }
}

/// Game-over notices that the wall watchers send in state `s`.
pub open spec fn game_over_signals(s: GameState, walls: Seq<CastleWallBundle>) -> nat {
    if watching(s) {
        destroyed_count(walls)
    } else {
        0
    }
}

/// The state after a tick that started in `s`: game over when a watcher
/// signalled, however many did; else a level-up when one happened; else `s`.
pub open spec fn next_game_state(s: GameState, walls: Seq<CastleWallBundle>, leveled: bool) -> GameState {
    if game_over_signals(s, walls) > 0 {
        GameState::GameOver
    } else if leveled {
        GameState::LevelUp
    } else {
        s
    }
}

/// The enemies that the spawners `spawns[0..k]` emit when advanced by `delta`
/// with the random bits `rolls`, in the order of the spawners.
pub open spec fn spawned_upto(
    spawns: Seq<EnemySpawn>,
    delta: u64,
    rolls: Seq<Vec<bool>>,
    k: int,
) -> Seq<SpawnedEnemy>
    decreases k,
{
    if k <= 0 {
        Seq::empty()
    } else {
        spawned_upto(spawns, delta, rolls, k - 1) + if spawns[k - 1].timer.finishes(delta) {
            wave_of(spawns[k - 1], None, rolls[k - 1]@)
        } else {
            Seq::empty()
        }
    }
}

/// The placed wall of `side`, with the layout of the castle.
pub open spec fn spec_wall_for(side: Side) -> CastleWallBundle {
    let (x_len, y_len, thickness) = match side {
        Side::North => (386u32, 150u32, 75u32),
        Side::South => (386u32, 24u32, 12u32),
        Side::West => (24u32, 386u32, 12u32),
        Side::East => (24u32, 386u32, 12u32),
    };
    CastleWallBundle {
        wall: CastleWall { side, health: WALL_HEALTH, max_health: WALL_HEALTH, half_thickness: thickness },
        half_width: x_len / 2,
        half_height: y_len / 2,
    }
}

/// The placed wall of `side`: north and south walls run along the x axis,
/// west and east walls along the y axis; the north wall is deeper so that
/// enemies cannot walk behind it.
pub fn wall_for(side: Side) -> (r: CastleWallBundle)
    ensures
        r == spec_wall_for(side),
{
    match side {
        Side::North => CastleWallBundle::new_horizontal(side, WALL_HEALTH, 386, 150),
        Side::South => CastleWallBundle::new_horizontal(side, WALL_HEALTH, 386, 24),
        Side::West => CastleWallBundle::new_vertical(side, WALL_HEALTH, 24, 386),
        Side::East => CastleWallBundle::new_vertical(side, WALL_HEALTH, 24, 386),
    }
}

impl Game {
    /// One wall and one spawner per side, in the order of `all_sides`, and a
    /// well-formed castle.
    pub open spec fn wf(self) -> bool {
        &&& self.castle.wf()
        &&& self.walls@.len() == 4
        &&& self.spawns@.len() == 4
        &&& forall|i: int| 0 <= i < 4 ==> (#[trigger] self.walls@[i]).wall.side == all_sides()[i]
        &&& forall|i: int|
            0 <= i < 4 ==> (#[trigger] self.spawns@[i]).side == all_sides()[i] && self.spawns@[i].wf()
    }

    /// A new session: a fresh castle, full walls and default spawners on every
    /// side, no enemies, in play.
    pub fn new() -> (r: Game)
        ensures
            r.wf(),
            r.castle == Castle::initial(),
            forall|i: int| 0 <= i < 4 ==> #[trigger] r.walls@[i] == spec_wall_for(all_sides()[i]),
            forall|i: int| 0 <= i < 4 ==> #[trigger] r.spawns@[i] == spec_default_spawn(all_sides()[i]),
            r.enemies@.len() == 0,
            r.state == GameState::InGame,
            r.game_over_events@.len() == 0,
    {
        let mut walls: Vec<CastleWallBundle> = Vec::new();
        let mut spawns: Vec<EnemySpawn> = Vec::new();
        let mut i: usize = 0;
        while i < 4
            invariant
                i <= 4,
                walls@.len() == i,
                spawns@.len() == i,
                forall|j: int| 0 <= j < i ==> #[trigger] walls@[j] == spec_wall_for(all_sides()[j]),
                forall|j: int|
                    0 <= j < i ==> #[trigger] spawns@[j] == spec_default_spawn(all_sides()[j])
                        && spawns@[j].wf(),
            decreases 4 - i,
        {
            let side = Side::from_index(i);
            walls.push(wall_for(side));
            spawns.push(EnemySpawn::new(side));
            i = i + 1;
        }
        Game {
            castle: Castle::new(),
            walls,
            spawns,
            enemies: Vec::new(),
            state: GameState::InGame,
            game_over_events: Vec::new(),
        }
    }

    /// Lowers the health of the wall of `side` by `amount`.
    pub fn damage_wall(&mut self, side: Side, amount: u32)
        requires
            old(self).wf(),
            old(self).walls@[side.spec_index() as int].wall.health - amount >= i32::MIN,
        ensures
            final(self).wf(),
            final(self).walls@ == old(self).walls@.update(
                side.spec_index() as int,
                CastleWallBundle {
                    wall: CastleWall {
                        health: (old(self).walls@[side.spec_index() as int].wall.health - amount) as i32,
                        ..old(self).walls@[side.spec_index() as int].wall
                    },
                    ..old(self).walls@[side.spec_index() as int]
                },
            ),
            final(self).castle == old(self).castle,
            final(self).spawns == old(self).spawns,
            final(self).enemies == old(self).enemies,
            final(self).state == old(self).state,
            final(self).game_over_events == old(self).game_over_events,
    {
        let i = side.index();
        let mut b = self.walls[i];
        b.wall.apply_damage(amount);
        self.walls.set(i, b);
    }

    /// Lowers the health of the enemy at `index` by `amount`.
    pub fn damage_enemy(&mut self, index: usize, amount: u32)
        requires
            index < old(self).enemies@.len(),
            old(self).enemies@[index as int].enemy.health - amount >= i32::MIN,
        ensures
            final(self).enemies@.len() == old(self).enemies@.len(),
            final(self).enemies@[index as int].enemy.health == old(self).enemies@[index as int].enemy.health - amount,
            final(self).enemies@ == old(self).enemies@.update(index as int, final(self).enemies@[index as int]),
            final(self).enemies@[index as int] == (EnemyBundle {
                enemy: crate::enemy::Enemy {
                    health: final(self).enemies@[index as int].enemy.health,
                    ..old(self).enemies@[index as int].enemy
                },
                ..old(self).enemies@[index as int]
            }),
            final(self).castle == old(self).castle,
            final(self).walls == old(self).walls,
            final(self).spawns == old(self).spawns,
            final(self).state == old(self).state,
            final(self).game_over_events == old(self).game_over_events,
    {
        let mut e = self.enemies[index];
        e.enemy.health = (e.enemy.health as i64 - amount as i64) as i32;
        self.enemies.set(index, e);
    }

    /// Resolves the deaths of every side, north, south, west and east in
    /// turn: each dead enemy is removed and its experience credited, and the
    /// total is that of every dead enemy.
    pub fn resolve_all_deaths(&mut self)
        requires
            old(self).castle.exp + dying_exp_in(old(self).enemies@, every_side()) <= u32::MAX,
        ensures
            final(self).enemies@ == survivors_in(old(self).enemies@, every_side()),
            final(self).castle.exp == old(self).castle.exp + dying_exp_in(old(self).enemies@, every_side()),
            final(self).castle == (Castle { exp: final(self).castle.exp, ..old(self).castle }),
            final(self).walls == old(self).walls,
            final(self).spawns == old(self).spawns,
            final(self).state == old(self).state,
            final(self).game_over_events == old(self).game_over_events,
    {
        let ghost e0 = self.enemies@;
        let ghost order = all_sides();
        proof {
            assert(order.no_duplicates());
            assert(order.to_set() =~= every_side()) by {
                assert(order.to_set().contains(order[0]));
                assert(order.to_set().contains(order[1]));
                assert(order.to_set().contains(order[2]));
                assert(order.to_set().contains(order[3]));
            }
            lemma_resolution_order_independent(e0, order);
            reveal_with_fuel(credited_by_order, 5);
            reveal_with_fuel(survivors_by_order, 5);
            let o1 = order.drop_first();
            let o2 = o1.drop_first();
            let o3 = o2.drop_first();
            assert(o3.drop_first().len() == 0);
            let e1 = crate::death::survivors(e0, order[0]);
            let e2 = crate::death::survivors(e1, o1[0]);
            let e3 = crate::death::survivors(e2, o2[0]);
            lemma_dying_exp_nonneg(e0, set![order[0]]);
            lemma_dying_exp_nonneg(e1, set![o1[0]]);
            lemma_dying_exp_nonneg(e2, set![o2[0]]);
            lemma_dying_exp_nonneg(e3, set![o3[0]]);
        }
        resolve_deaths(&mut self.enemies, &mut self.castle, Side::North);
        resolve_deaths(&mut self.enemies, &mut self.castle, Side::South);
        resolve_deaths(&mut self.enemies, &mut self.castle, Side::West);
        resolve_deaths(&mut self.enemies, &mut self.castle, Side::East);
    }

    /// Checks the castle's threshold once; on a level-up, asks for the level-up screen.
    pub fn check_level_up(&mut self) -> (r: bool)
        requires
            old(self).castle.wf(),
            old(self).castle.can_level_up() ==> old(self).castle.level < u32::MAX,
        ensures
            r == old(self).castle.can_level_up(),
            final(self).castle == old(self).castle.apply(CastleOp::TryLevelUp),
            final(self).castle.wf(),
            final(self).castle.level >= old(self).castle.level,
            r ==> final(self).castle.level == old(self).castle.level + 1,
            r && old(self).castle.exp < old(self).castle.next_level_exp + final(self).castle.next_level_exp
                ==> final(self).castle.exp < final(self).castle.next_level_exp,
            final(self).state == if r {
                GameState::LevelUp
            } else {
                old(self).state
            },
            final(self).walls == old(self).walls,
            final(self).spawns == old(self).spawns,
            final(self).enemies == old(self).enemies,
            final(self).game_over_events == old(self).game_over_events,
    {
        let r = self.castle.try_level_up();
        if r {
            self.state = GameState::LevelUp;
        }
        r
    }

    /// The watcher of `side`: in play, a destroyed wall sends one game-over
    /// notice; in any other state, game over included, it sends none.
    /// Returns whether it sent one.
    pub fn wall_destroyed(&mut self, side: Side) -> (r: bool)
        requires
            old(self).wf(),
        ensures
            r == (watching(old(self).state) && old(self).walls@[side.spec_index() as int].wall.is_destroyed()),
            final(self).game_over_events@ == if r {
                old(self).game_over_events@.push(GameOverEvent)
            } else {
                old(self).game_over_events@
            },
            final(self).castle == old(self).castle,
            final(self).walls == old(self).walls,
            final(self).spawns == old(self).spawns,
            final(self).enemies == old(self).enemies,
            final(self).state == old(self).state,
    {
        if self.walls[side.index()].wall.check_wall_destroyed(self.state) {
            self.game_over_events.push(GameOverEvent);
            true
        } else {
            false
        }
    }

    /// Runs the watchers of all four sides.
    pub fn watch_walls(&mut self)
        requires
            old(self).wf(),
        ensures
            final(self).game_over_events@.len() == old(self).game_over_events@.len() + game_over_signals(
                old(self).state,
                old(self).walls@,
            ),
            final(self).castle == old(self).castle,
            final(self).walls == old(self).walls,
            final(self).spawns == old(self).spawns,
            final(self).enemies == old(self).enemies,
            final(self).state == old(self).state,
    {
        let ghost start = *self;
        let mut i: usize = 0;
        while i < 4
            invariant
                i <= 4,
                self.wf(),
                self.game_over_events@.len() == start.game_over_events@.len() + game_over_signals(
                    start.state,
                    start.walls@.subrange(0, i as int),
                ),
                self.castle == start.castle,
                self.walls == start.walls,
                self.spawns == start.spawns,
                self.enemies == start.enemies,
                self.state == start.state,
            decreases 4 - i,
        {
            let side = Side::from_index(i);
            assert(start.walls@.subrange(0, i + 1).drop_last() =~= start.walls@.subrange(0, i as int));
            self.wall_destroyed(side);
            i = i + 1;
        }
        assert(start.walls@.subrange(0, 4) =~= start.walls@);
    }

    /// Reads this tick's game-over notices: any number of them gives one move
    /// to the game-over state. The notices are cleared. Returns whether there were any.
    pub fn read_game_over_events(&mut self) -> (r: bool)
        ensures
            r == (old(self).game_over_events@.len() > 0),
            final(self).state == if r {
                GameState::GameOver
            } else {
                old(self).state
            },
            final(self).game_over_events@.len() == 0,
            final(self).castle == old(self).castle,
            final(self).walls == old(self).walls,
            final(self).spawns == old(self).spawns,
            final(self).enemies == old(self).enemies,
    {
        let r = self.game_over_events.len() > 0;
        if r {
            self.state = GameState::GameOver;
        }
        self.game_over_events.clear();
        r
    }

    /// Advances every spawner by `delta` nanoseconds, the spawner of the side
    /// at position `i` drawing its kinds from `rolls[i]`. The new enemies join
    /// the session and are returned, in the order of the spawners, for placing.
    pub fn spawn_waves(&mut self, delta: u64, rolls: &Vec<Vec<bool>>) -> (r: Vec<SpawnedEnemy>)
        requires
            old(self).wf(),
            rolls@.len() == 4,
            forall|i: int| 0 <= i < 4 ==> (#[trigger] rolls@[i])@.len() >= old(self).spawns@[i].number,
        ensures
            final(self).wf(),
            r@ == spawned_upto(old(self).spawns@, delta, rolls@, 4),
            final(self).enemies@ == old(self).enemies@ + r@.map_values(|s: SpawnedEnemy| s.bundle),
            forall|i: int| 0 <= i < 4 ==> #[trigger] final(self).spawns@[i] == (EnemySpawn {
                timer: old(self).spawns@[i].timer.advanced(delta),
                ..old(self).spawns@[i]
            }),
            final(self).castle == old(self).castle,
            final(self).walls == old(self).walls,
            final(self).state == old(self).state,
            final(self).game_over_events == old(self).game_over_events,
    {
        let ghost start = *self;
        let mut out: Vec<SpawnedEnemy> = Vec::new();
        let mut i: usize = 0;
        while i < 4
            invariant
                i <= 4,
                self.wf(),
                rolls@.len() == 4,
                forall|k: int| 0 <= k < 4 ==> (#[trigger] rolls@[k])@.len() >= start.spawns@[k].number,
                out@ == spawned_upto(start.spawns@, delta, rolls@, i as int),
                self.enemies@ == start.enemies@ + out@.map_values(|s: SpawnedEnemy| s.bundle),
                forall|k: int| 0 <= k < i ==> #[trigger] self.spawns@[k] == (EnemySpawn {
                    timer: start.spawns@[k].timer.advanced(delta),
                    ..start.spawns@[k]
                }),
                forall|k: int| i <= k < 4 ==> #[trigger] self.spawns@[k] == start.spawns@[k],
                self.castle == start.castle,
                self.walls == start.walls,
                self.state == start.state,
                self.game_over_events == start.game_over_events,
            decreases 4 - i,
        {
            let mut sp = self.spawns[i];
            let w = sp.tick(delta, &rolls[i]);
            self.spawns.set(i, sp);
            let ghost before_out = out@;
            let ghost spawns_now = self.spawns;
            let mut j: usize = 0;
            while j < w.len()
                invariant
                    j <= w@.len(),
                    out@ == before_out + w@.subrange(0, j as int),
                    self.enemies@ == start.enemies@ + out@.map_values(|s: SpawnedEnemy| s.bundle),
                    self.wf(),
                    self.castle == start.castle,
                    self.walls == start.walls,
                    self.state == start.state,
                    self.game_over_events == start.game_over_events,
                    self.spawns == spawns_now,
                decreases w@.len() - j,
            {
                let item = w[j];
                let ghost prev_out = out@;
                out.push(item);
                self.enemies.push(item.bundle);
                assert(w@.subrange(0, j + 1) =~= w@.subrange(0, j as int).push(item));
                assert(out@.map_values(|s: SpawnedEnemy| s.bundle) =~= prev_out.map_values(
                    |s: SpawnedEnemy| s.bundle,
                ).push(item.bundle));
                j = j + 1;
            }
            assert(w@.subrange(0, w@.len() as int) =~= w@);
            i = i + 1;
        }
        out
    }

    /// One tick of the session, `delta` nanoseconds long. Only in play does
    /// anything happen: the dead enemies of every side are removed and
    /// credited first; the wall watchers then send their notices; the
    /// castle's threshold is checked once; the notices, however many and
    /// including any left from before, give one move to game over, which wins
    /// over a level-up of the same tick; last, the spawners advance and their
    /// waves join the session and are returned. In any other state (paused,
    /// levelling up, game over, statistics) the session is left as it is: no
    /// timer advances and the state does not change.
    pub fn tick(&mut self, delta: u64, rolls: &Vec<Vec<bool>>) -> (r: Vec<SpawnedEnemy>)
        requires
            old(self).wf(),
            old(self).castle.exp + dying_exp_in(old(self).enemies@, every_side()) <= u32::MAX,
            old(self).castle.credited(dying_exp_in(old(self).enemies@, every_side())).can_level_up()
                ==> old(self).castle.level < u32::MAX,
            rolls@.len() == 4,
            forall|i: int| 0 <= i < 4 ==> (#[trigger] rolls@[i])@.len() >= old(self).spawns@[i].number,
        ensures
            final(self).wf(),
            final(self).walls == old(self).walls,
            old(self).state == GameState::InGame ==> {
                let credited = old(self).castle.credited(
                    dying_exp_in(old(self).enemies@, every_side()),
                );
                &&& final(self).game_over_events@.len() == 0
                &&& final(self).castle == credited.apply(CastleOp::TryLevelUp)
                &&& final(self).state == if old(self).game_over_events@.len() > 0 {
                    GameState::GameOver
                } else {
                    next_game_state(old(self).state, old(self).walls@, credited.can_level_up())
                }
                &&& r@ == spawned_upto(old(self).spawns@, delta, rolls@, 4)
                &&& final(self).enemies@ == survivors_in(old(self).enemies@, every_side()) + r@.map_values(
                    |s: SpawnedEnemy| s.bundle,
                )
                &&& forall|i: int| 0 <= i < 4 ==> #[trigger] final(self).spawns@[i] == (EnemySpawn {
                    timer: old(self).spawns@[i].timer.advanced(delta),
                    ..old(self).spawns@[i]
                })
            },
            old(self).state != GameState::InGame ==> {
                &&& r@.len() == 0
                &&& final(self).state == old(self).state
                &&& final(self).castle == old(self).castle
                &&& final(self).enemies == old(self).enemies
                &&& final(self).spawns == old(self).spawns
                &&& final(self).game_over_events == old(self).game_over_events
            },
    {
        if self.state != GameState::InGame {
            return Vec::new();
        }
        let ghost walls0 = self.walls@;
        let ghost old_self = *self;
        proof {
            lemma_dying_exp_nonneg(old_self.enemies@, every_side());
        }
        self.resolve_all_deaths();
        assert(self.castle == old_self.castle.credited(
            dying_exp_in(old_self.enemies@, every_side()),
        ));
        self.watch_walls();
        assert(self.game_over_events@.len() == old_self.game_over_events@.len() + game_over_signals(
            GameState::InGame,
            walls0,
        ));
        let leveled = self.check_level_up();
        self.read_game_over_events();
        assert(old_self.game_over_events@.len() == 0 ==> self.state == next_game_state(
            GameState::InGame,
            walls0,
            leveled,
        ));
        self.spawn_waves(delta, rolls)
    }
}

/// Any destroyed wall among `walls` makes the count of destroyed walls positive.
pub proof fn lemma_destroyed_wall_counts(walls: Seq<CastleWallBundle>, i: int)
    requires
        0 <= i < walls.len(),
        walls[i].wall.is_destroyed(),
    ensures
        destroyed_count(walls) > 0,
    decreases walls.len(),
{
    if i < walls.len() - 1 {
        lemma_destroyed_wall_counts(walls.drop_last(), i);
    }
}

/// A destroyed wall signals game over once: the tick in play that sees it
/// first moves the game to game over however many walls fell, and a later
/// tick over the same walls (no healing between) sends no notice and keeps
/// the game over.
pub proof fn lemma_game_over_signalled_once(s: GameState, walls: Seq<CastleWallBundle>, leveled: bool)
    requires
        watching(s),
        destroyed_count(walls) > 0,
    ensures
        game_over_signals(s, walls) == destroyed_count(walls),
        next_game_state(s, walls, leveled) == GameState::GameOver,
        game_over_signals(next_game_state(s, walls, leveled), walls) == 0,
        next_game_state(next_game_state(s, walls, leveled), walls, false) == GameState::GameOver,
{
}

} // verus!
