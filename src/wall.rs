use vstd::prelude::*;
use crate::side::Side;
use crate::state::{watching, GameState};

verus! {

/// Health each wall starts a session with.
pub const WALL_HEALTH: i32 = 100;

/// One wall of the castle. Health at or below zero means the wall is destroyed.
#[derive(Clone, Copy, Debug, PartialEq, Eq, Structural)]
pub struct CastleWall {
    pub side: Side,
    pub health: i32,
    pub max_health: i32,
    /// Half of the wall's extent across the direction it faces, in world units.
    pub half_thickness: u32,
}

/// A change of a wall's health.
#[derive(Clone, Copy, Debug, PartialEq, Eq, Structural)]
pub enum WallEvent {
    Damage(u32),
    Heal(i32),
}

impl CastleWall {
    /// Health never exceeds the maximum.
    pub open spec fn wf(self) -> bool {
        self.health <= self.max_health
    }

    /// Health after `event`.
    pub open spec fn health_after(self, event: WallEvent) -> int {
        match event {
            WallEvent::Damage(amount) => self.health - amount,
            WallEvent::Heal(hp) => if self.health + hp < self.max_health {
                self.health + hp
            } else {
                self.max_health as int
            },
        }
    }

    /// The new health of `event` lies in the range of `i32`.
    pub open spec fn event_fits(self, event: WallEvent) -> bool {
        i32::MIN <= self.health_after(event) <= i32::MAX
    }

    /// The wall after `event`.
    pub open spec fn apply(self, event: WallEvent) -> CastleWall {
        CastleWall { health: self.health_after(event) as i32, ..self }
    }

    /// The wall after the events `events`, in order.
    pub open spec fn after_events(self, events: Seq<WallEvent>) -> CastleWall
        decreases events.len(),
    {
        if events.len() == 0 {
            self
        } else {
            self.apply(events[0]).after_events(events.drop_first())
        }
    }

    /// Every event of `events` fits, each on the wall that the previous ones left.
    pub open spec fn events_fit(self, events: Seq<WallEvent>) -> bool
        decreases events.len(),
    {
        events.len() == 0 || (self.event_fits(events[0]) && self.apply(events[0]).events_fit(
            events.drop_first(),
        ))
    }

    /// Whether the wall counts as destroyed.
    pub open spec fn is_destroyed(self) -> bool {
        self.health <= 0
    }

    /// A wall at full health.
    pub fn new(side: Side, health: i32, half_thickness: u32) -> (r: CastleWall)
        ensures
            r.wf(),
            r.side == side,
            r.health == health,
            r.max_health == health,
            r.half_thickness == half_thickness,
    {
        CastleWall { side, health, max_health: health, half_thickness }
    }

    /// Raises both the health and the maximum by `hp`, so the missing health stays the same.
    pub fn add_max_hp(&mut self, hp: i32)
        requires
            i32::MIN <= old(self).health + hp <= i32::MAX,
            i32::MIN <= old(self).max_health + hp <= i32::MAX,
        ensures
            final(self).health == old(self).health + hp,
            final(self).max_health == old(self).max_health + hp,
            final(self).max_health - final(self).health == old(self).max_health - old(self).health,
            final(self).side == old(self).side,
            final(self).half_thickness == old(self).half_thickness,
            old(self).wf() ==> final(self).wf(),
    {
        self.health = self.health + hp;
        self.max_health = self.max_health + hp;
    }

    /// Raises the health by `hp`, but never above the maximum.
    pub fn heal(&mut self, hp: i32)
        requires
            old(self).event_fits(WallEvent::Heal(hp)),
        ensures
            *final(self) == old(self).apply(WallEvent::Heal(hp)),
            final(self).health == if old(self).health + hp < old(self).max_health {
                old(self).health + hp
            } else {
                old(self).max_health as int
            },
            final(self).wf(),
    {
        let raised: i64 = self.health as i64 + hp as i64;
        if raised < self.max_health as i64 {
            self.health = raised as i32;
        } else {
            self.health = self.max_health;
        }
    }

    /// Lowers the health by `amount`; it may fall below zero, which marks the wall destroyed.
    pub fn apply_damage(&mut self, amount: u32)
        requires
            old(self).event_fits(WallEvent::Damage(amount)),
        ensures
            *final(self) == old(self).apply(WallEvent::Damage(amount)),
            final(self).health == old(self).health - amount,
            old(self).wf() ==> final(self).wf(),
    {
        self.health = (self.health as i64 - amount as i64) as i32;
    }

    /// Whether this wall asks for game over in game state `state`: only in
    /// play, and only when its health is at or below zero. Once the game is
    /// over it asks no more, so a destroyed wall asks once.
    pub fn check_wall_destroyed(&self, state: GameState) -> (r: bool)
        ensures
            r == (watching(state) && self.is_destroyed()),
            state == GameState::GameOver ==> !r,
    {
        state == GameState::InGame && self.health <= 0
    }
}

/// Over any sequence of damage and healing that stays in the range of `i32`,
/// a wall's health never exceeds its maximum.
pub proof fn lemma_health_never_exceeds_max(w: CastleWall, events: Seq<WallEvent>)
    requires
        w.wf(),
        w.events_fit(events),
    ensures
        w.after_events(events).wf(),
        w.after_events(events).max_health == w.max_health,
    decreases events.len(),
{
    if events.len() > 0 {
        lemma_health_never_exceeds_max(w.apply(events[0]), events.drop_first());
    }
}

/// Where the wall of `side` stands.
pub open spec fn spec_wall_position(side: Side) -> (i32, i32) {
    match side {
        Side::North => (0, 100),
        Side::South => (0, -193i32),
        Side::West => (-204i32, 0),
        Side::East => (204, 0),
    }
}

/// Where the wall of `side` stands, round the castle at the centre of the map.
pub fn wall_position(side: Side) -> (r: (i32, i32))
    ensures
        r == spec_wall_position(side),
{
    match side {
        Side::North => (0, 100),
        Side::South => (0, -193),
        Side::West => (-204, 0),
        Side::East => (204, 0),
    }
}

/// A wall as placed on the map, with its collision box.
#[derive(Clone, Copy, Debug, PartialEq, Eq, Structural)]
pub struct CastleWallBundle {
    pub wall: CastleWall,
    /// Half of the collision box's width, in world units.
    pub half_width: u32,
    /// Half of the collision box's height, in world units.
    pub half_height: u32,
}

impl CastleWallBundle {
    /// A wall that runs along the x axis: its thickness is half of `y_len`.
    pub fn new_horizontal(side: Side, health: i32, x_len: u32, y_len: u32) -> (r: CastleWallBundle)
        ensures
            r.wall.wf(),
            r.wall.side == side,
            r.wall.health == health,
            r.wall.max_health == health,
            r.wall.half_thickness == y_len / 2,
            r.half_width == x_len / 2,
            r.half_height == y_len / 2,
    {
        CastleWallBundle {
            wall: CastleWall::new(side, health, y_len / 2),
            half_width: x_len / 2,
            half_height: y_len / 2,
        }
    }

    /// A wall that runs along the y axis: its thickness is half of `x_len`.
    pub fn new_vertical(side: Side, health: i32, x_len: u32, y_len: u32) -> (r: CastleWallBundle)
        ensures
            r.wall.wf(),
            r.wall.side == side,
            r.wall.health == health,
            r.wall.max_health == health,
            r.wall.half_thickness == x_len / 2,
            r.half_width == x_len / 2,
            r.half_height == y_len / 2,
    {
        CastleWallBundle {
            wall: CastleWall::new(side, health, x_len / 2),
            half_width: x_len / 2,
            half_height: y_len / 2,
        }
    }
}

} // verus!
