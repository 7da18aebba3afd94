use castle_defense::castle::{CASTLE_FIRST_LEVEL_EXP, CASTLE_NEXT_LEVEL_EXP_GROWTH};
use castle_defense::{GameState, Castle, CastleBundle, CastleWall, CastleWallBundle, Side};

#[test]
fn new_castle_starts_at_level_zero() {
    let c = Castle::new();
    assert_eq!(c.level, 0);
    assert_eq!(c.exp, 0);
    assert_eq!(c.next_level_exp, CASTLE_FIRST_LEVEL_EXP);
    assert_eq!(c.next_level_exp_growth, CASTLE_NEXT_LEVEL_EXP_GROWTH);
    assert_eq!(CastleBundle::default().castle, c);
    assert_eq!(Castle::default(), c);
}

#[test]
fn credit_ten_then_level_up() {
    let mut c = Castle::new();
    c.credit_experience(10);
    assert!(c.try_level_up());
    assert_eq!(c.level, 1);
    assert_eq!(c.exp, 0);
    assert_eq!(c.next_level_exp, 12);
}

#[test]
fn below_threshold_no_level_up() {
    let mut c = Castle::new();
    c.credit_experience(9);
    assert!(!c.try_level_up());
    assert_eq!(c.level, 0);
    assert_eq!(c.exp, 9);
    assert_eq!(c.next_level_exp, 10);
}

#[test]
fn overshoot_levels_once_per_check() {
    let mut c = Castle::new();
    c.credit_experience(30);
    assert!(c.try_level_up());
    assert_eq!((c.level, c.exp, c.next_level_exp), (1, 20, 12));
    assert!(c.try_level_up());
    assert_eq!((c.level, c.exp, c.next_level_exp), (2, 8, 14));
    assert!(!c.try_level_up());
    assert_eq!((c.level, c.exp, c.next_level_exp), (2, 8, 14));
}

#[test]
fn level_up_leaves_less_than_threshold() {
    let mut c = Castle::new();
    c.credit_experience(21);
    assert!(c.try_level_up());
    assert!(c.exp < c.next_level_exp);
}

#[test]
fn threshold_saturates() {
    let mut c = Castle { level: 3, exp: u32::MAX, next_level_exp: u32::MAX, next_level_exp_growth: 1200 };
    assert!(c.try_level_up());
    assert_eq!(c.level, 4);
    assert_eq!(c.exp, 0);
    assert_eq!(c.next_level_exp, u32::MAX);
}

#[test]
fn threshold_rounds_down() {
    let mut c = Castle { level: 0, exp: 7, next_level_exp: 7, next_level_exp_growth: 1500 };
    assert!(c.try_level_up());
    assert_eq!(c.next_level_exp, 10);
}

#[test]
fn damage_can_go_negative() {
    let mut w = CastleWall::new(Side::North, 100, 75);
    w.apply_damage(150);
    assert_eq!(w.health, -50);
    assert_eq!(w.max_health, 100);
    assert!(w.check_wall_destroyed(GameState::InGame));
    assert!(!w.check_wall_destroyed(GameState::GameOver));
    assert!(!w.check_wall_destroyed(GameState::Paused));
}

#[test]
fn heal_clamps_to_max() {
    let mut w = CastleWall::new(Side::South, 100, 12);
    w.apply_damage(30);
    w.heal(10);
    assert_eq!(w.health, 80);
    w.heal(50);
    assert_eq!(w.health, 100);
    assert!(!w.check_wall_destroyed(GameState::InGame));
}

#[test]
fn health_never_exceeds_max_over_a_sequence() {
    let mut w = CastleWall::new(Side::West, 100, 12);
    let steps: [(bool, i32); 6] = [(true, 40), (false, 25), (false, 60), (true, 200), (false, 500), (true, 1)];
    for (damage, amount) in steps {
        if damage {
            w.apply_damage(amount as u32);
        } else {
            w.heal(amount);
        }
        assert!(w.health <= w.max_health);
    }
    assert_eq!(w.health, 99);
}

#[test]
fn add_max_hp_keeps_deficit() {
    let mut w = CastleWall::new(Side::East, 100, 12);
    w.apply_damage(30);
    w.add_max_hp(25);
    assert_eq!(w.health, 95);
    assert_eq!(w.max_health, 125);
    assert_eq!(w.max_health - w.health, 30);
}

#[test]
fn zero_health_is_destroyed() {
    let mut w = CastleWall::new(Side::East, 100, 12);
    w.apply_damage(100);
    assert!(w.check_wall_destroyed(GameState::InGame));
}

#[test]
fn wall_bundles_take_half_extents() {
    let h = CastleWallBundle::new_horizontal(Side::North, 100, 386, 150);
    assert_eq!(h.wall.half_thickness, 75);
    assert_eq!((h.half_width, h.half_height), (193, 75));
    assert_eq!(h.wall.health, 100);
    assert_eq!(h.wall.max_health, 100);
    let v = CastleWallBundle::new_vertical(Side::West, 100, 24, 386);
    assert_eq!(v.wall.half_thickness, 12);
    assert_eq!((v.half_width, v.half_height), (12, 193));
}
