use castle_defense::death::resolve_deaths;
use castle_defense::enemy::scale_stat;
use castle_defense::spawn::{draw_rolls, kind_for_roll, spawn_point};
use castle_defense::timer::RepeatingTimer;
use castle_defense::{
    Castle, EnemyBundle, EnemyKind, EnemySpawn, EnemySpawnBuffs, EnemySpawnBundle, Side,
};

#[test]
fn goblin_and_spear_goblin_stats() {
    let g = EnemyBundle::goblin(Side::North);
    assert_eq!((g.enemy.health, g.enemy.speed, g.enemy.exp), (100, 10000, 10));
    assert_eq!(g.kind, EnemyKind::Goblin);
    let s = EnemyBundle::spear_goblin(Side::East);
    assert_eq!((s.enemy.health, s.enemy.speed, s.enemy.exp), (80, 12000, 10));
    assert_eq!(s.kind, EnemyKind::SpearGoblin);
    assert_eq!(s.side, Side::East);
    assert_eq!(EnemyBundle::default(), EnemyBundle::goblin(Side::North));
}

#[test]
fn buffs_default_to_neutral() {
    let b = EnemySpawnBuffs::default();
    assert_eq!((b.health, b.speed, b.exp, b.damage, b.attack_speed), (1000, 1000, 1000, 1000, 1000));
    let e = EnemyBundle::buffed(EnemyKind::SpearGoblin, Side::West, &b);
    assert_eq!(e, EnemyBundle::spear_goblin(Side::West));
}

#[test]
fn buffs_multiply_and_truncate() {
    let b = EnemySpawnBuffs { health: 1500, speed: 500, exp: 1250, damage: 1000, attack_speed: 1000 };
    let e = EnemyBundle::buffed(EnemyKind::Goblin, Side::South, &b);
    assert_eq!(e.enemy.health, 150);
    assert_eq!(e.enemy.speed, 5000);
    assert_eq!(e.enemy.exp, 12);
}

#[test]
fn scale_stat_caps() {
    assert_eq!(scale_stat(100, 1999, u32::MAX), 199);
    assert_eq!(scale_stat(u32::MAX, u32::MAX, 7), 7);
}

#[test]
fn timer_wraps_round_its_period() {
    let mut t = RepeatingTimer::new(5);
    assert!(!t.tick(3));
    assert_eq!(t.elapsed, 3);
    assert!(t.tick(2));
    assert_eq!(t.elapsed, 0);
    assert!(t.tick(12));
    assert_eq!(t.elapsed, 2);
}

#[test]
fn spawner_defaults() {
    let s = EnemySpawn::new(Side::West);
    assert_eq!(s.number, 1);
    assert_eq!(s.radius, 200);
    assert_eq!(s.timer.duration, 5_000_000_000);
    assert_eq!((s.x, s.y), (-500, 0));
    assert_eq!(spawn_point(Side::North), (0, 500));
    assert_eq!(spawn_point(Side::South), (0, -500));
    assert_eq!(spawn_point(Side::East), (500, 0));
}

#[test]
fn wave_of_four_at_quarter_turns() {
    let mut s = EnemySpawn::new(Side::North);
    s.number = 4;
    let rolls = vec![true, false, false, true];
    let w = s.tick(5_000_000_000, &rolls);
    assert_eq!(w.len(), 4);
    for (i, e) in w.iter().enumerate() {
        assert_eq!(e.slot, i as u32);
        assert_eq!(e.count, 4);
        assert_eq!(e.radius, 200);
        assert_eq!((e.origin_x, e.origin_y), (0, 500));
        assert_eq!(e.bundle.side, Side::North);
    }
    assert_eq!(w[0].bundle.kind, EnemyKind::Goblin);
    assert_eq!(w[1].bundle.kind, EnemyKind::SpearGoblin);
    assert_eq!(w[2].bundle.kind, EnemyKind::SpearGoblin);
    assert_eq!(w[3].bundle.kind, EnemyKind::Goblin);
    assert_eq!(s.timer.elapsed, 0);
}

#[test]
fn no_wave_before_period() {
    let mut s = EnemySpawn::new(Side::South);
    let w = s.tick(4_999_999_999, &vec![true]);
    assert!(w.is_empty());
    let w = s.tick(1, &vec![false]);
    assert_eq!(w.len(), 1);
    assert_eq!(w[0].bundle, EnemyBundle::spear_goblin(Side::South));
}

#[test]
fn buffed_spawner_applies_buffs() {
    let mut b = EnemySpawnBundle::new(Side::East);
    b.buffs.health = 2000;
    let w = b.tick(6_000_000_000, &vec![true]);
    assert_eq!(w.len(), 1);
    assert_eq!(w[0].bundle.enemy.health, 200);
    assert_eq!(b.spawn.timer.elapsed, 1_000_000_000);
}

#[test]
fn random_wave_has_the_configured_size() {
    let mut s = EnemySpawn::new(Side::East);
    s.number = 6;
    let w = s.tick_random(5_000_000_000, None);
    assert_eq!(w.len(), 6);
    for (i, e) in w.iter().enumerate() {
        assert_eq!(e.slot, i as u32);
        assert!(e.bundle == EnemyBundle::goblin(Side::East) || e.bundle == EnemyBundle::spear_goblin(Side::East));
    }
    assert_eq!(draw_rolls(9).len(), 9);
    assert_eq!(kind_for_roll(true), EnemyKind::Goblin);
    assert_eq!(kind_for_roll(false), EnemyKind::SpearGoblin);
}

#[test]
fn death_resolution_removes_and_credits_once() {
    let mut e = EnemyBundle::goblin(Side::North);
    e.enemy.health = 5;
    let mut enemies = vec![e, EnemyBundle::goblin(Side::North)];
    enemies[0].enemy.health -= 5;
    let mut castle = Castle::new();
    resolve_deaths(&mut enemies, &mut castle, Side::North);
    assert_eq!(enemies.len(), 1);
    assert_eq!(castle.exp, 10);
    resolve_deaths(&mut enemies, &mut castle, Side::North);
    assert_eq!(enemies.len(), 1);
    assert_eq!(castle.exp, 10);
}

#[test]
fn death_resolution_only_touches_its_side() {
    let mut dead_west = EnemyBundle::goblin(Side::West);
    dead_west.enemy.health = 0;
    let mut enemies = vec![dead_west, EnemyBundle::goblin(Side::North)];
    let mut castle = Castle::new();
    resolve_deaths(&mut enemies, &mut castle, Side::North);
    assert_eq!(enemies.len(), 2);
    assert_eq!(castle.exp, 0);
}

#[test]
fn resolution_order_does_not_matter() {
    let mut a = EnemyBundle::goblin(Side::North);
    a.enemy.health = -3;
    a.enemy.exp = 7;
    let mut b = EnemyBundle::spear_goblin(Side::East);
    b.enemy.health = 0;
    b.enemy.exp = 11;
    let c = EnemyBundle::goblin(Side::East);
    let mut d = EnemyBundle::goblin(Side::South);
    d.enemy.health = -1;
    d.enemy.exp = 5;
    let start = vec![a, b, c, d];

    let mut e1 = start.clone();
    let mut c1 = Castle::new();
    for s in [Side::North, Side::South, Side::West, Side::East] {
        resolve_deaths(&mut e1, &mut c1, s);
    }
    let mut e2 = start.clone();
    let mut c2 = Castle::new();
    for s in [Side::East, Side::West, Side::South, Side::North] {
        resolve_deaths(&mut e2, &mut c2, s);
    }
    assert_eq!(c1.exp, 23);
    assert_eq!(c2.exp, 23);
    assert_eq!(e1, vec![c]);
    assert_eq!(e2, vec![c]);
}
