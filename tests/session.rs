use castle_defense::game::{wall_for, Game};
use castle_defense::side::Side;
use castle_defense::state::{
    button_look, press, ButtonCommand, ButtonLook, GameOverButton, Interaction, PauseButton,
    UiMainMenuButton,
};
use castle_defense::wall::wall_position;
use castle_defense::{EnemyBundle, GameState, GlobalState, UiInGameState, UiPauseState};

fn rolls() -> Vec<Vec<bool>> {
    vec![vec![true], vec![true], vec![false], vec![true]]
}

#[test]
fn new_session_layout() {
    let g = Game::new();
    assert_eq!(g.state, GameState::InGame);
    assert_eq!(g.walls.len(), 4);
    assert_eq!(g.spawns.len(), 4);
    assert!(g.enemies.is_empty());
    for (i, w) in g.walls.iter().enumerate() {
        assert_eq!(w.wall.side, Side::from_index(i));
        assert_eq!(w.wall.health, 100);
        assert_eq!(w.wall.max_health, 100);
    }
    assert_eq!(g.walls[0].wall.half_thickness, 75);
    assert_eq!(g.walls[1].wall.half_thickness, 12);
    assert_eq!(wall_for(Side::West).half_height, 193);
    assert_eq!(wall_position(Side::South), (0, -193));
    assert_eq!(wall_position(Side::East), (204, 0));
}

#[test]
fn destroyed_wall_signals_game_over_once() {
    let mut g = Game::new();
    g.damage_wall(Side::North, 150);
    assert_eq!(g.walls[0].wall.health, -50);
    g.tick(1, &rolls());
    assert_eq!(g.state, GameState::GameOver);
    assert!(!g.wall_destroyed(Side::North));
    assert!(g.game_over_events.is_empty());
    g.tick(1, &rolls());
    assert_eq!(g.state, GameState::GameOver);
}

#[test]
fn two_walls_one_transition() {
    let mut g = Game::new();
    g.damage_wall(Side::West, 100);
    g.damage_wall(Side::East, 120);
    g.watch_walls();
    assert_eq!(g.game_over_events.len(), 2);
    assert!(g.read_game_over_events());
    assert_eq!(g.state, GameState::GameOver);
    assert!(g.game_over_events.is_empty());
    assert!(!g.read_game_over_events());
}

#[test]
fn tick_credits_then_levels_up() {
    let mut g = Game::new();
    for side in [Side::North, Side::South] {
        let mut e = EnemyBundle::goblin(side);
        e.enemy.health = 5;
        g.enemies.push(e);
    }
    g.damage_enemy(0, 5);
    g.damage_enemy(1, 9);
    let spawned = g.tick(1, &rolls());
    assert!(spawned.is_empty());
    assert!(g.enemies.is_empty());
    assert_eq!(g.castle.level, 1);
    assert_eq!(g.castle.exp, 10);
    assert_eq!(g.castle.next_level_exp, 12);
    assert_eq!(g.state, GameState::LevelUp);
}

#[test]
fn tick_spawns_on_every_side() {
    let mut g = Game::new();
    let spawned = g.tick(5_000_000_000, &rolls());
    assert_eq!(spawned.len(), 4);
    assert_eq!(g.enemies.len(), 4);
    assert_eq!(spawned[2].bundle, EnemyBundle::spear_goblin(Side::West));
    assert_eq!(g.enemies[3], EnemyBundle::goblin(Side::East));
    assert_eq!(g.state, GameState::InGame);
}

#[test]
fn paused_session_does_not_advance() {
    let mut g = Game::new();
    g.state = GameState::Paused;
    let spawned = g.tick(9_000_000_000, &rolls());
    assert!(spawned.is_empty());
    assert_eq!(g.spawns[0].timer.elapsed, 0);
    assert_eq!(g.state, GameState::Paused);
}

#[test]
fn paused_game_with_destroyed_wall_stays_paused() {
    let mut g = Game::new();
    g.damage_wall(Side::North, 150);
    g.state = GameState::Paused;
    g.tick(1, &rolls());
    assert_eq!(g.state, GameState::Paused);
    assert!(g.game_over_events.is_empty());
    assert!(!g.wall_destroyed(Side::North));
    g.state = GameState::InGame;
    g.tick(1, &rolls());
    assert_eq!(g.state, GameState::GameOver);
}

#[test]
fn session_spawners_start_at_defaults() {
    let g = Game::new();
    let points = [(0, 500), (0, -500), (-500, 0), (500, 0)];
    for (i, s) in g.spawns.iter().enumerate() {
        assert_eq!(s.side, Side::from_index(i));
        assert_eq!(s.number, 1);
        assert_eq!(s.radius, 200);
        assert_eq!(s.timer.duration, 5_000_000_000);
        assert_eq!(s.timer.elapsed, 0);
        assert_eq!((s.x, s.y), points[i]);
    }
}

#[test]
fn state_transitions() {
    assert!(GameState::InGame.can_transition(GameState::LevelUp));
    assert!(GameState::InGame.can_transition(GameState::Paused));
    assert!(GameState::InGame.can_transition(GameState::GameOver));
    assert!(GameState::LevelUp.can_transition(GameState::InGame));
    assert!(GameState::GameOver.can_transition(GameState::InGame));
    assert!(!GameState::GameOver.can_transition(GameState::LevelUp));
    assert!(!GameState::Paused.can_transition(GameState::GameOver));
    assert_eq!(GameState::stats_for(Side::West), GameState::StatsWest);
}

#[test]
fn ui_mirrors_game_state() {
    assert_eq!(UiInGameState::for_game_state(GameState::NotInGame), UiInGameState::Disabled);
    assert_eq!(UiInGameState::for_game_state(GameState::Paused), UiInGameState::Pause);
    assert_eq!(UiInGameState::for_game_state(GameState::StatsEast), UiInGameState::StatsEast);
    assert_eq!(
        UiPauseState::on_ui_change(UiPauseState::Disabled, UiInGameState::InGame, UiInGameState::Pause),
        UiPauseState::Pause
    );
    assert_eq!(
        UiPauseState::on_ui_change(UiPauseState::Settings, UiInGameState::Pause, UiInGameState::InGame),
        UiPauseState::Disabled
    );
    assert_eq!(
        UiPauseState::on_ui_change(UiPauseState::Settings, UiInGameState::Pause, UiInGameState::Pause),
        UiPauseState::Settings
    );
}

#[test]
fn buttons() {
    assert_eq!(GameOverButton::Restart.on_click(), ButtonCommand::SetGlobal(GlobalState::InGame));
    assert_eq!(GameOverButton::MainMenu.on_click(), ButtonCommand::SetGlobal(GlobalState::MainMenu));
    assert_eq!(GameOverButton::Settings.on_click(), ButtonCommand::Nothing);
    assert_eq!(PauseButton::Back.on_click(), ButtonCommand::SetGame(GameState::InGame));
    assert_eq!(PauseButton::Settings.on_click(), ButtonCommand::SetPause(UiPauseState::Settings));
    assert_eq!(UiMainMenuButton::Exit.on_click(), ButtonCommand::Exit);
    assert_eq!(button_look(Interaction::Hovered), ButtonLook::Hover);
    assert_eq!(
        press(Interaction::Clicked, UiMainMenuButton::Start.on_click()),
        (ButtonLook::Pressed, ButtonCommand::SetGlobal(GlobalState::InGame))
    );
    assert_eq!(press(Interaction::Idle, ButtonCommand::Exit), (ButtonLook::Normal, ButtonCommand::Nothing));
}
