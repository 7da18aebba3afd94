use vstd::prelude::*;
use crate::side::Side;

verus! {

/// Top-level state of the application.
#[derive(Clone, Copy, Debug, PartialEq, Eq, Structural, Hash)]
pub enum GlobalState {
    AssetLoading,
    MainMenu,
    InGame,
}

/// State of a game session.
#[derive(Clone, Copy, Debug, PartialEq, Eq, Structural, Hash)]
pub enum GameState {
    NotInGame,
    InGame,
    Paused,
    LevelUp,
    GameOver,
    StatsNorth,
    StatsSouth,
    StatsWest,
    StatsEast,
}

/// State of the in-game interface; it mirrors the game state.
#[derive(Clone, Copy, Debug, PartialEq, Eq, Structural, Hash)]
pub enum UiInGameState {
    Disabled,
    InGame,
    Pause,
    GameOver,
    LevelUp,
    StatsNorth,
    StatsSouth,
    StatsWest,
    StatsEast,
}

/// State of the pause menu.
#[derive(Clone, Copy, Debug, PartialEq, Eq, Structural, Hash)]
pub enum UiPauseState {
    Disabled,
    Pause,
    Settings,
}

/// Whether the session is in play: the only state in which walls are
/// watched, enemies move and spawners advance.
pub open spec fn watching(s: GameState) -> bool {
    s == GameState::InGame
}

/// Moves between game states that the session allows.
pub open spec fn spec_can_transition(from: GameState, to: GameState) -> bool {
    match (from, to) {
        (GameState::InGame, GameState::LevelUp) => true,
        (GameState::InGame, GameState::Paused) => true,
        (GameState::InGame, GameState::GameOver) => true,
        (GameState::InGame, GameState::StatsNorth) => true,
        (GameState::InGame, GameState::StatsSouth) => true,
        (GameState::InGame, GameState::StatsWest) => true,
        (GameState::InGame, GameState::StatsEast) => true,
        (GameState::LevelUp, GameState::InGame) => true,
        (GameState::Paused, GameState::InGame) => true,
        (GameState::GameOver, GameState::InGame) => true,
        (GameState::StatsNorth, GameState::InGame) => true,
        (GameState::StatsSouth, GameState::InGame) => true,
        (GameState::StatsWest, GameState::InGame) => true,
        (GameState::StatsEast, GameState::InGame) => true,
        _ => false,
    }
}

impl GameState {
    /// Whether the session may move from this state to `to`: from play to a
    /// level-up, the pause menu, game over or a side's statistics, and from
    /// each of those back to play.
    pub fn can_transition(self, to: GameState) -> (r: bool)
        ensures
            r == spec_can_transition(self, to),
    {
        match (self, to) {
            (GameState::InGame, GameState::LevelUp) => true,
            (GameState::InGame, GameState::Paused) => true,
            (GameState::InGame, GameState::GameOver) => true,
            (GameState::InGame, GameState::StatsNorth) => true,
            (GameState::InGame, GameState::StatsSouth) => true,
            (GameState::InGame, GameState::StatsWest) => true,
            (GameState::InGame, GameState::StatsEast) => true,
            (GameState::LevelUp, GameState::InGame) => true,
            (GameState::Paused, GameState::InGame) => true,
            (GameState::GameOver, GameState::InGame) => true,
            (GameState::StatsNorth, GameState::InGame) => true,
            (GameState::StatsSouth, GameState::InGame) => true,
            (GameState::StatsWest, GameState::InGame) => true,
            (GameState::StatsEast, GameState::InGame) => true,
            _ => false,
        }
    }

    /// The state that shows the statistics of `side`.
    pub fn stats_for(side: Side) -> (r: GameState)
        ensures
            r == match side {
                Side::North => GameState::StatsNorth,
                Side::South => GameState::StatsSouth,
                Side::West => GameState::StatsWest,
                Side::East => GameState::StatsEast,
            },
    {
        match side {
            Side::North => GameState::StatsNorth,
            Side::South => GameState::StatsSouth,
            Side::West => GameState::StatsWest,
            Side::East => GameState::StatsEast,
        }
    }
}

/// The interface state that shows `state`.
pub open spec fn spec_ui_state_for(state: GameState) -> UiInGameState {
    match state {
        GameState::NotInGame => UiInGameState::Disabled,
        GameState::InGame => UiInGameState::InGame,
        GameState::Paused => UiInGameState::Pause,
        GameState::LevelUp => UiInGameState::LevelUp,
        GameState::GameOver => UiInGameState::GameOver,
        GameState::StatsNorth => UiInGameState::StatsNorth,
        GameState::StatsSouth => UiInGameState::StatsSouth,
        GameState::StatsWest => UiInGameState::StatsWest,
        GameState::StatsEast => UiInGameState::StatsEast,
    }
}

impl UiInGameState {
    /// The interface state entered when the game enters `state`.
    pub fn for_game_state(state: GameState) -> (r: UiInGameState)
        ensures
            r == spec_ui_state_for(state),
    {
        match state {
            GameState::NotInGame => UiInGameState::Disabled,
            GameState::InGame => UiInGameState::InGame,
            GameState::Paused => UiInGameState::Pause,
            GameState::LevelUp => UiInGameState::LevelUp,
            GameState::GameOver => UiInGameState::GameOver,
            GameState::StatsNorth => UiInGameState::StatsNorth,
            GameState::StatsSouth => UiInGameState::StatsSouth,
            GameState::StatsWest => UiInGameState::StatsWest,
            GameState::StatsEast => UiInGameState::StatsEast,
        }
    }
}

impl UiPauseState {
    /// The pause-menu state after the interface moves from `from` to `to`:
    /// entering the pause screen opens the menu, leaving it closes the menu,
    /// any other move keeps `current`.
    pub fn on_ui_change(current: UiPauseState, from: UiInGameState, to: UiInGameState) -> (r: UiPauseState)
        ensures
            from != UiInGameState::Pause && to == UiInGameState::Pause ==> r == UiPauseState::Pause,
            from == UiInGameState::Pause && to != UiInGameState::Pause ==> r == UiPauseState::Disabled,
            (from == UiInGameState::Pause) == (to == UiInGameState::Pause) ==> r == current,
    {
        if from != UiInGameState::Pause && to == UiInGameState::Pause {
            UiPauseState::Pause
        } else if from == UiInGameState::Pause && to != UiInGameState::Pause {
            UiPauseState::Disabled
        } else {
            current
        }
    }
}

/// How the pointer currently relates to a button.
#[derive(Clone, Copy, Debug, PartialEq, Eq, Structural)]
pub enum Interaction {
    Clicked,
    Hovered,
    Idle,
}

/// The colour a button is drawn with.
#[derive(Clone, Copy, Debug, PartialEq, Eq, Structural)]
pub enum ButtonLook {
    Pressed,
    Hover,
    Normal,
}

/// The colour for an interaction.
pub fn button_look(interaction: Interaction) -> (r: ButtonLook)
    ensures
        r == match interaction {
            Interaction::Clicked => ButtonLook::Pressed,
            Interaction::Hovered => ButtonLook::Hover,
            Interaction::Idle => ButtonLook::Normal,
        },
{
    match interaction {
        Interaction::Clicked => ButtonLook::Pressed,
        Interaction::Hovered => ButtonLook::Hover,
        Interaction::Idle => ButtonLook::Normal,
    }
}

/// What a click asks of the application.
#[derive(Clone, Copy, Debug, PartialEq, Eq, Structural)]
pub enum ButtonCommand {
    Nothing,
    SetGlobal(GlobalState),
    SetGame(GameState),
    SetPause(UiPauseState),
    Exit,
}

/// The buttons of the game-over screen.
#[derive(Clone, Copy, Debug, PartialEq, Eq, Structural)]
pub enum GameOverButton {
    Restart,
    Settings,
    MainMenu,
}

/// The buttons of the pause menu.
#[derive(Clone, Copy, Debug, PartialEq, Eq, Structural)]
pub enum PauseButton {
    MainMenu,
    Settings,
    Back,
}

/// The buttons of the main menu.
#[derive(Clone, Copy, Debug, PartialEq, Eq, Structural)]
pub enum UiMainMenuButton {
    Start,
    Exit,
}

impl GameOverButton {
    /// Restart starts a new session, main menu leaves play, settings does nothing yet.
    pub fn on_click(self) -> (r: ButtonCommand)
        ensures
            r == match self {
                GameOverButton::Restart => ButtonCommand::SetGlobal(GlobalState::InGame),
                GameOverButton::MainMenu => ButtonCommand::SetGlobal(GlobalState::MainMenu),
                GameOverButton::Settings => ButtonCommand::Nothing,
            },
    {
        match self {
            GameOverButton::Restart => ButtonCommand::SetGlobal(GlobalState::InGame),
            GameOverButton::MainMenu => ButtonCommand::SetGlobal(GlobalState::MainMenu),
            GameOverButton::Settings => ButtonCommand::Nothing,
        }
    }
}

impl PauseButton {
    /// Main menu leaves play, settings opens the settings page, back resumes play.
    pub fn on_click(self) -> (r: ButtonCommand)
        ensures
            r == match self {
                PauseButton::MainMenu => ButtonCommand::SetGlobal(GlobalState::MainMenu),
                PauseButton::Settings => ButtonCommand::SetPause(UiPauseState::Settings),
                PauseButton::Back => ButtonCommand::SetGame(GameState::InGame),
            },
    {
        match self {
            PauseButton::MainMenu => ButtonCommand::SetGlobal(GlobalState::MainMenu),
            PauseButton::Settings => ButtonCommand::SetPause(UiPauseState::Settings),
            PauseButton::Back => ButtonCommand::SetGame(GameState::InGame),
        }
    }
}

impl UiMainMenuButton {
    /// Start enters play, exit closes the application.
    pub fn on_click(self) -> (r: ButtonCommand)
        ensures
            r == match self {
                UiMainMenuButton::Start => ButtonCommand::SetGlobal(GlobalState::InGame),
                UiMainMenuButton::Exit => ButtonCommand::Exit,
            },
    {
        match self {
            UiMainMenuButton::Start => ButtonCommand::SetGlobal(GlobalState::InGame),
            UiMainMenuButton::Exit => ButtonCommand::Exit,
        }
    }
}

/// What a button does for an interaction: the colour it takes, and on a click its command.
pub fn press(interaction: Interaction, on_click: ButtonCommand) -> (r: (ButtonLook, ButtonCommand))
    ensures
        r.0 == match interaction {
            Interaction::Clicked => ButtonLook::Pressed,
            Interaction::Hovered => ButtonLook::Hover,
            Interaction::Idle => ButtonLook::Normal,
        },
        r.1 == if interaction == Interaction::Clicked {
            on_click
        } else {
            ButtonCommand::Nothing
        },
{
    let look = button_look(interaction);
    match interaction {
        Interaction::Clicked => (look, on_click),
        _ => (look, ButtonCommand::Nothing),
    }
}

} // verus!
