//! Game logic of a castle-defence game: a castle with one wall on each of the
//! four sides, enemy spawners on the map edges, death resolution, levelling
//! and the game-state watchers that drive the session.

pub mod castle;
pub mod death;
pub mod enemy;
pub mod game;
pub mod side;
pub mod spawn;
pub mod state;
pub mod timer;
pub mod wall;

pub use castle::{Castle, CastleBundle, CastleOp};
pub use game::{Game, GameOverEvent};
pub use enemy::{Enemy, EnemyBundle, EnemyKind, EnemySpawnBuffs};
pub use side::Side;
pub use spawn::{EnemySpawn, EnemySpawnBundle, SpawnedEnemy};
pub use state::{GameState, GlobalState, UiInGameState, UiPauseState};
pub use timer::RepeatingTimer;
pub use wall::{CastleWall, CastleWallBundle, WallEvent};
