//! Scene lifecycle state machine and asset readiness tracking for a
//! tick-driven game loop, with their laws proved by Verus.

pub mod state;
pub mod game_scenes;
pub mod loaders;
pub mod animations;
pub mod combat;
pub mod data_loaders;
