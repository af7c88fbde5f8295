use vstd::prelude::*;

pub mod battle;
pub mod context;
pub mod direction;
pub mod enemy;
pub mod fixed;
pub mod game;
pub mod overland;
pub mod particle;
pub mod problem;
pub mod rng;
pub mod sweep;
pub mod text;
pub mod textbox;
