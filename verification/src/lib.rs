//! Game rules of a retro pirate space shooter: waves, bosses, enemies,
//! power-ups, narrative progression, dialogue flow, content validation and
//! the developer console, stated over integer models and checked by Verus.

pub mod text;
pub mod rng;
pub mod boss;
pub mod enemy;
pub mod ship;
pub mod wave_director;
pub mod menu;
pub mod config;
pub mod narrative;
pub mod powerup;
pub mod bullet;
pub mod collision;
pub mod portrait;
pub mod dialogue;
pub mod content;
pub mod console;
pub mod save;
pub mod formation;
pub mod flow;
pub mod combat;
pub mod color;
