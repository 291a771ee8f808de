//! A turn-based text adventure: rooms, enemies, a player with an inventory,
//! and the commands that drive them.

pub mod command;
pub mod database;
pub mod dice;
pub mod enemy;
pub mod game;
pub mod name_generator;
pub mod objects;
pub mod player;
pub mod room;
pub mod search;
pub mod story;
pub mod text;
pub mod world;
