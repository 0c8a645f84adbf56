//! Game logic of dispair, a terminal roguelite: coordinates and areas, the
//! player's level, stats and upgrades, enemies and their debuffs, weapons,
//! charms, power-ups and the per-tick rules of a run.
pub mod chain;
pub mod character;
pub mod charms;
pub mod coords;
pub mod debuff_effects;
pub mod debuffs;
pub mod effects;
pub mod enemy;
pub mod enemywrangler;
pub mod entities;
pub mod game;
pub mod keys;
pub mod laws;
pub mod level;
pub mod map;
pub mod pickups;
pub mod popups;
pub mod powerup;
pub mod rng;
pub mod rogue;
pub mod sound;
pub mod stats;
pub mod upgrade_menu;
pub mod upgrades;
pub mod utils;
pub mod view;
pub mod weapons;
pub mod widgets;
