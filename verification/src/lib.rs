//! Game rules of a survivor-style action game: elements and rarity tiers,
//! spell slots and the spell bag, loot values, level and experience
//! progression, sound compression tiers and pause-menu toggles.
//!
//! Everything here works on integers, enums and strings; positions,
//! velocities, timers and colours in floating point live with the game
//! engine, outside this library.

pub mod element;
pub mod rarity;
pub mod spell;
pub mod slots;
pub mod spell_list;
pub mod bag;
pub mod pickup;
pub mod progression;
pub mod loot;
pub mod audio;
pub mod pause;
