//! Dice mechanics, character-field rules and VTT bridge translation for a
//! Vampire: The Masquerade 5th Edition companion tool.

pub mod text;
pub mod json;
pub mod random;
pub mod types;
pub mod dice;
pub mod resonance;
pub mod v5;
pub mod bridge;
pub mod canonical_fields;
pub mod modifier;
pub mod tools;
pub mod library;
pub mod export;
pub mod saved;
