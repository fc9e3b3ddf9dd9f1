//! The VTT bridge: canonical character and roll shapes, the per-source
//! translators and outbound envelope builders, and the roll history.

pub mod types;
pub mod translate_roll;
pub mod roll20;
pub mod foundry;
pub mod history;
pub mod foundry_actions;
pub mod source;
pub mod state;
