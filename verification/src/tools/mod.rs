//! The tools built on the bridge and the store: the GM screen push, the
//! character field and advantage editor, and the library push.

pub mod gm_screen;
pub mod character;
