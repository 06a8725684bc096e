//! Dynamic lighting: channels, claims, shadow meshes and light state.

pub mod light_alloc;
pub mod light_interaction;
pub mod light_man;
