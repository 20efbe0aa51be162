//! Support for games built on the Unity and Unreal engines.

pub mod unity;
pub mod unreal;
