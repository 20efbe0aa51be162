//! Helpers for auto splitters that read a game's memory: addresses, pointer
//! widths, a model of a process's memory, signature scanning, executable
//! headers, and the metadata walks of the Unity and Unreal engines.

pub mod primitives;

pub use primitives::{Address, Address16, Address32, Address64, PointerSize};
pub mod process;

pub use process::{Error, Process};
pub mod string;
pub mod text;
pub mod signature;
pub mod file_format;
pub mod game_engine;
pub mod gba;
