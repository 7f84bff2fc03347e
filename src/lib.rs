//! The orchestration layer of a PlayStation libretro core, and of a game engine
//! run as a libretro core: option parsing, BIOS identification and selection,
//! boot planning, the savestate format, the session lifecycle, and the
//! engine's screen and input decisions.
pub mod text;
pub mod video;
pub mod bios;
pub mod boot;
pub mod savestate;
pub mod session;
pub mod backend;
pub mod drs;
pub mod input;
