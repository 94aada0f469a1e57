//! Game-state decoding and presence reporting for Super Smash Bros. Melee
//! running under the Dolphin emulator with Slippi.
//!
//! The library turns values read from the emulated console's memory into
//! presence requests for a status publisher, and decides when a request is
//! worth sending.

pub mod text;
pub mod stage;
pub mod character;
pub mod config;
pub mod melee;
pub mod discord;
pub mod memory;
pub mod supervisor;
pub mod util;
pub mod activity;
