//! Command interpretation and player-session dispatch for a command-line
//! media-player remote.
//!
//! The crate turns one free-form input token into a command from a closed
//! vocabulary, decides which operation that command performs on the active
//! player, formats the now-playing report lines, and applies the volume
//! policy. Everything that touches the session bus itself (connecting,
//! finding the player, reading metadata, reading and writing the volume)
//! is left to the surrounding program, which hands the results in as plain
//! values; every decision taken on those values is verified here.

pub mod command;
pub mod outcome;
pub mod report;
pub mod session;
pub mod volume;
