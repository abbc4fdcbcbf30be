//! Core engine of a tabletop-RPG chat bot: dice-expression evaluation,
//! success-tier classification for several rulesets, command-line parsing,
//! per-user status and macro storage, and the command registry/dispatcher.
//!
//! The chat platform itself and any persistence backend are outside
//! collaborators: this crate computes replies as plain values and leaves
//! sending, reading and storing them to its caller.

pub mod classify;
pub mod command_parser;
pub mod commands;
pub mod config;
pub mod database;
pub mod dice;
pub mod logging;
pub mod rng;
pub mod text;
pub mod user_data;
