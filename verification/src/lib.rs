//! Verified core of the Küken web UI installer.
//!
//! The library models the installation pipeline — runtime precondition,
//! directory preparation, sparse repository fetch, health probe,
//! configuration generation and service startup — as a state machine
//! whose transitions are verified. The surrounding binary performs the
//! actual process spawns, filesystem writes and network calls, driven
//! by the actions this library emits.

use vstd::prelude::*;

pub mod cli;
pub mod commands;
pub mod config;
pub mod fetch;
pub mod laws;
pub mod paths;
pub mod pipeline;
pub mod probe;

verus! {

/// Selects between the development and production installation flavour.
#[derive(Clone, Copy, PartialEq, Eq, Structural, Debug)]
pub enum Mode {
    Development,
    Production,
}

} // verus!
