//! The commands that the command line offers.

use vstd::prelude::*;

verus! {

/// The failure of the command-line layer.
#[derive(Debug, Clone, Copy, PartialEq, Eq)]
pub struct CliError;

/// What the user asks the tracker to do.
#[derive(Debug, Clone, Copy, PartialEq, Eq, Structural)]
pub enum Command {
    /// Start tracking time.
    Start,
    /// Stop tracking time and keep the finished session.
    Stop,
    /// Delete the kept sessions.
    Delete,
    /// Report the kept sessions.
    Report,
}

/// The parsed command line.
#[derive(Debug, Clone, Copy)]
pub struct Cli {
    pub command: Command,
}

} // verus!
