//! What the command line asks for.

use vstd::prelude::*;

verus! {

/// The parsed command line.
pub struct CliArgs {
    /// Print command name, arguments, and directory when running commands.
    pub verbose: bool,
    pub command: Command,
}

/// The model that writes commit messages and reviews.
#[derive(Clone, Copy, Debug, PartialEq, Eq, Structural)]
pub enum Agent {
    Copilot,
    Gemini,
}

impl Default for Agent {
    fn default() -> (r: Agent)
        ensures
            r == Agent::Copilot,
    {
        Agent::Copilot
    }
}

/// A subcommand.
#[derive(Debug)]
pub enum Command {
    /// Creates a new branch and opens a pull request preview in the browser.
    OpenPr {
        /// Commit message (skips interactive prompt).
        message: Option<String>,
        /// AI agent to generate commit message.
        agent: Option<Agent>,
    },
    /// Squashes the branch into one commit titled like its pull request.
    Squash {
        /// Show what would be squashed without actually performing the operation.
        dry_run: bool,
    },
}

} // verus!
