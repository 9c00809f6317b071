//! The command-line surface, as plain data: parsing and the
//! interactive session live outside the library.

use vstd::prelude::*;

verus! {

/// The subcommands of the command line.
#[derive(Clone, Copy, Debug, PartialEq, Eq, Structural)]
pub enum Commands {
    /// Run the interactive conversation loop.
    Chatter {
        /// Show backend request messages during operation.
        show_messages: bool,
    },
}

/// The parsed command line.
#[derive(Clone, Copy, Debug, PartialEq, Eq, Structural)]
pub struct Cli {
    pub command: Option<Commands>,
}

impl Cli {
    /// Whether the run shows backend request messages.
    pub fn show_messages(&self) -> (r: bool)
        ensures
            r == (self.command matches Some(Commands::Chatter { show_messages: true })),
    {
        match self.command {
            Some(Commands::Chatter { show_messages }) => show_messages,
            None => false,
        }
    }
}

} // verus!
