//! lifecycle and execution subsystem

use vstd::prelude::*;

verus! {

/// a command that tells one of the game loops what to do before the next iteration
#[derive(PartialEq, Eq, Structural, Clone, Copy, Debug)]
pub enum Command {
    /// signal to keep running the loop(s)
    Continue,
    /// signal to stop the loop(s)
    Stop,
}

impl Command {
    /// combine two loop commands: a stop request from either side wins
    pub fn join(self, other: Command) -> (r: Command)
        ensures
            r == Command::Stop <==> (self == Command::Stop || other == Command::Stop),
    {
        if self == Command::Stop || other == Command::Stop {
            Command::Stop
        } else {
            Command::Continue
        }
    }
}

} // verus!
