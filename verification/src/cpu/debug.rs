//! What a debugger front end decides.
use vstd::prelude::*;

verus! {

/// What a debugger front end does next.
#[derive(Clone, Copy, Debug, PartialEq, Eq)]
pub enum Command {
    /// Leave.
    Quit,
    /// Go on showing the processor.
    Stay,
}

/// What the key `key` asks for: `q` leaves, every other key is ignored.
pub fn command_for(key: char) -> (c: Command)
    ensures
        c == (if key == 'q' {
            Command::Quit
        } else {
            Command::Stay
        }),
{
    if key == 'q' {
        Command::Quit
    } else {
        Command::Stay
    }
}

} // verus!
