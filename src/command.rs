use vstd::prelude::*;

verus! {

/// A command sent by the input listener to the control loop.
#[derive(Debug, Clone, Copy, PartialEq, Eq, Structural)]
pub enum UserInput {
    Cancel,
    Pause,
    Resume,
}

/// Maps a key press to the command it stands for, if any.
pub fn command_for_key(c: char) -> (r: Option<UserInput>)
    ensures
        r == command_spec(c),
{
    if c == 'c' || c == 'C' {
        Some(UserInput::Cancel)
    } else if c == 'p' || c == 'P' {
        Some(UserInput::Pause)
    } else if c == 'r' || c == 'R' {
        Some(UserInput::Resume)
    } else {
        None
    }
}

/// The command that a key stands for: c, p or r, in either case.
pub open spec fn command_spec(c: char) -> Option<UserInput> {
    if c == 'c' || c == 'C' {
        Some(UserInput::Cancel)
    } else if c == 'p' || c == 'P' {
        Some(UserInput::Pause)
    } else if c == 'r' || c == 'R' {
        Some(UserInput::Resume)
    } else {
        None
    }
}

} // verus!
