use vstd::prelude::*;

verus! {

/// What the user asked for with a key press.
#[derive(Clone, Copy, Debug, PartialEq, Eq)]
pub enum Command {
    Quit,
    Yes,
    No,
    Enter,
    Pause,
    Resume,
    Toggle,
    Skip,
    Unknown,
}

impl Command {
    /// The command bound to a character key: `q` quits, `y` and `n` answer a
    /// question, `p` pauses, `r` resumes, space toggles, `S` skips.
    pub fn from_char(c: char) -> (r: Command)
        ensures
            r == (if c == 'q' || c == 'Q' {
                Command::Quit
            } else if c == 'y' || c == 'Y' {
                Command::Yes
            } else if c == 'n' || c == 'N' {
                Command::No
            } else if c == 'p' {
                Command::Pause
            } else if c == 'r' {
                Command::Resume
            } else if c == ' ' {
                Command::Toggle
            } else if c == 'S' {
                Command::Skip
            } else {
                Command::Unknown
            }),
    {
        match c {
            'q' | 'Q' => Command::Quit,
            'y' | 'Y' => Command::Yes,
            'n' | 'N' => Command::No,
            'p' => Command::Pause,
            'r' => Command::Resume,
            ' ' => Command::Toggle,
            'S' => Command::Skip,
            _ => Command::Unknown,
        }
    }
}

} // verus!
