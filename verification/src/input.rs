use vstd::prelude::*;

verus! {

/// One key press, already decoded from the terminal's raw event stream.
#[derive(Clone, Copy, PartialEq, Eq, Structural, Debug)]
pub enum Key {
    Char(char),
    Up,
    Down,
    Enter,
    Backspace,
    Other,
}

/// The closed set of things a key press can ask the browser to do.
#[derive(Clone, Copy, PartialEq, Eq, Structural, Debug)]
pub enum Command {
    MoveUp,
    MoveDown,
    EnterDir,
    Ascend,
    Quit,
    Noop,
}

/// The fixed key bindings: `q` quits, the arrows move the selection,
/// Enter descends into a directory, Backspace ascends to the parent.
pub open spec fn command_for(k: Key) -> Command {
    match k {
        Key::Char(c) => if c == 'q' {
            Command::Quit
        } else {
            Command::Noop
        },
        Key::Up => Command::MoveUp,
        Key::Down => Command::MoveDown,
        Key::Enter => Command::EnterDir,
        Key::Backspace => Command::Ascend,
        Key::Other => Command::Noop,
    }
}

/// Maps a decoded key press to the command it is bound to.
pub fn map_key(k: Key) -> (c: Command)
    ensures
        c == command_for(k),
{
    match k {
        Key::Char(ch) => if ch == 'q' {
            Command::Quit
        } else {
            Command::Noop
        },
        Key::Up => Command::MoveUp,
        Key::Down => Command::MoveDown,
        Key::Enter => Command::EnterDir,
        Key::Backspace => Command::Ascend,
        Key::Other => Command::Noop,
    }
}

} // verus!
