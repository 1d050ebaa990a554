//! Key bindings: from a terminal event and the current mode to a command.

use vstd::prelude::*;

verus! {

/// Modifier set of a key press with no modifier held.
pub const NO_MODIFIERS: u8 = 0;

/// Modifier set of a key press with exactly Shift held.
pub const SHIFT: u8 = 1;

/// Modifier set of a key press with exactly Control held.
pub const CONTROL: u8 = 2;

/// The key of a key press, as far as the bindings tell keys apart.
#[derive(Clone, Copy, Debug, PartialEq, Eq, Structural)]
pub enum KeyCode {
    Esc,
    Enter,
    Up,
    Down,
    Char(char),
    /// Any key that no binding names.
    Other,
}

/// One key press: the key and the exact set of modifiers held with it.
///
/// `modifiers` is a bit set in which Shift is bit 0 and Control is bit 1;
/// higher bits stand for further modifiers. A binding matches only when the
/// whole set is the one it names, so Control+Alt+R is not Control+R.
#[derive(Clone, Copy, Debug, PartialEq, Eq, Structural)]
pub struct KeyEvent {
    pub code: KeyCode,
    pub modifiers: u8,
}

/// A terminal event.
#[derive(Clone, Copy, Debug, PartialEq, Eq, Structural)]
pub enum Event {
    Key(KeyEvent),
    /// Mouse, resize, focus and paste events; none of them is bound.
    Other,
}

/// What the console is doing, as far as the bindings depend on it.
#[derive(Clone, Copy, Debug, PartialEq, Eq, Structural)]
pub enum Mode {
    /// The device list is shown and no scan is running.
    Browsing,
    /// A scan is running.
    Scanning,
    /// A report is shown and no scan is running.
    Report,
}

/// What the operator asked for with a key press.
#[derive(Clone, Copy, Debug, PartialEq, Eq, Structural)]
pub enum Command {
    MoveUp,
    MoveDown,
    StartScan,
    CancelScan,
    DismissReport,
    Quit,
    ForceQuit,
    Refresh,
    ClearScreen,
}

/// Esc, Ctrl+C and plain `q` all mean "back out of whatever is going on".
pub open spec fn is_back_key(key: KeyEvent) -> bool {
    ||| key.code == KeyCode::Esc && key.modifiers == NO_MODIFIERS
    ||| key.code == KeyCode::Char('c') && key.modifiers == CONTROL
    ||| key.code == KeyCode::Char('q') && key.modifiers == NO_MODIFIERS
}

/// The command bound to a key press in a mode, or `None` where the key is
/// not bound there.
///
/// Backing out, Shift+Q, Ctrl+R and Ctrl+L are bound in every mode, so the
/// device list can be refreshed while a report is shown; it shows the new
/// listing once the report is dismissed. Enter and the arrows are bound in
/// the device list only.
pub open spec fn key_command(mode: Mode, key: KeyEvent) -> Option<Command> {
    if is_back_key(key) {
        Some(
            match mode {
                Mode::Scanning => Command::CancelScan,
                Mode::Report => Command::DismissReport,
                Mode::Browsing => Command::Quit,
            },
        )
    } else if key.code == KeyCode::Char('Q') && key.modifiers == SHIFT {
        Some(Command::ForceQuit)
    } else if key.code == KeyCode::Char('r') && key.modifiers == CONTROL {
        Some(Command::Refresh)
    } else if key.code == KeyCode::Char('l') && key.modifiers == CONTROL {
        Some(Command::ClearScreen)
    } else if mode == Mode::Browsing && key.modifiers == NO_MODIFIERS {
        match key.code {
            KeyCode::Enter => Some(Command::StartScan),
            KeyCode::Up => Some(Command::MoveUp),
            KeyCode::Down => Some(Command::MoveDown),
            _ => None,
        }
    } else {
        None
    }
}

/// The command that an event stands for in a mode. Events other than key
/// presses stand for none.
pub open spec fn command_of(mode: Mode, event: Event) -> Option<Command> {
    match event {
        Event::Key(key) => key_command(mode, key),
        Event::Other => None,
    }
}

/// Reads an event as a command. Nothing is changed; an event that is not
/// bound in `mode` gives `None`.
pub fn interpret(mode: Mode, event: Event) -> (command: Option<Command>)
    ensures
        command == command_of(mode, event),
{
    let key = match event {
        Event::Key(key) => key,
        Event::Other => {
            return None;
        },
    };
    let plain = key.modifiers == NO_MODIFIERS;
    let control = key.modifiers == CONTROL;
    let shift = key.modifiers == SHIFT;
    match key.code {
        KeyCode::Esc => if plain {
            Some(back_out(mode))
        } else {
            None
        },
        KeyCode::Char(c) => if (c == 'c' && control) || (c == 'q' && plain) {
            Some(back_out(mode))
        } else if c == 'Q' && shift {
            Some(Command::ForceQuit)
        } else if c == 'r' && control {
            Some(Command::Refresh)
        } else if c == 'l' && control {
            Some(Command::ClearScreen)
        } else {
            None
        },
        KeyCode::Enter => if plain && mode == Mode::Browsing {
            Some(Command::StartScan)
        } else {
            None
        },
        KeyCode::Up => if plain && mode == Mode::Browsing {
            Some(Command::MoveUp)
        } else {
            None
        },
        KeyCode::Down => if plain && mode == Mode::Browsing {
            Some(Command::MoveDown)
        } else {
            None
        },
        KeyCode::Other => None,
    }
}

/// What backing out means in each mode.
fn back_out(mode: Mode) -> (command: Command)
    ensures
        command == match mode {
            Mode::Scanning => Command::CancelScan,
            Mode::Report => Command::DismissReport,
            Mode::Browsing => Command::Quit,
        },
{
    match mode {
        Mode::Scanning => Command::CancelScan,
        Mode::Report => Command::DismissReport,
        Mode::Browsing => Command::Quit,
    }
}

} // verus!
