use vstd::prelude::*;

verus! {

/// The key that arms, and on a second press completes, the delete-line chord.
pub const CHORD_KEY: char = 'd';

/// The input-interpretation context.
#[derive(Clone, Copy, Debug, PartialEq, Eq, Structural)]
pub enum Mode {
    Normal,
    Insert,
}

/// A logical key code, as far as the editor tells keys apart.
#[derive(Clone, Copy, Debug, PartialEq, Eq, Structural)]
pub enum Key {
    Char(char),
    Up,
    Down,
    Left,
    Right,
    Esc,
    Other,
}

/// One item of the input stream.
#[derive(Clone, Copy, Debug, PartialEq, Eq, Structural)]
pub enum Event {
    Key(Key),
    /// The terminal now has this many columns and rows.
    Resize(u16, u16),
    Other,
}

/// What the editor can be asked to do. `InsertChar` and `InsertLine` are the
/// inverse actions kept on the undo stack: a character at (column, absolute
/// line), and a whole line at an absolute index.
#[derive(Debug)]
pub enum Action {
    MoveUp,
    MoveDown,
    MoveLeft,
    MoveRight,
    Insert(char),
    InsertLineBelow,
    InsertLineAbove,
    DeleteLine,
    DeleteChar,
    InsertChar(u16, usize, char),
    InsertLine(usize, Vec<char>),
    Undo,
    EnterMode(Mode),
    MoveEnd,
    MoveHome,
    PageDown,
    PageUp,
    Quit,
}

/// The action bound to a single Normal-mode key (the chord key aside).
pub open spec fn normal_key_action(key: Key) -> Option<Action> {
    match key {
        Key::Up => Some(Action::MoveUp),
        Key::Down => Some(Action::MoveDown),
        Key::Left => Some(Action::MoveLeft),
        Key::Right => Some(Action::MoveRight),
        Key::Char(c) => {
            if c == 'q' {
                Some(Action::Quit)
            } else if c == 'i' {
                Some(Action::EnterMode(Mode::Insert))
            } else if c == 'b' {
                Some(Action::PageUp)
            } else if c == 'f' {
                Some(Action::PageDown)
            } else if c == '0' {
                Some(Action::MoveHome)
            } else if c == '$' {
                Some(Action::MoveEnd)
            } else if c == 'x' {
                Some(Action::DeleteChar)
            } else if c == 'u' {
                Some(Action::Undo)
            } else if c == 'o' {
                Some(Action::InsertLineBelow)
            } else if c == 'O' {
                Some(Action::InsertLineAbove)
            } else {
                None
            }
        },
        _ => None,
    }
}

/// A Normal-mode key press given the pending chord: the new pending chord and
/// the action, if any. The chord key arms the chord when nothing is pending
/// and completes it (delete-line) when it is pending; any other key discards
/// what was pending and acts on its own.
pub open spec fn normal_key(pending: Option<char>, key: Key) -> (Option<char>, Option<Action>) {
    if key == Key::Char(CHORD_KEY) {
        if pending == Some(CHORD_KEY) {
            (None, Some(Action::DeleteLine))
        } else {
            (Some(CHORD_KEY), None)
        }
    } else {
        (None, normal_key_action(key))
    }
}

/// The action of an Insert-mode key press.
pub open spec fn insert_key(key: Key) -> Option<Action> {
    match key {
        Key::Esc => Some(Action::EnterMode(Mode::Normal)),
        Key::Char(c) => Some(Action::Insert(c)),
        _ => None,
    }
}

/// Resolves a Normal-mode key press against the pending chord.
pub fn resolve_normal_key(pending: Option<char>, key: Key) -> (r: (Option<char>, Option<Action>))
    ensures
        r == normal_key(pending, key),
{
    match key {
        Key::Up => (None, Some(Action::MoveUp)),
        Key::Down => (None, Some(Action::MoveDown)),
        Key::Left => (None, Some(Action::MoveLeft)),
        Key::Right => (None, Some(Action::MoveRight)),
        Key::Char(c) => {
            if c == CHORD_KEY {
                match pending {
                    Some(p) => {
                        if p == CHORD_KEY {
                            (None, Some(Action::DeleteLine))
                        } else {
                            (Some(CHORD_KEY), None)
                        }
                    },
                    None => (Some(CHORD_KEY), None),
                }
            } else if c == 'q' {
                (None, Some(Action::Quit))
            } else if c == 'i' {
                (None, Some(Action::EnterMode(Mode::Insert)))
            } else if c == 'b' {
                (None, Some(Action::PageUp))
            } else if c == 'f' {
                (None, Some(Action::PageDown))
            } else if c == '0' {
                (None, Some(Action::MoveHome))
            } else if c == '$' {
                (None, Some(Action::MoveEnd))
            } else if c == 'x' {
                (None, Some(Action::DeleteChar))
            } else if c == 'u' {
                (None, Some(Action::Undo))
            } else if c == 'o' {
                (None, Some(Action::InsertLineBelow))
            } else if c == 'O' {
                (None, Some(Action::InsertLineAbove))
            } else {
                (None, None)
            }
        },
        _ => (None, None),
    }
}

/// Resolves an Insert-mode key press.
pub fn resolve_insert_key(key: Key) -> (r: Option<Action>)
    ensures
        r == insert_key(key),
{
    match key {
        Key::Esc => Some(Action::EnterMode(Mode::Normal)),
        Key::Char(c) => Some(Action::Insert(c)),
        _ => None,
    }
}

/// Pressing the chord key, then any other key, then the chord key again,
/// starting with nothing pending, never yields a delete-line: the other key
/// discards the armed chord, and the last press only arms it anew.
pub proof fn chord_interrupted_deletes_nothing(other: Key)
    requires
        other != Key::Char(CHORD_KEY),
    ensures
        ({
            let (armed, first) = normal_key(None, Key::Char(CHORD_KEY));
            let (cleared, second) = normal_key(armed, other);
            let (rearmed, third) = normal_key(cleared, Key::Char(CHORD_KEY));
            &&& !(first matches Some(Action::DeleteLine))
            &&& !(second matches Some(Action::DeleteLine))
            &&& !(third matches Some(Action::DeleteLine))
            &&& rearmed == Some(CHORD_KEY)
        }),
{
}

/// Two presses of the chord key in a row, starting with nothing pending,
/// yield exactly one delete-line and leave nothing pending.
pub proof fn chord_twice_deletes_line()
    ensures
        ({
            let (armed, first) = normal_key(None, Key::Char(CHORD_KEY));
            let (done, second) = normal_key(armed, Key::Char(CHORD_KEY));
            &&& first is None
            &&& second matches Some(Action::DeleteLine)
            &&& done is None
        }),
{
}

} // verus!
