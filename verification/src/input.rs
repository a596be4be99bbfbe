//! Keys and what they mean to the terminal front end.
use vstd::prelude::*;

verus! {

/// A key the terminal reports.
#[derive(Debug, Clone, Copy, PartialEq, Eq, Structural)]
pub enum Key {
    Up,
    Down,
    Left,
    Right,
    PageUp,
    PageDown,
    Home,
    End,
    Enter,
    Backspace,
    Esc,
    Tab,
    BackTab,
    Char(char),
    /// Any other key.
    Other,
}

/// A terminal event: a key press, or anything else (mouse, resize, focus).
#[derive(Debug, Clone, Copy, PartialEq, Eq, Structural)]
pub enum TerminalEvent {
    Key(Key),
    Other,
}

/// What a key means.
#[derive(Debug, Clone, Copy, PartialEq, Eq, Structural)]
pub enum Input {
    Up,
    Down,
    Left,
    Right,
    PageUp,
    PageDown,
    Home,
    End,
    Section(usize),
    Accept,
    Back,
    Copy,
    PreviousTab,
    NextTab,
    Help,
    Quit,
    Confirm,
    Cancel,
    UnmappedKey,
}

/// The value of a decimal digit character.
pub open spec fn digit_of(c: char) -> Option<usize> {
    if '0' <= c && c <= '9' {
        Some(((c as int) - 48) as usize)
    } else {
        None
    }
}

/// What a key means: arrows or `h`/`j`/`k`/`l` move, digits select a
/// section, Enter accepts, Backspace and Esc go back, `y` copies, Tab and
/// `]` (BackTab and `[`) move between tabs, `?` asks for help and `q` quits.
pub open spec fn input_of_key(k: Key) -> Input {
    match k {
        Key::Up => Input::Up,
        Key::Down => Input::Down,
        Key::Left => Input::Left,
        Key::Right => Input::Right,
        Key::PageUp => Input::PageUp,
        Key::PageDown => Input::PageDown,
        Key::Home => Input::Home,
        Key::End => Input::End,
        Key::Enter => Input::Accept,
        Key::Backspace => Input::Back,
        Key::Esc => Input::Back,
        Key::BackTab => Input::PreviousTab,
        Key::Tab => Input::NextTab,
        Key::Char(c) => if c == 'k' {
            Input::Up
        } else if c == 'j' {
            Input::Down
        } else if c == 'h' {
            Input::Left
        } else if c == 'l' {
            Input::Right
        } else if digit_of(c) is Some {
            Input::Section(digit_of(c)->0)
        } else if c == 'y' {
            Input::Copy
        } else if c == '[' {
            Input::PreviousTab
        } else if c == ']' {
            Input::NextTab
        } else if c == '?' {
            Input::Help
        } else if c == 'q' {
            Input::Quit
        } else {
            Input::UnmappedKey
        },
        Key::Other => Input::UnmappedKey,
    }
}

/// What an event means; only key presses mean anything.
pub fn map_event_to_input(event: &TerminalEvent) -> (r: Option<Input>)
    ensures
        r == (match *event {
            TerminalEvent::Key(k) => Some(input_of_key(k)),
            TerminalEvent::Other => None,
        }),
{
    let k = match event {
        TerminalEvent::Key(k) => *k,
        TerminalEvent::Other => return None,
    };
    let input = match k {
        Key::Up => Input::Up,
        Key::Down => Input::Down,
        Key::Left => Input::Left,
        Key::Right => Input::Right,
        Key::PageUp => Input::PageUp,
        Key::PageDown => Input::PageDown,
        Key::Home => Input::Home,
        Key::End => Input::End,
        Key::Enter => Input::Accept,
        Key::Backspace => Input::Back,
        Key::Esc => Input::Back,
        Key::BackTab => Input::PreviousTab,
        Key::Tab => Input::NextTab,
        Key::Char(c) => {
            if c == 'k' {
                Input::Up
            } else if c == 'j' {
                Input::Down
            } else if c == 'h' {
                Input::Left
            } else if c == 'l' {
                Input::Right
            } else if '0' <= c && c <= '9' {
                Input::Section(((c as u32) - 48) as usize)
            } else if c == 'y' {
                Input::Copy
            } else if c == '[' {
                Input::PreviousTab
            } else if c == ']' {
                Input::NextTab
            } else if c == '?' {
                Input::Help
            } else if c == 'q' {
                Input::Quit
            } else {
                Input::UnmappedKey
            }
        },
        Key::Other => Input::UnmappedKey,
    };
    Some(input)
}

/// A yes/no answer: `y` confirms, `n` cancels.
pub fn map_event_to_yesno(event: &TerminalEvent) -> (r: Option<Input>)
    ensures
        r == (match *event {
            TerminalEvent::Key(Key::Char(c)) => if c == 'y' {
                Some(Input::Confirm)
            } else if c == 'n' {
                Some(Input::Cancel)
            } else {
                None
            },
            _ => None,
        }),
{
    match event {
        TerminalEvent::Key(Key::Char(c)) => {
            if *c == 'y' {
                Some(Input::Confirm)
            } else if *c == 'n' {
                Some(Input::Cancel)
            } else {
                None
            }
        },
        _ => None,
    }
}

} // verus!
