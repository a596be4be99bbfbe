//! The screen shown while no request has come yet.
use vstd::prelude::*;
use crate::app::Message;
use crate::input::{input_of_key, map_event_to_input, Input, TerminalEvent};
use crate::modals::waiting_text;
use crate::text::{chars_of, push_decimal, push_str};

verus! {

/// A rectangle of the terminal: its top-left corner and its size.
#[derive(Debug, Clone, Copy, PartialEq, Eq, Structural)]
pub struct Rect {
    pub x: u16,
    pub y: u16,
    pub width: u16,
    pub height: u16,
}

/// `a - b`, stopping at 0.
pub open spec fn sub_or_zero(a: u16, b: u16) -> u16 {
    if a >= b {
        (a - b) as u16
    } else {
        0
    }
}

/// A `width` by `height` rectangle centred in `area`.
pub fn centered_area(area: Rect, width: u16, height: u16) -> (r: Rect)
    requires
        area.x + area.width <= u16::MAX,
        area.y + area.height <= u16::MAX,
    ensures
        r == (Rect {
            x: (area.x + sub_or_zero(area.width, width) / 2) as u16,
            y: (area.y + sub_or_zero(area.height, height) / 2) as u16,
            width,
            height,
        }),
{
    let x = area.x + area.width.saturating_sub(width) / 2;
    let y = area.y + area.height.saturating_sub(height) / 2;
    Rect { x, y, width, height }
}

/// The screen that waits for the first request.
#[derive(Debug, PartialEq)]
pub struct WaitingScreen {
    pub server_host: String,
    pub server_port: u16,
}

impl WaitingScreen {
    pub fn new(server_host: String, server_port: u16) -> (r: Self)
        ensures
            r.server_host == server_host,
            r.server_port == server_port,
    {
        WaitingScreen { server_host, server_port }
    }

    /// What the screen says.
    pub fn message(&self) -> (r: String)
        ensures
            r@ == waiting_text(self.server_host@, self.server_port),
    {
        let mut r = String::new();
        push_str(&mut r, "Waiting for requests on ");
        push_str(&mut r, self.server_host.as_str());
        push_str(&mut r, ":");
        push_decimal(&mut r, self.server_port as u64);
        push_str(&mut r, " (press 'q' to quit)");
        r
    }

    /// The size of the box: the message with a column of padding and one of
    /// border on either side, one line high inside its border.
    pub fn size(&self) -> (r: (u16, u16))
        requires
            (waiting_text(self.server_host@, self.server_port).len() as u16) <= 65531,
        ensures
            r.0 == (waiting_text(self.server_host@, self.server_port).len() as u16) + 4,
            r.1 == 3,
    {
        let message = self.message();
        let n = chars_of(message.as_str()).len();
        #[verifier::truncate]
        let w: u16 = n as u16;
        (w + 4, 3)
    }

    /// `q` quits; nothing else means anything.
    pub fn handle_event(&self, event: &TerminalEvent) -> (r: Option<Message>)
        ensures
            r == (match *event {
                TerminalEvent::Key(k) => if input_of_key(k) == Input::Quit {
                    Some(Message::Quit)
                } else {
                    None
                },
                TerminalEvent::Other => None,
            }),
    {
        match map_event_to_input(event) {
            Some(Input::Quit) => Some(Message::Quit),
            _ => None,
        }
    }
}

} // verus!
