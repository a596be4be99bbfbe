//! The boxes shown over a screen: waiting for the first request, an error,
//! the keyboard shortcuts, and the question before quitting.
use vstd::prelude::*;
use vstd::utf8::encode_utf8;
use crate::app::Message;
use crate::formatter::{filled, wrap_text};
use crate::input::{input_of_key, map_event_to_input, map_event_to_yesno, Input, Key, TerminalEvent};
use crate::text::{decimal, lines, push_decimal, push_str, shows_texts, text_lines};
use crate::widgets::{count_lines, dec, line_count, next_position, BorderedText, ScrollbarState, Tone};

verus! {

/// What the error box does next.
#[derive(Debug, Clone, Copy, PartialEq, Eq, Structural)]
pub enum ErrorModalMessage {
    ScrollUp,
    ScrollDown,
    ScrollLeft,
    ScrollRight,
}

/// What the shortcuts box does next.
#[derive(Debug, Clone, Copy, PartialEq, Eq, Structural)]
pub enum ShortcutsModalMessage {
    ScrollUp,
    ScrollDown,
    Home,
    End,
    PageUp,
    PageDown,
}

/// The answer to the question before quitting.
#[derive(Debug, Clone, Copy, PartialEq, Eq, Structural)]
pub enum ConfirmQuitModalMessage {
    Confirm,
    Cancel,
}

// ---------------------------------------------------------------------------
// Waiting for the first request.

/// The box shown until the first request comes.
#[derive(Debug, PartialEq)]
pub struct WaitingModal {
    pub server_host: String,
    pub server_port: u16,
}

/// What the waiting box says.
pub open spec fn waiting_text(host: Seq<char>, port: u16) -> Seq<char> {
    "Waiting for requests on "@ + host + ":"@ + decimal(port as nat) + " (press 'q' to quit)"@
}

/// The text of the waiting box, wrapped, and the size of the box.
pub struct WaitingLayout {
    pub text: String,
    pub width: u16,
    pub height: u16,
}

/// What the box makes of a terminal event.
pub open spec fn waiting_event_reply(event: TerminalEvent) -> Option<Message> {
    match event {
        TerminalEvent::Key(k) => if input_of_key(k) == Input::Quit {
            Some(Message::Quit)
        } else {
            None
        },
        TerminalEvent::Other => None,
    }
}

impl WaitingModal {
    pub fn new(server_host: String, server_port: u16) -> (r: Self)
        ensures
            r.server_host == server_host,
            r.server_port == server_port,
    {
        WaitingModal { server_host, server_port }
    }

    /// The text of the box, before wrapping.
    pub fn message(&self) -> (r: String)
        ensures
            r@ == waiting_text(self.server_host@, self.server_port),
    {
        let mut r = String::new();
        push_str(&mut r, "Waiting for requests on ");
        push_str(&mut r, self.server_host.as_str());
        push_str(&mut r, ":");
        push_decimal(&mut r, self.server_port as u64);
        push_str(&mut r, " (press 'q' to quit)");
        r
    }

    /// The box for a wrapped text: two columns and two lines of border
    /// around it.
    pub fn layout_of(wrapped: String, line_length: usize) -> (r: WaitingLayout)
        requires
            line_length < 65534,
            (line_count(wrapped@) as u16) < 65534,
        ensures
            r.text@ == wrapped@,
            r.width == line_length + 2,
            r.height == (line_count(wrapped@) as u16) + 2,
    {
        let lines = count_lines(wrapped.as_str());
        #[verifier::truncate]
        let h: u16 = lines as u16;
        WaitingLayout { text: wrapped, width: line_length as u16 + 2, height: h + 2 }
    }

    /// The box drawn in an area `area_width` columns wide: the text wrapped
    /// at a third of that width. `None` when the wrapped text has so many
    /// lines that the height does not fit in 16 bits.
    pub fn layout(&self, area_width: u16) -> (r: Option<WaitingLayout>)
        ensures
            ({
                let line_length = area_width / 3;
                let wrapped = filled(waiting_text(self.server_host@, self.server_port), line_length as usize);
                match r {
                    Some(l) => (line_count(wrapped) as u16) < 65534 && l.text@ == wrapped && l.width
                        == line_length + 2 && l.height == (line_count(wrapped) as u16) + 2,
                    None => (line_count(wrapped) as u16) >= 65534,
                }
            }),
    {
        let line_length: usize = (area_width / 3) as usize;
        let message = self.message();
        let wrapped = wrap_text(message.as_str(), line_length);
        let lines = count_lines(wrapped.as_str());
        #[verifier::truncate]
        let h: u16 = lines as u16;
        if h < 65534 {
            Some(Self::layout_of(wrapped, line_length))
        } else {
            None
        }
    }

    /// The box for a layout: its text, centred, focused.
    pub fn text_box(layout: WaitingLayout) -> (r: BorderedText)
        ensures
            r.text == layout.text,
            r.title is None,
            r.is_focused,
            r.centered,
            r.focus_tone == Tone::HighlightFg,
            r.scroll == (0u16, 0u16),
    {
        BorderedText::new(layout.text).focused(true).centered()
    }

    /// Only `q` means anything here: it quits.
    pub fn handle_event(&self, event: &TerminalEvent) -> (r: Option<Message>)
        ensures
            r == waiting_event_reply(*event),
    {
        match map_event_to_input(event) {
            Some(Input::Quit) => Some(Message::Quit),
            _ => None,
        }
    }

    /// The box closes once a request entry comes.
    pub fn update(&mut self, message: &Message) -> (r: Option<Message>)
        ensures
            r == (match *message {
                Message::RequestEntryUpdated(_) => Some(Message::CloseModal),
                _ => None,
            }),
            *final(self) == *old(self),
    {
        match message {
            Message::RequestEntryUpdated(_) => Some(Message::CloseModal),
            _ => None,
        }
    }
}

// ---------------------------------------------------------------------------
// An error.

/// How far the error box scrolls sideways at a time.
pub const X_SCROLL_STEP: usize = 10;

/// The box that shows an error, scrollable both ways.
#[derive(Debug, PartialEq)]
pub struct ErrorModal {
    pub content: String,
    pub scrollbar_vertical_state: ScrollbarState,
    pub scrollbar_horizontal_state: ScrollbarState,
}

/// `p` moved back `n` times, stopping at 0.
pub open spec fn moved_back(p: usize, n: nat) -> usize
    decreases n,
{
    if n == 0 {
        p
    } else {
        dec(moved_back(p, (n - 1) as nat))
    }
}

/// `p` moved on `n` times within content of length `len`.
pub open spec fn moved_on(p: usize, len: usize, n: nat) -> usize
    decreases n,
{
    if n == 0 {
        p
    } else {
        next_position(moved_on(p, len, (n - 1) as nat), len)
    }
}

/// The length of a line in bytes.
pub open spec fn byte_width(l: Seq<char>) -> usize {
    encode_utf8(l).len() as usize
}

/// The byte length of the longest of the lines, 0 when there are none.
pub open spec fn widest(ls: Seq<Seq<char>>) -> usize
    decreases ls.len(),
{
    if ls.len() == 0 {
        0
    } else {
        let m = widest(ls.drop_last());
        if byte_width(ls.last()) > m {
            byte_width(ls.last())
        } else {
            m
        }
    }
}

/// A scroll position as a 16-bit number, 0 when it does not fit.
pub open spec fn fit_u16(p: usize) -> u16 {
    if p <= 65535 {
        p as u16
    } else {
        0
    }
}

/// `a - b`, stopping at 0.
pub open spec fn sat_sub(a: usize, b: usize) -> usize {
    if a >= b {
        (a - b) as usize
    } else {
        0
    }
}

pub open spec fn min_usize(a: usize, b: usize) -> usize {
    if a <= b {
        a
    } else {
        b
    }
}

/// The size of the error box and the scroll it is drawn with.
pub struct ErrorLayout {
    pub width: u16,
    pub height: u16,
    /// Lines and columns scrolled.
    pub scroll: (u16, u16),
}

/// What the box makes of a terminal event.
pub open spec fn error_event_reply(event: TerminalEvent) -> Option<Message> {
    match event {
        TerminalEvent::Key(k) => Some(
            match input_of_key(k) {
                Input::Up => Message::ErrorModal(ErrorModalMessage::ScrollUp),
                Input::Down => Message::ErrorModal(ErrorModalMessage::ScrollDown),
                Input::Left => Message::ErrorModal(ErrorModalMessage::ScrollLeft),
                Input::Right => Message::ErrorModal(ErrorModalMessage::ScrollRight),
                Input::Quit => Message::Quit,
                _ => Message::CloseModal,
            },
        ),
        TerminalEvent::Other => None,
    }
}

impl ErrorModal {
    pub fn new(content: &str) -> (r: Self)
        ensures
            r.content@ == content@,
            r.scrollbar_vertical_state == (ScrollbarState { content_length: 0, position: 0 }),
            r.scrollbar_horizontal_state == (ScrollbarState { content_length: 0, position: 0 }),
    {
        ErrorModal {
            content: content.to_string(),
            scrollbar_vertical_state: ScrollbarState::empty(),
            scrollbar_horizontal_state: ScrollbarState::empty(),
        }
    }

    pub fn scroll_up(&mut self)
        ensures
            final(self).scrollbar_vertical_state.position == dec(
                old(self).scrollbar_vertical_state.position,
            ),
            final(self).scrollbar_vertical_state.content_length
                == old(self).scrollbar_vertical_state.content_length,
            final(self).scrollbar_horizontal_state == old(self).scrollbar_horizontal_state,
            final(self).content == old(self).content,
    {
        self.scrollbar_vertical_state.prev();
    }

    pub fn scroll_down(&mut self)
        ensures
            final(self).scrollbar_vertical_state.position == next_position(
                old(self).scrollbar_vertical_state.position,
                old(self).scrollbar_vertical_state.content_length,
            ),
            final(self).scrollbar_vertical_state.content_length
                == old(self).scrollbar_vertical_state.content_length,
            final(self).scrollbar_horizontal_state == old(self).scrollbar_horizontal_state,
            final(self).content == old(self).content,
    {
        self.scrollbar_vertical_state.next();
    }

    /// Ten columns to the left.
    pub fn scroll_left(&mut self)
        ensures
            final(self).scrollbar_horizontal_state.position == moved_back(
                old(self).scrollbar_horizontal_state.position,
                X_SCROLL_STEP as nat,
            ),
            final(self).scrollbar_horizontal_state.content_length
                == old(self).scrollbar_horizontal_state.content_length,
            final(self).scrollbar_vertical_state == old(self).scrollbar_vertical_state,
            final(self).content == old(self).content,
    {
        let mut i: usize = 0;
        while i < X_SCROLL_STEP
            invariant
                i <= X_SCROLL_STEP,
                self.scrollbar_horizontal_state.position == moved_back(
                    old(self).scrollbar_horizontal_state.position,
                    i as nat,
                ),
                self.scrollbar_horizontal_state.content_length
                    == old(self).scrollbar_horizontal_state.content_length,
                self.scrollbar_vertical_state == old(self).scrollbar_vertical_state,
                self.content == old(self).content,
            decreases X_SCROLL_STEP - i,
        {
            self.scrollbar_horizontal_state.prev();
            i += 1;
        }
    }

    /// Ten columns to the right.
    pub fn scroll_right(&mut self)
        ensures
            final(self).scrollbar_horizontal_state.position == moved_on(
                old(self).scrollbar_horizontal_state.position,
                old(self).scrollbar_horizontal_state.content_length,
                X_SCROLL_STEP as nat,
            ),
            final(self).scrollbar_horizontal_state.content_length
                == old(self).scrollbar_horizontal_state.content_length,
            final(self).scrollbar_vertical_state == old(self).scrollbar_vertical_state,
            final(self).content == old(self).content,
    {
        let mut i: usize = 0;
        while i < X_SCROLL_STEP
            invariant
                i <= X_SCROLL_STEP,
                self.scrollbar_horizontal_state.position == moved_on(
                    old(self).scrollbar_horizontal_state.position,
                    old(self).scrollbar_horizontal_state.content_length,
                    i as nat,
                ),
                self.scrollbar_horizontal_state.content_length
                    == old(self).scrollbar_horizontal_state.content_length,
                self.scrollbar_vertical_state == old(self).scrollbar_vertical_state,
                self.content == old(self).content,
            decreases X_SCROLL_STEP - i,
        {
            self.scrollbar_horizontal_state.next();
            i += 1;
        }
    }

    /// The box drawn in an area of the given size: at most a third of its
    /// width and a quarter of its height, plus the border; the scrollbars
    /// span what does not fit.
    pub fn layout(&mut self, area_width: u16, area_height: u16) -> (r: ErrorLayout)
        requires
            widest(text_lines(old(self).content@)) < usize::MAX,
            line_count(old(self).content@) < usize::MAX,
        ensures
            ({
                let max_width = (area_width / 3) as usize;
                let max_height = (area_height / 4) as usize;
                let message_width = widest(text_lines(old(self).content@));
                let message_height = line_count(old(self).content@) as usize;
                &&& r.width == min_usize(message_width, max_width) + 2
                &&& r.height == min_usize(message_height, max_height) + 2
                &&& final(self).scrollbar_horizontal_state.content_length == sat_sub(
                    message_width,
                    max_width,
                ) + 1
                &&& final(self).scrollbar_vertical_state.content_length == sat_sub(
                    message_height,
                    max_height,
                ) + 1
            }),
            final(self).scrollbar_horizontal_state.position
                == old(self).scrollbar_horizontal_state.position,
            final(self).scrollbar_vertical_state.position
                == old(self).scrollbar_vertical_state.position,
            final(self).content == old(self).content,
            r.scroll == (
                fit_u16(old(self).scrollbar_vertical_state.position),
                fit_u16(old(self).scrollbar_horizontal_state.position),
            ),
    {
        let max_width: usize = (area_width / 3) as usize;
        let max_height: usize = (area_height / 4) as usize;
        let ls = lines(self.content.as_str());
        let ghost tl = text_lines(self.content@);
        let mut message_width: usize = 0;
        let mut i: usize = 0;
        while i < ls.len()
            invariant
                i <= ls.len(),
                shows_texts(ls@, tl),
                message_width == widest(tl.take(i as int)),
            decreases ls.len() - i,
        {
            let w = ls[i].as_str().len();
            assert(tl.take(i + 1).drop_last() == tl.take(i as int));
            assert(ls@[i as int]@ == tl[i as int]);
            if w > message_width {
                message_width = w;
            }
            i += 1;
        }
        assert(tl.take(ls.len() as int) == tl);
        let message_height = ls.len();
        let shown_width = if message_width < max_width {
            message_width
        } else {
            max_width
        };
        let shown_height = if message_height < max_height {
            message_height
        } else {
            max_height
        };
        self.scrollbar_horizontal_state = self.scrollbar_horizontal_state.with_content_length(
            message_width.saturating_sub(max_width) + 1,
        );
        self.scrollbar_vertical_state = self.scrollbar_vertical_state.with_content_length(
            message_height.saturating_sub(max_height) + 1,
        );
        let v = self.scrollbar_vertical_state.get_position();
        let h = self.scrollbar_horizontal_state.get_position();
        let y: u16 = if v <= 65535 {
            v as u16
        } else {
            0
        };
        let x: u16 = if h <= 65535 {
            h as u16
        } else {
            0
        };
        ErrorLayout {
            width: shown_width as u16 + 2,
            height: shown_height as u16 + 2,
            scroll: (y, x),
        }
    }

    /// The box: the error under the title `Error`, in the error's colour,
    /// scrolled as the layout says.
    pub fn text_box(&self, scroll: (u16, u16)) -> (r: BorderedText)
        ensures
            r.text == self.content,
            r.title matches Some(t) && t@ == "Error"@,
            r.is_focused,
            !r.centered,
            r.focus_tone == Tone::Error,
            r.scroll == scroll,
    {
        let mut title = String::new();
        push_str(&mut title, "Error");
        BorderedText::new(self.content.clone()).title(Some(title)).scroll(scroll).focused(
            true,
        ).focus_style(Tone::Error)
    }

    /// Arrows scroll, `q` quits, and any other key closes the box.
    pub fn handle_event(&self, event: &TerminalEvent) -> (r: Option<Message>)
        ensures
            r == error_event_reply(*event),
    {
        match map_event_to_input(event) {
            Some(Input::Up) => Some(Message::ErrorModal(ErrorModalMessage::ScrollUp)),
            Some(Input::Down) => Some(Message::ErrorModal(ErrorModalMessage::ScrollDown)),
            Some(Input::Left) => Some(Message::ErrorModal(ErrorModalMessage::ScrollLeft)),
            Some(Input::Right) => Some(Message::ErrorModal(ErrorModalMessage::ScrollRight)),
            Some(Input::Quit) => Some(Message::Quit),
            Some(_) => Some(Message::CloseModal),
            None => None,
        }
    }

    /// The box after `message`: its own messages scroll it.
    pub open spec fn after(self, message: Message) -> Self {
        let v = self.scrollbar_vertical_state;
        let h = self.scrollbar_horizontal_state;
        match message {
            Message::ErrorModal(ErrorModalMessage::ScrollUp) => ErrorModal {
                scrollbar_vertical_state: ScrollbarState { position: dec(v.position), ..v },
                ..self
            },
            Message::ErrorModal(ErrorModalMessage::ScrollDown) => ErrorModal {
                scrollbar_vertical_state: ScrollbarState {
                    position: next_position(v.position, v.content_length),
                    ..v
                },
                ..self
            },
            Message::ErrorModal(ErrorModalMessage::ScrollLeft) => ErrorModal {
                scrollbar_horizontal_state: ScrollbarState {
                    position: moved_back(h.position, X_SCROLL_STEP as nat),
                    ..h
                },
                ..self
            },
            Message::ErrorModal(ErrorModalMessage::ScrollRight) => ErrorModal {
                scrollbar_horizontal_state: ScrollbarState {
                    position: moved_on(h.position, h.content_length, X_SCROLL_STEP as nat),
                    ..h
                },
                ..self
            },
            _ => self,
        }
    }

    /// Scrolls on the box's own messages; nothing comes of any message.
    pub fn update(&mut self, message: &Message) -> (r: Option<Message>)
        ensures
            r is None,
            *final(self) == old(self).after(*message),
    {
        match message {
            Message::ErrorModal(m) => match m {
                ErrorModalMessage::ScrollUp => self.scroll_up(),
                ErrorModalMessage::ScrollDown => self.scroll_down(),
                ErrorModalMessage::ScrollLeft => self.scroll_left(),
                ErrorModalMessage::ScrollRight => self.scroll_right(),
            },
            _ => {},
        }
        None
    }
}

// ---------------------------------------------------------------------------
// The keyboard shortcuts.

/// How many shortcuts the box lists.
pub const SHORTCUT_COUNT: usize = 16;

/// How far a page scrolls.
pub const PAGE_SCROLL_STEP: usize = 10;

/// The keys and what they do.
pub open spec fn shortcut_table() -> Seq<(Seq<char>, Seq<char>)> {
    seq![
        ("<up>/<k>"@, "Move Up"@),
        ("<down>/<j>"@, "Move Down"@),
        ("<left>/<h>"@, "Move Left"@),
        ("<right>/<l>"@, "Move Right"@),
        ("<pgup>"@, "Page Up"@),
        ("<pgdown>"@, "Page Down"@),
        ("<home>"@, "Go To First Item"@),
        ("<end>"@, "Go To Last Item"@),
        ("<0-9>"@, "Select Section (Details Screen)"@),
        ("<enter>"@, "Select/Confirm"@),
        ("<esc>/<backspace>"@, "Back/Close Modal"@),
        ("<y>"@, "Copy Selected Value"@),
        ("<tab>/<]>"@, "Next Tab"@),
        ("<s-tab>/<[>"@, "Previous Tab"@),
        ("<?>"@, "Help"@),
        ("<q>"@, "Quit"@),
    ]
}

/// The `i`-th shortcut.
fn shortcut_at(i: usize) -> (r: (&'static str, &'static str))
    requires
        i < SHORTCUT_COUNT,
    ensures
        (r.0@, r.1@) == shortcut_table()[i as int],
{
    match i {
        0 => ("<up>/<k>", "Move Up"),
        1 => ("<down>/<j>", "Move Down"),
        2 => ("<left>/<h>", "Move Left"),
        3 => ("<right>/<l>", "Move Right"),
        4 => ("<pgup>", "Page Up"),
        5 => ("<pgdown>", "Page Down"),
        6 => ("<home>", "Go To First Item"),
        7 => ("<end>", "Go To Last Item"),
        8 => ("<0-9>", "Select Section (Details Screen)"),
        9 => ("<enter>", "Select/Confirm"),
        10 => ("<esc>/<backspace>", "Back/Close Modal"),
        11 => ("<y>", "Copy Selected Value"),
        12 => ("<tab>/<]>", "Next Tab"),
        13 => ("<s-tab>/<[>", "Previous Tab"),
        14 => ("<?>", "Help"),
        _ => ("<q>", "Quit"),
    }
}

/// The byte length of the longest key.
pub open spec fn key_width() -> usize {
    widest(shortcut_table().map_values(|p: (Seq<char>, Seq<char>)| p.0))
}

/// `s` followed by spaces up to `w` characters.
pub open spec fn pad_right(s: Seq<char>, w: nat) -> Seq<char> {
    if s.len() < w {
        s + Seq::new((w - s.len()) as nat, |i: int| ' ')
    } else {
        s
    }
}

/// One line per shortcut: the key, padded to the longest key, then what it
/// does.
pub open spec fn shortcut_lines() -> Seq<Seq<char>> {
    shortcut_table().map_values(
        |p: (Seq<char>, Seq<char>)| pad_right(p.0, key_width() as nat) + " "@ + p.1,
    )
}

/// The lines joined with `\n` between them.
pub open spec fn join_lines(ls: Seq<Seq<char>>) -> Seq<char>
    decreases ls.len(),
{
    if ls.len() == 0 {
        Seq::empty()
    } else if ls.len() == 1 {
        ls[0]
    } else {
        join_lines(ls.drop_last()) + seq!['\n'] + ls.last()
    }
}

/// The shortcut box, as its scroll and scrollbar, after `message`.
pub open spec fn shortcuts_after(v: (usize, ScrollbarState), message: Message) -> (
    usize,
    ScrollbarState,
) {
    let (scroll, bar) = v;
    match message {
        Message::ShortcutsModal(ShortcutsModalMessage::ScrollUp) => if scroll > 0 {
            ((scroll - 1) as usize, ScrollbarState { position: dec(bar.position), ..bar })
        } else {
            v
        },
        Message::ShortcutsModal(ShortcutsModalMessage::ScrollDown) => if scroll + 1 < SHORTCUT_COUNT {
            (
                (scroll + 1) as usize,
                ScrollbarState { position: next_position(bar.position, bar.content_length), ..bar },
            )
        } else {
            v
        },
        Message::ShortcutsModal(ShortcutsModalMessage::Home) => (
            0,
            ScrollbarState { position: 0, ..bar },
        ),
        Message::ShortcutsModal(ShortcutsModalMessage::End) => (
            (SHORTCUT_COUNT - 1) as usize,
            ScrollbarState { position: (SHORTCUT_COUNT - 1) as usize, ..bar },
        ),
        Message::ShortcutsModal(ShortcutsModalMessage::PageUp) => (
            sat_sub(scroll, PAGE_SCROLL_STEP),
            ScrollbarState { position: sat_sub(scroll, PAGE_SCROLL_STEP), ..bar },
        ),
        Message::ShortcutsModal(ShortcutsModalMessage::PageDown) => {
            let down = min_usize((scroll + PAGE_SCROLL_STEP) as usize, (SHORTCUT_COUNT - 1) as usize);
            (down, ScrollbarState { position: down, ..bar })
        },
        _ => v,
    }
}

/// The box listing the keyboard shortcuts, scrolled to a shortcut.
#[derive(Debug, PartialEq)]
pub struct ShortcutsModal {
    scroll: usize,
    scrollbar_state: ScrollbarState,
}

impl View for ShortcutsModal {
    type V = (usize, ScrollbarState);

    closed spec fn view(&self) -> (usize, ScrollbarState) {
        (self.scroll, self.scrollbar_state)
    }
}

/// What the box makes of a terminal event.
pub open spec fn shortcuts_event_reply(event: TerminalEvent) -> Option<Message> {
    match event {
        TerminalEvent::Key(k) => match input_of_key(k) {
            Input::Up => Some(Message::ShortcutsModal(ShortcutsModalMessage::ScrollUp)),
            Input::Down => Some(Message::ShortcutsModal(ShortcutsModalMessage::ScrollDown)),
            Input::Home => Some(Message::ShortcutsModal(ShortcutsModalMessage::Home)),
            Input::End => Some(Message::ShortcutsModal(ShortcutsModalMessage::End)),
            Input::PageUp => Some(Message::ShortcutsModal(ShortcutsModalMessage::PageUp)),
            Input::PageDown => Some(
                Message::ShortcutsModal(ShortcutsModalMessage::PageDown),
            ),
            Input::Back => Some(Message::CloseModal),
            Input::Quit => Some(Message::CloseModal),
            _ => None,
        },
        TerminalEvent::Other => None,
    }
}

impl ShortcutsModal {
    /// The scroll always names one of the shortcuts.
    #[verifier::type_invariant]
    closed spec fn scroll_in_range(self) -> bool {
        self.scroll < SHORTCUT_COUNT
    }

    pub fn new() -> (r: Self)
        ensures
            r@.0 == 0,
            r@.1 == (ScrollbarState { content_length: SHORTCUT_COUNT, position: 0 }),
    {
        ShortcutsModal { scroll: 0, scrollbar_state: ScrollbarState::new(SHORTCUT_COUNT) }
    }

    /// The shortcut scrolled to, always one of the list.
    pub fn scroll(&self) -> (r: usize)
        ensures
            r == self@.0,
            r < SHORTCUT_COUNT,
    {
        proof {
            use_type_invariant(self);
        }
        self.scroll
    }

    pub fn scrollbar_state(&self) -> (r: ScrollbarState)
        ensures
            r == self@.1,
    {
        self.scrollbar_state
    }

    pub fn scroll_up(&mut self)
        ensures
            final(self)@.0 == dec(old(self)@.0),
            final(self)@.1 == (if old(self)@.0 > 0 {
                ScrollbarState { position: dec(old(self)@.1.position), ..old(self)@.1 }
            } else {
                old(self)@.1
            }),
    {
        proof {
            use_type_invariant(&*self);
        }
        if self.scroll > 0 {
            self.scroll -= 1;
            let mut state = self.scrollbar_state;
            state.prev();
            self.scrollbar_state = state;
        }
    }

    pub fn scroll_down(&mut self)
        ensures
            final(self)@.0 == (if old(self)@.0 + 1 < SHORTCUT_COUNT {
                (old(self)@.0 + 1) as usize
            } else {
                old(self)@.0
            }),
            final(self)@.1 == (if old(self)@.0 + 1 < SHORTCUT_COUNT {
                ScrollbarState {
                    position: next_position(old(self)@.1.position, old(self)@.1.content_length),
                    ..old(self)@.1
                }
            } else {
                old(self)@.1
            }),
    {
        proof {
            use_type_invariant(&*self);
        }
        if self.scroll + 1 < SHORTCUT_COUNT {
            self.scroll += 1;
            let mut state = self.scrollbar_state;
            state.next();
            self.scrollbar_state = state;
        }
    }

    pub fn home(&mut self)
        ensures
            final(self)@.0 == 0,
            final(self)@.1 == (ScrollbarState { position: 0, ..old(self)@.1 }),
    {
        self.scroll = 0;
        self.scrollbar_state = self.scrollbar_state.with_position(0);
    }

    pub fn end(&mut self)
        ensures
            final(self)@.0 == SHORTCUT_COUNT - 1,
            final(self)@.1 == (ScrollbarState {
                position: (SHORTCUT_COUNT - 1) as usize,
                ..old(self)@.1
            }),
    {
        self.scroll = SHORTCUT_COUNT - 1;
        self.scrollbar_state = self.scrollbar_state.with_position(self.scroll);
    }

    pub fn page_up(&mut self)
        ensures
            final(self)@.0 == sat_sub(old(self)@.0, PAGE_SCROLL_STEP),
            final(self)@.1 == (ScrollbarState { position: final(self)@.0, ..old(self)@.1 }),
    {
        proof {
            use_type_invariant(&*self);
        }
        if self.scroll >= PAGE_SCROLL_STEP {
            self.scroll -= PAGE_SCROLL_STEP;
        } else {
            self.scroll = 0;
        }
        self.scrollbar_state = self.scrollbar_state.with_position(self.scroll);
    }

    pub fn page_down(&mut self)
        ensures
            final(self)@.0 == min_usize(
                (old(self)@.0 + PAGE_SCROLL_STEP) as usize,
                (SHORTCUT_COUNT - 1) as usize,
            ),
            final(self)@.1 == (ScrollbarState { position: final(self)@.0, ..old(self)@.1 }),
    {
        proof {
            use_type_invariant(&*self);
        }
        let max = SHORTCUT_COUNT - 1;
        let down = self.scroll + PAGE_SCROLL_STEP;
        self.scroll = if down < max {
            down
        } else {
            max
        };
        self.scrollbar_state = self.scrollbar_state.with_position(self.scroll);
    }

    /// The size of the box in an area of the given size: half its width, at
    /// most 80 columns, and a quarter of its height, at most all the
    /// shortcuts, plus the border.
    pub fn size(area_width: u16, area_height: u16) -> (r: (u16, u16))
        ensures
            r.0 == min_usize((area_width / 2) as usize, 80) + 2,
            r.1 == min_usize(SHORTCUT_COUNT, (area_height / 4) as usize) + 2,
    {
        let w: usize = (area_width / 2) as usize;
        let h: usize = (area_height / 4) as usize;
        let width = if w < 80 {
            w
        } else {
            80
        };
        let height = if SHORTCUT_COUNT < h {
            SHORTCUT_COUNT
        } else {
            h
        };
        (width as u16 + 2, height as u16 + 2)
    }

    /// The lines scrolled when `visible_lines` lines of the list show: the
    /// scroll, but never so far that the end of the list leaves the box. The
    /// scrollbar is set to match.
    pub fn fit_scroll(&mut self, visible_lines: usize) -> (r: usize)
        ensures
            r == min_usize(old(self)@.0, sat_sub(SHORTCUT_COUNT, visible_lines)),
            final(self)@.0 == old(self)@.0,
            final(self)@.1 == (ScrollbarState {
                content_length: sat_sub(SHORTCUT_COUNT, visible_lines),
                position: r,
            }),
    {
        proof {
            use_type_invariant(&*self);
        }
        let max_scroll = SHORTCUT_COUNT.saturating_sub(visible_lines);
        let scroll = if self.scroll < max_scroll {
            self.scroll
        } else {
            max_scroll
        };
        self.scrollbar_state = self.scrollbar_state.with_content_length(max_scroll).with_position(
            scroll,
        );
        scroll
    }

    /// The lines of the list.
    pub fn lines() -> (r: Vec<String>)
        ensures
            shows_texts(r@, shortcut_lines()),
    {
        let ghost keys = shortcut_table().map_values(|p: (Seq<char>, Seq<char>)| p.0);
        let mut key_len: usize = 0;
        let mut i: usize = 0;
        while i < SHORTCUT_COUNT
            invariant
                i <= SHORTCUT_COUNT,
                keys == shortcut_table().map_values(|p: (Seq<char>, Seq<char>)| p.0),
                key_len == widest(keys.take(i as int)),
            decreases SHORTCUT_COUNT - i,
        {
            let (key, _) = shortcut_at(i);
            assert(keys.take(i + 1).drop_last() == keys.take(i as int));
            let w = key.len();
            if w > key_len {
                key_len = w;
            }
            i += 1;
        }
        assert(keys.take(SHORTCUT_COUNT as int) == keys);
        let mut r: Vec<String> = Vec::new();
        let mut i: usize = 0;
        while i < SHORTCUT_COUNT
            invariant
                i <= SHORTCUT_COUNT,
                key_len == key_width(),
                shows_texts(r@, shortcut_lines().take(i as int)),
            decreases SHORTCUT_COUNT - i,
        {
            let (key, desc) = shortcut_at(i);
            let mut line = String::new();
            push_str(&mut line, key);
            let chars = crate::text::chars_of(key).len();
            let mut pad = chars;
            while pad < key_len
                invariant
                    chars == key@.len(),
                    chars <= pad,
                    pad <= key_len || chars >= key_len,
                    chars >= key_len ==> pad == chars,
                    line@ == key@ + Seq::new((pad - chars) as nat, |j: int| ' '),
                decreases key_len - pad,
            {
                line.push(' ');
                pad += 1;
                assert(line@ == key@ + Seq::new((pad - chars) as nat, |j: int| ' '));
            }
            proof {
                if chars >= key_len {
                    assert(Seq::new((pad - chars) as nat, |j: int| ' ') =~= Seq::<char>::empty());
                    assert(line@ == key@);
                }
            }
            assert(line@ == pad_right(key@, key_width() as nat));
            line.push(' ');
            push_str(&mut line, desc);
            proof {
                reveal_strlit(" ");
            }
            r.push(line);
            assert forall|j: int| #![trigger r@[j]] 0 <= j < r@.len() implies r@[j]@
                == shortcut_lines().take(i + 1)[j] by {
            }
            i += 1;
        }
        assert(shortcut_lines().take(SHORTCUT_COUNT as int) == shortcut_lines());
        r
    }

    /// The list, one shortcut per line.
    pub fn text() -> (r: String)
        ensures
            r@ == join_lines(shortcut_lines()),
    {
        let ls = Self::lines();
        let mut r = String::new();
        let mut i: usize = 0;
        while i < ls.len()
            invariant
                i <= ls.len(),
                shows_texts(ls@, shortcut_lines()),
                r@ == join_lines(shortcut_lines().take(i as int)),
            decreases ls.len() - i,
        {
            let ghost prefix = shortcut_lines().take(i + 1);
            assert(prefix.drop_last() == shortcut_lines().take(i as int));
            if i > 0 {
                r.push('\n');
            }
            push_str(&mut r, ls[i].as_str());
            proof {
                if i == 0 {
                    assert(prefix.len() == 1);
                    assert(r@ == prefix[0]);
                }
            }
            i += 1;
        }
        assert(shortcut_lines().take(ls.len() as int) == shortcut_lines());
        r
    }

    /// The box: the list under the title `Shortcuts`, scrolled by `scroll`
    /// lines.
    pub fn text_box(scroll: usize) -> (r: BorderedText)
        ensures
            r.text@ == join_lines(shortcut_lines()),
            r.title matches Some(t) && t@ == "Shortcuts"@,
            !r.is_focused,
            !r.centered,
            r.focus_tone == Tone::HighlightFg,
            r.scroll == (scroll as u16, 0u16),
    {
        let mut title = String::new();
        push_str(&mut title, "Shortcuts");
        #[verifier::truncate]
        let lines_scrolled: u16 = scroll as u16;
        BorderedText::new(Self::text()).title(Some(title)).scroll((lines_scrolled, 0))
    }

    /// Arrows scroll by a line, Home and End go to either end, Page Up and
    /// Page Down scroll by a page; Back and `q` close the box.
    pub fn handle_event(&self, event: &TerminalEvent) -> (r: Option<Message>)
        ensures
            r == shortcuts_event_reply(*event),
    {
        match map_event_to_input(event) {
            Some(Input::Up) => Some(Message::ShortcutsModal(ShortcutsModalMessage::ScrollUp)),
            Some(Input::Down) => Some(Message::ShortcutsModal(ShortcutsModalMessage::ScrollDown)),
            Some(Input::Home) => Some(Message::ShortcutsModal(ShortcutsModalMessage::Home)),
            Some(Input::End) => Some(Message::ShortcutsModal(ShortcutsModalMessage::End)),
            Some(Input::PageUp) => Some(Message::ShortcutsModal(ShortcutsModalMessage::PageUp)),
            Some(Input::PageDown) => Some(Message::ShortcutsModal(ShortcutsModalMessage::PageDown)),
            Some(Input::Back) => Some(Message::CloseModal),
            Some(Input::Quit) => Some(Message::CloseModal),
            _ => None,
        }
    }

    /// Scrolls on the box's own messages; nothing comes of any message.
    pub fn update(&mut self, message: &Message) -> (r: Option<Message>)
        ensures
            r is None,
            final(self)@ == shortcuts_after(old(self)@, *message),
    {
        match message {
            Message::ShortcutsModal(m) => match m {
                ShortcutsModalMessage::ScrollUp => self.scroll_up(),
                ShortcutsModalMessage::ScrollDown => self.scroll_down(),
                ShortcutsModalMessage::Home => self.home(),
                ShortcutsModalMessage::End => self.end(),
                ShortcutsModalMessage::PageUp => self.page_up(),
                ShortcutsModalMessage::PageDown => self.page_down(),
            },
            _ => {},
        }
        None
    }
}

// ---------------------------------------------------------------------------
// The question before quitting.

/// The box that asks before quitting.
#[derive(Debug, PartialEq)]
pub struct ConfirmQuitModal;

/// What the box makes of a terminal event.
pub open spec fn confirm_event_reply(event: TerminalEvent) -> Option<Message> {
    match event {
        TerminalEvent::Key(Key::Char(c)) => if c == 'y' {
            Some(Message::ConfirmQuitModal(ConfirmQuitModalMessage::Confirm))
        } else if c == 'n' {
            Some(Message::ConfirmQuitModal(ConfirmQuitModalMessage::Cancel))
        } else {
            None
        },
        _ => None,
    }
}

impl ConfirmQuitModal {
    pub fn new() -> (r: Self) {
        ConfirmQuitModal
    }

    /// The question.
    pub fn prompt() -> (r: &'static str)
        ensures
            r@ == "Are you sure you want to quit? (y/n)"@,
    {
        "Are you sure you want to quit? (y/n)"
    }

    /// The size of the box: the question and two columns of margin on
    /// either side, three lines high.
    pub fn size() -> (r: (u16, u16))
        ensures
            r.0 == encode_utf8("Are you sure you want to quit? (y/n)"@).len() + 4,
            r.1 == 3,
    {
        let p = Self::prompt();
        proof {
            reveal_strlit("Are you sure you want to quit? (y/n)");
            assert(vstd::utf8::is_ascii_chars(p@));
            vstd::utf8::is_ascii_chars_encode_utf8(p@);
        }
        ((p.len() + 4) as u16, 3)
    }

    /// The box: the question, centred, under the title `Confirm Quit`, in
    /// the warning colour.
    pub fn text_box() -> (r: BorderedText)
        ensures
            r.text@ == "Are you sure you want to quit? (y/n)"@,
            r.title matches Some(t) && t@ == "Confirm Quit"@,
            r.is_focused,
            r.centered,
            r.focus_tone == Tone::Warning,
            r.scroll == (0u16, 0u16),
    {
        let mut title = String::new();
        push_str(&mut title, "Confirm Quit");
        BorderedText::new(Self::prompt().to_string()).title(Some(title)).focused(true).centered().focus_style(
            Tone::Warning,
        )
    }

    /// `y` confirms, `n` cancels; nothing else means anything.
    pub fn handle_event(&self, event: &TerminalEvent) -> (r: Option<Message>)
        ensures
            r == confirm_event_reply(*event),
    {
        match map_event_to_yesno(event) {
            Some(Input::Confirm) => Some(Message::ConfirmQuitModal(ConfirmQuitModalMessage::Confirm)),
            Some(Input::Cancel) => Some(Message::ConfirmQuitModal(ConfirmQuitModalMessage::Cancel)),
            _ => None,
        }
    }

    /// Confirming quits; cancelling closes the box.
    pub fn update(&mut self, message: &Message) -> (r: Option<Message>)
        ensures
            r == (match *message {
                Message::ConfirmQuitModal(ConfirmQuitModalMessage::Confirm) => Some(Message::Quit),
                Message::ConfirmQuitModal(ConfirmQuitModalMessage::Cancel) => Some(
                    Message::CloseModal,
                ),
                _ => None,
            }),
    {
        match message {
            Message::ConfirmQuitModal(ConfirmQuitModalMessage::Confirm) => self.confirm(),
            Message::ConfirmQuitModal(ConfirmQuitModalMessage::Cancel) => self.cancel(),
            _ => None,
        }
    }

    /// The answer to a confirmation: quit.
    pub fn confirm(&self) -> (r: Option<Message>)
        ensures
            r == Some(Message::Quit),
    {
        Some(Message::Quit)
    }

    /// The answer to a cancellation: close the box.
    pub fn cancel(&self) -> (r: Option<Message>)
        ensures
            r == Some(Message::CloseModal),
    {
        Some(Message::CloseModal)
    }
}

} // verus!
