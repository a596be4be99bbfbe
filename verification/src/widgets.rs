//! The state of the terminal widgets: table selection, scroll positions,
//! tabs and bordered text. Drawing them is left to the front end.
use vstd::prelude::*;
use crate::text::{lines, text_lines};

verus! {

/// The styles the front end draws with.
#[derive(Debug, Clone, Copy, PartialEq, Eq, Structural)]
pub enum Tone {
    Reset,
    Highlight,
    HighlightFg,
    Info,
    Warning,
    Error,
}

/// The position of a scrollbar within content of a given length.
#[derive(Debug, Clone, Copy, PartialEq, Eq, Structural)]
pub struct ScrollbarState {
    pub content_length: usize,
    pub position: usize,
}

/// `a - 1`, stopping at 0.
pub open spec fn dec(a: usize) -> usize {
    if a == 0 {
        0
    } else {
        (a - 1) as usize
    }
}

/// The position `next` moves to: one further, but not past the last item.
pub open spec fn next_position(position: usize, content_length: usize) -> usize {
    let up = if position == usize::MAX {
        usize::MAX
    } else {
        (position + 1) as usize
    };
    if up < dec(content_length) {
        up
    } else {
        dec(content_length)
    }
}

impl ScrollbarState {
    pub fn new(content_length: usize) -> (r: Self)
        ensures
            r.content_length == content_length,
            r.position == 0,
    {
        ScrollbarState { content_length, position: 0 }
    }

    pub fn empty() -> (r: Self)
        ensures
            r.content_length == 0,
            r.position == 0,
    {
        ScrollbarState { content_length: 0, position: 0 }
    }

    pub fn with_content_length(self, content_length: usize) -> (r: Self)
        ensures
            r.content_length == content_length,
            r.position == self.position,
    {
        ScrollbarState { content_length, position: self.position }
    }

    pub fn with_position(self, position: usize) -> (r: Self)
        ensures
            r.content_length == self.content_length,
            r.position == position,
    {
        ScrollbarState { content_length: self.content_length, position }
    }

    pub fn get_position(&self) -> (r: usize)
        ensures
            r == self.position,
    {
        self.position
    }

    /// One back, stopping at the first item.
    pub fn prev(&mut self)
        ensures
            final(self).position == dec(old(self).position),
            final(self).content_length == old(self).content_length,
    {
        self.position = self.position.saturating_sub(1);
    }

    /// One further, stopping at the last item.
    pub fn next(&mut self)
        ensures
            final(self).position == next_position(old(self).position, old(self).content_length),
            final(self).content_length == old(self).content_length,
    {
        let up = self.position.saturating_add(1);
        let last = self.content_length.saturating_sub(1);
        self.position = if up < last {
            up
        } else {
            last
        };
    }

    pub fn first(&mut self)
        ensures
            final(self).position == 0,
            final(self).content_length == old(self).content_length,
    {
        self.position = 0;
    }

    pub fn last(&mut self)
        ensures
            final(self).position == dec(old(self).content_length),
            final(self).content_length == old(self).content_length,
    {
        self.position = self.content_length.saturating_sub(1);
    }
}

/// Which row of a table is selected.
#[derive(Debug, Clone, Copy, PartialEq, Eq, Structural)]
pub struct TableState {
    pub selected: Option<usize>,
}

impl TableState {
    pub fn new() -> (r: Self)
        ensures
            r.selected is None,
    {
        TableState { selected: None }
    }

    pub fn with_selected(self, selected: Option<usize>) -> (r: Self)
        ensures
            r.selected == selected,
    {
        TableState { selected }
    }

    pub fn selected(&self) -> (r: Option<usize>)
        ensures
            r == self.selected,
    {
        self.selected
    }

    pub fn select(&mut self, index: Option<usize>)
        ensures
            final(self).selected == index,
    {
        self.selected = index;
    }

    /// The next row, or the first when none is selected.
    pub fn select_next(&mut self)
        ensures
            final(self).selected == Some(
                match old(self).selected {
                    Some(i) => if i == usize::MAX {
                        usize::MAX
                    } else {
                        (i + 1) as usize
                    },
                    None => 0,
                },
            ),
    {
        let next = match self.selected {
            Some(i) => i.saturating_add(1),
            None => 0,
        };
        self.selected = Some(next);
    }

    /// The previous row, or the last one when none is selected.
    pub fn select_previous(&mut self)
        ensures
            final(self).selected == Some(
                match old(self).selected {
                    Some(i) => dec(i),
                    None => usize::MAX,
                },
            ),
    {
        let previous = match self.selected {
            Some(i) => i.saturating_sub(1),
            None => usize::MAX,
        };
        self.selected = Some(previous);
    }

    pub fn select_first(&mut self)
        ensures
            final(self).selected == Some(0usize),
    {
        self.selected = Some(0);
    }

    /// The last row: the highest index, brought back within the table when it
    /// is drawn.
    pub fn select_last(&mut self)
        ensures
            final(self).selected == Some(usize::MAX),
    {
        self.selected = Some(usize::MAX);
    }

    /// What drawing a table of `rows` rows does to the selection: an index
    /// past the end becomes the last row, and nothing stays selected in an
    /// empty table.
    pub fn fit_rows(&mut self, rows: usize)
        ensures
            final(self).selected == (if rows == 0 {
                None
            } else {
                match old(self).selected {
                    Some(i) => Some(if i >= rows {
                        (rows - 1) as usize
                    } else {
                        i
                    }),
                    None => None,
                }
            }),
    {
        if let Some(i) = self.selected {
            if i >= rows {
                self.selected = Some(rows.saturating_sub(1));
            }
        }
        if rows == 0 {
            self.selected = None;
        }
    }
}

/// The state of a key-value table: its selected row, its scrollbar, and
/// whether its selection is highlighted.
#[derive(Debug, Clone, Copy, PartialEq, Eq, Structural)]
pub struct KeyValueTableState {
    pub table_state: TableState,
    pub scrollbar_state: ScrollbarState,
    pub is_highlighted: bool,
}

/// A key-value table after `select_previous`.
pub open spec fn kv_previous(s: KeyValueTableState) -> KeyValueTableState {
    KeyValueTableState {
        table_state: TableState {
            selected: Some(
                match s.table_state.selected {
                    Some(i) => dec(i),
                    None => usize::MAX,
                },
            ),
        },
        scrollbar_state: ScrollbarState { position: dec(s.scrollbar_state.position), ..s.scrollbar_state },
        ..s
    }
}

/// A key-value table after `select_next`.
pub open spec fn kv_next(s: KeyValueTableState) -> KeyValueTableState {
    KeyValueTableState {
        table_state: TableState {
            selected: Some(
                match s.table_state.selected {
                    Some(i) => if i == usize::MAX {
                        usize::MAX
                    } else {
                        (i + 1) as usize
                    },
                    None => 0,
                },
            ),
        },
        scrollbar_state: ScrollbarState {
            position: next_position(s.scrollbar_state.position, s.scrollbar_state.content_length),
            ..s.scrollbar_state
        },
        ..s
    }
}

/// A key-value table after `set_highlighted(highlighted)`.
pub open spec fn kv_highlighted(s: KeyValueTableState, highlighted: bool) -> KeyValueTableState {
    KeyValueTableState {
        is_highlighted: highlighted,
        table_state: TableState {
            selected: if highlighted && s.table_state.selected is None {
                Some(0usize)
            } else {
                s.table_state.selected
            },
        },
        ..s
    }
}

/// A text area after `prev`.
pub open spec fn text_prev(s: TextAreaState) -> TextAreaState {
    TextAreaState {
        scrollbar_state: ScrollbarState { position: dec(s.scrollbar_state.position), ..s.scrollbar_state },
    }
}

/// A text area after `next`.
pub open spec fn text_next(s: TextAreaState) -> TextAreaState {
    TextAreaState {
        scrollbar_state: ScrollbarState {
            position: next_position(s.scrollbar_state.position, s.scrollbar_state.content_length),
            ..s.scrollbar_state
        },
    }
}

impl KeyValueTableState {
    pub fn new() -> (r: Self)
        ensures
            r.table_state.selected is None,
            r.scrollbar_state.content_length == 0,
            r.scrollbar_state.position == 0,
            !r.is_highlighted,
    {
        KeyValueTableState {
            table_state: TableState::new(),
            scrollbar_state: ScrollbarState::empty(),
            is_highlighted: false,
        }
    }

    pub fn content_length(self, content_length: usize) -> (r: Self)
        ensures
            r.scrollbar_state.content_length == content_length,
            r.scrollbar_state.position == self.scrollbar_state.position,
            r.table_state == self.table_state,
            r.is_highlighted == self.is_highlighted,
    {
        KeyValueTableState {
            table_state: self.table_state,
            scrollbar_state: self.scrollbar_state.with_content_length(content_length),
            is_highlighted: self.is_highlighted,
        }
    }

    pub fn selected(&self) -> (r: Option<usize>)
        ensures
            r == self.table_state.selected,
    {
        self.table_state.selected()
    }

    pub fn select_next(&mut self)
        ensures
            final(self).table_state.selected == Some(
                match old(self).table_state.selected {
                    Some(i) => if i == usize::MAX {
                        usize::MAX
                    } else {
                        (i + 1) as usize
                    },
                    None => 0,
                },
            ),
            final(self).scrollbar_state.position == next_position(
                old(self).scrollbar_state.position,
                old(self).scrollbar_state.content_length,
            ),
            final(self).scrollbar_state.content_length == old(self).scrollbar_state.content_length,
            final(self).is_highlighted == old(self).is_highlighted,
            *final(self) == kv_next(*old(self)),
    {
        self.table_state.select_next();
        self.scrollbar_state.next();
    }

    pub fn select_previous(&mut self)
        ensures
            final(self).table_state.selected == Some(
                match old(self).table_state.selected {
                    Some(i) => dec(i),
                    None => usize::MAX,
                },
            ),
            final(self).scrollbar_state.position == dec(old(self).scrollbar_state.position),
            final(self).scrollbar_state.content_length == old(self).scrollbar_state.content_length,
            final(self).is_highlighted == old(self).is_highlighted,
            *final(self) == kv_previous(*old(self)),
    {
        self.table_state.select_previous();
        self.scrollbar_state.prev();
    }

    pub fn select_first(&mut self)
        ensures
            final(self).table_state.selected == Some(0usize),
            final(self).scrollbar_state.position == 0,
            final(self).scrollbar_state.content_length == old(self).scrollbar_state.content_length,
            final(self).is_highlighted == old(self).is_highlighted,
    {
        self.table_state.select_first();
        self.scrollbar_state.first();
    }

    pub fn select_last(&mut self)
        ensures
            final(self).table_state.selected == Some(usize::MAX),
            final(self).scrollbar_state.position == dec(old(self).scrollbar_state.content_length),
            final(self).scrollbar_state.content_length == old(self).scrollbar_state.content_length,
            final(self).is_highlighted == old(self).is_highlighted,
    {
        self.table_state.select_last();
        self.scrollbar_state.last();
    }

    /// Turns the highlight on or off; turning it on selects the first row
    /// when none is selected.
    pub fn set_highlighted(&mut self, highlighted: bool)
        ensures
            final(self).is_highlighted == highlighted,
            final(self).scrollbar_state == old(self).scrollbar_state,
            final(self).table_state.selected == (if highlighted
                && old(self).table_state.selected is None {
                Some(0usize)
            } else {
                old(self).table_state.selected
            }),
            *final(self) == kv_highlighted(*old(self), highlighted),
    {
        self.is_highlighted = highlighted;
        if self.is_highlighted && self.table_state.selected().is_none() {
            self.table_state.select(Some(0));
        }
    }
}

/// The scroll state of a text area.
#[derive(Debug, Clone, Copy, PartialEq, Eq, Structural)]
pub struct TextAreaState {
    pub scrollbar_state: ScrollbarState,
}

impl TextAreaState {
    pub fn new(content_length: usize) -> (r: Self)
        ensures
            r.scrollbar_state.content_length == content_length,
            r.scrollbar_state.position == 0,
    {
        TextAreaState { scrollbar_state: ScrollbarState::new(content_length) }
    }

    pub fn content_length(self, content_length: usize) -> (r: Self)
        ensures
            r.scrollbar_state.content_length == content_length,
            r.scrollbar_state.position == self.scrollbar_state.position,
    {
        TextAreaState { scrollbar_state: self.scrollbar_state.with_content_length(content_length) }
    }

    pub fn get_position(&self) -> (r: usize)
        ensures
            r == self.scrollbar_state.position,
    {
        self.scrollbar_state.get_position()
    }

    pub fn position(self, position: usize) -> (r: Self)
        ensures
            r.scrollbar_state.position == position,
            r.scrollbar_state.content_length == self.scrollbar_state.content_length,
    {
        TextAreaState { scrollbar_state: self.scrollbar_state.with_position(position) }
    }

    pub fn next(&mut self)
        ensures
            final(self).scrollbar_state.position == next_position(
                old(self).scrollbar_state.position,
                old(self).scrollbar_state.content_length,
            ),
            final(self).scrollbar_state.content_length == old(self).scrollbar_state.content_length,
            *final(self) == text_next(*old(self)),
    {
        self.scrollbar_state.next();
    }

    pub fn prev(&mut self)
        ensures
            final(self).scrollbar_state.position == dec(old(self).scrollbar_state.position),
            final(self).scrollbar_state.content_length == old(self).scrollbar_state.content_length,
            *final(self) == text_prev(*old(self)),
    {
        self.scrollbar_state.prev();
    }

    pub fn first(&mut self)
        ensures
            final(self).scrollbar_state.position == 0,
            final(self).scrollbar_state.content_length == old(self).scrollbar_state.content_length,
    {
        self.scrollbar_state.first();
    }

    pub fn last(&mut self)
        ensures
            final(self).scrollbar_state.position == dec(old(self).scrollbar_state.content_length),
            final(self).scrollbar_state.content_length == old(self).scrollbar_state.content_length,
    {
        self.scrollbar_state.last();
    }

    /// What drawing `content` in an area `area_height` lines high does: the
    /// scrollbar spans the lines that do not fit, with room to spare, and
    /// the text is scrolled to the position (0 when it does not fit in 16
    /// bits), which is returned.
    pub fn fit_to(&mut self, content: &str, area_height: u16) -> (r: u16)
        requires
            line_count(content@) + 3 <= usize::MAX,
        ensures
            final(self).scrollbar_state.content_length == (if line_count(content@) + 1
                >= area_height {
                line_count(content@) + 1 - area_height
            } else {
                0
            }) + 2,
            final(self).scrollbar_state.position == old(self).scrollbar_state.position,
            r == (if old(self).scrollbar_state.position <= 65535 {
                old(self).scrollbar_state.position as u16
            } else {
                0u16
            }),
    {
        let message_height = count_lines(content) + 1;
        self.scrollbar_state = self.scrollbar_state.with_content_length(
            message_height.saturating_sub(area_height as usize) + 2,
        );
        let p = self.get_position();
        if p <= 65535 {
            p as u16
        } else {
            0
        }
    }
}

/// A row of tab titles separated by a spacer, one of them selected.
pub struct Tabs {
    pub titles: Vec<String>,
    pub spacer: String,
    pub selected: Option<usize>,
}

/// The pieces a tab row is drawn from, with whether each is highlighted:
/// the titles in order, the spacer between two titles when it is not empty,
/// and the selected title highlighted.
pub open spec fn tab_pieces(titles: Seq<Seq<char>>, spacer: Seq<char>, selected: Option<usize>) -> Seq<(Seq<char>, bool)>
    decreases titles.len(),
{
    if titles.len() == 0 {
        Seq::empty()
    } else {
        let rest = tab_pieces(titles.drop_last(), spacer, selected);
        let i = titles.len() - 1;
        let title = (titles.last(), selected == Some(i as usize));
        if rest.len() > 0 && spacer.len() > 0 {
            rest.push((spacer, false)).push(title)
        } else {
            rest.push(title)
        }
    }
}

impl Tabs {
    pub fn new() -> (r: Self)
        ensures
            r.titles@.len() == 0,
            r.spacer@ == Seq::<char>::empty(),
            r.selected is None,
    {
        Tabs { titles: Vec::new(), spacer: String::new(), selected: None }
    }

    pub fn titles(self, titles: Vec<String>) -> (r: Self)
        ensures
            r.titles@ == titles@,
            r.spacer == self.spacer,
            r.selected == self.selected,
    {
        Tabs { titles, spacer: self.spacer, selected: self.selected }
    }

    pub fn with_spacer(self, spacer: String) -> (r: Self)
        ensures
            r.titles@ == self.titles@,
            r.spacer == spacer,
            r.selected == self.selected,
    {
        Tabs { titles: self.titles, spacer, selected: self.selected }
    }

    pub fn select(self, selected: Option<usize>) -> (r: Self)
        ensures
            r.titles@ == self.titles@,
            r.spacer == self.spacer,
            r.selected == selected,
    {
        Tabs { titles: self.titles, spacer: self.spacer, selected }
    }

    /// The pieces the tab row is drawn from.
    pub fn pieces(&self) -> (r: Vec<(String, bool)>)
        ensures
            r@.map_values(|p: (String, bool)| (p.0@, p.1)) == tab_pieces(
                self.titles@.map_values(|t: String| t@),
                self.spacer@,
                self.selected,
            ),
    {
        let ghost ts = self.titles@.map_values(|t: String| t@);
        let mut r: Vec<(String, bool)> = Vec::new();
        let mut i: usize = 0;
        let spacer_empty = self.spacer.as_str().is_empty();
        while i < self.titles.len()
            invariant
                i <= self.titles.len(),
                ts == self.titles@.map_values(|t: String| t@),
                spacer_empty == (self.spacer@.len() == 0),
                r@.map_values(|p: (String, bool)| (p.0@, p.1)) == tab_pieces(
                    ts.subrange(0, i as int),
                    self.spacer@,
                    self.selected,
                ),
            decreases self.titles.len() - i,
        {
            let ghost before = r@.map_values(|p: (String, bool)| (p.0@, p.1));
            let ghost pre = ts.subrange(0, i as int);
            let ghost next = ts.subrange(0, i + 1);
            assert(next.drop_last() == pre);
            assert(next.last() == self.titles@[i as int]@);
            if r.len() > 0 && !spacer_empty {
                r.push((self.spacer.clone(), false));
            }
            let highlighted = match self.selected {
                Some(s) => s == i,
                None => false,
            };
            r.push((self.titles[i].clone(), highlighted));
            assert(r@.map_values(|p: (String, bool)| (p.0@, p.1)) =~= tab_pieces(
                next,
                self.spacer@,
                self.selected,
            ));
            i += 1;
        }
        assert(ts.subrange(0, self.titles.len() as int) == ts);
        r
    }
}

/// The number of lines `str::lines` yields.
pub open spec fn line_count(s: Seq<char>) -> nat {
    text_lines(s).len()
}

/// The number of lines of `s`.
pub fn count_lines(s: &str) -> (r: usize)
    ensures
        r == line_count(s@),
{
    lines(s).len()
}

/// Text in a bordered box, with a title, alignment, focus and scroll.
pub struct BorderedText {
    pub title: Option<String>,
    pub text: String,
    pub centered: bool,
    pub is_focused: bool,
    pub focus_tone: Tone,
    /// Lines and columns scrolled.
    pub scroll: (u16, u16),
}

impl BorderedText {
    pub fn new(text: String) -> (r: Self)
        ensures
            r.title is None,
            r.text == text,
            !r.centered,
            !r.is_focused,
            r.focus_tone == Tone::HighlightFg,
            r.scroll == (0u16, 0u16),
    {
        BorderedText {
            title: None,
            text,
            centered: false,
            is_focused: false,
            focus_tone: Tone::HighlightFg,
            scroll: (0, 0),
        }
    }

    pub fn title(self, title: Option<String>) -> (r: Self)
        ensures
            r.title == title,
            r.text == self.text,
            r.centered == self.centered,
            r.is_focused == self.is_focused,
            r.focus_tone == self.focus_tone,
            r.scroll == self.scroll,
    {
        BorderedText { title, ..self }
    }

    pub fn focused(self, is_focused: bool) -> (r: Self)
        ensures
            r.title == self.title,
            r.text == self.text,
            r.centered == self.centered,
            r.is_focused == is_focused,
            r.focus_tone == self.focus_tone,
            r.scroll == self.scroll,
    {
        BorderedText { is_focused, ..self }
    }

    pub fn focus_style(self, tone: Tone) -> (r: Self)
        ensures
            r.title == self.title,
            r.text == self.text,
            r.centered == self.centered,
            r.is_focused == self.is_focused,
            r.focus_tone == tone,
            r.scroll == self.scroll,
    {
        BorderedText { focus_tone: tone, ..self }
    }

    pub fn scroll(self, scroll: (u16, u16)) -> (r: Self)
        ensures
            r.title == self.title,
            r.text == self.text,
            r.centered == self.centered,
            r.is_focused == self.is_focused,
            r.focus_tone == self.focus_tone,
            r.scroll == scroll,
    {
        BorderedText { scroll, ..self }
    }

    pub fn centered(self) -> (r: Self)
        ensures
            r.title == self.title,
            r.text == self.text,
            r.centered,
            r.is_focused == self.is_focused,
            r.focus_tone == self.focus_tone,
            r.scroll == self.scroll,
    {
        BorderedText { centered: true, ..self }
    }

    /// The scroll the text is drawn with inside a box `inner_height` lines
    /// high: the lines scrolled are kept so that the last line stays in view.
    pub fn effective_scroll(&self, inner_height: u16) -> (r: (u16, u16))
        ensures
            ({
                let lines = line_count(self.text@) as u16;
                let max_y = if lines > inner_height {
                    (lines - inner_height) as u16
                } else {
                    0u16
                };
                r == (if self.scroll.0 < max_y {
                    self.scroll.0
                } else {
                    max_y
                }, self.scroll.1)
            }),
    {
        let lines = count_lines(self.text.as_str()) as u16;
        let max_y = lines.saturating_sub(inner_height);
        let y = if self.scroll.0 < max_y {
            self.scroll.0
        } else {
            max_y
        };
        (y, self.scroll.1)
    }
}

} // verus!
