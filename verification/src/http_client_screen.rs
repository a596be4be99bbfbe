//! The details of one request and its response: method, URL, query
//! parameters, headers and bodies, in two tabs, with one section selected.
use vstd::prelude::*;
use crate::app::Message;
use crate::headers::{ascii_chars, flatten, visible_ascii, HeaderGroup, HttpHeaders};
use crate::input::{input_of_key, map_event_to_input, Input, TerminalEvent};
use crate::message::{method_name, query_params, shows_pairs, url_text, RequestEntry, RequestEntryView};
use crate::text::{chars_of, decimal, lossy_text, push_decimal, push_str, utf8_lossy};
use crate::widgets::{
    count_lines, kv_highlighted, kv_next, kv_previous, line_count, text_next, text_prev,
    BorderedText, KeyValueTableState, ScrollbarState, TableState, Tabs, TextAreaState, Tone,
};

verus! {

/// What the details screen does next.
#[derive(Debug, Clone, Copy, PartialEq, Eq, Structural)]
pub enum HttpClientScreenMessage {
    PreviousRow,
    NextRow,
    SelectSection(usize),
    PreviousTab,
    NextTab,
    CopySelectedToClipboard,
}

/// The two tabs: the request and the response.
#[derive(Debug, Clone, Copy, PartialEq, Eq, Structural)]
pub enum Tab {
    Request,
    Response,
}

/// The parts of the screen that can be selected.
#[derive(Debug, Clone, Copy, PartialEq, Eq, Structural)]
pub enum Section {
    Method,
    Url,
    QueryParams,
    Headers,
    Body,
}

/// The sections of the request tab.
#[derive(Debug, Clone, Copy, PartialEq, Eq, Structural)]
pub enum RequestSection {
    QueryParams,
    Headers,
    Body,
}

/// The sections of the response tab.
#[derive(Debug, Clone, Copy, PartialEq, Eq, Structural)]
pub enum ResponseSection {
    Headers,
    Body,
}

/// The request section numbered `i` on screen (3, 4, 5); any other number
/// is the query parameters.
pub open spec fn request_section_of(i: usize) -> RequestSection {
    if i == 4 {
        RequestSection::Headers
    } else if i == 5 {
        RequestSection::Body
    } else {
        RequestSection::QueryParams
    }
}

/// The response section numbered `i` on screen (3, 4); any other number is
/// the headers.
pub open spec fn response_section_of(i: usize) -> ResponseSection {
    if i == 4 {
        ResponseSection::Body
    } else {
        ResponseSection::Headers
    }
}

pub open spec fn section_of_request(s: RequestSection) -> Section {
    match s {
        RequestSection::QueryParams => Section::QueryParams,
        RequestSection::Headers => Section::Headers,
        RequestSection::Body => Section::Body,
    }
}

pub open spec fn section_of_response(s: ResponseSection) -> Section {
    match s {
        ResponseSection::Headers => Section::Headers,
        ResponseSection::Body => Section::Body,
    }
}

impl Tab {
    /// The tab's name.
    pub fn name(&self) -> (r: &'static str)
        ensures
            r@ == (match *self {
                Tab::Request => "Request"@,
                Tab::Response => "Response"@,
            }),
    {
        match self {
            Tab::Request => "Request",
            Tab::Response => "Response",
        }
    }
}

impl RequestSection {
    pub fn from_index(i: usize) -> (r: Self)
        ensures
            r == request_section_of(i),
    {
        if i == 4 {
            RequestSection::Headers
        } else if i == 5 {
            RequestSection::Body
        } else {
            RequestSection::QueryParams
        }
    }

    pub fn section(self) -> (r: Section)
        ensures
            r == section_of_request(self),
    {
        match self {
            RequestSection::QueryParams => Section::QueryParams,
            RequestSection::Headers => Section::Headers,
            RequestSection::Body => Section::Body,
        }
    }
}

impl ResponseSection {
    pub fn from_index(i: usize) -> (r: Self)
        ensures
            r == response_section_of(i),
    {
        if i == 4 {
            ResponseSection::Body
        } else {
            ResponseSection::Headers
        }
    }

    pub fn section(self) -> (r: Section)
        ensures
            r == section_of_response(self),
    {
        match self {
            ResponseSection::Headers => Section::Headers,
            ResponseSection::Body => Section::Body,
        }
    }
}

/// The line drawn between a section's number and its name.
pub open spec fn horizontal_line() -> Seq<char> {
    "\u{2500}"@
}

/// `[i]─label`: the title of the section numbered `i`.
pub open spec fn section_title_text(i: usize, label: Seq<char>) -> Seq<char> {
    "["@ + decimal(i as nat) + "]"@ + horizontal_line() + label
}

/// The title of the section numbered `index`.
pub fn section_title(index: usize, label: &str) -> (r: String)
    ensures
        r@ == section_title_text(index, label@),
{
    let mut r = String::new();
    push_str(&mut r, "[");
    push_decimal(&mut r, index as u64);
    push_str(&mut r, "]");
    push_str(&mut r, "\u{2500}");
    push_str(&mut r, label);
    r
}

/// The title of a body section: its number, and the body's size.
pub fn body_title(index: usize, body_len: usize) -> (r: String)
    ensures
        r@ == section_title_text(index, "Body"@) + " ("@ + decimal(body_len as nat) + " bytes)"@,
{
    let mut r = section_title(index, "Body");
    push_str(&mut r, " (");
    push_decimal(&mut r, body_len as u64);
    push_str(&mut r, " bytes)");
    r
}

/// The widths of the two columns of a key-value table.
#[derive(Debug, Clone, Copy, PartialEq, Eq, Structural)]
pub struct TableColumnWidths {
    pub key: u16,
    pub value: u16,
}

/// The width of a text in characters, cut to 16 bits.
pub open spec fn char_width(s: Seq<char>) -> u16 {
    (s.len() as usize) as u16
}

pub open spec fn max_u16(a: u16, b: u16) -> u16 {
    if a >= b {
        a
    } else {
        b
    }
}

/// The widths that fit the pairs, starting from nothing.
pub open spec fn widths_of(pairs: Seq<(Seq<char>, Seq<char>)>) -> TableColumnWidths
    decreases pairs.len(),
{
    if pairs.len() == 0 {
        TableColumnWidths { key: 0, value: 0 }
    } else {
        let w = widths_of(pairs.drop_last());
        TableColumnWidths {
            key: max_u16(w.key, char_width(pairs.last().0)),
            value: max_u16(w.value, char_width(pairs.last().1)),
        }
    }
}

fn char_count(s: &str) -> (r: u16)
    ensures
        r == char_width(s@),
{
    let n = chars_of(s).len();
    #[verifier::truncate]
    let w: u16 = n as u16;
    w
}

impl TableColumnWidths {
    pub fn new() -> (r: Self)
        ensures
            r == widths_of(Seq::empty()),
    {
        TableColumnWidths { key: 0, value: 0 }
    }

    /// Each column grows to fit the text in it.
    pub fn update(&mut self, key: &str, value: &str)
        ensures
            final(self).key == max_u16(old(self).key, char_width(key@)),
            final(self).value == max_u16(old(self).value, char_width(value@)),
    {
        let k = char_count(key);
        if k > self.key {
            self.key = k;
        }
        let v = char_count(value);
        if v > self.value {
            self.value = v;
        }
    }

    /// The widths that fit every pair.
    pub fn from_pairs(pairs: &Vec<(String, String)>) -> (r: Self)
        ensures
            forall|p: Seq<(Seq<char>, Seq<char>)>| #[trigger]
                shows_pairs(pairs@, p) ==> r == widths_of(p),
    {
        let ghost views = pairs@.map_values(|q: (String, String)| (q.0@, q.1@));
        let mut widths = TableColumnWidths::new();
        let mut i: usize = 0;
        while i < pairs.len()
            invariant
                i <= pairs.len(),
                views == pairs@.map_values(|q: (String, String)| (q.0@, q.1@)),
                widths == widths_of(views.take(i as int)),
            decreases pairs.len() - i,
        {
            assert(views.take(i + 1).drop_last() == views.take(i as int));
            widths.update(pairs[i].0.as_str(), pairs[i].1.as_str());
            i += 1;
        }
        assert(views.take(pairs.len() as int) == views);
        assert forall|p: Seq<(Seq<char>, Seq<char>)>| #[trigger]
            shows_pairs(pairs@, p) implies widths == widths_of(p) by {
            assert(views == p);
        }
        widths
    }
}

/// The rows of a header table: each name and value as text, a value that is
/// not visible ASCII shown empty.
pub open spec fn header_rows(g: Seq<HeaderGroup>) -> Seq<(Seq<char>, Seq<char>)> {
    flatten(g).map_values(
        |p: (Seq<u8>, Seq<u8>)|
            (
                ascii_chars(p.0),
                if visible_ascii(p.1) {
                    ascii_chars(p.1)
                } else {
                    Seq::empty()
                },
            ),
    )
}

/// The rows of a header table.
pub fn header_rows_of(headers: &HttpHeaders) -> (r: Vec<(String, String)>)
    ensures
        shows_pairs(r@, header_rows(headers.groups())),
{
    let pairs = headers.pairs();
    let ghost rows = header_rows(headers.groups());
    let mut r: Vec<(String, String)> = Vec::new();
    let mut i: usize = 0;
    while i < pairs.len()
        invariant
            i <= pairs.len(),
            rows == header_rows(headers.groups()),
            pairs.len() == flatten(headers.groups()).len(),
            forall|j: int|
                0 <= j < pairs.len() ==> {
                    let p = #[trigger] flatten(headers.groups())[j];
                    &&& pairs[j].0@ == ascii_chars(p.0)
                    &&& match pairs[j].1 {
                        Some(v) => visible_ascii(p.1) && v@ == ascii_chars(p.1),
                        None => !visible_ascii(p.1),
                    }
                },
            shows_pairs(r@, rows.take(i as int)),
        decreases pairs.len() - i,
    {
        let name = pairs[i].0.clone();
        let value = match &pairs[i].1 {
            Some(v) => v.clone(),
            None => String::new(),
        };
        let ghost p = flatten(headers.groups())[i as int];
        r.push((name, value));
        assert forall|j: int| #![trigger r@[j]] 0 <= j < r@.len() implies r@[j].0@ == rows.take(
            i + 1,
        )[j].0 && r@[j].1@ == rows.take(i + 1)[j].1 by {
            if j == i {
                assert(rows[j] == (
                    ascii_chars(p.0),
                    if visible_ascii(p.1) {
                        ascii_chars(p.1)
                    } else {
                        Seq::empty()
                    },
                ));
            }
        }
        i += 1;
    }
    assert(rows.take(pairs.len() as int) == rows);
    r
}

/// A key-value table with `n` rows, nothing selected.
pub open spec fn kv_with_rows(n: nat) -> KeyValueTableState {
    KeyValueTableState {
        table_state: TableState { selected: None },
        scrollbar_state: ScrollbarState { content_length: n as usize, position: 0 },
        is_highlighted: false,
    }
}

/// A text area over `n` lines, scrolled to the top.
pub open spec fn text_with_lines(n: nat) -> TextAreaState {
    TextAreaState { scrollbar_state: ScrollbarState { content_length: n as usize, position: 0 } }
}

/// The details of a request entry, with the selection and scroll state of
/// each part.
#[derive(Debug, PartialEq)]
pub struct HttpClientScreen {
    pub request_entry: RequestEntry,
    pub tab_selected: Tab,
    pub section_selected: Section,
    pub request_section_selected: RequestSection,
    pub response_section_selected: ResponseSection,
    pub query_params_table_state: KeyValueTableState,
    pub request_query_params_column_widths: TableColumnWidths,
    pub request_headers_column_widths: TableColumnWidths,
    pub request_headers_table_state: KeyValueTableState,
    pub request_body_state: TextAreaState,
    pub response_headers_column_widths: TableColumnWidths,
    pub response_headers_table_state: KeyValueTableState,
    pub response_body_state: TextAreaState,
}

/// The text a selected header row is copied as: `name: value`.
pub open spec fn header_line(row: (Seq<char>, Seq<char>)) -> Seq<char> {
    row.0 + ": "@ + row.1
}

/// The text a selected query parameter is copied as: `key=value`.
pub open spec fn param_line(row: (Seq<char>, Seq<char>)) -> Seq<char> {
    row.0 + "="@ + row.1
}

/// Row `i` of `rows` written with `line`, or nothing when there is no such
/// row.
pub open spec fn row_text(
    rows: Seq<(Seq<char>, Seq<char>)>,
    i: usize,
    line: spec_fn((Seq<char>, Seq<char>)) -> Seq<char>,
) -> Seq<char> {
    if i < rows.len() {
        line(rows[i as int])
    } else {
        Seq::empty()
    }
}

/// The row a table's selection points at, the first when none is selected.
pub open spec fn selected_or_first(s: KeyValueTableState) -> usize {
    match s.table_state.selected {
        Some(i) => i,
        None => 0,
    }
}

/// What the details screen makes of a terminal event.
pub open spec fn http_client_event_reply(event: TerminalEvent) -> Option<Message> {
    match event {
        TerminalEvent::Key(k) => match input_of_key(k) {
            Input::Up => Some(Message::HttpClientScreen(HttpClientScreenMessage::PreviousRow)),
            Input::Down => Some(Message::HttpClientScreen(HttpClientScreenMessage::NextRow)),
            Input::Section(s) => if 1 <= s <= 5 {
                Some(Message::HttpClientScreen(HttpClientScreenMessage::SelectSection(s)))
            } else {
                None
            },
            Input::PreviousTab => Some(
                Message::HttpClientScreen(HttpClientScreenMessage::PreviousTab),
            ),
            Input::NextTab => Some(Message::HttpClientScreen(HttpClientScreenMessage::NextTab)),
            Input::Copy => Some(
                Message::HttpClientScreen(HttpClientScreenMessage::CopySelectedToClipboard),
            ),
            Input::Back => Some(Message::ShowRequestsScreen),
            Input::Help => Some(Message::ShowShortcutsModal),
            Input::Quit => Some(Message::Quit),
            _ => None,
        },
        TerminalEvent::Other => None,
    }
}

impl HttpClientScreen {
    /// A fresh screen for entry `e`: the request tab, the method selected,
    /// every table and text scrolled to the top, sized to what it shows.
    pub open spec fn fresh(&self, e: RequestEntryView) -> bool {
        &&& self.request_entry@ == e
        &&& self.tab_selected == Tab::Request
        &&& self.section_selected == Section::Method
        &&& self.request_section_selected == RequestSection::QueryParams
        &&& self.response_section_selected == ResponseSection::Headers
        &&& self.request_query_params_column_widths == widths_of(query_params(e.request.url))
        &&& self.query_params_table_state == kv_with_rows(query_params(e.request.url).len())
        &&& self.request_headers_column_widths == widths_of(header_rows(e.request.headers))
        &&& self.request_headers_table_state == kv_with_rows(flatten(e.request.headers).len())
        &&& self.request_body_state == text_with_lines(line_count(lossy_text(e.request.body)))
        &&& match e.response {
            Some(resp) => {
                &&& self.response_headers_column_widths == widths_of(header_rows(resp.headers))
                &&& self.response_headers_table_state == kv_with_rows(flatten(resp.headers).len())
                &&& self.response_body_state == text_with_lines(line_count(lossy_text(resp.body)))
            },
            None => {
                &&& self.response_headers_column_widths == widths_of(Seq::empty())
                &&& self.response_headers_table_state == kv_with_rows(0)
                &&& self.response_body_state == text_with_lines(0)
            },
        }
    }

    /// The screen after `PreviousRow`: the selected section of the selected
    /// tab moves up a row.
    pub open spec fn after_previous_row(self) -> Self {
        match (self.tab_selected, self.section_selected) {
            (Tab::Request, Section::QueryParams) => HttpClientScreen {
                query_params_table_state: kv_previous(self.query_params_table_state),
                ..self
            },
            (Tab::Request, Section::Headers) => HttpClientScreen {
                request_headers_table_state: kv_previous(self.request_headers_table_state),
                ..self
            },
            (Tab::Request, Section::Body) => HttpClientScreen {
                request_body_state: text_prev(self.request_body_state),
                ..self
            },
            (Tab::Response, Section::Headers) => HttpClientScreen {
                response_headers_table_state: kv_previous(self.response_headers_table_state),
                ..self
            },
            (Tab::Response, Section::Body) => HttpClientScreen {
                response_body_state: text_prev(self.response_body_state),
                ..self
            },
            _ => self,
        }
    }

    /// The screen after `NextRow`: the selected section of the selected tab
    /// moves down a row.
    pub open spec fn after_next_row(self) -> Self {
        match (self.tab_selected, self.section_selected) {
            (Tab::Request, Section::QueryParams) => HttpClientScreen {
                query_params_table_state: kv_next(self.query_params_table_state),
                ..self
            },
            (Tab::Request, Section::Headers) => HttpClientScreen {
                request_headers_table_state: kv_next(self.request_headers_table_state),
                ..self
            },
            (Tab::Request, Section::Body) => HttpClientScreen {
                request_body_state: text_next(self.request_body_state),
                ..self
            },
            (Tab::Response, Section::Headers) => HttpClientScreen {
                response_headers_table_state: kv_next(self.response_headers_table_state),
                ..self
            },
            (Tab::Response, Section::Body) => HttpClientScreen {
                response_body_state: text_next(self.response_body_state),
                ..self
            },
            _ => self,
        }
    }

    /// Only the table of the selected section of the selected tab is
    /// highlighted.
    pub open spec fn highlighted(self) -> Self {
        HttpClientScreen {
            query_params_table_state: kv_highlighted(
                self.query_params_table_state,
                self.tab_selected == Tab::Request && self.section_selected == Section::QueryParams,
            ),
            request_headers_table_state: kv_highlighted(
                self.request_headers_table_state,
                self.tab_selected == Tab::Request && self.section_selected == Section::Headers,
            ),
            response_headers_table_state: kv_highlighted(
                self.response_headers_table_state,
                self.tab_selected == Tab::Response && self.section_selected == Section::Headers,
            ),
            ..self
        }
    }

    /// The screen after selecting section `i`: 1 and 2 are the method and
    /// URL; other numbers name a section of the selected tab, which it then
    /// remembers.
    pub open spec fn after_select_section(self, i: usize) -> Self {
        let tabbed = match self.tab_selected {
            Tab::Request => HttpClientScreen {
                request_section_selected: request_section_of(i),
                section_selected: section_of_request(request_section_of(i)),
                ..self
            },
            Tab::Response => HttpClientScreen {
                response_section_selected: response_section_of(i),
                section_selected: section_of_response(response_section_of(i)),
                ..self
            },
        };
        let chosen = HttpClientScreen {
            section_selected: if i == 1 {
                Section::Method
            } else if i == 2 {
                Section::Url
            } else {
                tabbed.section_selected
            },
            ..tabbed
        };
        chosen.highlighted()
    }

    /// The section shown after a change of tab: the method or URL stay
    /// selected; otherwise the section the tab remembers.
    pub open spec fn section_after_tab_change(self, tab: Tab) -> Section {
        match self.section_selected {
            Section::Method => Section::Method,
            Section::Url => Section::Url,
            _ => match tab {
                Tab::Request => section_of_request(self.request_section_selected),
                Tab::Response => section_of_response(self.response_section_selected),
            },
        }
    }

    /// The screen after a change to tab `tab`.
    pub open spec fn after_tab(self, tab: Tab) -> Self {
        HttpClientScreen {
            tab_selected: tab,
            section_selected: self.section_after_tab_change(tab),
            ..self
        }.highlighted()
    }

    /// The text `y` copies: the method, the URL, the selected query
    /// parameter or header, or a body, by what is selected.
    pub open spec fn copy_text(self) -> Seq<char> {
        let e = self.request_entry@;
        match (self.tab_selected, self.section_selected) {
            (_, Section::Method) => method_name(e.request.method),
            (_, Section::Url) => url_text(e.request.url),
            (Tab::Request, Section::QueryParams) => row_text(
                query_params(e.request.url),
                selected_or_first(self.query_params_table_state),
                |r: (Seq<char>, Seq<char>)| param_line(r),
            ),
            (Tab::Request, Section::Headers) => row_text(
                header_rows(e.request.headers),
                selected_or_first(self.request_headers_table_state),
                |r: (Seq<char>, Seq<char>)| header_line(r),
            ),
            (Tab::Request, Section::Body) => lossy_text(e.request.body),
            (Tab::Response, Section::Headers) => match e.response {
                Some(resp) => row_text(
                    header_rows(resp.headers),
                    selected_or_first(self.response_headers_table_state),
                    |r: (Seq<char>, Seq<char>)| header_line(r),
                ),
                None => Seq::empty(),
            },
            (Tab::Response, Section::Body) => match e.response {
                Some(resp) => lossy_text(resp.body),
                None => Seq::empty(),
            },
            _ => Seq::empty(),
        }
    }

    /// The box of the method: its name under `[1]─Method`, focused when
    /// selected.
    pub fn method_box(&self) -> (r: BorderedText)
        ensures
            r.text@ == method_name(self.request_entry@.request.method),
            r.title matches Some(t) && t@ == section_title_text(1, "Method"@),
            r.is_focused == (self.section_selected == Section::Method),
            !r.centered,
            r.focus_tone == Tone::HighlightFg,
            r.scroll == (0u16, 0u16),
    {
        BorderedText::new(self.request_entry.request.method.name()).title(
            Some(section_title(1, "Method")),
        ).focused(self.section_selected == Section::Method)
    }

    /// The box of the URL: the URL under `[2]─URL`, focused when selected.
    pub fn url_box(&self) -> (r: BorderedText)
        ensures
            r.text@ == url_text(self.request_entry@.request.url),
            r.title matches Some(t) && t@ == section_title_text(2, "URL"@),
            r.is_focused == (self.section_selected == Section::Url),
            !r.centered,
            r.focus_tone == Tone::HighlightFg,
            r.scroll == (0u16, 0u16),
    {
        BorderedText::new(self.request_entry.request.url.to_text()).title(
            Some(section_title(2, "URL")),
        ).focused(self.section_selected == Section::Url)
    }

    /// The tab row: ` Request ` and ` Response (status) `, the status empty
    /// while the response is pending, joined by a line, the shown tab
    /// selected.
    pub fn tabs(&self) -> (r: Tabs)
        ensures
            r.titles@.len() == 2,
            r.titles@[0]@ == " Request "@,
            r.titles@[1]@ == " Response ("@ + (match self.request_entry@.response {
                Some(resp) => decimal(resp.status as nat),
                None => Seq::empty(),
            }) + ") "@,
            r.spacer@ == horizontal_line(),
            r.selected == Some(
                match self.tab_selected {
                    Tab::Request => 0usize,
                    Tab::Response => 1usize,
                },
            ),
    {
        let mut request = String::new();
        push_str(&mut request, " Request ");
        let mut response = String::new();
        push_str(&mut response, " Response (");
        if let Some(resp) = &self.request_entry.response {
            push_decimal(&mut response, resp.status as u64);
        }
        push_str(&mut response, ") ");
        let mut titles: Vec<String> = Vec::new();
        titles.push(request);
        titles.push(response);
        let mut spacer = String::new();
        push_str(&mut spacer, "\u{2500}");
        let selected: usize = match self.tab_selected {
            Tab::Request => 0,
            Tab::Response => 1,
        };
        Tabs::new().titles(titles).with_spacer(spacer).select(Some(selected))
    }

    /// The help line under the details.
    pub fn status_text() -> (r: &'static str)
        ensures
            r@ == "1-5 to select a section. Arrow keys or h/j/k/l to navigate. y to copy selected value to clipboard. Backspace to go back. q to quit."@,
    {
        "1-5 to select a section. Arrow keys or h/j/k/l to navigate. y to copy selected value to clipboard. Backspace to go back. q to quit."
    }

    /// The screen for a request entry.
    pub fn new(request_entry: RequestEntry) -> (r: Self)
        ensures
            r.fresh(request_entry@),
    {
        let query_pairs = request_entry.request.url.query_pairs();
        let request_query_params_column_widths = TableColumnWidths::from_pairs(&query_pairs);
        let query_params_table_state = KeyValueTableState::new().content_length(query_pairs.len());
        let request_header_rows = header_rows_of(&request_entry.request.headers);
        let request_headers_column_widths = TableColumnWidths::from_pairs(&request_header_rows);
        let request_headers_table_state = KeyValueTableState::new().content_length(
            request_entry.request.headers.len(),
        );
        let request_body = utf8_lossy(request_entry.request.body.as_bytes());
        let request_body_state = TextAreaState::new(count_lines(request_body.as_str()));
        let (response_headers_column_widths, response_headers_table_state, response_body_state) =
            match &request_entry.response {
            Some(response) => {
                let rows = header_rows_of(&response.headers);
                let widths = TableColumnWidths::from_pairs(&rows);
                let state = KeyValueTableState::new().content_length(response.headers.len());
                let body = utf8_lossy(response.body.as_bytes());
                (widths, state, TextAreaState::new(count_lines(body.as_str())))
            },
            None => (TableColumnWidths::new(), KeyValueTableState::new(), TextAreaState::new(0)),
        };
        HttpClientScreen {
            request_entry,
            tab_selected: Tab::Request,
            section_selected: Section::Method,
            request_section_selected: RequestSection::QueryParams,
            response_section_selected: ResponseSection::Headers,
            query_params_table_state,
            request_query_params_column_widths,
            request_headers_column_widths,
            request_headers_table_state,
            request_body_state,
            response_headers_column_widths,
            response_headers_table_state,
            response_body_state,
        }
    }

    /// A new entry for the request on show replaces the screen with a fresh
    /// one; an entry for another request changes nothing.
    pub fn request_entry_updated(&mut self, request_entry: RequestEntry) -> (r: Option<Message>)
        ensures
            r is None,
            old(self).request_entry.request_id == request_entry.request_id ==> final(self).fresh(
                request_entry@,
            ),
            old(self).request_entry.request_id != request_entry.request_id ==> *final(self) == *old(
                self,
            ),
    {
        if self.request_entry.request_id != request_entry.request_id {
            return None;
        }
        *self = Self::new(request_entry);
        None
    }

    pub fn previous_row(&mut self) -> (r: Option<Message>)
        ensures
            r is None,
            *final(self) == old(self).after_previous_row(),
    {
        match self.tab_selected {
            Tab::Request => match self.section_selected {
                Section::QueryParams => self.query_params_table_state.select_previous(),
                Section::Headers => self.request_headers_table_state.select_previous(),
                Section::Body => self.request_body_state.prev(),
                _ => {},
            },
            Tab::Response => match self.section_selected {
                Section::Headers => self.response_headers_table_state.select_previous(),
                Section::Body => self.response_body_state.prev(),
                _ => {},
            },
        }
        None
    }

    pub fn next_row(&mut self) -> (r: Option<Message>)
        ensures
            r is None,
            *final(self) == old(self).after_next_row(),
    {
        match self.tab_selected {
            Tab::Request => match self.section_selected {
                Section::QueryParams => self.query_params_table_state.select_next(),
                Section::Headers => self.request_headers_table_state.select_next(),
                Section::Body => self.request_body_state.next(),
                _ => {},
            },
            Tab::Response => match self.section_selected {
                Section::Headers => self.response_headers_table_state.select_next(),
                Section::Body => self.response_body_state.next(),
                _ => {},
            },
        }
        None
    }

    /// Highlights the table of the selected section, and only it.
    pub fn highlight_selected(&mut self)
        ensures
            *final(self) == old(self).highlighted(),
    {
        self.query_params_table_state.set_highlighted(false);
        self.request_headers_table_state.set_highlighted(false);
        self.response_headers_table_state.set_highlighted(false);
        match self.tab_selected {
            Tab::Request => match self.section_selected {
                Section::QueryParams => self.query_params_table_state.set_highlighted(true),
                Section::Headers => self.request_headers_table_state.set_highlighted(true),
                _ => {},
            },
            Tab::Response => {
                if self.section_selected == Section::Headers {
                    self.response_headers_table_state.set_highlighted(true)
                }
            },
        }
    }

    pub fn select_section(&mut self, section_index: usize) -> (r: Option<Message>)
        ensures
            r is None,
            *final(self) == old(self).after_select_section(section_index),
    {
        match self.tab_selected {
            Tab::Request => {
                self.request_section_selected = RequestSection::from_index(section_index);
                self.section_selected = self.request_section_selected.section();
            },
            Tab::Response => {
                self.response_section_selected = ResponseSection::from_index(section_index);
                self.section_selected = self.response_section_selected.section();
            },
        }
        if section_index == 1 {
            self.section_selected = Section::Method;
        } else if section_index == 2 {
            self.section_selected = Section::Url;
        }
        self.highlight_selected();
        None
    }

    fn show_tab(&mut self, tab: Tab)
        ensures
            *final(self) == old(self).after_tab(tab),
    {
        self.section_selected = match self.section_selected {
            Section::Method => Section::Method,
            Section::Url => Section::Url,
            _ => match tab {
                Tab::Request => self.request_section_selected.section(),
                Tab::Response => self.response_section_selected.section(),
            },
        };
        self.tab_selected = tab;
        self.highlight_selected();
    }

    /// Back to the request tab.
    pub fn select_previous_tab(&mut self) -> (r: Option<Message>)
        ensures
            r is None,
            *final(self) == old(self).after_tab(Tab::Request),
    {
        self.show_tab(Tab::Request);
        None
    }

    /// On to the response tab.
    pub fn select_next_tab(&mut self) -> (r: Option<Message>)
        ensures
            r is None,
            *final(self) == old(self).after_tab(Tab::Response),
    {
        self.show_tab(Tab::Response);
        None
    }

    /// Asks for the selected text to be copied.
    pub fn copy_selected_to_clipboard(&self) -> (r: Option<Message>)
        ensures
            match r {
                Some(Message::CopyToClipboard(t)) => t@ == self.copy_text(),
                _ => false,
            },
    {
        let entry = &self.request_entry;
        let text = match (self.tab_selected, self.section_selected) {
            (_, Section::Method) => entry.request.method.name(),
            (_, Section::Url) => entry.request.url.to_text(),
            (Tab::Request, Section::QueryParams) => {
                let pairs = entry.request.url.query_pairs();
                Self::row_line(&pairs, self.query_params_table_state.selected(), "=")
            },
            (Tab::Request, Section::Headers) => {
                let rows = header_rows_of(&entry.request.headers);
                Self::row_line(&rows, self.request_headers_table_state.selected(), ": ")
            },
            (Tab::Request, Section::Body) => utf8_lossy(entry.request.body.as_bytes()),
            (Tab::Response, Section::Headers) => match &entry.response {
                Some(response) => {
                    let rows = header_rows_of(&response.headers);
                    Self::row_line(&rows, self.response_headers_table_state.selected(), ": ")
                },
                None => String::new(),
            },
            (Tab::Response, Section::Body) => match &entry.response {
                Some(response) => utf8_lossy(response.body.as_bytes()),
                None => String::new(),
            },
            _ => String::new(),
        };
        proof {
            let e = self.request_entry@;
            reveal_strlit("=");
            reveal_strlit(": ");
        }
        Some(Message::CopyToClipboard(text))
    }

    /// Row `selected` (the first when none is) written as its key,
    /// `separator` and its value; empty when there is no such row.
    fn row_line(rows: &Vec<(String, String)>, selected: Option<usize>, separator: &str) -> (r:
        String)
        ensures
            forall|p: Seq<(Seq<char>, Seq<char>)>| #[trigger]
                shows_pairs(rows@, p) ==> r@ == (if (match selected {
                    Some(i) => i,
                    None => 0,
                }) < p.len() {
                    p[(match selected {
                        Some(i) => i,
                        None => 0,
                    }) as int].0 + separator@ + p[(match selected {
                        Some(i) => i,
                        None => 0,
                    }) as int].1
                } else {
                    Seq::empty()
                }),
    {
        let i = match selected {
            Some(i) => i,
            None => 0,
        };
        if i < rows.len() {
            let mut r = rows[i].0.clone();
            push_str(&mut r, separator);
            push_str(&mut r, rows[i].1.as_str());
            r
        } else {
            String::new()
        }
    }

    /// The keys of the screen: arrows move, 1 to 5 select a section, tabs
    /// switch, `y` copies, Back returns to the list, `?` shows the
    /// shortcuts and `q` quits.
    pub fn handle_event(&self, event: &TerminalEvent) -> (r: Option<Message>)
        ensures
            r == http_client_event_reply(*event),
    {
        match map_event_to_input(event) {
            Some(Input::Up) => Some(Message::HttpClientScreen(HttpClientScreenMessage::PreviousRow)),
            Some(Input::Down) => Some(Message::HttpClientScreen(HttpClientScreenMessage::NextRow)),
            Some(Input::Section(s)) => {
                if 1 <= s && s <= 5 {
                    Some(Message::HttpClientScreen(HttpClientScreenMessage::SelectSection(s)))
                } else {
                    None
                }
            },
            Some(Input::PreviousTab) => Some(
                Message::HttpClientScreen(HttpClientScreenMessage::PreviousTab),
            ),
            Some(Input::NextTab) => Some(Message::HttpClientScreen(HttpClientScreenMessage::NextTab)),
            Some(Input::Copy) => Some(
                Message::HttpClientScreen(HttpClientScreenMessage::CopySelectedToClipboard),
            ),
            Some(Input::Back) => Some(Message::ShowRequestsScreen),
            Some(Input::Help) => Some(Message::ShowShortcutsModal),
            Some(Input::Quit) => Some(Message::Quit),
            _ => None,
        }
    }

    /// Acts on the screen's own messages and on updated entries; other
    /// messages leave it as it is.
    /// The screen moves from `self` to `new` on `message`, answering `r`.
    pub open spec fn steps(self, message: Message, new: Self, r: Option<Message>) -> bool {
        match message {
            Message::HttpClientScreen(HttpClientScreenMessage::PreviousRow) => r is None
                && new == self.after_previous_row(),
            Message::HttpClientScreen(HttpClientScreenMessage::NextRow) => r is None
                && new == self.after_next_row(),
            Message::HttpClientScreen(HttpClientScreenMessage::SelectSection(i)) => r is None
                && new == self.after_select_section(i),
            Message::HttpClientScreen(HttpClientScreenMessage::PreviousTab) => r is None
                && new == self.after_tab(Tab::Request),
            Message::HttpClientScreen(HttpClientScreenMessage::NextTab) => r is None
                && new == self.after_tab(Tab::Response),
            Message::HttpClientScreen(HttpClientScreenMessage::CopySelectedToClipboard) => (
            match r {
                Some(Message::CopyToClipboard(t)) => t@ == self.copy_text(),
                _ => false,
            }) && new == self,
            Message::RequestEntryUpdated(e) => r is None && (if self.request_entry.request_id
                == e.request_id {
                new.fresh(e@)
            } else {
                new == self
            }),
            _ => r is None && new == self,
    }
    }

    /// The section on show is the method, the URL, or the section the
    /// selected tab remembers.
    pub open spec fn selection_consistent(self) -> bool {
        ||| self.section_selected == Section::Method
        ||| self.section_selected == Section::Url
        ||| self.tab_selected == Tab::Request && self.section_selected == section_of_request(
            self.request_section_selected,
        )
        ||| self.tab_selected == Tab::Response && self.section_selected == section_of_response(
            self.response_section_selected,
        )
    }

    pub fn update(&mut self, message: Message) -> (r: Option<Message>)
        ensures
            old(self).steps(message, *final(self), r),
    {
        match message {
            Message::HttpClientScreen(m) => match m {
                HttpClientScreenMessage::PreviousRow => self.previous_row(),
                HttpClientScreenMessage::NextRow => self.next_row(),
                HttpClientScreenMessage::SelectSection(i) => self.select_section(i),
                HttpClientScreenMessage::PreviousTab => self.select_previous_tab(),
                HttpClientScreenMessage::NextTab => self.select_next_tab(),
                HttpClientScreenMessage::CopySelectedToClipboard => self.copy_selected_to_clipboard(),
            },
            Message::RequestEntryUpdated(e) => self.request_entry_updated(*e),
            _ => None,
        }
    }
}

/// A screen opened on an entry shows a section its tab has.
pub proof fn law_fresh_selection_is_consistent(s: HttpClientScreen, e: RequestEntryView)
    requires
        s.fresh(e),
    ensures
        s.selection_consistent(),
{
}

/// Whatever the details screen is told, the section on show stays the
/// method, the URL or the section the selected tab remembers; so the
/// response tab never shows query parameters.
pub proof fn law_selection_stays_consistent(
    s: HttpClientScreen,
    m: Message,
    t: HttpClientScreen,
    r: Option<Message>,
)
    requires
        s.selection_consistent(),
        s.steps(m, t, r),
    ensures
        t.selection_consistent(),
        t.tab_selected == Tab::Response ==> t.section_selected != Section::QueryParams,
{
}

} // verus!
