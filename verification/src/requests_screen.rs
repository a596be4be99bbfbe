//! The list of intercepted requests: one row per request, the widths of the
//! table's columns, and which row is selected.
use vstd::prelude::*;
use vstd::utf8::encode_utf8;
use crate::app::Message;
use crate::input::{input_of_key, map_event_to_input, Input, TerminalEvent};
use crate::message::{method_name, url_text, RequestEntry, RequestEntryView};
use crate::store::RequestStore;
use crate::text::{decimal, push_decimal, push_str};
use crate::widgets::{dec, next_position, ScrollbarState, TableState};

verus! {

/// What the requests screen does next.
#[derive(Debug, Clone, Copy, PartialEq, Eq, Structural)]
pub enum RequestsScreenMessage {
    UpdateTableState,
    SelectPreviousRow,
    SelectNextRow,
}

/// The text of one row of the requests table.
pub struct RequestEntryRow {
    pub request_id: String,
    pub method: String,
    pub url: String,
    pub body: String,
    pub status: String,
}

/// How many body bytes the response carried, 0 while it is pending.
pub open spec fn received_len(e: RequestEntryView) -> nat {
    match e.response {
        Some(r) => r.body.len(),
        None => 0,
    }
}

/// The body column: how many bytes went each way.
pub open spec fn body_summary(sent: nat, received: nat) -> Seq<char> {
    "Sent: "@ + decimal(sent) + " bytes | Received: "@ + decimal(received) + " bytes"@
}

/// The status column: the response status, or `Pending`.
pub open spec fn status_text(e: RequestEntryView) -> Seq<char> {
    match e.response {
        Some(r) => decimal(r.status as nat),
        None => "Pending"@,
    }
}

impl RequestEntryRow {
    /// The row shows the entry: its identifier, method, URL, body sizes and
    /// status.
    pub open spec fn shows(&self, e: RequestEntryView) -> bool {
        &&& self.request_id@ == decimal(e.request_id as nat)
        &&& self.method@ == method_name(e.request.method)
        &&& self.url@ == url_text(e.request.url)
        &&& self.body@ == body_summary(e.request.body.len(), received_len(e))
        &&& self.status@ == status_text(e)
    }

    /// The row of a request entry.
    pub fn from_entry(entry: &RequestEntry) -> (r: Self)
        ensures
            r.shows(entry@),
    {
        let request_id = entry.request_id.to_text();
        let method = entry.request.method.name();
        let url = entry.request.url.to_text();
        let sent = entry.request.body.as_bytes().len();
        let received: usize = match &entry.response {
            Some(response) => response.body.as_bytes().len(),
            None => 0,
        };
        let mut body = String::new();
        push_str(&mut body, "Sent: ");
        push_decimal(&mut body, sent as u64);
        push_str(&mut body, " bytes | Received: ");
        push_decimal(&mut body, received as u64);
        push_str(&mut body, " bytes");
        let status = match &entry.response {
            Some(response) => crate::text::decimal_string(response.status as u64),
            None => {
                let mut s = String::new();
                push_str(&mut s, "Pending");
                s
            },
        };
        RequestEntryRow { request_id, method, url, body, status }
    }

    /// The header row: the column titles.
    pub fn header() -> (r: Self)
        ensures
            r.request_id@ == "ReqId"@,
            r.method@ == "Method"@,
            r.url@ == "URL"@,
            r.body@ == "Body"@,
            r.status@ == "Status"@,
    {
        let mut request_id = String::new();
        push_str(&mut request_id, "ReqId");
        let mut method = String::new();
        push_str(&mut method, "Method");
        let mut url = String::new();
        push_str(&mut url, "URL");
        let mut body = String::new();
        push_str(&mut body, "Body");
        let mut status = String::new();
        push_str(&mut status, "Status");
        RequestEntryRow { request_id, method, url, body, status }
    }
}

/// The width a column needs for a text: its length in bytes, cut to 16 bits.
pub open spec fn column_width(s: Seq<char>) -> u16 {
    (encode_utf8(s).len() as usize) as u16
}

/// A column width widened to fit a text.
pub open spec fn widen(w: u16, s: Seq<char>) -> u16 {
    if w >= column_width(s) {
        w
    } else {
        column_width(s)
    }
}

fn text_width(s: &String) -> (r: u16)
    ensures
        r == column_width(s@),
{
    #[verifier::truncate]
    let w: u16 = s.as_str().len() as u16;
    w
}

/// The widths of the five columns of the requests table.
#[derive(Debug, Clone, Copy, PartialEq, Eq, Structural)]
pub struct RequestsTableColumnWidths {
    pub request_id: u16,
    pub method: u16,
    pub url: u16,
    pub body: u16,
    pub status: u16,
}

impl RequestsTableColumnWidths {
    /// Each column grows to fit the row's text in it.
    pub fn update(&mut self, row: RequestEntryRow)
        ensures
            final(self).request_id == widen(old(self).request_id, row.request_id@),
            final(self).method == widen(old(self).method, row.method@),
            final(self).url == widen(old(self).url, row.url@),
            final(self).body == widen(old(self).body, row.body@),
            final(self).status == widen(old(self).status, row.status@),
    {
        let w = text_width(&row.request_id);
        if w > self.request_id {
            self.request_id = w;
        }
        let w = text_width(&row.method);
        if w > self.method {
            self.method = w;
        }
        let w = text_width(&row.url);
        if w > self.url {
            self.url = w;
        }
        let w = text_width(&row.body);
        if w > self.body {
            self.body = w;
        }
        let w = text_width(&row.status);
        if w > self.status {
            self.status = w;
        }
    }

    /// The widths the column titles need.
    pub fn header_widths() -> (r: Self)
        ensures
            r.request_id == column_width("ReqId"@),
            r.method == column_width("Method"@),
            r.url == column_width("URL"@),
            r.body == column_width("Body"@),
            r.status == column_width("Status"@),
    {
        let mut widths = RequestsTableColumnWidths {
            request_id: 0,
            method: 0,
            url: 0,
            body: 0,
            status: 0,
        };
        widths.update(RequestEntryRow::header());
        widths
    }
}

impl Default for RequestsTableColumnWidths {
    /// The widths of the header row.
    fn default() -> (r: Self)
        ensures
            r.request_id == column_width("ReqId"@),
            r.method == column_width("Method"@),
            r.url == column_width("URL"@),
            r.body == column_width("Body"@),
            r.status == column_width("Status"@),
    {
        Self::header_widths()
    }
}

/// The state of the requests screen that outlives the screen itself.
#[derive(Debug, Clone, Copy, PartialEq, Eq, Structural)]
pub struct RequestsScreenState {
    pub selected_request_entry: Option<usize>,
    pub table_column_widths: RequestsTableColumnWidths,
    pub table_state: TableState,
    pub table_scroll_state: ScrollbarState,
}

impl RequestsScreenState {
    /// Nothing selected, the header's column widths, an empty scrollbar.
    pub open spec fn initial_spec() -> Self {
        RequestsScreenState {
            selected_request_entry: None,
            table_column_widths: RequestsTableColumnWidths::initial_spec(),
            table_state: TableState { selected: None },
            table_scroll_state: ScrollbarState { content_length: 0, position: 0 },
        }
    }

    /// Nothing selected, the header's column widths, an empty scrollbar.
    pub fn initial() -> (r: Self)
        ensures
            r == Self::initial_spec(),
    {
        RequestsScreenState {
            selected_request_entry: None,
            table_column_widths: RequestsTableColumnWidths::header_widths(),
            table_state: TableState::new(),
            table_scroll_state: ScrollbarState::empty(),
        }
    }

    /// The columns grow to fit the entry's row.
    pub fn update_table_column_widths(&mut self, request_entry: &RequestEntry)
        ensures
            final(self).table_column_widths == old(self).table_column_widths.widened_by(
                request_entry@,
            ),
            final(self).selected_request_entry == old(self).selected_request_entry,
            final(self).table_state == old(self).table_state,
            final(self).table_scroll_state == old(self).table_scroll_state,
    {
        let row = RequestEntryRow::from_entry(request_entry);
        self.table_column_widths.update(row);
    }

    /// The first row is selected when none is, and the scrollbar spans the
    /// stored requests.
    pub fn update_table_scroll(&mut self, requests_length: usize)
        ensures
            final(self).table_state.selected == (match old(self).table_state.selected {
                Some(i) => Some(i),
                None => Some(0usize),
            }),
            final(self).selected_request_entry == (match old(self).table_state.selected {
                Some(_) => old(self).selected_request_entry,
                None => Some(0usize),
            }),
            final(self).table_scroll_state.content_length == requests_length,
            final(self).table_scroll_state.position == old(self).table_scroll_state.position,
            final(self).table_column_widths == old(self).table_column_widths,
    {
        if self.table_state.selected().is_none() {
            self.table_state = self.table_state.with_selected(Some(0));
            self.selected_request_entry = self.table_state.selected();
        }
        self.table_scroll_state = self.table_scroll_state.with_content_length(requests_length);
    }

    /// The row above is selected, and the scrollbar moves with it.
    pub fn select_previous_request_entry(&mut self)
        ensures
            final(self).table_state.selected == Some(
                match old(self).table_state.selected {
                    Some(i) => dec(i),
                    None => usize::MAX,
                },
            ),
            final(self).table_scroll_state.position == dec(old(self).table_scroll_state.position),
            final(self).table_scroll_state.content_length
                == old(self).table_scroll_state.content_length,
            final(self).selected_request_entry == final(self).table_state.selected,
            final(self).table_column_widths == old(self).table_column_widths,
    {
        self.table_state.select_previous();
        self.table_scroll_state.prev();
        self.selected_request_entry = self.table_state.selected();
    }

    /// The row below is selected, and the scrollbar moves with it.
    pub fn select_next_request_entry(&mut self)
        ensures
            final(self).table_state.selected == Some(
                match old(self).table_state.selected {
                    Some(i) => if i == usize::MAX {
                        usize::MAX
                    } else {
                        (i + 1) as usize
                    },
                    None => 0,
                },
            ),
            final(self).table_scroll_state.position == next_position(
                old(self).table_scroll_state.position,
                old(self).table_scroll_state.content_length,
            ),
            final(self).table_scroll_state.content_length
                == old(self).table_scroll_state.content_length,
            final(self).selected_request_entry == final(self).table_state.selected,
            final(self).table_column_widths == old(self).table_column_widths,
    {
        self.table_state.select_next();
        self.table_scroll_state.next();
        self.selected_request_entry = self.table_state.selected();
    }
}

impl RequestsTableColumnWidths {
    /// The widths of the header row.
    pub open spec fn initial_spec() -> Self {
        RequestsTableColumnWidths {
            request_id: column_width("ReqId"@),
            method: column_width("Method"@),
            url: column_width("URL"@),
            body: column_width("Body"@),
            status: column_width("Status"@),
        }
    }

    /// These widths, grown to fit the row of entry `e`.
    pub open spec fn widened_by(self, e: RequestEntryView) -> Self {
        RequestsTableColumnWidths {
            request_id: widen(self.request_id, decimal(e.request_id as nat)),
            method: widen(self.method, method_name(e.request.method)),
            url: widen(self.url, url_text(e.request.url)),
            body: widen(self.body, body_summary(e.request.body.len(), received_len(e))),
            status: widen(self.status, status_text(e)),
        }
    }

    /// These widths, grown to fit a row.
    pub open spec fn widened(self, row: RequestEntryRow) -> Self {
        RequestsTableColumnWidths {
            request_id: widen(self.request_id, row.request_id@),
            method: widen(self.method, row.method@),
            url: widen(self.url, row.url@),
            body: widen(self.body, row.body@),
            status: widen(self.status, row.status@),
        }
    }
}

/// The rows of the stored requests, in order.
pub fn rows_of(store: &RequestStore) -> (r: Vec<RequestEntryRow>)
    ensures
        r@.len() == store@.len(),
        forall|i: int| 0 <= i < r@.len() ==> #[trigger] r@[i].shows(store@[i]),
{
    let entries = store.entries();
    let mut r: Vec<RequestEntryRow> = Vec::new();
    let mut i: usize = 0;
    while i < entries.len()
        invariant
            i <= entries.len(),
            entries@.len() == store@.len(),
            forall|j: int| 0 <= j < entries@.len() ==> #[trigger] entries@[j]@ == store@[j],
            r@.len() == i,
            forall|j: int| 0 <= j < i ==> #[trigger] r@[j].shows(store@[j]),
        decreases entries.len() - i,
    {
        r.push(RequestEntryRow::from_entry(&entries[i]));
        i += 1;
    }
    r
}

/// The list of requests.
#[derive(Debug, PartialEq)]
pub struct RequestsScreen {
    pub state: RequestsScreenState,
}

/// What the list of requests makes of a terminal event.
pub open spec fn requests_event_reply(event: TerminalEvent) -> Option<Message> {
    match event {
        TerminalEvent::Key(k) => match input_of_key(k) {
            Input::Quit => Some(Message::Quit),
            Input::Up => Some(Message::RequestsScreen(RequestsScreenMessage::SelectPreviousRow)),
            Input::Down => Some(Message::RequestsScreen(RequestsScreenMessage::SelectNextRow)),
            Input::Accept => Some(Message::ShowHttpClientScreen),
            _ => None,
        },
        TerminalEvent::Other => None,
    }
}

impl RequestsScreen {
    /// The screen with a state kept from before.
    pub fn new(state: RequestsScreenState) -> (r: Self)
        ensures
            r.state == state,
    {
        RequestsScreen { state }
    }

    /// The help line under the list.
    pub fn status_text() -> (r: &'static str)
        ensures
            r@ == "Arrow keys or j/k to navigate, Enter to view details. q to quit."@,
    {
        "Arrow keys or j/k to navigate, Enter to view details. q to quit."
    }

    /// The state after `message`, with `requests_length` requests stored.
    pub open spec fn after(self, message: Message, requests_length: usize) -> Self {
        let s = self.state;
        match message {
            Message::RequestEntryUpdated(e) => RequestsScreen {
                state: RequestsScreenState {
                    table_column_widths: s.table_column_widths.widened_by((*e)@),
                    ..s
                },
            },
            Message::RequestsScreen(RequestsScreenMessage::UpdateTableState) => RequestsScreen {
                state: RequestsScreenState {
                    table_state: TableState {
                        selected: match s.table_state.selected {
                            Some(i) => Some(i),
                            None => Some(0usize),
                        },
                    },
                    selected_request_entry: match s.table_state.selected {
                        Some(_) => s.selected_request_entry,
                        None => Some(0usize),
                    },
                    table_scroll_state: ScrollbarState {
                        content_length: requests_length,
                        ..s.table_scroll_state
                    },
                    ..s
                },
            },
            Message::RequestsScreen(RequestsScreenMessage::SelectPreviousRow) => {
                let selected = Some(
                    match s.table_state.selected {
                        Some(i) => dec(i),
                        None => usize::MAX,
                    },
                );
                RequestsScreen {
                    state: RequestsScreenState {
                        table_state: TableState { selected },
                        table_scroll_state: ScrollbarState {
                            position: dec(s.table_scroll_state.position),
                            ..s.table_scroll_state
                        },
                        selected_request_entry: selected,
                        ..s
                    },
                }
            },
            Message::RequestsScreen(RequestsScreenMessage::SelectNextRow) => {
                let selected = Some(
                    match s.table_state.selected {
                        Some(i) => if i == usize::MAX {
                            usize::MAX
                        } else {
                            (i + 1) as usize
                        },
                        None => 0,
                    },
                );
                RequestsScreen {
                    state: RequestsScreenState {
                        table_state: TableState { selected },
                        table_scroll_state: ScrollbarState {
                            position: next_position(
                                s.table_scroll_state.position,
                                s.table_scroll_state.content_length,
                            ),
                            ..s.table_scroll_state
                        },
                        selected_request_entry: selected,
                        ..s
                    },
                }
            },
            _ => self,
        }
    }

    /// What the screen answers to `message`: an updated entry asks for the
    /// table to be brought up to date; the screen's own messages hand back
    /// its new state to be kept.
    pub open spec fn reply(self, message: Message, requests_length: usize) -> Option<Message> {
        match message {
            Message::RequestEntryUpdated(_) => Some(
                Message::RequestsScreen(RequestsScreenMessage::UpdateTableState),
            ),
            Message::RequestsScreen(_) => Some(
                Message::StoreRequestsScreenState(
                    Box::new(self.after(message, requests_length).state),
                ),
            ),
            _ => None,
        }
    }

    /// `q` quits, up and down move the selection, Enter opens the selected
    /// request.
    pub fn handle_event(&self, event: &TerminalEvent) -> (r: Option<Message>)
        ensures
            r == requests_event_reply(*event),
    {
        match map_event_to_input(event) {
            Some(Input::Quit) => Some(Message::Quit),
            Some(Input::Up) => Some(Message::RequestsScreen(RequestsScreenMessage::SelectPreviousRow)),
            Some(Input::Down) => Some(Message::RequestsScreen(RequestsScreenMessage::SelectNextRow)),
            Some(Input::Accept) => Some(Message::ShowHttpClientScreen),
            _ => None,
        }
    }

    /// Acts on `message`, with `requests_length` requests stored.
    pub fn update(&mut self, message: Message, requests_length: usize) -> (r: Option<Message>)
        ensures
            r == old(self).reply(message, requests_length),
            *final(self) == old(self).after(message, requests_length),
    {
        match message {
            Message::RequestEntryUpdated(e) => {
                self.state.update_table_column_widths(&e);
                Some(Message::RequestsScreen(RequestsScreenMessage::UpdateTableState))
            },
            Message::RequestsScreen(m) => {
                match m {
                    RequestsScreenMessage::UpdateTableState => self.state.update_table_scroll(
                        requests_length,
                    ),
                    RequestsScreenMessage::SelectPreviousRow => self.state.select_previous_request_entry(),
                    RequestsScreenMessage::SelectNextRow => self.state.select_next_request_entry(),
                }
                Some(Message::StoreRequestsScreenState(Box::new(self.state)))
            },
            _ => None,
        }
    }
}

} // verus!
