//! The terminal front end's state machine: the messages that drive it, the
//! screen and box on show, the recorded requests, and what each message
//! does to them. Drawing, the terminal, the clipboard and the proxy's
//! channels are the front end's own business; they hand events in and act
//! on what the state says.
use vstd::prelude::*;
use vstd::utf8::encode_utf8;
use crate::config::Config;
use crate::error::{server_error_text, ServerError};
use crate::formatter::{format_code, formatted_code};
use crate::http_client_screen::{http_client_event_reply, HttpClientScreen, HttpClientScreenMessage};
use crate::input::TerminalEvent;
use crate::message::{
    Body, Request, RequestEntry, RequestEntryView, RequestId, RequestView, Response, ResponseView,
};
use crate::modals::{
    confirm_event_reply, error_event_reply, shortcuts_after, shortcuts_event_reply,
    waiting_event_reply, ConfirmQuitModal, ConfirmQuitModalMessage, ErrorModal, ErrorModalMessage,
    ShortcutsModal, ShortcutsModalMessage, WaitingModal, SHORTCUT_COUNT,
};
use crate::requests_screen::{
    requests_event_reply, RequestsScreen, RequestsScreenMessage, RequestsScreenState,
};
use crate::store::{find, store_insert, store_respond, RequestStore};
use crate::text::{decimal, lossy_text, push_decimal, push_str, utf8_lossy};
use crate::widgets::ScrollbarState;

verus! {

/// The error a `tokio` one-shot receiver gives when its sender is gone.
#[verifier::external_type_specification]
#[verifier::external_body]
pub struct ExRecvError(tokio::sync::oneshot::error::RecvError);

/// What happens next in the front end.
#[derive(Debug, PartialEq)]
pub enum Message {
    /// A request entry was stored or completed.
    RequestEntryUpdated(Box<RequestEntry>),
    ShowRequestsScreen,
    ShowHttpClientScreen,
    StoreRequest(Box<(RequestId, Request)>),
    StoreResponse(Box<(RequestId, Response)>),
    StoreRequestsScreenState(Box<RequestsScreenState>),
    CopyToClipboard(String),
    Quit,
    ShowErrorModal(String),
    ShowShortcutsModal,
    CloseModal,
    ErrorModal(ErrorModalMessage),
    ShortcutsModal(ShortcutsModalMessage),
    ConfirmQuitModal(ConfirmQuitModalMessage),
    RequestsScreen(RequestsScreenMessage),
    HttpClientScreen(HttpClientScreenMessage),
}

/// How many messages at most a message sets off, itself included: storing
/// leads to an updated entry, which leads the list to bring its table up
/// to date, which hands back the list's state to keep.
pub open spec fn chain(m: Message) -> nat {
    match m {
        Message::StoreRequest(_) => 4,
        Message::StoreResponse(_) => 4,
        Message::RequestEntryUpdated(_) => 3,
        Message::ShowRequestsScreen => 3,
        Message::RequestsScreen(_) => 2,
        Message::HttpClientScreen(_) => 2,
        _ => 1,
    }
}

/// What the proxy reports to the front end.
#[derive(Debug, PartialEq)]
pub enum ProxyEvent {
    RequestSent(RequestId, Request),
    ResponseReceived(RequestId, Response),
    /// An error, with the error written out as `{:#?}` writes it.
    ErrorOccurred(Option<RequestId>, String),
    /// A report the front end does not show: the server started or
    /// stopped, a client connected or left.
    Other,
}

/// The screen on show.
#[derive(Debug, PartialEq)]
pub enum Screen {
    Requests(RequestsScreen),
    HttpClient(HttpClientScreen),
}

impl Screen {
    /// What the screen makes of a terminal event.
    pub open spec fn event_reply(self, event: TerminalEvent) -> Option<Message> {
        match self {
            Screen::Requests(_) => requests_event_reply(event),
            Screen::HttpClient(_) => http_client_event_reply(event),
        }
    }

    /// The screen moves from `self` to `new` on `message`, answering `r`,
    /// with `requests_length` requests stored.
    pub open spec fn steps(
        self,
        message: Message,
        requests_length: usize,
        new: Self,
        r: Option<Message>,
    ) -> bool {
        match self {
            Screen::Requests(s) => new == Screen::Requests(s.after(message, requests_length)) && r
                == s.reply(message, requests_length),
            Screen::HttpClient(s) => match new {
                Screen::HttpClient(t) => s.steps(message, t, r),
                _ => false,
            },
        }
    }

    pub fn handle_event(&self, event: &TerminalEvent) -> (r: Option<Message>)
        ensures
            r == self.event_reply(*event),
    {
        match self {
            Screen::Requests(s) => s.handle_event(event),
            Screen::HttpClient(s) => s.handle_event(event),
        }
    }

    pub fn update(&mut self, message: Message, requests_length: usize) -> (r: Option<Message>)
        ensures
            old(self).steps(message, requests_length, *final(self), r),
    {
        match self {
            Screen::Requests(s) => s.update(message, requests_length),
            Screen::HttpClient(s) => s.update(message),
        }
    }
}

/// The box shown over the screen.
#[derive(Debug, PartialEq)]
pub enum Modal {
    Waiting(WaitingModal),
    Error(ErrorModal),
    Shortcuts(ShortcutsModal),
    ConfirmQuit(ConfirmQuitModal),
}

impl Modal {
    /// What the box makes of a terminal event.
    pub open spec fn event_reply(self, event: TerminalEvent) -> Option<Message> {
        match self {
            Modal::Waiting(_) => waiting_event_reply(event),
            Modal::Error(_) => error_event_reply(event),
            Modal::Shortcuts(_) => shortcuts_event_reply(event),
            Modal::ConfirmQuit(_) => confirm_event_reply(event),
        }
    }

    /// What the box answers to `message`: the waiting box closes on the
    /// first entry, the question answers `Quit` or `CloseModal`, the other
    /// boxes answer nothing.
    pub open spec fn reply(self, message: Message) -> Option<Message> {
        match self {
            Modal::Waiting(_) => match message {
                Message::RequestEntryUpdated(_) => Some(Message::CloseModal),
                _ => None,
            },
            Modal::ConfirmQuit(_) => match message {
                Message::ConfirmQuitModal(ConfirmQuitModalMessage::Confirm) => Some(Message::Quit),
                Message::ConfirmQuitModal(ConfirmQuitModalMessage::Cancel) => Some(
                    Message::CloseModal,
                ),
                _ => None,
            },
            _ => None,
        }
    }

    /// The box moves from `self` to `new` on `message`.
    pub open spec fn steps(self, message: Message, new: Self) -> bool {
        match self {
            Modal::Error(e) => new == Modal::Error(e.after(message)),
            Modal::Shortcuts(s) => match new {
                Modal::Shortcuts(t) => t@ == shortcuts_after(s@, message),
                _ => false,
            },
            _ => new == self,
        }
    }

    pub fn handle_event(&self, event: &TerminalEvent) -> (r: Option<Message>)
        ensures
            r == self.event_reply(*event),
    {
        match self {
            Modal::Waiting(m) => m.handle_event(event),
            Modal::Error(m) => m.handle_event(event),
            Modal::Shortcuts(m) => m.handle_event(event),
            Modal::ConfirmQuit(m) => m.handle_event(event),
        }
    }

    pub fn update(&mut self, message: &Message) -> (r: Option<Message>)
        ensures
            r == old(self).reply(*message),
            old(self).steps(*message, *final(self)),
    {
        match self {
            Modal::Waiting(m) => m.update(message),
            Modal::Error(m) => m.update(message),
            Modal::Shortcuts(m) => m.update(message),
            Modal::ConfirmQuit(m) => m.update(message),
        }
    }
}

/// The entry stored for a request: its body shown as `format_code`
/// writes it, no response yet.
pub open spec fn stored_request(id: usize, r: RequestView) -> RequestEntryView {
    RequestEntryView {
        request_id: id,
        request: RequestView { body: encode_utf8(formatted_code(lossy_text(r.body))), ..r },
        response: None,
    }
}

/// The response stored: its body shown as `format_code` writes it.
pub open spec fn stored_response(r: ResponseView) -> ResponseView {
    ResponseView { body: encode_utf8(formatted_code(lossy_text(r.body))), ..r }
}

/// A response is stored the way a request is: its body becomes the bytes a
/// request with the same body is stored with (shown as `format_code`
/// writes it), while its status and headers stay as they came.
pub proof fn law_response_body_stored_as_request_body(
    id: usize,
    request: RequestView,
    response: ResponseView,
)
    requires
        request.body == response.body,
    ensures
        stored_response(response).body == stored_request(id, request).request.body,
        stored_response(response).status == response.status,
        stored_response(response).headers == response.headers,
{
}

/// A body's bytes, formatted for showing.
fn formatted_body(body: &Body) -> (r: Body)
    ensures
        r.0@ == encode_utf8(formatted_code(lossy_text(body.0@))),
{
    let text = utf8_lossy(body.as_bytes());
    let formatted = format_code(text.as_str());
    Body::new(vstd::slice::slice_to_vec(formatted.as_str().as_bytes()))
}

/// The front end's state.
#[derive(Debug, PartialEq)]
pub struct App {
    pub config: Config,
    pub screen: Screen,
    pub modal: Option<Modal>,
    pub request_store: RequestStore,
    /// The list's selection and column widths, kept while another screen
    /// shows.
    pub requests_screen_state: RequestsScreenState,
    pub running: bool,
    /// Why the front end stopped, when it was for an error.
    pub exit_error: Option<String>,
    /// Text waiting to be put on the clipboard.
    pub clipboard_request: Option<String>,
}

impl App {
    /// `message` is passed to the box, whose answer is acted on at once,
    /// then to the screen, whose answer is `r`.
    pub open spec fn passes_on(self, message: Message, new: Self, r: Option<Message>) -> bool {
        &&& new.config == self.config
        &&& new.request_store == self.request_store
        &&& new.requests_screen_state == self.requests_screen_state
        &&& new.exit_error == self.exit_error
        &&& new.clipboard_request == self.clipboard_request
        &&& match self.modal {
            None => new.modal is None && new.running == self.running,
            Some(md) => match md.reply(message) {
                Some(Message::CloseModal) => new.modal is None && new.running == self.running,
                Some(Message::Quit) => !new.running && match new.modal {
                    Some(md2) => md.steps(message, md2),
                    None => false,
                },
                _ => new.running == self.running && match new.modal {
                    Some(md2) => md.steps(message, md2),
                    None => false,
                },
            },
        }
        &&& self.screen.steps(message, self.request_store@.len() as usize, new.screen, r)
    }

    /// The front end moves from `self` to `new` on `message`, answering
    /// `r`.
    pub open spec fn steps(self, message: Message, new: Self, r: Option<Message>) -> bool {
        match message {
            Message::ShowRequestsScreen => new == App {
                screen: Screen::Requests(RequestsScreen { state: self.requests_screen_state }),
                ..self
            } && r == Some(Message::RequestsScreen(RequestsScreenMessage::UpdateTableState)),
            Message::ShowHttpClientScreen => r is None && match self.requests_screen_state.selected_request_entry {
                Some(i) => if i < self.request_store@.len() {
                    new == App { screen: new.screen, ..self } && match new.screen {
                        Screen::HttpClient(s) => s.fresh(self.request_store@[i as int]),
                        _ => false,
                    }
                } else {
                    new == self
                },
                None => new == self,
            },
            Message::StoreRequest(b) => {
                let e = stored_request(b.0.0, b.1@);
                &&& new == App { request_store: new.request_store, ..self }
                &&& new.request_store@ == store_insert(self.request_store@, e)
                &&& match r {
                    Some(Message::RequestEntryUpdated(x)) => x@ == e,
                    _ => false,
                }
            },
            Message::StoreResponse(b) => match find(self.request_store@, b.0.0) {
                Some(old_entry) => {
                    &&& new == App { request_store: new.request_store, ..self }
                    &&& new.request_store@ == store_respond(
                        self.request_store@,
                        b.0.0,
                        stored_response(b.1@),
                    )
                    &&& match r {
                        Some(Message::RequestEntryUpdated(x)) => x@ == RequestEntryView {
                            response: Some(stored_response(b.1@)),
                            ..old_entry
                        },
                        _ => false,
                    }
                },
                None => new == self && r is None,
            },
            Message::StoreRequestsScreenState(s) => new == App {
                requests_screen_state: *s,
                ..self
            } && r is None,
            Message::CopyToClipboard(t) => new == App { clipboard_request: Some(t), ..self } && r is None,
            Message::Quit => new == App { running: false, ..self } && r is None,
            Message::ShowErrorModal(c) => r is None && new == App { modal: new.modal, ..self }
                && match new.modal {
                Some(Modal::Error(e)) => e.content@ == c@ && e.scrollbar_vertical_state == (
                ScrollbarState { content_length: 0, position: 0 })
                    && e.scrollbar_horizontal_state == (ScrollbarState {
                    content_length: 0,
                    position: 0,
                }),
                _ => false,
            },
            Message::ShowShortcutsModal => r is None && new == App { modal: new.modal, ..self }
                && match new.modal {
                Some(Modal::Shortcuts(s)) => s@ == (
                    0usize,
                    ScrollbarState { content_length: SHORTCUT_COUNT, position: 0 },
                ),
                _ => false,
            },
            Message::CloseModal => new == App { modal: None, ..self } && r is None,
            _ => self.passes_on(message, new, r),
        }
    }

    /// The state after `message` and all it sets off is `end`.
    pub open spec fn settles(self, message: Message, end: Self) -> bool
        decreases chain(message),
    {
        exists|mid: App, r: Option<Message>|
            #![trigger self.steps(message, mid, r)]
            self.steps(message, mid, r) && match r {
                None => end == mid,
                Some(n) => chain(n) < chain(message) && mid.settles(n, end),
            }
    }

    /// The state after the pending message, if any, and all it sets off
    /// is `end`.
    pub open spec fn settles_after(self, pending: Option<Message>, end: Self) -> bool {
        match pending {
            Some(m) => self.settles(m, end),
            None => end == self,
        }
    }

    /// The front end as it starts: the list of requests, empty, under the
    /// box that waits for the first request.
    pub fn new(config: Config) -> (r: Self)
        ensures
            r.config == config,
            r.modal == Some(
                Modal::Waiting(
                    WaitingModal { server_host: config.server_host, server_port: config.server_port },
                ),
            ),
            r.screen == Screen::Requests(
                RequestsScreen { state: RequestsScreenState::initial_spec() },
            ),
            r.request_store@ == Seq::<RequestEntryView>::empty(),
            r.requests_screen_state == RequestsScreenState::initial_spec(),
            r.running,
            r.exit_error is None,
            r.clipboard_request is None,
    {
        let modal = WaitingModal::new(config.server_host.clone(), config.server_port);
        let requests_screen_state = RequestsScreenState::initial();
        App {
            config,
            screen: Screen::Requests(RequestsScreen::new(requests_screen_state)),
            modal: Some(Modal::Waiting(modal)),
            request_store: RequestStore::new(),
            requests_screen_state,
            running: true,
            exit_error: None,
            clipboard_request: None,
        }
    }

    /// A terminal event goes to the box when one shows, else to the screen.
    pub fn handle_event_stream(&self, event: &TerminalEvent) -> (r: Option<Message>)
        ensures
            r == (match self.modal {
                Some(m) => m.event_reply(*event),
                None => self.screen.event_reply(*event),
            }),
    {
        match &self.modal {
            Some(m) => m.handle_event(event),
            None => self.screen.handle_event(event),
        }
    }

    /// What a report of the proxy leads to: requests and responses are
    /// stored, errors shown.
    pub fn handle_proxy_message(&self, event: ProxyEvent) -> (r: Option<Message>)
        ensures
            match event {
                ProxyEvent::RequestSent(id, request) => r == Some(
                    Message::StoreRequest(Box::new((id, request))),
                ),
                ProxyEvent::ResponseReceived(id, response) => r == Some(
                    Message::StoreResponse(Box::new((id, response))),
                ),
                ProxyEvent::ErrorOccurred(Some(id), text) => match r {
                    Some(Message::ShowErrorModal(t)) => t@ == "Error occurred for request "@
                        + decimal(id.0 as nat) + ": "@ + text@,
                    _ => false,
                },
                ProxyEvent::ErrorOccurred(None, text) => match r {
                    Some(Message::ShowErrorModal(t)) => t@ == "Error occurred: "@ + text@,
                    _ => false,
                },
                ProxyEvent::Other => r is None,
            },
    {
        match event {
            ProxyEvent::RequestSent(id, request) => Some(
                Message::StoreRequest(Box::new((id, request))),
            ),
            ProxyEvent::ResponseReceived(id, response) => Some(
                Message::StoreResponse(Box::new((id, response))),
            ),
            ProxyEvent::ErrorOccurred(request_id, text) => {
                let mut t = String::new();
                match request_id {
                    Some(id) => {
                        push_str(&mut t, "Error occurred for request ");
                        push_decimal(&mut t, id.0 as u64);
                        push_str(&mut t, ": ");
                    },
                    None => push_str(&mut t, "Error occurred: "),
                }
                push_str(&mut t, text.as_str());
                Some(Message::ShowErrorModal(t))
            },
            ProxyEvent::Other => None,
        }
    }

    /// How the proxy server ended: with an error, it becomes the reason to
    /// exit; if the server vanished without a word, that does; either way
    /// the front end quits. A server that finished cleanly changes nothing.
    pub fn handle_abort_app(
        &mut self,
        result: Result<Result<(), ServerError>, tokio::sync::oneshot::error::RecvError>,
    ) -> (r: Option<Message>)
        ensures
            match result {
                Ok(Err(e)) => r == Some(Message::Quit) && match final(self).exit_error {
                    Some(t) => t@ == server_error_text(e),
                    None => false,
                } && *final(self) == App { exit_error: final(self).exit_error, ..*old(self) },
                Err(_) => r == Some(Message::Quit) && match final(self).exit_error {
                    Some(t) => t@ == "Server was aborted unexpectedly"@,
                    None => false,
                } && *final(self) == App { exit_error: final(self).exit_error, ..*old(self) },
                Ok(Ok(())) => r is None && *final(self) == *old(self),
            },
    {
        match result {
            Ok(Err(error)) => {
                self.exit_error = Some(error.to_text());
                Some(Message::Quit)
            },
            Err(_) => {
                let mut t = String::new();
                push_str(&mut t, "Server was aborted unexpectedly");
                self.exit_error = Some(t);
                Some(Message::Quit)
            },
            Ok(Ok(())) => None,
        }
    }

    /// Acts on one message.
    pub fn update(&mut self, message: Message) -> (r: Option<Message>)
        ensures
            old(self).steps(message, *final(self), r),
            match r {
                Some(n) => chain(n) < chain(message),
                None => true,
            },
    {
        match message {
            Message::ShowRequestsScreen => self.show_requests_screen(),
            Message::ShowHttpClientScreen => self.show_http_client_screen(),
            Message::StoreRequest(b) => self.store_request(*b),
            Message::StoreResponse(b) => self.store_response(*b),
            Message::StoreRequestsScreenState(s) => {
                self.requests_screen_state = *s;
                None
            },
            Message::CopyToClipboard(content) => {
                self.clipboard_request = Some(content);
                None
            },
            Message::Quit => {
                self.running = false;
                None
            },
            Message::ShowErrorModal(content) => {
                self.modal = Some(Modal::Error(ErrorModal::new(content.as_str())));
                None
            },
            Message::ShowShortcutsModal => {
                self.modal = Some(Modal::Shortcuts(ShortcutsModal::new()));
                None
            },
            Message::CloseModal => {
                self.modal = None;
                None
            },
            message => self.update_modal_and_screen(message),
        }
    }

    /// Acts on `message` and on everything it sets off, until nothing more
    /// comes.
    pub fn process(&mut self, message: Message)
        ensures
            old(self).settles(message, *final(self)),
    {
        let ghost start = *self;
        let ghost first = message;
        let mut current: Option<Message> = Some(message);
        loop
            invariant
                forall|end: App| #[trigger]
                    self.settles_after(current, end) ==> start.settles(first, end),
            ensures
                start.settles(first, *self),
            decreases match current {
                Some(c) => chain(c),
                None => 0,
            },
        {
            let ghost cur = current;
            match current {
                Some(m) => {
                    let ghost before = *self;
                    let ghost m_ghost = m;
                    let next = self.update(m);
                    proof {
                        assert forall|end: App| #[trigger]
                            self.settles_after(next, end) implies start.settles(first, end) by {
                            assert(before.steps(m_ghost, *self, next));
                            assert(before.settles(m_ghost, end));
                            assert(before.settles_after(cur, end));
                        }
                    }
                    current = next;
                },
                None => {
                    assert(self.settles_after(cur, *self));
                    break;
                },
            }
        }
    }

    fn show_requests_screen(&mut self) -> (r: Option<Message>)
        ensures
            *final(self) == (App {
                screen: Screen::Requests(RequestsScreen { state: old(self).requests_screen_state }),
                ..*old(self)
            }),
            r == Some(Message::RequestsScreen(RequestsScreenMessage::UpdateTableState)),
    {
        self.screen = Screen::Requests(RequestsScreen::new(self.requests_screen_state));
        Some(Message::RequestsScreen(RequestsScreenMessage::UpdateTableState))
    }

    fn show_http_client_screen(&mut self) -> (r: Option<Message>)
        ensures
            old(self).steps(Message::ShowHttpClientScreen, *final(self), r),
    {
        let selected = match self.requests_screen_state.selected_request_entry {
            Some(i) => i,
            None => return None,
        };
        let request_entry = match self.request_store.nth(selected) {
            Some(e) => e,
            None => return None,
        };
        self.screen = Screen::HttpClient(HttpClientScreen::new(request_entry));
        None
    }

    fn store_request(&mut self, message: (RequestId, Request)) -> (r: Option<Message>)
        ensures
            old(self).steps(Message::StoreRequest(Box::new(message)), *final(self), r),
    {
        let (request_id, request) = message;
        let body = formatted_body(&request.body);
        let request_entry = RequestEntry {
            request_id,
            request: Request { body, ..request },
            response: None,
        };
        let copy = request_entry.duplicate();
        self.request_store.insert(request_entry);
        Some(Message::RequestEntryUpdated(Box::new(copy)))
    }

    fn store_response(&mut self, message: (RequestId, Response)) -> (r: Option<Message>)
        ensures
            old(self).steps(Message::StoreResponse(Box::new(message)), *final(self), r),
    {
        let (request_id, response) = message;
        let body = formatted_body(&response.body);
        let response = Response { body, ..response };
        match self.request_store.set_response(request_id, response) {
            Some(entry) => Some(Message::RequestEntryUpdated(Box::new(entry))),
            None => None,
        }
    }

    /// The box acts on the message first; its answer, `Quit` or
    /// `CloseModal` when there is one, is acted on at once. Then the screen
    /// acts on the message, and its answer is returned.
    fn update_modal_and_screen(&mut self, message: Message) -> (r: Option<Message>)
        requires
            !(message is ShowRequestsScreen || message is ShowHttpClientScreen
                || message is StoreRequest || message is StoreResponse
                || message is StoreRequestsScreenState || message is CopyToClipboard
                || message is Quit || message is ShowErrorModal || message is ShowShortcutsModal
                || message is CloseModal),
        ensures
            old(self).passes_on(message, *final(self), r),
            match r {
                Some(n) => chain(n) < chain(message),
                None => true,
            },
    {
        let reply = match &mut self.modal {
            Some(modal) => modal.update(&message),
            None => None,
        };
        match reply {
            Some(Message::Quit) => {
                self.running = false;
            },
            Some(Message::CloseModal) => {
                self.modal = None;
            },
            _ => {},
        }
        let requests_length = self.request_store.len();
        self.screen.update(message, requests_length)
    }

    /// The message shown when the clipboard refused a text.
    pub fn clipboard_failed(&self, error: &str) -> (r: Message)
        ensures
            match r {
                Message::ShowErrorModal(t) => t@ == "Failed to copy to clipboard: "@ + error@,
                _ => false,
            },
    {
        let mut t = String::new();
        push_str(&mut t, "Failed to copy to clipboard: ");
        push_str(&mut t, error);
        Message::ShowErrorModal(t)
    }

    /// Takes the text waiting to be put on the clipboard.
    pub fn take_clipboard_request(&mut self) -> (r: Option<String>)
        ensures
            r == old(self).clipboard_request,
            *final(self) == (App { clipboard_request: None, ..*old(self) }),
    {
        let mut r = None;
        std::mem::swap(&mut r, &mut self.clipboard_request);
        r
    }
}

/// A message that stores a request or a response.
pub open spec fn stores(m: Message) -> bool {
    m is StoreRequest || m is StoreResponse
}

/// A message that stores nothing leaves the stored requests as they were,
/// and sets off no message that stores.
pub proof fn lemma_step_keeps_store(app: App, m: Message, new: App, r: Option<Message>)
    requires
        !stores(m),
        app.steps(m, new, r),
    ensures
        new.request_store == app.request_store,
        match r {
            Some(n) => !stores(n),
            None => true,
        },
{
    match m {
        Message::ShowRequestsScreen => {},
        Message::ShowHttpClientScreen => {},
        Message::StoreRequestsScreenState(_) => {},
        Message::CopyToClipboard(_) => {},
        Message::Quit => {},
        Message::ShowErrorModal(_) => {},
        Message::ShowShortcutsModal => {},
        Message::CloseModal => {},
        _ => {
            assert(app.passes_on(m, new, r));
            match app.screen {
                Screen::Requests(s) => {
                    assert(r == s.reply(m, app.request_store@.len() as usize));
                },
                Screen::HttpClient(s) => {},
            }
        },
    }
}

/// What a message that stores nothing sets off leaves the stored requests
/// as they were.
pub proof fn lemma_settles_keeps_store(app: App, m: Message, end: App)
    requires
        !stores(m),
        app.settles(m, end),
    ensures
        end.request_store == app.request_store,
    decreases chain(m),
{
    let (mid, r) = choose|mid: App, r: Option<Message>|
        #![trigger app.steps(m, mid, r)]
        app.steps(m, mid, r) && match r {
            None => end == mid,
            Some(n) => chain(n) < chain(m) && mid.settles(n, end),
        };
    lemma_step_keeps_store(app, m, mid, r);
    match r {
        Some(n) => lemma_settles_keeps_store(mid, n, end),
        None => {},
    }
}

/// A request the proxy reported, once the front end has acted on it, is
/// found under its identifier, its body formatted for showing; every other
/// identifier finds what it found before.
pub proof fn law_stored_request_is_found(
    app: App,
    id: RequestId,
    request: Request,
    end: App,
    other: usize,
)
    requires
        crate::store::increasing(app.request_store@),
        app.settles(Message::StoreRequest(Box::new((id, request))), end),
    ensures
        find(end.request_store@, id.0) == Some(stored_request(id.0, request@)),
        other != id.0 ==> find(end.request_store@, other) == find(app.request_store@, other),
{
    let m = Message::StoreRequest(Box::new((id, request)));
    let (mid, r) = choose|mid: App, r: Option<Message>|
        #![trigger app.steps(m, mid, r)]
        app.steps(m, mid, r) && match r {
            None => end == mid,
            Some(n) => chain(n) < chain(m) && mid.settles(n, end),
        };
    let e = stored_request(id.0, request@);
    assert(mid.request_store@ == store_insert(app.request_store@, e));
    match r {
        Some(n) => {
            assert(n is RequestEntryUpdated);
            lemma_settles_keeps_store(mid, n, end);
        },
        None => {},
    }
    crate::store::law_store_then_find(app.request_store@, e, other);
}

/// Once the front end has acted on the response the proxy reported for a
/// stored request, the request's entry holds that response, its body
/// formatted for showing.
pub proof fn law_stored_response_is_found(app: App, id: RequestId, response: Response, end: App)
    requires
        crate::store::increasing(app.request_store@),
        find(app.request_store@, id.0) is Some,
        app.settles(Message::StoreResponse(Box::new((id, response))), end),
    ensures
        find(end.request_store@, id.0) == Some(
            RequestEntryView {
                response: Some(stored_response(response@)),
                ..find(app.request_store@, id.0)->0
            },
        ),
{
    let m = Message::StoreResponse(Box::new((id, response)));
    let (mid, r) = choose|mid: App, r: Option<Message>|
        #![trigger app.steps(m, mid, r)]
        app.steps(m, mid, r) && match r {
            None => end == mid,
            Some(n) => chain(n) < chain(m) && mid.settles(n, end),
        };
    let s = app.request_store@;
    let old_entry = find(s, id.0)->0;
    let updated = RequestEntryView { response: Some(stored_response(response@)), ..old_entry };
    assert(mid.request_store@ == store_respond(s, id.0, stored_response(response@)));
    match r {
        Some(n) => {
            assert(n is RequestEntryUpdated);
            lemma_settles_keeps_store(mid, n, end);
        },
        None => {},
    }
    crate::store::lemma_position_for(s, id.0);
    let p = crate::store::position_for(s, id.0) as int;
    let t = store_respond(s, id.0, stored_response(response@));
    assert(t == s.update(p, updated));
    assert forall|i: int, j: int| 0 <= i < j < t.len() implies #[trigger] t[i].request_id
        < #[trigger] t[j].request_id by {
        assert(s[i].request_id < s[j].request_id);
    }
    crate::store::lemma_find_at(t, p);
}

/// Quitting stops the front end.
pub proof fn law_quit_stops(app: App, end: App)
    requires
        app.settles(Message::Quit, end),
    ensures
        !end.running,
{
}

} // verus!
