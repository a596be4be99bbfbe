use charlotte::app::Message;
use charlotte::http_client_screen::{HttpClientScreen, HttpClientScreenMessage, Section, Tab};
use charlotte::headers::{Header, HttpHeaders};
use charlotte::input::{map_event_to_input, map_event_to_yesno, Input, Key, TerminalEvent};
use charlotte::message::{Body, Method, Request, RequestEntry, RequestId, Response, Url};
use charlotte::modals::{
    ConfirmQuitModal, ConfirmQuitModalMessage, ErrorModal, ErrorModalMessage, ShortcutsModal,
    ShortcutsModalMessage, WaitingModal, SHORTCUT_COUNT,
};
use charlotte::requests_screen::{RequestEntryRow, RequestsTableColumnWidths};
use charlotte::widgets::{count_lines, BorderedText, ScrollbarState, Tabs, TextAreaState};

fn key(k: Key) -> TerminalEvent {
    TerminalEvent::Key(k)
}

#[test]
fn test_map_event_to_input() {
    assert_eq!(map_event_to_input(&key(Key::Up)), Some(Input::Up));
    assert_eq!(map_event_to_input(&key(Key::Down)), Some(Input::Down));
    assert_eq!(map_event_to_input(&key(Key::Left)), Some(Input::Left));
    assert_eq!(map_event_to_input(&key(Key::Right)), Some(Input::Right));
    assert_eq!(map_event_to_input(&key(Key::PageUp)), Some(Input::PageUp));
    assert_eq!(map_event_to_input(&key(Key::PageDown)), Some(Input::PageDown));
    assert_eq!(map_event_to_input(&key(Key::Home)), Some(Input::Home));
    assert_eq!(map_event_to_input(&key(Key::End)), Some(Input::End));
    assert_eq!(map_event_to_input(&key(Key::Char('3'))), Some(Input::Section(3)));
    assert_eq!(map_event_to_input(&key(Key::Enter)), Some(Input::Accept));
    assert_eq!(map_event_to_input(&key(Key::Backspace)), Some(Input::Back));
    assert_eq!(map_event_to_input(&key(Key::Char('y'))), Some(Input::Copy));
    assert_eq!(map_event_to_input(&key(Key::BackTab)), Some(Input::PreviousTab));
    assert_eq!(map_event_to_input(&key(Key::Tab)), Some(Input::NextTab));
    assert_eq!(map_event_to_input(&key(Key::Char('q'))), Some(Input::Quit));
    assert_eq!(map_event_to_input(&key(Key::Char('x'))), Some(Input::UnmappedKey));
    assert_eq!(map_event_to_input(&TerminalEvent::Other), None);
}

#[test]
fn vim_keys_and_brackets() {
    assert_eq!(map_event_to_input(&key(Key::Char('k'))), Some(Input::Up));
    assert_eq!(map_event_to_input(&key(Key::Char('j'))), Some(Input::Down));
    assert_eq!(map_event_to_input(&key(Key::Char('h'))), Some(Input::Left));
    assert_eq!(map_event_to_input(&key(Key::Char('l'))), Some(Input::Right));
    assert_eq!(map_event_to_input(&key(Key::Char('['))), Some(Input::PreviousTab));
    assert_eq!(map_event_to_input(&key(Key::Char(']'))), Some(Input::NextTab));
    assert_eq!(map_event_to_input(&key(Key::Char('?'))), Some(Input::Help));
    assert_eq!(map_event_to_input(&key(Key::Esc)), Some(Input::Back));
    assert_eq!(map_event_to_input(&key(Key::Char('0'))), Some(Input::Section(0)));
    assert_eq!(map_event_to_input(&key(Key::Char('9'))), Some(Input::Section(9)));
}

#[test]
fn yes_no() {
    assert_eq!(map_event_to_yesno(&key(Key::Char('y'))), Some(Input::Confirm));
    assert_eq!(map_event_to_yesno(&key(Key::Char('n'))), Some(Input::Cancel));
    assert_eq!(map_event_to_yesno(&key(Key::Char('x'))), None);
    assert_eq!(map_event_to_yesno(&TerminalEvent::Other), None);
}

#[test]
fn create_modal() {
    let modal = WaitingModal::new("localhost".to_string(), 8888);
    assert_eq!(modal.server_host, "localhost");
    assert_eq!(modal.server_port, 8888);
    assert_eq!(
        modal.message(),
        "Waiting for requests on localhost:8888 (press 'q' to quit)"
    );
}

#[test]
fn waiting_layout() {
    let modal = WaitingModal::new("localhost".to_string(), 8888);
    let layout = modal.layout(200).unwrap();
    assert_eq!(layout.width, 66 + 2);
    assert_eq!(layout.height, 1 + 2);
    assert_eq!(layout.text, "Waiting for requests on localhost:8888 (press 'q' to quit)");
}

#[test]
fn event_to_message() {
    let modal = WaitingModal::new("localhost".to_string(), 8888);
    assert_eq!(modal.handle_event(&key(Key::Char('q'))), Some(Message::Quit));
    assert_eq!(modal.handle_event(&key(Key::Char('x'))), None);
}

#[test]
fn update_on_message() {
    let mut modal = WaitingModal::new("localhost".to_string(), 8888);
    let entry = RequestEntry {
        request_id: RequestId::new(0),
        request: Request {
            method: Method::Get,
            url: Url::from_text("/"),
            headers: HttpHeaders::new(vec![]),
            body: Body::new(vec![]),
        },
        response: None,
    };
    assert_eq!(
        modal.update(&Message::RequestEntryUpdated(Box::new(entry))),
        Some(Message::CloseModal)
    );
}

#[test]
fn ignore_non_modal_messages() {
    let mut modal = WaitingModal::new("localhost".to_string(), 8888);
    assert_eq!(modal.update(&Message::CopyToClipboard("test".to_string())), None);
}

#[test]
fn handle_event_confirm() {
    let modal = ConfirmQuitModal::new();
    assert_eq!(
        modal.handle_event(&key(Key::Char('y'))),
        Some(Message::ConfirmQuitModal(ConfirmQuitModalMessage::Confirm))
    );
    assert_eq!(modal.handle_event(&key(Key::Char('x'))), None);
}

#[test]
fn handle_event_cancel() {
    let modal = ConfirmQuitModal::new();
    assert_eq!(
        modal.handle_event(&key(Key::Char('n'))),
        Some(Message::ConfirmQuitModal(ConfirmQuitModalMessage::Cancel))
    );
    assert_eq!(modal.handle_event(&key(Key::Char('x'))), None);
}

#[test]
fn update_confirm_cancel() {
    let mut modal = ConfirmQuitModal::new();
    assert_eq!(
        modal.update(&Message::ConfirmQuitModal(ConfirmQuitModalMessage::Confirm)),
        Some(Message::Quit)
    );
    assert_eq!(
        modal.update(&Message::ConfirmQuitModal(ConfirmQuitModalMessage::Cancel)),
        Some(Message::CloseModal)
    );
}

#[test]
fn confirm_quit_box_size() {
    assert_eq!(ConfirmQuitModal::size(), (40, 3));
    assert_eq!(ConfirmQuitModal::prompt(), "Are you sure you want to quit? (y/n)");
}

#[test]
fn error_modal_scrolls_ten_columns() {
    let mut modal = ErrorModal::new("line\nanother line");
    modal.scrollbar_horizontal_state = ScrollbarState::new(25);
    modal.update(&Message::ErrorModal(ErrorModalMessage::ScrollRight));
    assert_eq!(modal.scrollbar_horizontal_state.position, 10);
    modal.update(&Message::ErrorModal(ErrorModalMessage::ScrollRight));
    modal.update(&Message::ErrorModal(ErrorModalMessage::ScrollRight));
    assert_eq!(modal.scrollbar_horizontal_state.position, 24);
    modal.update(&Message::ErrorModal(ErrorModalMessage::ScrollLeft));
    assert_eq!(modal.scrollbar_horizontal_state.position, 14);
}

#[test]
fn error_modal_layout() {
    let mut modal = ErrorModal::new("abc\r\nlonger line here\n");
    let layout = modal.layout(30, 40);
    assert_eq!(layout.width, 10 + 2);
    assert_eq!(layout.height, 2 + 2);
    assert_eq!(modal.scrollbar_horizontal_state.content_length, 16 - 10 + 1);
    assert_eq!(modal.scrollbar_vertical_state.content_length, 1);
    assert_eq!(layout.scroll, (0, 0));
}

#[test]
fn error_modal_keys() {
    let modal = ErrorModal::new("x");
    assert_eq!(
        modal.handle_event(&key(Key::Up)),
        Some(Message::ErrorModal(ErrorModalMessage::ScrollUp))
    );
    assert_eq!(modal.handle_event(&key(Key::Char('q'))), Some(Message::Quit));
    assert_eq!(modal.handle_event(&key(Key::Char('x'))), Some(Message::CloseModal));
    assert_eq!(modal.handle_event(&TerminalEvent::Other), None);
}

#[test]
fn shortcuts_scroll_stays_in_the_list() {
    let mut modal = ShortcutsModal::new();
    modal.update(&Message::ShortcutsModal(ShortcutsModalMessage::ScrollUp));
    assert_eq!(modal.scroll(), 0);
    modal.update(&Message::ShortcutsModal(ShortcutsModalMessage::PageDown));
    assert_eq!(modal.scroll(), 10);
    modal.update(&Message::ShortcutsModal(ShortcutsModalMessage::PageDown));
    assert_eq!(modal.scroll(), SHORTCUT_COUNT - 1);
    modal.update(&Message::ShortcutsModal(ShortcutsModalMessage::ScrollDown));
    assert_eq!(modal.scroll(), SHORTCUT_COUNT - 1);
    modal.update(&Message::ShortcutsModal(ShortcutsModalMessage::PageUp));
    assert_eq!(modal.scroll(), 5);
    modal.update(&Message::ShortcutsModal(ShortcutsModalMessage::Home));
    assert_eq!(modal.scroll(), 0);
    modal.update(&Message::ShortcutsModal(ShortcutsModalMessage::End));
    assert_eq!(modal.scroll(), 15);
    assert_eq!(modal.scrollbar_state().position, 15);
}

#[test]
fn shortcuts_text() {
    let lines = ShortcutsModal::lines();
    assert_eq!(lines.len(), 16);
    assert_eq!(lines[0], "<up>/<k>          Move Up");
    assert_eq!(lines[10], "<esc>/<backspace> Back/Close Modal");
    assert_eq!(ShortcutsModal::text(), lines.join("\n"));
    assert_eq!(ShortcutsModal::size(200, 40), (82, 12));
}

#[test]
fn shortcuts_fit_scroll() {
    let mut modal = ShortcutsModal::new();
    modal.end();
    assert_eq!(modal.fit_scroll(10), 6);
    assert_eq!(modal.scrollbar_state().content_length, 6);
    assert_eq!(modal.scroll(), 15);
}

fn entry_with_query(query: &str) -> RequestEntry {
    RequestEntry {
        request_id: RequestId::new(5),
        request: Request {
            method: Method::Post,
            url: Url::from_text(&format!("http://example.com/a?{}", query)),
            headers: HttpHeaders::new(vec![
                Header::new("Content-Type".to_string(), "text/plain".to_string()),
                Header::new("X-Long-Header-Name".to_string(), "v".to_string()),
            ]),
            body: Body::new(b"one\ntwo\nthree".to_vec()),
        },
        response: Some(Response {
            status: 201,
            headers: HttpHeaders::new(vec![]),
            body: Body::new(b"ok".to_vec()),
        }),
    }
}

#[test]
fn request_entry_row() {
    let row = RequestEntryRow::from_entry(&entry_with_query("a=1"));
    assert_eq!(row.request_id, "5");
    assert_eq!(row.method, "POST");
    assert_eq!(row.url, "http://example.com/a?a=1");
    assert_eq!(row.body, "Sent: 13 bytes | Received: 2 bytes");
    assert_eq!(row.status, "201");
}

#[test]
fn pending_request_row() {
    let mut entry = entry_with_query("a=1");
    entry.response = None;
    let row = RequestEntryRow::from_entry(&entry);
    assert_eq!(row.status, "Pending");
    assert_eq!(row.body, "Sent: 13 bytes | Received: 0 bytes");
}

#[test]
fn column_widths_grow() {
    let mut widths = RequestsTableColumnWidths::default();
    assert_eq!(
        (widths.request_id, widths.method, widths.url, widths.body, widths.status),
        (5, 6, 3, 4, 6)
    );
    widths.update(RequestEntryRow::from_entry(&entry_with_query("a=1")));
    assert_eq!(widths.url, 24);
    assert_eq!(widths.body, 34);
    assert_eq!(widths.method, 6);
}

#[test]
fn query_pairs() {
    let url = Url::from_text("http://example.com/?a=1&b&c=x=y");
    assert_eq!(
        url.query_pairs(),
        vec![
            ("a".to_string(), "1".to_string()),
            ("b".to_string(), "".to_string()),
            ("c".to_string(), "x=y".to_string()),
        ]
    );
}

#[test]
fn details_screen_starts_on_the_method() {
    let screen = HttpClientScreen::new(entry_with_query("a=1&b=22"));
    assert_eq!(screen.tab_selected, Tab::Request);
    assert_eq!(screen.section_selected, Section::Method);
    assert_eq!(screen.query_params_table_state.scrollbar_state.content_length, 2);
    assert_eq!(screen.request_query_params_column_widths.key, 1);
    assert_eq!(screen.request_query_params_column_widths.value, 2);
    assert_eq!(screen.request_headers_column_widths.key, 18);
    assert_eq!(screen.request_body_state.scrollbar_state.content_length, 3);
    assert_eq!(screen.response_body_state.scrollbar_state.content_length, 1);
}

#[test]
fn details_screen_sections_and_copy() {
    let mut screen = HttpClientScreen::new(entry_with_query("a=1&b=22"));
    screen.update(Message::HttpClientScreen(HttpClientScreenMessage::SelectSection(3)));
    assert_eq!(screen.section_selected, Section::QueryParams);
    assert!(screen.query_params_table_state.is_highlighted);
    assert_eq!(screen.query_params_table_state.table_state.selected, Some(0));
    screen.update(Message::HttpClientScreen(HttpClientScreenMessage::NextRow));
    assert_eq!(
        screen.copy_selected_to_clipboard(),
        Some(Message::CopyToClipboard("b=22".to_string()))
    );
    screen.update(Message::HttpClientScreen(HttpClientScreenMessage::SelectSection(4)));
    assert_eq!(
        screen.copy_selected_to_clipboard(),
        Some(Message::CopyToClipboard("content-type: text/plain".to_string()))
    );
    screen.update(Message::HttpClientScreen(HttpClientScreenMessage::NextTab));
    assert_eq!(screen.tab_selected, Tab::Response);
    assert_eq!(screen.section_selected, Section::Headers);
    screen.update(Message::HttpClientScreen(HttpClientScreenMessage::SelectSection(4)));
    assert_eq!(
        screen.copy_selected_to_clipboard(),
        Some(Message::CopyToClipboard("ok".to_string()))
    );
    screen.update(Message::HttpClientScreen(HttpClientScreenMessage::PreviousTab));
    assert_eq!(screen.section_selected, Section::Headers);
    screen.update(Message::HttpClientScreen(HttpClientScreenMessage::SelectSection(2)));
    assert_eq!(
        screen.copy_selected_to_clipboard(),
        Some(Message::CopyToClipboard("http://example.com/a?a=1&b=22".to_string()))
    );
}

#[test]
fn details_screen_ignores_other_requests() {
    let mut screen = HttpClientScreen::new(entry_with_query("a=1"));
    let mut other = entry_with_query("z=9");
    other.request_id = RequestId::new(6);
    assert_eq!(screen.update(Message::RequestEntryUpdated(Box::new(other))), None);
    assert_eq!(screen.request_entry.request.url.query, Some("a=1".to_string()));
}

#[test]
fn details_screen_keys() {
    let screen = HttpClientScreen::new(entry_with_query("a=1"));
    assert_eq!(
        screen.handle_event(&key(Key::Char('5'))),
        Some(Message::HttpClientScreen(HttpClientScreenMessage::SelectSection(5)))
    );
    assert_eq!(screen.handle_event(&key(Key::Char('6'))), None);
    assert_eq!(screen.handle_event(&key(Key::Char('0'))), None);
    assert_eq!(screen.handle_event(&key(Key::Esc)), Some(Message::ShowRequestsScreen));
    assert_eq!(screen.handle_event(&key(Key::Char('?'))), Some(Message::ShowShortcutsModal));
}

#[test]
fn lines_as_str_lines() {
    assert_eq!(count_lines(""), 0);
    assert_eq!(count_lines("a"), 1);
    assert_eq!(count_lines("a\n"), 1);
    assert_eq!(count_lines("a\r\nb"), 2);
    assert_eq!(count_lines("\n\n"), 2);
    assert_eq!(
        charlotte::text::lines("a\r\nb\r"),
        vec!["a".to_string(), "b\r".to_string()]
    );
}

#[test]
fn tabs_pieces() {
    let tabs = Tabs::new()
        .titles(vec![" Request ".to_string(), " Response (200) ".to_string()])
        .with_spacer("-".to_string())
        .select(Some(1));
    assert_eq!(
        tabs.pieces(),
        vec![
            (" Request ".to_string(), false),
            ("-".to_string(), false),
            (" Response (200) ".to_string(), true),
        ]
    );
}

#[test]
fn bordered_text_scroll_keeps_last_line() {
    let text = BorderedText::new("1\n2\n3\n4\n5".to_string()).scroll((10, 2));
    assert_eq!(text.effective_scroll(3), (2, 2));
}

#[test]
fn text_area_fit() {
    let mut state = TextAreaState::new(0);
    let y = state.fit_to("a\nb\nc\nd", 3);
    assert_eq!(y, 0);
    assert_eq!(state.scrollbar_state.content_length, 4);
}

#[test]
fn section_titles() {
    assert_eq!(
        charlotte::http_client_screen::section_title(3, "Query Parameters"),
        "[3]\u{2500}Query Parameters"
    );
    assert_eq!(
        charlotte::http_client_screen::body_title(5, 13),
        "[5]\u{2500}Body (13 bytes)"
    );
}

#[test]
fn details_screen_boxes_and_tabs() {
    let mut screen = HttpClientScreen::new(entry_with_query("a=1"));
    let method = screen.method_box();
    assert_eq!(method.text, "POST");
    assert_eq!(method.title, Some("[1]\u{2500}Method".to_string()));
    assert!(method.is_focused);
    let url = screen.url_box();
    assert_eq!(url.text, "http://example.com/a?a=1");
    assert_eq!(url.title, Some("[2]\u{2500}URL".to_string()));
    assert!(!url.is_focused);
    let tabs = screen.tabs();
    assert_eq!(
        tabs.titles,
        vec![" Request ".to_string(), " Response (201) ".to_string()]
    );
    assert_eq!(tabs.selected, Some(0));
    screen.update(Message::HttpClientScreen(HttpClientScreenMessage::NextTab));
    assert_eq!(screen.tabs().selected, Some(1));
    screen.request_entry.response = None;
    assert_eq!(screen.tabs().titles[1], " Response () ");
    assert!(HttpClientScreen::status_text().starts_with("1-5 to select a section."));
}

#[test]
fn modal_text_boxes() {
    let confirm = ConfirmQuitModal::text_box();
    assert_eq!(confirm.text, "Are you sure you want to quit? (y/n)");
    assert_eq!(confirm.title, Some("Confirm Quit".to_string()));
    assert!(confirm.centered && confirm.is_focused);
    let error = ErrorModal::new("boom").text_box((1, 2));
    assert_eq!(error.text, "boom");
    assert_eq!(error.title, Some("Error".to_string()));
    assert_eq!(error.scroll, (1, 2));
    let shortcuts = ShortcutsModal::text_box(4);
    assert_eq!(shortcuts.title, Some("Shortcuts".to_string()));
    assert_eq!(shortcuts.scroll, (4, 0));
    assert_eq!(shortcuts.text, ShortcutsModal::text());
    let waiting = WaitingModal::new("localhost".to_string(), 8888);
    let layout = waiting.layout(300).unwrap();
    let boxed = WaitingModal::text_box(layout);
    assert_eq!(boxed.text, "Waiting for requests on localhost:8888 (press 'q' to quit)");
    assert!(boxed.centered);
}

#[test]
fn response_tab_never_shows_query_parameters() {
    let mut screen = HttpClientScreen::new(entry_with_query("a=1"));
    screen.update(Message::HttpClientScreen(HttpClientScreenMessage::SelectSection(3)));
    assert_eq!(screen.section_selected, Section::QueryParams);
    screen.update(Message::HttpClientScreen(HttpClientScreenMessage::NextTab));
    assert_eq!(screen.tab_selected, Tab::Response);
    assert_eq!(screen.section_selected, Section::Headers);
    screen.update(Message::HttpClientScreen(HttpClientScreenMessage::SelectSection(5)));
    assert_eq!(screen.section_selected, Section::Headers);
    screen.update(Message::HttpClientScreen(HttpClientScreenMessage::SelectSection(1)));
    assert_eq!(screen.section_selected, Section::Method);
    screen.update(Message::HttpClientScreen(HttpClientScreenMessage::PreviousTab));
    assert_eq!(screen.section_selected, Section::Method);
}

#[test]
fn confirm_and_cancel_answers() {
    let modal = ConfirmQuitModal::new();
    assert_eq!(modal.confirm(), Some(Message::Quit));
    assert_eq!(modal.cancel(), Some(Message::CloseModal));
}
