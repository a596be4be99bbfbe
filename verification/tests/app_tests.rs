use charlotte::app::{App, Message, Modal, ProxyEvent, Screen};
use charlotte::config::Config;
use charlotte::error::ServerError;
use charlotte::headers::HttpHeaders;
use charlotte::http_client_screen::HttpClientScreenMessage;
use charlotte::input::{Key, TerminalEvent};
use charlotte::message::{Body, Method, Request, RequestEntry, RequestId, Response, Url};
use charlotte::modals::ConfirmQuitModalMessage;
use charlotte::requests_screen::{RequestsScreenMessage, RequestsScreenState};
use charlotte::widgets::TableState;

fn app() -> App {
    let config = Config::new(
        "localhost".to_string(),
        8888,
        Some("/tmp/charlotte-tests".to_string()),
        None,
    )
    .unwrap();
    App::new(config)
}

fn request(body: &[u8]) -> Request {
    Request {
        method: Method::Get,
        url: Url::from_text("http://example.com"),
        headers: HttpHeaders::new(vec![]),
        body: Body::new(body.to_vec()),
    }
}

fn response(status: u16, body: &[u8]) -> Response {
    Response {
        status,
        headers: HttpHeaders::new(vec![]),
        body: Body::new(body.to_vec()),
    }
}

#[test]
fn handle_abort_app_with_proxy_error() {
    let mut app = app();
    let error = Ok(Err(ServerError::AcceptConnection("TEST ERROR".into())));

    let message = app.handle_abort_app(error);

    assert_eq!(message, Some(Message::Quit));
    assert_eq!(
        app.exit_error.unwrap().to_string(),
        "Failed to accept connection: TEST ERROR".to_string()
    );
}

#[test]
fn handle_abort_app_with_recv_error() {
    let mut app = app();
    let (tx, rx) = tokio::sync::oneshot::channel::<Result<(), ServerError>>();
    drop(tx);
    let error = rx.blocking_recv().unwrap_err();

    let message = app.handle_abort_app(Err(error));

    assert_eq!(message, Some(Message::Quit));
    assert_eq!(
        app.exit_error.unwrap().to_string(),
        "Server was aborted unexpectedly".to_string()
    );
}

#[test]
fn handle_abort_app_when_server_finished() {
    let mut app = app();
    assert_eq!(app.handle_abort_app(Ok(Ok(()))), None);
    assert!(app.exit_error.is_none());
    assert!(app.running);
}

#[test]
fn handle_store_request_message() {
    let mut app = app();
    let request_id = RequestId::new(1);
    let store_message = Message::StoreRequest(Box::new((request_id, request(b""))));
    let expected_message = Message::RequestEntryUpdated(Box::new(RequestEntry {
        request_id,
        request: request(b""),
        response: None,
    }));

    let message = app.update(store_message);

    assert_eq!(message, Some(expected_message));
    assert_eq!(app.request_store.len(), 1);
}

#[test]
fn handle_store_response_message() {
    let mut app = app();
    let request_id = RequestId::new(1);
    app.update(Message::StoreRequest(Box::new((request_id, request(b"")))));
    let store_message = Message::StoreResponse(Box::new((request_id, response(200, b""))));
    let expected_message = Message::RequestEntryUpdated(Box::new(RequestEntry {
        request_id,
        request: request(b""),
        response: Some(response(200, b"")),
    }));

    let message = app.update(store_message);

    assert_eq!(message, Some(expected_message));
}

#[test]
fn store_response_for_unknown_request() {
    let mut app = app();
    let message = app.update(Message::StoreResponse(Box::new((
        RequestId::new(7),
        response(404, b""),
    ))));
    assert_eq!(message, None);
    assert_eq!(app.request_store.len(), 0);
}

#[test]
fn stored_json_body_is_formatted() {
    let mut app = app();
    let message = app.update(Message::StoreRequest(Box::new((
        RequestId::new(3),
        request(br#"{"a":1}"#),
    ))));
    match message {
        Some(Message::RequestEntryUpdated(entry)) => {
            assert_eq!(entry.request.body.as_bytes(), b"{\n    \"a\": 1\n}");
        }
        other => panic!("unexpected {:?}", other),
    }
}

#[test]
fn handle_quit_message() {
    let mut app = app();
    let message = app.update(Message::Quit);

    assert_eq!(message, None);
    assert!(!app.running);
}

#[test]
fn handle_non_app_message() {
    let mut app = app();
    let non_app_message = Message::RequestsScreen(RequestsScreenMessage::SelectNextRow);

    let message = app.update(non_app_message);

    assert_eq!(
        message,
        Some(Message::StoreRequestsScreenState(Box::new(
            RequestsScreenState {
                selected_request_entry: Some(0),
                table_state: TableState::new().with_selected(Some(0)),
                ..RequestsScreenState::initial()
            }
        )))
    );
}

#[test]
fn ignore_non_key_event() {
    let app = app();
    let message = app.screen.handle_event(&TerminalEvent::Other);
    assert_eq!(message, None);
}

#[test]
fn first_request_closes_waiting_box_and_selects_it() {
    let mut app = app();
    assert!(matches!(app.modal, Some(Modal::Waiting(_))));
    app.process(Message::StoreRequest(Box::new((RequestId::new(1), request(b"x")))));
    assert!(app.modal.is_none());
    assert_eq!(app.requests_screen_state.selected_request_entry, Some(0));
    assert_eq!(app.requests_screen_state.table_scroll_state.content_length, 1);
}

#[test]
fn enter_opens_the_selected_request_and_back_returns() {
    let mut app = app();
    app.process(Message::StoreRequest(Box::new((RequestId::new(1), request(b"x")))));
    let message = app.handle_event_stream(&TerminalEvent::Key(Key::Enter));
    assert_eq!(message, Some(Message::ShowHttpClientScreen));
    app.process(message.unwrap());
    match &app.screen {
        Screen::HttpClient(screen) => assert_eq!(screen.request_entry.request_id, RequestId::new(1)),
        _ => panic!("the details screen should show"),
    }
    let message = app.handle_event_stream(&TerminalEvent::Key(Key::Backspace));
    assert_eq!(message, Some(Message::ShowRequestsScreen));
    app.process(message.unwrap());
    assert!(matches!(app.screen, Screen::Requests(_)));
}

#[test]
fn show_http_client_screen_without_selection_changes_nothing() {
    let mut app = app();
    assert_eq!(app.update(Message::ShowHttpClientScreen), None);
    assert!(matches!(app.screen, Screen::Requests(_)));
}

#[test]
fn copy_asks_for_the_clipboard() {
    let mut app = app();
    app.process(Message::StoreRequest(Box::new((RequestId::new(1), request(b"x")))));
    app.process(Message::ShowHttpClientScreen);
    app.process(Message::HttpClientScreen(HttpClientScreenMessage::CopySelectedToClipboard));
    assert_eq!(app.take_clipboard_request(), Some("GET".to_string()));
    assert_eq!(app.take_clipboard_request(), None);
}

#[test]
fn clipboard_failure_is_shown() {
    let app = app();
    assert_eq!(
        app.clipboard_failed("no display"),
        Message::ShowErrorModal("Failed to copy to clipboard: no display".to_string())
    );
}

#[test]
fn proxy_errors_become_error_boxes() {
    let app = app();
    assert_eq!(
        app.handle_proxy_message(ProxyEvent::ErrorOccurred(Some(RequestId::new(4)), "E".to_string())),
        Some(Message::ShowErrorModal("Error occurred for request 4: E".to_string()))
    );
    assert_eq!(
        app.handle_proxy_message(ProxyEvent::ErrorOccurred(None, "E".to_string())),
        Some(Message::ShowErrorModal("Error occurred: E".to_string()))
    );
    assert_eq!(app.handle_proxy_message(ProxyEvent::Other), None);
}

#[test]
fn proxy_requests_are_stored() {
    let app = app();
    assert_eq!(
        app.handle_proxy_message(ProxyEvent::RequestSent(RequestId::new(2), request(b""))),
        Some(Message::StoreRequest(Box::new((RequestId::new(2), request(b"")))))
    );
}

#[test]
fn error_box_closes_on_any_other_key() {
    let mut app = app();
    app.process(Message::ShowErrorModal("boom".to_string()));
    assert!(matches!(app.modal, Some(Modal::Error(_))));
    let message = app.handle_event_stream(&TerminalEvent::Key(Key::Enter));
    assert_eq!(message, Some(Message::CloseModal));
    app.process(message.unwrap());
    assert!(app.modal.is_none());
}

#[test]
fn confirm_quit_box_quits_on_yes() {
    let mut app = app();
    app.modal = Some(Modal::ConfirmQuit(charlotte::modals::ConfirmQuitModal::new()));
    app.process(Message::ConfirmQuitModal(ConfirmQuitModalMessage::Confirm));
    assert!(!app.running);
}

#[test]
fn processed_response_is_found_in_the_store() {
    let mut app = app();
    app.process(Message::StoreRequest(Box::new((RequestId::new(2), request(b"")))));
    app.process(Message::StoreRequest(Box::new((RequestId::new(1), request(b"x")))));
    app.process(Message::StoreResponse(Box::new((RequestId::new(2), response(204, b"")))));
    assert_eq!(app.request_store.len(), 2);
    let first = app.request_store.nth(0).unwrap();
    assert_eq!(first.request_id, RequestId::new(1));
    assert_eq!(first.response, None);
    let second = app.request_store.nth(1).unwrap();
    assert_eq!(second.request_id, RequestId::new(2));
    assert_eq!(second.response, Some(response(204, b"")));
}
