use condex::controller::{handle_api_response, handle_input, handle_mouse, Action};
use condex::events::{Event, InputEvent, KeyCode, KeyEvent, MouseEventKind, ALT, CONTROL};
use condex::llm::client::{AsyncResult, Conversation, LLMError};
use condex::llm::types::{ChatCompletionResponse, Message, Role, Usage};
use condex::widgets::body::BodyState;
use condex::widgets::input_box::{InputBoxState, Offset};

fn key(code: KeyCode, modifiers: u8) -> InputEvent {
    InputEvent::Key(KeyEvent { code, modifiers, is_press: true })
}

fn states(text: &str) -> (InputBoxState, BodyState) {
    let mut i = InputBoxState::new();
    i.text = text.to_string();
    i.max_width = 40;
    i.cursor_offset = Offset { x: text.len() as i32, y: 0 };
    let mut b = BodyState::new(5);
    b.scrollbar_state.position = 2;
    (i, b)
}

fn empty_response() -> ChatCompletionResponse {
    ChatCompletionResponse {
        id: "test".to_string(),
        request_id: None,
        created: 0,
        model: "test".to_string(),
        choices: vec![],
        usage: Usage { prompt_tokens: 0, completion_tokens: 0, total_tokens: 0, prompt_tokens_details: None },
        web_search: None,
    }
}

#[test]
fn test_event_creation() {
    let input_event = InputEvent::Key(KeyEvent { code: KeyCode::Char('a'), modifiers: 0, is_press: true });
    let event = Event::Input(input_event);
    assert!(matches!(event, Event::Input(_)));
}

#[test]
fn enter_sends_the_typed_text() {
    let (mut i, mut b) = states("Hello");
    match handle_input(key(KeyCode::Enter, 0), &mut i, &mut b) {
        Action::Send(m) => assert_eq!(m, "Hello"),
        other => panic!("unexpected {:?}", other),
    }
    assert_eq!(i.text, "");
    assert_eq!(i.cursor_offset, Offset { x: 0, y: 0 });
    assert!(b.is_loading);
}

#[test]
fn enter_sends_nothing_while_waiting_or_when_empty() {
    let (mut i, mut b) = states("Hello");
    b.is_loading = true;
    assert!(matches!(handle_input(key(KeyCode::Enter, 0), &mut i, &mut b), Action::Nothing));
    assert_eq!(i.text, "Hello");
    let (mut e, mut b2) = states("");
    assert!(matches!(handle_input(key(KeyCode::Enter, 0), &mut e, &mut b2), Action::Nothing));
    assert!(!b2.is_loading);
}

#[test]
fn alt_enter_types_a_newline() {
    let (mut i, mut b) = states("ab");
    assert!(matches!(handle_input(key(KeyCode::Enter, ALT), &mut i, &mut b), Action::Nothing));
    assert_eq!(i.text, "ab\n");
    assert_eq!(i.cursor_offset, Offset { x: 0, y: 1 });
}

#[test]
fn ctrl_c_quits_and_c_types() {
    let (mut i, mut b) = states("");
    assert!(matches!(handle_input(key(KeyCode::Char('c'), CONTROL), &mut i, &mut b), Action::Terminate));
    assert_eq!(i.text, "");
    assert!(matches!(handle_input(key(KeyCode::Char('c'), 0), &mut i, &mut b), Action::Nothing));
    assert_eq!(i.text, "c");
}

#[test]
fn keys_scroll_and_delete() {
    let (mut i, mut b) = states("xy");
    handle_input(key(KeyCode::Down, 0), &mut i, &mut b);
    assert_eq!(b.scrollbar_state.position, 3);
    handle_input(key(KeyCode::Up, 0), &mut i, &mut b);
    handle_input(key(KeyCode::Up, 0), &mut i, &mut b);
    assert_eq!(b.scrollbar_state.position, 1);
    handle_input(key(KeyCode::Backspace, 0), &mut i, &mut b);
    assert_eq!(i.text, "x");
    handle_input(key(KeyCode::Other, 0), &mut i, &mut b);
    assert_eq!(i.text, "x");
}

#[test]
fn released_keys_and_resizes_are_ignored() {
    let (mut i, mut b) = states("xy");
    let release = InputEvent::Key(KeyEvent { code: KeyCode::Char('z'), modifiers: 0, is_press: false });
    assert!(matches!(handle_input(release, &mut i, &mut b), Action::Nothing));
    assert!(matches!(handle_input(InputEvent::Resize(80, 24), &mut i, &mut b), Action::Nothing));
    assert_eq!(i.text, "xy");
    assert_eq!(b.scrollbar_state.position, 2);
}

#[test]
fn the_mouse_wheel_scrolls() {
    let (mut i, mut b) = states("");
    handle_input(InputEvent::Mouse(MouseEventKind::ScrollDown), &mut i, &mut b);
    assert_eq!(b.scrollbar_state.position, 3);
    handle_mouse(MouseEventKind::ScrollUp, &mut b);
    assert_eq!(b.scrollbar_state.position, 2);
    handle_mouse(MouseEventKind::Other, &mut b);
    assert_eq!(b.scrollbar_state.position, 2);
}

#[test]
fn a_reply_ends_the_wait_and_refreshes_the_view() {
    let mut conv = Conversation::new((), "System".to_string());
    let (_, mut b) = states("");
    b.is_loading = true;
    let result = AsyncResult::Success {
        user_message: Message::new(Role::User, "Hello".to_string()),
        assistant_message: Message::new(Role::Assistant, "Hi".to_string()),
        full_response: empty_response(),
    };
    assert_eq!(handle_api_response(result, &mut conv, &mut b).unwrap(), "Hi");
    assert!(!b.is_loading);
    assert_eq!(b.history.len(), 3);
    assert_eq!(b.history[2].role, Role::Assistant);
}

#[test]
fn a_failed_request_ends_the_wait_and_keeps_the_view() {
    let mut conv = Conversation::new((), "System".to_string());
    let (_, mut b) = states("");
    b.is_loading = true;
    let out = handle_api_response(AsyncResult::Error(LLMError::RequestError("down".to_string())), &mut conv, &mut b);
    assert_eq!(out.unwrap_err().to_string(), "Request error: down");
    assert!(!b.is_loading);
    assert!(b.history.is_empty());
    assert_eq!(conv.messages().len(), 1);
}
