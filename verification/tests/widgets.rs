use condex::llm::types::{MediaUrl, Message, MessageContent, MultimodalContentItem, Role};
use condex::widgets::body::{extract_content, Body, BodyState};
use condex::widgets::input_box::{InputBox, InputBoxState, Mode, Offset};
use condex::widgets::message;
use condex::widgets::message::Alignment;
use condex::widgets::scrollbar::{ScrollDirection, ScrollbarState};
use condex::widgets::title::Title;

fn input(text: &str, max_width: usize, x: i32, y: i32) -> InputBoxState {
    let mut s = InputBoxState::new();
    s.text = text.to_string();
    s.max_width = max_width;
    s.cursor_offset = Offset { x, y };
    s
}

#[test]
fn widgets_are_built_from_their_parts() {
    let _ = Body::new();
    let _ = InputBox::new();
    let t = Title::new("Condex".to_string(), 80, 3);
    assert_eq!(t.title, "Condex");
    assert_eq!(t.width, 80);
    assert_eq!(t.hight, 3);
    let m = message::Message::new(Role::User, "hi".to_string());
    assert_eq!(m.role, Role::User);
    assert_eq!(m.content, "hi");
}

#[test]
fn a_new_input_box_is_empty() {
    let s = InputBoxState::new();
    assert_eq!(s.text, "");
    assert_eq!(s.mode, Mode::Normal);
    assert_eq!(s.max_width, 0);
    assert_eq!(s.cursor_offset, Offset { x: 0, y: 0 });
}

#[test]
fn typing_moves_the_cursor() {
    let mut s = input("", 10, 0, 0);
    s.insert_char('a');
    s.insert_char('b');
    assert_eq!(s.text, "ab");
    assert_eq!(s.cursor_offset, Offset { x: 2, y: 0 });
    s.insert_char('\n');
    assert_eq!(s.text, "ab\n");
    assert_eq!(s.cursor_offset, Offset { x: 0, y: 1 });
}

#[test]
fn a_full_line_breaks() {
    let mut s = input("abc", 4, 3, 0);
    s.insert_char('d');
    assert_eq!(s.text, "abcd\n");
    assert_eq!(s.cursor_offset, Offset { x: 0, y: 1 });
    s.insert_char('e');
    assert_eq!(s.text, "abcd\ne");
    assert_eq!(s.cursor_offset, Offset { x: 1, y: 1 });
}

#[test]
fn width_counts_bytes() {
    // 'é' takes two bytes: two of them fill a width of four.
    let mut s = input("é", 4, 1, 0);
    s.insert_char('é');
    assert_eq!(s.text, "éé\n");
    assert_eq!(s.cursor_offset, Offset { x: 0, y: 1 });
}

#[test]
fn with_zero_width_every_character_breaks() {
    let mut s = input("", 0, 0, 0);
    s.insert_char('x');
    assert_eq!(s.text, "x\n");
    s.insert_char('\n');
    assert_eq!(s.text, "x\n\n");
}

#[test]
fn deleting_goes_back() {
    let mut s = input("ab", 10, 2, 0);
    s.clear_last_char();
    assert_eq!(s.text, "a");
    assert_eq!(s.cursor_offset, Offset { x: 1, y: 0 });
    let mut e = input("", 10, 0, 0);
    e.clear_last_char();
    assert_eq!(e.text, "");
    assert_eq!(e.cursor_offset, Offset { x: 0, y: 0 });
}

#[test]
fn deleting_a_newline_goes_to_the_end_of_the_line_above() {
    let mut s = input("hello\n", 10, 0, 1);
    s.clear_last_char();
    assert_eq!(s.text, "hello");
    assert_eq!(s.cursor_offset, Offset { x: 5, y: 0 });
    // The column is the byte length of the line, as `str::len` counts it.
    let mut u = input("héllo\n", 10, 0, 1);
    u.clear_last_char();
    assert_eq!(u.cursor_offset, Offset { x: 6, y: 0 });
    // A line that ends with a newline itself is the last line.
    let mut v = input("a\nbc\n\n", 10, 0, 3);
    v.clear_last_char();
    assert_eq!(v.text, "a\nbc\n");
    assert_eq!(v.cursor_offset, Offset { x: 2, y: 2 });
    // A carriage return before the newline is no part of the line.
    let mut w = input("ab\r\n\n", 10, 0, 2);
    w.clear_last_char();
    assert_eq!(w.cursor_offset, Offset { x: 2, y: 1 });
    // Nothing left: column 0.
    let mut z = input("\n", 10, 0, 1);
    z.clear_last_char();
    assert_eq!(z.text, "");
    assert_eq!(z.cursor_offset, Offset { x: 0, y: 0 });
}

#[test]
fn typing_then_deleting_restores_the_box() {
    let mut s = input("abc", 10, 3, 0);
    s.insert_char('d');
    s.clear_last_char();
    assert_eq!(s.text, "abc");
    assert_eq!(s.cursor_offset, Offset { x: 3, y: 0 });
}

#[test]
fn fitting_the_width_leaves_two_cells() {
    let mut s = InputBoxState::new();
    s.fit_width(20);
    assert_eq!(s.max_width, 18);
    s.fit_width(1);
    assert_eq!(s.max_width, 0);
}

#[test]
fn scrollbar_steps() {
    let mut s = ScrollbarState::new(3);
    assert_eq!(s.get_position(), 0);
    s.scroll(ScrollDirection::Backward);
    assert_eq!(s.get_position(), 0);
    s.scroll(ScrollDirection::Forward);
    s.scroll(ScrollDirection::Forward);
    s.scroll(ScrollDirection::Forward);
    assert_eq!(s.get_position(), 2);
    s.first();
    assert_eq!(s.get_position(), 0);
    s.last();
    assert_eq!(s.get_position(), 2);
    let e = ScrollbarState::new(0).position(5).viewport_content_length(4);
    assert_eq!(e.position, 5);
    assert_eq!(e.viewport_content_length, 4);
    let mut e2 = e;
    e2.next();
    assert_eq!(e2.position, 0);
}

#[test]
fn a_new_body_is_scrolled_to_the_end() {
    let b = BodyState::new(10);
    assert!(b.history.is_empty());
    assert!(!b.is_loading);
    assert!(!b.is_modifying);
    assert_eq!(b.scrollbar_state, ScrollbarState { content_length: 10, position: 9, viewport_content_length: 0 });
    let e = BodyState::new(0);
    assert_eq!(e.scrollbar_state.position, 0);
}

#[test]
fn content_text_joins_text_items() {
    assert_eq!(extract_content(&MessageContent::Text("plain".to_string())), "plain");
    let mixed = MessageContent::Multimodal(vec![
        MultimodalContentItem::ImageUrl { image_url: MediaUrl { url: "https://x/y.png".to_string() } },
        MultimodalContentItem::Text { text: "What do you".to_string() },
        MultimodalContentItem::Text { text: "see?".to_string() },
    ]);
    assert_eq!(extract_content(&mixed), "What do you see?");
    assert_eq!(extract_content(&MessageContent::Multimodal(vec![])), "");
}

fn history(n: usize) -> Vec<Message> {
    (0..n)
        .map(|i| Message::new(if i % 2 == 0 { Role::User } else { Role::Assistant }, format!("m{}", i)))
        .collect()
}

#[test]
fn the_view_shows_the_newest_rows_that_fit() {
    let mut b = BodyState::new(0);
    b.history = history(5);
    b.scrollbar_state = ScrollbarState::new(0).position(100);
    let shown = Body::visible_messages(&mut b, 3);
    let texts: Vec<&str> = shown.iter().map(|m| m.content.as_str()).collect();
    assert_eq!(texts, vec!["m2", "m3", "m4"]);
    assert_eq!(b.scrollbar_state, ScrollbarState { content_length: 5, position: 2, viewport_content_length: 3 });
}

#[test]
fn scrolling_back_shows_older_rows() {
    let mut b = BodyState::new(0);
    b.history = history(5);
    b.scrollbar_state = ScrollbarState::new(0).position(0);
    let shown = Body::visible_messages(&mut b, 3);
    let texts: Vec<&str> = shown.iter().map(|m| m.content.as_str()).collect();
    assert_eq!(texts, vec!["m0", "m1", "m2"]);
    b.scrollbar_state.position = 1;
    let shown = Body::visible_messages(&mut b, 3);
    let texts: Vec<&str> = shown.iter().map(|m| m.content.as_str()).collect();
    assert_eq!(texts, vec!["m1", "m2", "m3"]);
}

#[test]
fn while_loading_a_thinking_row_follows() {
    let mut b = BodyState::new(0);
    b.history = history(1);
    b.is_loading = true;
    let shown = Body::visible_messages(&mut b, 10);
    assert_eq!(shown.len(), 2);
    assert_eq!(shown[1].role, Role::Assistant);
    assert_eq!(shown[1].content, "\u{25CF} Thinking...");
    assert_eq!(b.scrollbar_state.content_length, 2);
    assert_eq!(b.scrollbar_state.position, 0);
}

#[test]
fn message_height_counts_lines() {
    assert_eq!(message::Message::new(Role::User, "".to_string()).height(), 0);
    assert_eq!(message::Message::new(Role::User, "one".to_string()).height(), 1);
    assert_eq!(message::Message::new(Role::User, "one\ntwo".to_string()).height(), 2);
    assert_eq!(message::Message::new(Role::User, "one\ntwo\n".to_string()).height(), 2);
    assert_eq!(message::Message::new(Role::User, "\n\n".to_string()).height(), 2);
}

#[test]
fn messages_are_aligned_by_role() {
    assert_eq!(message::Message::new(Role::User, "a".to_string()).alignment(), Some(Alignment::Right));
    assert_eq!(message::Message::new(Role::Assistant, "a".to_string()).alignment(), Some(Alignment::Left));
    assert_eq!(message::Message::new(Role::System, "a".to_string()).alignment(), None);
    assert_eq!(message::Message::new(Role::Tool, "a".to_string()).alignment(), None);
}

#[test]
fn overflow_checks_before_editing() {
    let s = input("ab", 10, i32::MAX, 0);
    assert!(!s.can_insert('x'));
    assert!(s.can_insert('\n'));
    let t = input("abc", 4, 3, i32::MAX);
    assert!(!t.can_insert('d'));
    assert!(t.can_insert('\n') == false);
    let u = input("ab", 10, 2, i32::MAX);
    assert!(u.can_insert('c'));
    let v = input("a\n", 10, 0, i32::MIN);
    assert!(!v.can_clear());
    let w = input("ab", 10, i32::MIN, 0);
    assert!(!w.can_clear());
    assert!(input("", 10, i32::MIN, i32::MIN).can_clear());
}

#[test]
fn laying_out_twice_changes_nothing() {
    let mut b = BodyState::new(0);
    b.history = history(6);
    b.scrollbar_state = ScrollbarState::new(0).position(40);
    let first: Vec<String> = Body::visible_messages(&mut b, 4).into_iter().map(|m| m.content).collect();
    let sb = b.scrollbar_state;
    let second: Vec<String> = Body::visible_messages(&mut b, 4).into_iter().map(|m| m.content).collect();
    assert_eq!(first, second);
    assert_eq!(sb, b.scrollbar_state);
    assert_eq!(first, vec!["m2", "m3", "m4", "m5"]);
}
