use pi_agent::chat_widget::{ChatMessage, ChatWidget};
use pi_agent::event::{Event, KeyCode, KeyEvent, KeyModifiers};
use pi_agent::input_widget::InputWidget;
use pi_agent::state::{AgentState, StateStore};
use pi_agent::status_widget::{StatusLevel, StatusWidget};
use pi_agent::text_widget::TextWidget;

fn key(code: KeyCode) -> Event {
    Event::Key(KeyEvent { code, modifiers: KeyModifiers::default() })
}

#[test]
fn chat_widget_trims_past_its_bound() {
    let mut chat = ChatWidget::new().with_max_messages(2);
    for i in 0..5 {
        chat.add_message(ChatMessage {
            sender: "You".to_string(),
            content: format!("m{}", i),
            timestamp: String::new(),
            is_user: true,
        });
    }
    assert_eq!(chat.message_count(), 2);
    assert_eq!(chat.messages()[0].content, "m3");
    assert_eq!(chat.messages()[1].content, "m4");
    chat.clear();
    assert_eq!(chat.message_count(), 0);
}

#[test]
fn chat_widget_labels_speakers() {
    let mut chat = ChatWidget::new();
    chat.add_user_message("hi");
    chat.add_ai_message("hello");
    assert_eq!(chat.messages()[0].sender, "You");
    assert!(chat.messages()[0].is_user);
    assert_eq!(chat.messages()[1].sender, "AI");
    assert!(!chat.messages()[1].is_user);
}

#[test]
fn input_widget_edits_at_the_cursor() {
    let mut input = InputWidget::new().with_initial_value("helo");
    input.move_cursor_left();
    input.insert_char('l');
    assert_eq!(input.value_text(), "hello");
    assert_eq!(input.get_cursor_position(), 4);
    input.move_cursor_to_end();
    input.delete_char();
    assert_eq!(input.value_text(), "hell");
    input.move_cursor_to_start();
    input.delete_char_forward();
    assert_eq!(input.value_text(), "ell");
    input.delete_char();
    assert_eq!(input.value_text(), "ell");
}

#[test]
fn input_widget_honours_its_length_bound() {
    let mut input = InputWidget::new().with_max_length(3);
    for c in ['a', 'b', 'c', 'd'] {
        input.insert_char(c);
    }
    assert_eq!(input.value_text(), "abc");
}

#[test]
fn input_widget_moves_by_words() {
    let mut input = InputWidget::new().with_initial_value("one  two three");
    input.move_cursor_word_left();
    assert_eq!(input.get_cursor_position(), 9);
    input.move_cursor_word_left();
    assert_eq!(input.get_cursor_position(), 5);
    input.move_cursor_word_left();
    assert_eq!(input.get_cursor_position(), 0);
    input.move_cursor_word_right();
    assert_eq!(input.get_cursor_position(), 5);
    input.move_cursor_word_right();
    assert_eq!(input.get_cursor_position(), 9);
}

#[test]
fn input_widget_history_walks_submissions() {
    let mut input = InputWidget::new();
    for text in ["first", "second"] {
        for c in text.chars() {
            input.insert_char(c);
        }
        let submitted = input.submit();
        assert_eq!(submitted, text);
    }
    assert!(input.is_empty());
    input.history_prev();
    assert_eq!(input.value_text(), "second");
    input.history_prev();
    assert_eq!(input.value_text(), "first");
    input.history_next();
    assert_eq!(input.value_text(), "second");
    input.history_next();
    assert_eq!(input.value_text(), "");
}

#[test]
fn input_widget_takes_events_only_when_active() {
    let mut input = InputWidget::new();
    assert!(!input.handle_event(&key(KeyCode::Char('x'))));
    assert_eq!(input.value_text(), "");
    input.activate();
    assert!(input.handle_event(&key(KeyCode::Char('x'))));
    assert!(input.handle_event(&key(KeyCode::Tab)));
    assert_eq!(input.value_text(), "x\t");
    assert!(input.handle_event(&key(KeyCode::Backspace)));
    assert_eq!(input.value_text(), "x");
    assert!(!input.handle_event(&key(KeyCode::Esc)));
    input.deactivate();
    assert!(!input.handle_event(&key(KeyCode::Char('y'))));
}

#[test]
fn text_widget_scrolls_within_bounds() {
    let mut text = TextWidget::new().with_content("a\nb\nc").with_title("Log");
    assert!(!text.is_empty());
    assert_eq!(text.content(), "a\nb\nc");
    text.scroll_down(3);
    text.scroll_up(1);
    text.handle_event(&key(KeyCode::Up));
    text.handle_event(&key(KeyCode::Home));
    text.set_content("x");
    assert_eq!(text.content(), "x");
    let mut fixed = TextWidget::new().with_scrollable(false);
    assert!(!fixed.handle_event(&key(KeyCode::Down)));
}

#[test]
fn text_widget_end_key_scrolls_to_the_last_viewport() {
    let mut lines = String::new();
    for i in 0..30 {
        lines.push_str(&format!("line {}\n", i));
    }
    let mut text = TextWidget::new().with_content(&lines);
    assert!(text.handle_event(&key(KeyCode::End)));
    // 30 lines against a 20-line viewport leaves an offset of 10.
    let mut expect = TextWidget::new().with_content(&lines);
    expect.scroll_to_bottom(30);
    assert_eq!(text.content(), expect.content());
}

#[test]
fn status_widget_keeps_the_latest_items() {
    let mut status = StatusWidget::new().with_max_items(2);
    status.info("one");
    status.success("two");
    status.warning("three");
    let items = status.items();
    assert_eq!(items.len(), 2);
    assert_eq!(items[0].message, "two");
    assert_eq!(items[0].level, StatusLevel::Success);
    assert_eq!(items[1].message, "three");
    assert_eq!(items[1].level, StatusLevel::Warning);
    assert_eq!(status.level_to_string(&StatusLevel::Error), "ERROR");
    status.clear();
    assert!(status.items().is_empty());
}

#[test]
fn state_store_tracks_agents_by_identity() {
    let mut store = StateStore::new();
    let mut state = AgentState::new("agent-1");
    state.set("mood", serde_json::Value::String("calm".to_string()));
    assert!(state.contains_key("mood"));
    store.set(state);
    let held = store.get("agent-1").expect("stored state is found");
    assert_eq!(
        held.get("mood"),
        Some(&serde_json::Value::String("calm".to_string()))
    );
    assert!(store.get("agent-2").is_none());
    assert_eq!(store.list_ids(), vec!["agent-1".to_string()]);
    store.remove("agent-1");
    assert!(store.get("agent-1").is_none());
}

#[test]
fn agent_state_updates_monotonically() {
    let mut state = AgentState::new("a");
    let t0 = state.updated_at;
    state.set("k", serde_json::Value::Null);
    assert!(state.updated_at >= t0);
    state.remove("k");
    assert!(!state.contains_key("k"));
    assert_eq!(state.created_at <= state.updated_at, true);
}
