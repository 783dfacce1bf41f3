use msgvault::thread::ThreadState;
use msgvault::types::MessageDetail;

fn mock_message(id: i64) -> MessageDetail {
    MessageDetail {
        id,
        subject: format!("Message {}", id),
        from_addr: "test@example.com".to_string(),
        to: vec!["recipient@example.com".to_string()],
        cc: vec![],
        bcc: vec![],
        sent_at: 1_000_000_000,
        body: format!("Body of message {}", id),
        labels: vec![],
        attachments: vec![],
        thread_id: Some("thread123".to_string()),
    }
}

#[test]
fn test_new_thread_state() {
    let state = ThreadState::new();
    assert!(state.thread_id.is_none());
    assert!(state.messages.is_empty());
    assert_eq!(state.focused_index, 0);
    assert!(!state.is_loading);
}

#[test]
fn test_load_messages() {
    let mut state = ThreadState::new();
    let messages = vec![mock_message(1), mock_message(2), mock_message(3)];

    state.load_messages("thread123".to_string(), messages);

    assert_eq!(state.thread_id, Some("thread123".to_string()));
    assert_eq!(state.messages.len(), 3);
    assert_eq!(state.expanded.len(), 3);
    // the most recent message is expanded
    assert!(!state.is_expanded(0));
    assert!(!state.is_expanded(1));
    assert!(state.is_expanded(2));
    assert_eq!(state.focused_index, 2);
}

#[test]
fn test_toggle_expanded() {
    let mut state = ThreadState::new();
    let messages = vec![mock_message(1), mock_message(2)];
    state.load_messages("thread123".to_string(), messages);

    assert!(!state.is_expanded(0));
    state.toggle_expanded(0);
    assert!(state.is_expanded(0));
    state.toggle_expanded(0);
    assert!(!state.is_expanded(0));
}

#[test]
fn test_expand_collapse_all() {
    let mut state = ThreadState::new();
    let messages = vec![mock_message(1), mock_message(2), mock_message(3)];
    state.load_messages("thread123".to_string(), messages);

    state.expand_all();
    assert!(state.is_expanded(0));
    assert!(state.is_expanded(1));
    assert!(state.is_expanded(2));

    state.collapse_all();
    assert!(!state.is_expanded(0));
    assert!(!state.is_expanded(1));
    assert!(!state.is_expanded(2));
}

#[test]
fn test_focus_navigation() {
    let mut state = ThreadState::new();
    let messages = vec![mock_message(1), mock_message(2), mock_message(3)];
    state.load_messages("thread123".to_string(), messages);

    assert_eq!(state.focused_index, 2);

    state.focus_previous();
    assert_eq!(state.focused_index, 1);

    state.focus_previous();
    assert_eq!(state.focused_index, 0);

    // does not go below the first message
    state.focus_previous();
    assert_eq!(state.focused_index, 0);

    state.focus_next();
    assert_eq!(state.focused_index, 1);

    state.focus_next();
    assert_eq!(state.focused_index, 2);

    // does not go beyond the last message
    state.focus_next();
    assert_eq!(state.focused_index, 2);
}
