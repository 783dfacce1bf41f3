use msgvault::compose::{format_quoted_body, ComposeMode, ComposeState};
use msgvault::thread::ThreadState;
use msgvault::types::MessageDetail;

#[test]
fn quoted_body_marks_every_line() {
    assert_eq!(
        format_quoted_body("alice@x", "Feb 03, 2001 at 04:05", "line one\nline two"),
        "On Feb 03, 2001 at 04:05, alice@x wrote:\n> line one\n> line two\n"
    );
    assert_eq!(
        format_quoted_body("a", "d", ""),
        "On d, a wrote:\n"
    );
    assert_eq!(
        format_quoted_body("a", "d", "x\r\ny"),
        "On d, a wrote:\n> x\n> y\n"
    );
}

#[test]
fn reply_subject_prefixes_once() {
    let r = ComposeState::open_reply(
        "me@x".to_string(),
        1,
        "them@y".to_string(),
        "Hello".to_string(),
        "quoted".to_string(),
    );
    assert_eq!(r.subject, "Re: Hello");
    assert_eq!(r.mode, ComposeMode::Reply);
    assert_eq!(r.to, vec!["them@y".to_string()]);
    assert_eq!(r.body, "\n\nquoted");

    let again = ComposeState::open_reply(
        "me@x".to_string(),
        1,
        "them@y".to_string(),
        "RE: Hello".to_string(),
        "q".to_string(),
    );
    assert_eq!(again.subject, "RE: Hello");
}

#[test]
fn forward_subject_prefixes_once() {
    let f = ComposeState::open_forward(
        "me@x".to_string(),
        2,
        "News".to_string(),
        "content".to_string(),
    );
    assert_eq!(f.subject, "Fwd: News");
    assert_eq!(f.body, "\n\n---------- Forwarded message ----------\ncontent");
    let again = ComposeState::open_forward(
        "me@x".to_string(),
        2,
        "fwd: News".to_string(),
        "content".to_string(),
    );
    assert_eq!(again.subject, "fwd: News");
}

#[test]
fn recipients_deduplicate_and_close_keeps_account() {
    let mut c = ComposeState::open_new("me@x".to_string());
    assert!(c.is_open);
    c.add_to("a@b".to_string());
    c.add_to("a@b".to_string());
    c.add_to("".to_string());
    assert_eq!(c.to, vec!["a@b".to_string()]);
    assert!(c.is_dirty);
    assert!(c.can_send());
    c.remove_to(0);
    assert!(c.to.is_empty());
    assert!(!c.can_send());

    c.add_cc("c@d".to_string());
    assert!(c.has_content());
    c.close();
    assert!(!c.is_open);
    assert!(!c.has_content());
    assert_eq!(c.from_account, "me@x");
}

#[test]
fn toggle_expanded_twice_restores() {
    let mut t = ThreadState::new();
    let msg = MessageDetail {
        id: 1,
        subject: "s".to_string(),
        from_addr: "a@b".to_string(),
        to: vec![],
        cc: vec![],
        bcc: vec![],
        sent_at: 0,
        body: "b".to_string(),
        labels: vec![],
        attachments: vec![],
        thread_id: None,
    };
    t.load_messages("t1".to_string(), vec![msg.clone(), msg]);
    let before = vec![t.is_expanded(0), t.is_expanded(1)];
    t.toggle_expanded(1);
    t.toggle_expanded(1);
    assert_eq!(vec![t.is_expanded(0), t.is_expanded(1)], before);
}
