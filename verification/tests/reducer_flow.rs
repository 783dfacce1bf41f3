use msgvault::command::{ApiCall, Command};
use msgvault::message::Message;
use msgvault::navigation::ViewLevel;
use msgvault::settings::Settings;
use msgvault::state::AppState;
use msgvault::types::{OAuthInitResponse, SortField, ViewType};
use msgvault::update::handle;

fn fresh_state() -> AppState {
    AppState::new(&Settings::default())
}

#[test]
fn previous_page_at_offset_zero_is_noop() {
    let mut state = fresh_state();
    state.messages_offset = 0;
    state.messages_total = 500;
    let cmds = handle(&mut state, Message::PreviousPage);
    assert_eq!(state.messages_offset, 0);
    assert_eq!(cmds.len(), 0);
}

#[test]
fn next_page_at_end_is_noop() {
    let mut state = fresh_state();
    state.messages_offset = 100;
    state.messages_limit = 50;
    state.messages_total = 150;
    let cmds = handle(&mut state, Message::NextPage);
    assert_eq!(state.messages_offset, 100);
    assert_eq!(cmds.len(), 0);
}

#[test]
fn next_page_advances_and_refetches() {
    let mut state = fresh_state();
    state.messages_offset = 0;
    state.messages_limit = 50;
    state.messages_total = 200;
    state.filter_type = "senders".to_string();
    state.filter_value = "a@b".to_string();
    let cmds = handle(&mut state, Message::NextPage);
    assert_eq!(state.messages_offset, 50);
    assert_eq!(cmds.len(), 1);
    match &cmds[0] {
        Command::Emit(Message::FetchMessages { filter_type, filter_value }) => {
            assert_eq!(filter_type, "senders");
            assert_eq!(filter_value, "a@b");
        },
        other => panic!("unexpected command: {:?}", other),
    }
}

#[test]
fn previous_page_clamps_at_zero() {
    let mut state = fresh_state();
    state.messages_offset = 30;
    state.messages_limit = 50;
    state.messages_total = 200;
    let cmds = handle(&mut state, Message::PreviousPage);
    assert_eq!(state.messages_offset, 0);
    assert_eq!(cmds.len(), 1);
}

#[test]
fn sort_toggle_triggers_refetch() {
    let mut state = fresh_state();
    state.navigation.push(ViewLevel::Aggregates { view_type: ViewType::Senders });
    state.sort_field = SortField::Count;
    let cmds = handle(&mut state, Message::ToggleSortField);
    assert_eq!(state.sort_field, SortField::Size);
    assert_eq!(cmds.len(), 1);
    assert!(matches!(
        cmds[0],
        Command::Emit(Message::FetchAggregates(ViewType::Senders))
    ));
}

#[test]
fn cancel_then_restart_add_account_is_fresh() {
    let mut state = fresh_state();
    state.server_url = "http://localhost:8080".to_string();
    state.add_account_email = "old@example.com".to_string();
    state.adding_account = true;
    state.polling_device_flow = true;
    state.oauth_response = Some(OAuthInitResponse {
        auth_url: "http://stale".to_string(),
        device_flow: true,
        user_code: Some("STALE-CODE".to_string()),
        verification_url: Some("http://stale/verify".to_string()),
        poll_interval: Some(5),
    });

    let cmds = handle(&mut state, Message::CancelAddAccount);
    assert_eq!(cmds.len(), 0);
    assert!(!state.adding_account);
    assert!(!state.polling_device_flow);
    assert!(state.oauth_response.is_none());
    assert_eq!(state.add_account_email, "");

    let cmds = handle(
        &mut state,
        Message::AddAccountEmailChanged("new@example.com".to_string()),
    );
    assert_eq!(cmds.len(), 0);

    let cmds = handle(&mut state, Message::StartAddAccount);
    assert!(state.adding_account);
    assert!(!state.polling_device_flow);
    assert!(state.oauth_response.is_none());
    assert_eq!(cmds.len(), 1);
    match &cmds[0] {
        Command::Http { base_url, api_key, call } => {
            assert_eq!(base_url, "http://localhost:8080");
            assert!(api_key.is_none());
            match call {
                ApiCall::InitiateOauth { email } => assert_eq!(email, "new@example.com"),
                other => panic!("unexpected call: {:?}", other),
            }
        },
        other => panic!("unexpected command: {:?}", other),
    }
}

#[test]
fn drill_down_pushes_filtered_messages_view() {
    let mut state = fresh_state();
    state.server_url = "http://localhost:8080".to_string();
    state.navigation.push(ViewLevel::Aggregates { view_type: ViewType::Domains });
    state.aggregates = vec![msgvault::types::AggregateRow {
        key: "acme.com".to_string(),
        count: 5,
        total_size: 100,
        attachment_size: 0,
        attachment_count: 0,
        total_unique: 5,
    }];
    state.selected_index = 0;
    let cmds = handle(&mut state, Message::DrillDown);
    match state.navigation.current() {
        ViewLevel::Messages { filter_description } => {
            assert_eq!(filter_description, "Domains: acme.com");
        },
        other => panic!("unexpected view: {:?}", other),
    }
    assert_eq!(state.messages_offset, 0);
    assert_eq!(cmds.len(), 1);
    match &cmds[0] {
        Command::Emit(Message::FetchMessages { filter_type, filter_value }) => {
            assert_eq!(filter_type, "domains");
            assert_eq!(filter_value, "acme.com");
        },
        other => panic!("unexpected command: {:?}", other),
    }
}

#[test]
fn health_success_fans_out() {
    let mut state = fresh_state();
    let cmds = handle(
        &mut state,
        Message::HealthChecked(Ok(msgvault::types::HealthResponse { status: "ok".to_string() })),
    );
    assert!(state.is_connected());
    assert_eq!(cmds.len(), 2);
    assert!(matches!(cmds[0], Command::Emit(Message::FetchStats)));
    assert!(matches!(cmds[1], Command::Emit(Message::FetchSyncStatus)));
}

#[test]
fn health_failure_records_reason() {
    let mut state = fresh_state();
    let cmds = handle(
        &mut state,
        Message::HealthChecked(Err(msgvault::error::AppError::ConnectionFailed(
            "refused".to_string(),
        ))),
    );
    assert_eq!(cmds.len(), 0);
    match &state.connection_status {
        msgvault::state::ConnectionStatus::Failed(reason) => {
            assert_eq!(reason, "Connection failed: refused");
        },
        other => panic!("unexpected status: {:?}", other),
    }
}

#[test]
fn toggle_selection_follows_current_view() {
    let mut state = fresh_state();
    state.navigation.push(ViewLevel::Messages { filter_description: "all".to_string() });
    state.messages = vec![msgvault::types::MessageSummary {
        id: 7,
        subject: "s".to_string(),
        snippet: "x".to_string(),
        from_email: "a@b".to_string(),
        from_name: None,
        sent_at: 0,
        size_bytes: 1,
        has_attachments: false,
        labels: vec![],
    }];
    state.message_selected_index = 0;
    handle(&mut state, Message::ToggleSelection);
    assert!(state.selected_messages.contains(7));
    handle(&mut state, Message::ToggleSelection);
    assert!(!state.selected_messages.contains(7));
}
