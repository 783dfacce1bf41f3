use msgvault::error::AppError;
use msgvault::numfmt::{format_bytes, format_count, format_number, i64_to_string};
use msgvault::timefmt::{format_datetime, friendly_timestamp, most_recent_sync_label};
use msgvault::types::{AccountSyncStatus, SyncState};

#[test]
fn numbers_with_separators() {
    assert_eq!(format_number(0), "0");
    assert_eq!(format_number(999), "999");
    assert_eq!(format_number(1000), "1,000");
    assert_eq!(format_number(1234567), "1,234,567");
    assert_eq!(format_count(999), "999");
    assert_eq!(format_count(-5), "-5");
    assert_eq!(format_count(1000), "1,000");
    assert_eq!(i64_to_string(-42), "-42");
}

#[test]
fn byte_sizes() {
    assert_eq!(format_bytes(500), "500 B");
    assert_eq!(format_bytes(1024), "1.0 KB");
    assert_eq!(format_bytes(1536), "1.5 KB");
    assert_eq!(format_bytes(5 * 1024 * 1024), "5.0 MB");
    assert_eq!(format_bytes(1024 * 1024 * 1024), "1.0 GB");
}

#[test]
fn error_messages() {
    assert_eq!(
        AppError::ConnectionFailed("refused".to_string()).message(),
        "Connection failed: refused"
    );
    assert_eq!(
        AppError::ApiError { status: 404, message: "missing".to_string() }.message(),
        "API error (404): missing"
    );
    assert_eq!(
        AppError::ConfigError("no dir".to_string()).message(),
        "Configuration error: no dir"
    );
    assert_eq!(
        AppError::RequestFailed("timeout".to_string()).message(),
        "Request failed: timeout"
    );
}

#[test]
fn datetime_rendering() {
    // the epoch, rendered in UTC
    assert_eq!(format_datetime(0), "Jan 01, 1970 at 00:00");
    assert_eq!(format_datetime(981173106), "Feb 03, 2001 at 04:05");
}

#[test]
fn friendly_ages() {
    let base = 981173106;
    assert_eq!(friendly_timestamp("2001-02-03T04:05:06Z", base + 10), "just now");
    assert_eq!(friendly_timestamp("2001-02-03T04:05:06Z", base + 120), "2m ago");
    assert_eq!(friendly_timestamp("2001-02-03T04:05:06Z", base + 7200), "2h ago");
    assert_eq!(friendly_timestamp("2001-02-03T04:05:06Z", base + 3 * 86400), "3d ago");
    // an unparsable stamp falls back to its first sixteen characters
    assert_eq!(friendly_timestamp("yesterday sometime, roughly", 0), "yesterday someti");
}

fn account(email: &str, last_sync_at: Option<&str>) -> AccountSyncStatus {
    AccountSyncStatus {
        email: email.to_string(),
        display_name: None,
        status: SyncState::Idle,
        last_sync_at: last_sync_at.map(|s| s.to_string()),
        next_sync_at: None,
        messages_synced: None,
        error: None,
    }
}

#[test]
fn last_sync_label() {
    let base = 981173106;
    let accounts = vec![
        account("a@x", Some("2001-02-03T03:05:06Z")),
        account("b@x", None),
        account("c@x", Some("2001-02-03T04:05:06Z")),
    ];
    assert_eq!(most_recent_sync_label(&accounts, base + 120), "Last sync: 2m ago");
    let empty: Vec<AccountSyncStatus> = vec![];
    assert_eq!(most_recent_sync_label(&empty, base), "No sync history");
}

#[test]
fn sync_state_names() {
    assert_eq!(SyncState::Idle.display_name(), "Idle");
    assert_eq!(SyncState::Running.display_name(), "Syncing");
    assert_eq!(SyncState::Paused.display_name(), "Paused");
    assert_eq!(SyncState::Error.display_name(), "Error");
}
