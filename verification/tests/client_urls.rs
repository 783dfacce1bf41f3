use msgvault::api::ApiClient;
use msgvault::types::{SortDirection, SortField, ViewType};

#[test]
fn test_client_creation() {
    let client = ApiClient::new("http://localhost:8080".to_string(), None);
    assert_eq!(client.base_url, "http://localhost:8080");
}

#[test]
fn test_client_trims_trailing_slash() {
    let client = ApiClient::new("http://localhost:8080/".to_string(), None);
    assert_eq!(client.base_url, "http://localhost:8080");
}

#[test]
fn endpoint_urls() {
    let client = ApiClient::new("http://x:1".to_string(), Some("k".to_string()));
    assert_eq!(client.health_url(), "http://x:1/health");
    assert_eq!(client.stats_url(), "http://x:1/api/v1/stats");
    assert_eq!(
        client.aggregates_url(ViewType::Senders, SortField::Count, SortDirection::Desc),
        "http://x:1/api/v1/aggregates?view_type=senders&sort=count&order=desc"
    );
    assert_eq!(client.message_detail_url(42), "http://x:1/api/v1/messages/42");
    assert_eq!(client.attachment_url(42, 3), "http://x:1/api/v1/messages/42/attachments/3");
    assert_eq!(client.scheduler_status_url(), "http://x:1/api/v1/scheduler/status");
}

#[test]
fn emails_travel_percent_encoded() {
    let client = ApiClient::new("http://x:1".to_string(), None);
    // the encoding must actually transform the input
    assert_eq!(
        client.trigger_sync_url("a b@c.org"),
        "http://x:1/api/v1/sync/a%20b%40c.org"
    );
    assert_eq!(
        client.initiate_oauth_url("user@example.com"),
        "http://x:1/api/v1/auth/initiate/user%40example.com"
    );
    assert_eq!(
        client.device_flow_url("user@example.com"),
        "http://x:1/api/v1/auth/device/user%40example.com/status"
    );
    assert_eq!(
        client.remove_account_url("user@example.com"),
        "http://x:1/api/v1/accounts/user%40example.com"
    );
    assert_eq!(client.thread_url("t/1"), "http://x:1/api/v1/threads/t%2F1");
}
