//! Data returned by the archive server, modelled as plain values.
//!
//! Timestamps travel as seconds since the Unix epoch; the transport layer
//! converts to and from its own date representation at the boundary.

use vstd::prelude::*;

verus! {

/// View types for aggregation.
#[derive(Debug, Clone, Copy, PartialEq, Eq, Structural)]
pub enum ViewType {
    Senders,
    SenderNames,
    Recipients,
    RecipientNames,
    Domains,
    Labels,
    Time,
}

impl ViewType {
    /// API parameter value.
    pub fn as_str(&self) -> (r: &'static str)
        ensures
            r@ == self.as_str_spec(),
    {
        proof {
            reveal_strlit("senders");
            reveal_strlit("sender_names");
            reveal_strlit("recipients");
            reveal_strlit("recipient_names");
            reveal_strlit("domains");
            reveal_strlit("labels");
            reveal_strlit("time");
        }
        match self {
            ViewType::Senders => "senders",
            ViewType::SenderNames => "sender_names",
            ViewType::Recipients => "recipients",
            ViewType::RecipientNames => "recipient_names",
            ViewType::Domains => "domains",
            ViewType::Labels => "labels",
            ViewType::Time => "time",
        }
    }

    pub open spec fn as_str_spec(self) -> Seq<char> {
        match self {
            ViewType::Senders => "senders"@,
            ViewType::SenderNames => "sender_names"@,
            ViewType::Recipients => "recipients"@,
            ViewType::RecipientNames => "recipient_names"@,
            ViewType::Domains => "domains"@,
            ViewType::Labels => "labels"@,
            ViewType::Time => "time"@,
        }
    }

    /// Human-readable display name.
    pub fn display_name(&self) -> (r: &'static str)
        ensures
            r@ == self.display_name_spec(),
    {
        match self {
            ViewType::Senders => "Senders",
            ViewType::SenderNames => "Sender Names",
            ViewType::Recipients => "Recipients",
            ViewType::RecipientNames => "Recipient Names",
            ViewType::Domains => "Domains",
            ViewType::Labels => "Labels",
            ViewType::Time => "Time",
        }
    }

    pub open spec fn display_name_spec(self) -> Seq<char> {
        match self {
            ViewType::Senders => "Senders"@,
            ViewType::SenderNames => "Sender Names"@,
            ViewType::Recipients => "Recipients"@,
            ViewType::RecipientNames => "Recipient Names"@,
            ViewType::Domains => "Domains"@,
            ViewType::Labels => "Labels"@,
            ViewType::Time => "Time"@,
        }
    }

    /// The next view type, cycling forward.
    pub fn next(&self) -> (r: Self)
        ensures
            r == self.next_spec(),
    {
        match self {
            ViewType::Senders => ViewType::SenderNames,
            ViewType::SenderNames => ViewType::Recipients,
            ViewType::Recipients => ViewType::RecipientNames,
            ViewType::RecipientNames => ViewType::Domains,
            ViewType::Domains => ViewType::Labels,
            ViewType::Labels => ViewType::Time,
            ViewType::Time => ViewType::Senders,
        }
    }

    pub open spec fn next_spec(self) -> Self {
        match self {
            ViewType::Senders => ViewType::SenderNames,
            ViewType::SenderNames => ViewType::Recipients,
            ViewType::Recipients => ViewType::RecipientNames,
            ViewType::RecipientNames => ViewType::Domains,
            ViewType::Domains => ViewType::Labels,
            ViewType::Labels => ViewType::Time,
            ViewType::Time => ViewType::Senders,
        }
    }

    /// The previous view type, cycling backward.
    pub fn previous(&self) -> (r: Self)
        ensures
            r == self.previous_spec(),
    {
        match self {
            ViewType::Senders => ViewType::Time,
            ViewType::SenderNames => ViewType::Senders,
            ViewType::Recipients => ViewType::SenderNames,
            ViewType::RecipientNames => ViewType::Recipients,
            ViewType::Domains => ViewType::RecipientNames,
            ViewType::Labels => ViewType::Domains,
            ViewType::Time => ViewType::Labels,
        }
    }

    pub open spec fn previous_spec(self) -> Self {
        match self {
            ViewType::Senders => ViewType::Time,
            ViewType::SenderNames => ViewType::Senders,
            ViewType::Recipients => ViewType::SenderNames,
            ViewType::RecipientNames => ViewType::Recipients,
            ViewType::Domains => ViewType::RecipientNames,
            ViewType::Labels => ViewType::Domains,
            ViewType::Time => ViewType::Labels,
        }
    }

    /// All view types in cycling order.
    pub fn all() -> (r: Vec<ViewType>)
        ensures
            r@ =~= seq![
                ViewType::Senders,
                ViewType::SenderNames,
                ViewType::Recipients,
                ViewType::RecipientNames,
                ViewType::Domains,
                ViewType::Labels,
                ViewType::Time,
            ],
    {
        let mut v: Vec<ViewType> = Vec::new();
        v.push(ViewType::Senders);
        v.push(ViewType::SenderNames);
        v.push(ViewType::Recipients);
        v.push(ViewType::RecipientNames);
        v.push(ViewType::Domains);
        v.push(ViewType::Labels);
        v.push(ViewType::Time);
        v
    }
}

/// Sort fields for aggregates.
#[derive(Debug, Clone, Copy, PartialEq, Eq, Structural)]
pub enum SortField {
    Count,
    Size,
    AttachmentSize,
    Name,
}

impl SortField {
    pub fn as_str(&self) -> (r: &'static str)
        ensures
            r@ == self.as_str_spec(),
    {
        match self {
            SortField::Count => "count",
            SortField::Size => "size",
            SortField::AttachmentSize => "attachment_size",
            SortField::Name => "name",
        }
    }

    pub open spec fn as_str_spec(self) -> Seq<char> {
        match self {
            SortField::Count => "count"@,
            SortField::Size => "size"@,
            SortField::AttachmentSize => "attachment_size"@,
            SortField::Name => "name"@,
        }
    }
}

impl Default for SortField {
    fn default() -> (r: Self)
        ensures
            r == SortField::Count,
    {
        SortField::Count
    }
}

/// Sort direction.
#[derive(Debug, Clone, Copy, PartialEq, Eq, Structural)]
pub enum SortDirection {
    Desc,
    Asc,
}

impl SortDirection {
    pub fn as_str(&self) -> (r: &'static str)
        ensures
            r@ == self.as_str_spec(),
    {
        match self {
            SortDirection::Desc => "desc",
            SortDirection::Asc => "asc",
        }
    }

    pub open spec fn as_str_spec(self) -> Seq<char> {
        match self {
            SortDirection::Desc => "desc"@,
            SortDirection::Asc => "asc"@,
        }
    }
}

impl Default for SortDirection {
    fn default() -> (r: Self)
        ensures
            r == SortDirection::Desc,
    {
        SortDirection::Desc
    }
}

/// Health check response.
#[derive(Debug, Clone, PartialEq)]
pub struct HealthResponse {
    pub status: String,
}

/// Archive statistics.
#[derive(Debug, Clone, Copy, PartialEq, Eq, Structural)]
pub struct StatsResponse {
    pub total_messages: i64,
    pub total_threads: i64,
    pub total_accounts: i64,
    pub total_labels: i64,
    pub total_attachments: i64,
    pub database_size_bytes: i64,
}

/// Single row in an aggregate view.
#[derive(Debug, Clone, PartialEq)]
pub struct AggregateRow {
    pub key: String,
    pub count: i64,
    pub total_size: i64,
    pub attachment_size: i64,
    pub attachment_count: i64,
    pub total_unique: i64,
}

/// Aggregate rows for one view type.
#[derive(Debug, Clone, PartialEq)]
pub struct AggregateResponse {
    pub view_type: String,
    pub rows: Vec<AggregateRow>,
}

/// Message summary for list views. The sent time is seconds since the Unix
/// epoch.
#[derive(Debug, Clone, PartialEq)]
pub struct MessageSummary {
    pub id: i64,
    pub subject: String,
    pub snippet: String,
    pub from_email: String,
    pub from_name: Option<String>,
    pub sent_at: i64,
    pub size_bytes: i64,
    pub has_attachments: bool,
    pub labels: Vec<String>,
}

/// Email address with optional name.
#[derive(Debug, Clone, PartialEq)]
pub struct Address {
    pub email: String,
    pub name: Option<String>,
}

/// Attachment metadata.
#[derive(Debug, Clone, PartialEq)]
pub struct Attachment {
    pub filename: String,
    pub mime_type: String,
    pub size_bytes: i64,
}

/// Full message detail. The sent time is seconds since the Unix epoch.
#[derive(Debug, Clone, PartialEq)]
pub struct MessageDetail {
    pub id: i64,
    pub subject: String,
    pub from_addr: String,
    pub to: Vec<String>,
    pub cc: Vec<String>,
    pub bcc: Vec<String>,
    pub sent_at: i64,
    pub body: String,
    pub labels: Vec<String>,
    pub attachments: Vec<Attachment>,
    pub thread_id: Option<String>,
}

/// Paginated message list response.
#[derive(Debug, Clone, PartialEq)]
pub struct MessageListResponse {
    pub total: i64,
    pub page: i32,
    pub page_size: i32,
    pub messages: Vec<MessageSummary>,
}

/// Search response.
#[derive(Debug, Clone, PartialEq)]
pub struct SearchResponse {
    pub query: String,
    pub total: i64,
    pub messages: Vec<MessageSummary>,
}

/// Account info.
#[derive(Debug, Clone, PartialEq)]
pub struct AccountInfo {
    pub email: String,
    pub display_name: Option<String>,
    pub last_sync_at: Option<String>,
    pub next_sync_at: Option<String>,
    pub schedule: Option<String>,
    pub enabled: bool,
}

/// Accounts list response.
#[derive(Debug, Clone, PartialEq)]
pub struct AccountsResponse {
    pub accounts: Vec<AccountInfo>,
}

/// Scheduler status for all accounts.
#[derive(Debug, Clone, PartialEq)]
pub struct SchedulerStatus {
    pub accounts: Vec<AccountSyncStatus>,
}

/// Sync status for a single account.
#[derive(Debug, Clone, PartialEq)]
pub struct AccountSyncStatus {
    pub email: String,
    pub display_name: Option<String>,
    pub status: SyncState,
    pub last_sync_at: Option<String>,
    pub next_sync_at: Option<String>,
    pub messages_synced: Option<i64>,
    pub error: Option<String>,
}

/// Possible sync states.
#[derive(Debug, Clone, Copy, PartialEq, Eq, Structural)]
pub enum SyncState {
    Idle,
    Running,
    Paused,
    Error,
}

impl SyncState {
    pub fn display_name(&self) -> (r: &'static str)
        ensures
            r@ == self.display_name_spec(),
    {
        match self {
            SyncState::Idle => "Idle",
            SyncState::Running => "Syncing",
            SyncState::Paused => "Paused",
            SyncState::Error => "Error",
        }
    }

    pub open spec fn display_name_spec(self) -> Seq<char> {
        match self {
            SyncState::Idle => "Idle"@,
            SyncState::Running => "Syncing"@,
            SyncState::Paused => "Paused"@,
            SyncState::Error => "Error"@,
        }
    }
}

/// Response from triggering a sync.
#[derive(Debug, Clone, PartialEq)]
pub struct SyncTriggerResponse {
    pub message: String,
}

/// Response from initiating the account-linking flow.
#[derive(Debug, Clone, PartialEq)]
pub struct OAuthInitResponse {
    /// URL to open in a browser.
    pub auth_url: String,
    /// Whether this is a device flow (show a code instead of a browser).
    pub device_flow: bool,
    /// User code for the device flow.
    pub user_code: Option<String>,
    /// Verification URL for the device flow.
    pub verification_url: Option<String>,
    /// Poll interval for device flow completion, in seconds.
    pub poll_interval: Option<i32>,
}

/// Device flow status.
#[derive(Debug, Clone, PartialEq)]
pub struct DeviceFlowStatus {
    pub status: DeviceFlowState,
    pub error: Option<String>,
}

/// Device flow states.
#[derive(Debug, Clone, Copy, PartialEq, Eq, Structural)]
pub enum DeviceFlowState {
    Pending,
    Complete,
    Expired,
    Error,
}

/// Response from removing an account.
#[derive(Debug, Clone, PartialEq)]
pub struct RemoveAccountResponse {
    pub message: String,
}

} // verus!
