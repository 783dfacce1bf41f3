//! Commands: plain descriptions of the asynchronous work the reducer wants
//! done, each paired by the executor with the event its result becomes.

use vstd::prelude::*;

use crate::message::Message;
use crate::settings::Settings;
use crate::types::{SortDirection, SortField, ViewType};

verus! {

/// One server endpoint call.
#[derive(Debug)]
pub enum ApiCall {
    /// Check server health; the result becomes `HealthChecked`.
    Health,
    /// Check server health for the settings screen; the result becomes
    /// `ConnectionTested`.
    HealthTest,
    /// Fetch archive statistics; the result becomes `StatsLoaded`.
    Stats,
    /// Fetch aggregates; the result becomes `AggregatesLoaded`.
    Aggregates { view_type: ViewType, sort_field: SortField, sort_dir: SortDirection },
    /// Fetch filtered messages; the result becomes `MessagesLoaded`.
    MessagesFilter { filter_type: String, filter_value: String, offset: i64, limit: i64 },
    /// Fetch one message; the result becomes `MessageDetailLoaded`.
    MessageById { message_id: i64 },
    /// Fetch the messages of a thread; the result becomes `ThreadLoaded`.
    ThreadMessages { thread_id: String },
    /// Fast search; the result becomes `SearchLoaded`.
    SearchFast { query: String, limit: i64 },
    /// Deep search; the result becomes `SearchLoaded`.
    SearchDeep { query: String, offset: i64, limit: i64 },
    /// Fetch the scheduler status; the result becomes `SyncStatusLoaded`.
    SchedulerStatus,
    /// Trigger a sync; the result becomes `SyncTriggered`.
    TriggerSync { email: String },
    /// Initiate account authorization; the result becomes `OAuthInitiated`.
    InitiateOauth { email: String },
    /// Poll the device flow; the result becomes `DeviceFlowStatusReceived`.
    CheckDeviceFlow { email: String },
    /// Remove an account; the result becomes `AccountRemoved`.
    RemoveAccount { email: String },
}

/// A unit of work for the executor.
#[derive(Debug)]
pub enum Command {
    /// Re-enter the reducer at once with this event.
    Emit(Message),
    /// Call a server endpoint and re-enter the reducer with the result.
    Http { base_url: String, api_key: Option<String>, call: ApiCall },
    /// Download an attachment; progress and outcome re-enter the reducer as
    /// download events.
    Download {
        base_url: String,
        api_key: Option<String>,
        message_id: i64,
        attachment_idx: usize,
        filename: String,
    },
    /// Open a URL in the system browser.
    OpenBrowser { url: String },
    /// Open a file in the system handler.
    OpenPath { path: String },
    /// Persist the settings; when `notify` is set, the outcome re-enters the
    /// reducer as `SettingsSaved`.
    SaveSettings { settings: Settings, notify: bool },
    /// Run the discovery chain; the result re-enters the reducer as
    /// `DiscoveryComplete`.
    RunDiscovery,
}

/// The contents view of an optional string.
pub open spec fn opt_view(o: Option<String>) -> Option<Seq<char>> {
    match o {
        Option::Some(s) => Option::Some(s@),
        Option::None => Option::None,
    }
}

/// The API key actually sent for a stored key: none when the stored key is
/// empty.
pub open spec fn key_opt(k: Seq<char>) -> Option<Seq<char>> {
    if k.len() == 0 {
        Option::None
    } else {
        Option::Some(k)
    }
}

/// Whether a command is a server call with the given base URL and stored
/// key.
pub open spec fn is_http_to(c: Command, base: Seq<char>, key: Seq<char>) -> bool {
    c matches Command::Http { base_url, api_key, .. } && base_url@ == base && opt_view(api_key)
        == key_opt(key)
}

} // verus!
