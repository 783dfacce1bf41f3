//! The root application state: the single value threaded through every
//! reducer call.

use vstd::prelude::*;

use crate::compose::ComposeState;
use crate::discovery::{DiscoveryResult, DiscoveryStep};
use crate::downloads::DownloadTracker;
use crate::navigation::{NavigationStack, ViewLevel};
use crate::selection::SelectionSet;
use crate::settings::Settings;
use crate::thread::ThreadState;
use crate::types::{
    AccountSyncStatus, AggregateRow, MessageDetail, MessageSummary, OAuthInitResponse,
    SortDirection, SortField, StatsResponse,
};

verus! {

/// Connection status with the archive server.
#[derive(Debug, Clone, PartialEq)]
pub enum ConnectionStatus {
    /// No connection attempted yet.
    Unknown,
    /// Currently attempting to connect.
    Connecting,
    /// Successfully connected.
    Connected,
    /// Connection failed, with the reason.
    Failed(String),
}

/// Loading state for asynchronous operations.
#[derive(Debug, Clone, PartialEq)]
pub enum LoadingState {
    Idle,
    Loading,
    Error(String),
}

impl LoadingState {
    pub fn is_loading(&self) -> (r: bool)
        ensures
            r == (self matches LoadingState::Loading),
    {
        matches!(self, LoadingState::Loading)
    }
}

impl Default for LoadingState {
    fn default() -> (r: Self)
        ensures
            r == LoadingState::Idle,
    {
        LoadingState::Idle
    }
}

/// Which settings tab is shown.
#[derive(Debug, Clone, Copy, PartialEq, Eq, Structural)]
pub enum SettingsTab {
    Server,
    Display,
}

/// Where the first-run wizard stands.
#[derive(Debug, Clone, Copy, PartialEq, Eq, Structural)]
pub enum WizardStep {
    Discovering,
    FoundServer,
    ManualEntry,
    Complete,
}

/// Root application state.
#[derive(Debug)]
pub struct AppState {
    /// Current connection status.
    pub connection_status: ConnectionStatus,
    /// Server URL, from config or user input.
    pub server_url: String,
    /// API key for authentication.
    pub api_key: String,
    /// Whether this is the first run (no config existed).
    pub first_run: bool,
    /// Whether discovery is running.
    pub discovering: bool,
    /// Where the first-run wizard stands.
    pub wizard_step: WizardStep,
    /// The steps discovery tried, for display.
    pub discovery_steps: Vec<DiscoveryStep>,
    /// The result of the last discovery run.
    pub discovery_result: Option<DiscoveryResult>,
    /// Navigation stack: breadcrumbs and current view.
    pub navigation: NavigationStack,
    /// Archive statistics, loaded on connect.
    pub stats: Option<StatsResponse>,
    /// Loading state for the current data fetch.
    pub loading: LoadingState,
    /// Current aggregate rows.
    pub aggregates: Vec<AggregateRow>,
    /// Selected aggregate row index.
    pub selected_index: usize,
    /// Current sort field.
    pub sort_field: SortField,
    /// Current sort direction.
    pub sort_dir: SortDirection,
    /// Current message list.
    pub messages: Vec<MessageSummary>,
    /// Selected message index in the list.
    pub message_selected_index: usize,
    /// Current message detail, when viewing a single message.
    pub current_message: Option<MessageDetail>,
    /// Pagination offset.
    pub messages_offset: i64,
    /// Total messages matching the filter.
    pub messages_total: i64,
    /// Messages per page.
    pub messages_limit: i64,
    /// Current filter type (sender, domain, label, ...).
    pub filter_type: String,
    /// Current filter value.
    pub filter_value: String,
    /// Current search query.
    pub search_query: String,
    /// Whether deep search mode is enabled.
    pub search_deep_mode: bool,
    /// Search results.
    pub search_results: Vec<MessageSummary>,
    /// Selected result index.
    pub search_selected_index: usize,
    /// Total matching results.
    pub search_total: i64,
    /// Whether a search is in flight.
    pub is_searching: bool,
    /// Thread view state.
    pub thread: ThreadState,
    /// Sync status of every account.
    pub sync_accounts: Vec<AccountSyncStatus>,
    /// Whether a sync-status fetch is in flight.
    pub sync_loading: bool,
    /// The account a manual sync was requested for.
    pub syncing_account: Option<String>,
    /// Email input for the add-account flow.
    pub add_account_email: String,
    /// Whether an add-account flow is in flight.
    pub adding_account: bool,
    /// The response of the last authorization initiation.
    pub oauth_response: Option<OAuthInitResponse>,
    /// Whether the device flow is being polled.
    pub polling_device_flow: bool,
    /// The account a removal was requested for.
    pub removing_account: Option<String>,
    /// Whether the remove-account modal is shown.
    pub show_remove_modal: bool,
    /// Editable server URL on the settings screen.
    pub settings_server_url: String,
    /// Editable API key on the settings screen.
    pub settings_api_key: String,
    /// Which settings tab is shown.
    pub settings_tab: SettingsTab,
    /// The result of the last settings connection test.
    pub connection_test_result: Option<Result<(), String>>,
    /// Whether a settings connection test is in flight.
    pub testing_connection: bool,
    /// Whether the shortcuts help modal is shown.
    pub show_help_modal: bool,
    /// Download state of every attachment.
    pub downloads: DownloadTracker,
    /// Compose state.
    pub compose: ComposeState,
    /// Selected message ids.
    pub selected_messages: SelectionSet,
    /// Whether the delete confirmation modal is shown.
    pub show_delete_modal: bool,
}

impl AppState {
    /// What every reducer step preserves: the selection set stays
    /// well-formed, and the pagination fields never go negative.
    pub open spec fn wf(self) -> bool {
        &&& self.selected_messages.wf()
        &&& self.messages_offset >= 0
        &&& self.messages_limit >= 0
    }

    /// Create the initial state from settings: nothing loaded, nothing
    /// selected, the navigation stack on the dashboard, and the first run
    /// recognised by an empty server URL.
    pub fn new(settings: &Settings) -> (r: Self)
        ensures
            r.wf(),
            r.connection_status == ConnectionStatus::Unknown,
            r.server_url@ == settings.server_url@,
            r.api_key@ == settings.api_key@,
            r.first_run == (settings.server_url@.len() == 0),
            !r.discovering,
            r.wizard_step == WizardStep::Discovering,
            r.discovery_steps@.len() == 0,
            r.discovery_result matches Option::None,
            r.navigation.hist().len() == 0,
            r.navigation.cur() == ViewLevel::Dashboard,
            r.stats matches Option::None,
            r.loading == LoadingState::Idle,
            r.aggregates@.len() == 0,
            r.selected_index == 0,
            r.sort_field == SortField::Count,
            r.sort_dir == SortDirection::Desc,
            r.messages@.len() == 0,
            r.message_selected_index == 0,
            r.current_message matches Option::None,
            r.messages_offset == 0,
            r.messages_total == 0,
            r.messages_limit == 50,
            r.filter_type@.len() == 0,
            r.filter_value@.len() == 0,
            r.search_query@.len() == 0,
            !r.search_deep_mode,
            r.search_results@.len() == 0,
            r.search_selected_index == 0,
            r.search_total == 0,
            !r.is_searching,
            r.thread.thread_id matches Option::None,
            r.thread.messages@.len() == 0,
            r.sync_accounts@.len() == 0,
            !r.sync_loading,
            r.syncing_account matches Option::None,
            r.add_account_email@.len() == 0,
            !r.adding_account,
            r.oauth_response matches Option::None,
            !r.polling_device_flow,
            r.removing_account matches Option::None,
            !r.show_remove_modal,
            r.settings_server_url@.len() == 0,
            r.settings_api_key@.len() == 0,
            r.settings_tab == SettingsTab::Server,
            r.connection_test_result matches Option::None,
            !r.testing_connection,
            !r.show_help_modal,
            forall|a: int, b: int|
                r.downloads.state_of(a, b) == crate::downloads::DownloadState::NotStarted,
            r.compose.is_blank(),
            forall|x: i64| !r.selected_messages.has(x),
            !r.show_delete_modal,
    {
        AppState {
            connection_status: ConnectionStatus::Unknown,
            server_url: settings.server_url.clone(),
            api_key: settings.api_key.clone(),
            first_run: settings.server_url.as_str().is_empty(),
            discovering: false,
            wizard_step: WizardStep::Discovering,
            discovery_steps: Vec::new(),
            discovery_result: None,
            navigation: NavigationStack::new(),
            stats: None,
            loading: LoadingState::Idle,
            aggregates: Vec::new(),
            selected_index: 0,
            sort_field: SortField::Count,
            sort_dir: SortDirection::Desc,
            messages: Vec::new(),
            message_selected_index: 0,
            current_message: None,
            messages_offset: 0,
            messages_total: 0,
            messages_limit: 50,
            filter_type: String::new(),
            filter_value: String::new(),
            search_query: String::new(),
            search_deep_mode: false,
            search_results: Vec::new(),
            search_selected_index: 0,
            search_total: 0,
            is_searching: false,
            thread: ThreadState::new(),
            sync_accounts: Vec::new(),
            sync_loading: false,
            syncing_account: None,
            add_account_email: String::new(),
            adding_account: false,
            oauth_response: None,
            polling_device_flow: false,
            removing_account: None,
            show_remove_modal: false,
            settings_server_url: String::new(),
            settings_api_key: String::new(),
            settings_tab: SettingsTab::Server,
            connection_test_result: None,
            testing_connection: false,
            show_help_modal: false,
            downloads: DownloadTracker::new(),
            compose: ComposeState::new(),
            selected_messages: SelectionSet::new(),
            show_delete_modal: false,
        }
    }

    /// Whether the client is connected.
    pub fn is_connected(&self) -> (r: bool)
        ensures
            r == (self.connection_status matches ConnectionStatus::Connected),
    {
        matches!(self.connection_status, ConnectionStatus::Connected)
    }

    /// Whether a connection attempt is in flight.
    pub fn is_connecting(&self) -> (r: bool)
        ensures
            r == (self.connection_status matches ConnectionStatus::Connecting),
    {
        matches!(self.connection_status, ConnectionStatus::Connecting)
    }

    /// The window title: the application name, and the current view's title
    /// when connected.
    pub fn window_title(&self) -> (r: String)
        ensures
            (self.connection_status matches ConnectionStatus::Connected) ==> r@ == "msgvault - "@
                + self.navigation.cur().title_spec(),
            !(self.connection_status matches ConnectionStatus::Connected) ==> r@ == "msgvault"@,
    {
        if !self.is_connected() {
            return "msgvault".to_owned();
        }
        let view_title = self.navigation.current().title();
        "msgvault - ".to_owned().concat(view_title.as_str())
    }
}

} // verus!
