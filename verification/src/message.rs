//! Events: every user intent and every asynchronous result, as one closed
//! tagged union processed by the reducer.

use vstd::prelude::*;

use crate::discovery::DiscoveryResult;
use crate::error::AppError;
use crate::navigation::ViewLevel;
use crate::state::SettingsTab;
use crate::types::{
    AggregateResponse, DeviceFlowStatus, HealthResponse, MessageDetail, MessageListResponse,
    OAuthInitResponse, RemoveAccountResponse, SchedulerStatus, SearchResponse, StatsResponse,
    SyncTriggerResponse, ViewType,
};

verus! {

/// A named (non-character) key.
#[derive(Debug, Clone, Copy, PartialEq, Eq, Structural)]
pub enum NamedKey {
    Escape,
    Tab,
    Enter,
    ArrowUp,
    ArrowDown,
    ArrowLeft,
    ArrowRight,
    Space,
}

/// A pressed key: a named key or a single character.
#[derive(Debug, Clone, Copy, PartialEq, Eq, Structural)]
pub enum Key {
    Named(NamedKey),
    Character(char),
}

/// The modifier state of a key press. Only the shift modifier matters to the
/// shortcuts.
#[derive(Debug, Clone, Copy, PartialEq, Eq, Structural)]
pub struct Modifiers {
    pub shift: bool,
}

/// All possible events in the application.
#[derive(Debug)]
pub enum Message {
    /// Start server discovery.
    StartDiscovery,
    /// Discovery completed.
    DiscoveryComplete(DiscoveryResult),
    /// The user confirmed the discovered server.
    ConfirmDiscoveredServer,
    /// The user chose manual entry.
    ChooseManualEntry,
    /// Wizard server URL changed.
    WizardServerUrlChanged(String),
    /// Wizard API key changed.
    WizardApiKeyChanged(String),
    /// The user finished the wizard.
    FinishWizard,
    /// Check server health.
    CheckHealth,
    /// Health check completed.
    HealthChecked(Result<HealthResponse, AppError>),
    /// Fetch archive statistics.
    FetchStats,
    /// Statistics loaded.
    StatsLoaded(Result<StatsResponse, AppError>),
    /// Fetch aggregates for a view type.
    FetchAggregates(ViewType),
    /// Aggregates loaded.
    AggregatesLoaded(Result<AggregateResponse, AppError>),
    /// Select an aggregate row by index.
    SelectAggregate(usize),
    /// Move the aggregate selection up.
    SelectPrevious,
    /// Move the aggregate selection down.
    SelectNext,
    /// Drill down into the selected aggregate.
    DrillDown,
    /// Cycle the sort field.
    ToggleSortField,
    /// Flip the sort direction.
    ToggleSortDirection,
    /// Fetch messages with a filter.
    FetchMessages { filter_type: String, filter_value: String },
    /// Messages loaded.
    MessagesLoaded(Result<MessageListResponse, AppError>),
    /// Select a message in the list.
    SelectMessage(usize),
    /// Open the selected message.
    OpenMessage,
    /// Message detail loaded.
    MessageDetailLoaded(Result<MessageDetail, AppError>),
    /// Go to the next page of messages.
    NextPage,
    /// Go to the previous page of messages.
    PreviousPage,
    /// Open the previous message in the list.
    PreviousMessage,
    /// Open the next message in the list.
    NextMessage,
    /// View the full thread.
    ViewThread(String),
    /// Thread messages loaded.
    ThreadLoaded(Result<Vec<MessageDetail>, AppError>),
    /// Toggle one thread message open or closed.
    ToggleThreadMessage(usize),
    /// Expand every message in the thread.
    ExpandAllThread,
    /// Collapse every message in the thread.
    CollapseAllThread,
    /// Focus the previous thread message.
    ThreadFocusPrevious,
    /// Focus the next thread message.
    ThreadFocusNext,
    /// Open the search view.
    OpenSearch,
    /// The search query changed.
    SearchQueryChanged(String),
    /// Execute the search.
    ExecuteSearch,
    /// Search results loaded.
    SearchLoaded(Result<SearchResponse, AppError>),
    /// Toggle between fast and deep search.
    ToggleSearchMode,
    /// Select a search result.
    SelectSearchResult(usize),
    /// Open the selected search result.
    OpenSearchResult,
    /// Open the sync status view.
    OpenSync,
    /// Fetch the scheduler status.
    FetchSyncStatus,
    /// Scheduler status loaded.
    SyncStatusLoaded(Result<SchedulerStatus, AppError>),
    /// Trigger a manual sync for an account.
    TriggerSync(String),
    /// A manual sync was triggered.
    SyncTriggered(Result<SyncTriggerResponse, AppError>),
    /// Refresh the sync status if the sync view is open.
    RefreshSyncStatus,
    /// Periodic sync poll.
    SyncTick,
    /// Open the accounts view.
    OpenAccounts,
    /// Email input changed for the add-account flow.
    AddAccountEmailChanged(String),
    /// Start the add-account flow.
    StartAddAccount,
    /// Authorization initiation answered.
    OAuthInitiated(Result<OAuthInitResponse, AppError>),
    /// Open a browser for authorization.
    OpenOAuthBrowser(String),
    /// Poll the device flow.
    PollDeviceFlow,
    /// Device flow status received.
    DeviceFlowStatusReceived(Result<DeviceFlowStatus, AppError>),
    /// Cancel the add-account flow.
    CancelAddAccount,
    /// Show the remove-account confirmation.
    ShowRemoveAccountModal(String),
    /// Hide the remove-account confirmation.
    HideRemoveAccountModal,
    /// Confirm the account removal.
    ConfirmRemoveAccount,
    /// The account removal was answered.
    AccountRemoved(Result<RemoveAccountResponse, AppError>),
    /// Show the shortcuts help.
    ShowHelp,
    /// Hide the shortcuts help.
    HideHelp,
    /// Download an attachment.
    DownloadAttachment { message_id: i64, attachment_idx: usize, filename: String },
    /// Download progress update, as a percentage.
    DownloadProgress { message_id: i64, attachment_idx: usize, progress: u8 },
    /// Download completed.
    DownloadComplete { message_id: i64, attachment_idx: usize, path: String },
    /// Download failed.
    DownloadFailed { message_id: i64, attachment_idx: usize, error: String },
    /// Open a downloaded file.
    OpenFile(String),
    /// Open compose for a new email.
    OpenCompose,
    /// Open compose as a reply.
    OpenReply(i64),
    /// Open compose as a reply to all.
    OpenReplyAll(i64),
    /// Open compose as a forward.
    OpenForward(i64),
    /// To field input changed.
    ComposeToChanged(String),
    /// Add the pending To recipient.
    ComposeAddTo,
    /// Remove a To recipient.
    ComposeRemoveTo(usize),
    /// CC field input changed.
    ComposeCcChanged(String),
    /// Add the pending CC recipient.
    ComposeAddCc,
    /// Remove a CC recipient.
    ComposeRemoveCc(usize),
    /// BCC field input changed.
    ComposeBccChanged(String),
    /// Add the pending BCC recipient.
    ComposeAddBcc,
    /// Remove a BCC recipient.
    ComposeRemoveBcc(usize),
    /// Subject changed.
    ComposeSubjectChanged(String),
    /// Body changed.
    ComposeBodyChanged(String),
    /// From account changed.
    ComposeFromChanged(String),
    /// Toggle CC and BCC visibility.
    ComposeToggleCcBcc,
    /// Ask for an attachment; choosing the file is the caller's concern.
    ComposeAddAttachment,
    /// An attachment file was selected; the caller supplies its metadata.
    ComposeAttachmentSelected { path: String, filename: String, size_bytes: i64 },
    /// Remove an attachment.
    ComposeRemoveAttachment(usize),
    /// Send the email.
    ComposeSend,
    /// The send was answered.
    ComposeSent(Result<(), AppError>),
    /// Save the draft.
    ComposeSaveDraft,
    /// The draft save was answered.
    ComposeDraftSaved(Result<i64, AppError>),
    /// Discard and close compose.
    ComposeDiscard,
    /// Close compose.
    ComposeClose,
    /// Open the settings view.
    OpenSettings,
    /// Switch the settings tab.
    SwitchSettingsTab(SettingsTab),
    /// Settings server URL changed.
    SettingsServerUrlChanged(String),
    /// Settings API key changed.
    SettingsApiKeyChanged(String),
    /// Test the connection with the edited settings.
    TestConnection,
    /// The connection test was answered.
    ConnectionTested(Result<HealthResponse, AppError>),
    /// Save the settings.
    SaveSettings,
    /// The settings save was answered.
    SettingsSaved(Result<(), String>),
    /// Toggle the selection of the current message.
    ToggleSelection,
    /// Select all visible messages.
    SelectAll,
    /// Clear the selection.
    ClearSelection,
    /// Show the delete confirmation.
    ShowDeleteModal,
    /// Hide the delete confirmation.
    HideDeleteModal,
    /// Confirm the deletion of the selected messages.
    ConfirmDelete,
    /// Stage the selected messages for deletion.
    StageForDeletion,
    /// Navigate to a view.
    NavigateTo(ViewLevel),
    /// Go back to the previous view.
    GoBack,
    /// Jump to a breadcrumb by index.
    JumpToBreadcrumb(usize),
    /// Cycle to the next aggregate view type.
    NextViewType,
    /// Cycle to the previous aggregate view type.
    PreviousViewType,
    /// Server URL changed.
    ServerUrlChanged(String),
    /// API key changed.
    ApiKeyChanged(String),
    /// Retry the connection.
    RetryConnection,
    /// A key was pressed.
    KeyPressed(Key, Modifiers),
    /// An event that does nothing.
    Noop,
}

} // verus!
