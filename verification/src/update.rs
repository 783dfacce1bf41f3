//! The reducer: the single function that maps the current state and one
//! event to the next state and the commands describing the asynchronous work
//! to perform. It never performs I/O itself.

use vstd::prelude::*;

use crate::command::{key_opt, opt_view, ApiCall, Command};
use crate::compose::{
    contains_str, forward_subject, quoted_body, reply_subject, ComposeMode, ComposeState,
};
use crate::downloads::DownloadState;
use crate::message::{Key, Message, Modifiers, NamedKey};
use crate::navigation::{nav_apply, NavOp, ViewLevel};
use crate::settings::Settings;
use crate::state::{AppState, ConnectionStatus, LoadingState, SettingsTab, WizardStep};
use crate::thread::{toggled, ThreadState};
use crate::timefmt::datetime_label;
use crate::types::{DeviceFlowState, MessageSummary, SortDirection, SortField, ViewType};

verus! {

/// The event changed nothing and asked for nothing.
pub open spec fn unchanged(pre: AppState, post: AppState, cmds: Seq<Command>) -> bool {
    &&& post == pre
    &&& cmds =~= Seq::<Command>::empty()
}

/// The next sort field in the cycle.
pub open spec fn sort_field_cycle(f: SortField) -> SortField {
    match f {
        SortField::Name => SortField::Count,
        SortField::Count => SortField::Size,
        SortField::Size => SortField::AttachmentSize,
        SortField::AttachmentSize => SortField::Name,
    }
}

/// The opposite sort direction.
pub open spec fn sort_dir_flip(d: SortDirection) -> SortDirection {
    match d {
        SortDirection::Asc => SortDirection::Desc,
        SortDirection::Desc => SortDirection::Asc,
    }
}

/// Whether a command is a server call against the state's connection, with
/// the given endpoint call.
pub open spec fn is_call(c: Command, pre: AppState, call: ApiCall) -> bool {
    &&& c matches Command::Http { base_url, api_key, call: cc } && base_url@ == pre.server_url@
        && opt_view(api_key) == key_opt(pre.api_key@) && cc == call
}

/// Whether a command is a server call against the state's connection; the
/// endpoint call is constrained separately.
pub open spec fn is_call_to(c: Command, pre: AppState) -> bool {
    c matches Command::Http { base_url, api_key, .. } && base_url@ == pre.server_url@ && opt_view(
        api_key,
    ) == key_opt(pre.api_key@)
}

/// The endpoint call a fetch of filtered messages makes.
pub open spec fn is_messages_call(c: Command, pre: AppState, ft: Seq<char>, fv: Seq<char>) -> bool {
    &&& is_call_to(c, pre)
    &&& (c matches Command::Http { call, .. } && (call matches ApiCall::MessagesFilter {
        filter_type,
        filter_value,
        offset,
        limit,
    } && filter_type@ == ft && filter_value@ == fv && offset == pre.messages_offset && limit
        == pre.messages_limit))
}

/// The endpoint call a thread fetch makes.
pub open spec fn is_thread_call(c: Command, pre: AppState, tid: Seq<char>) -> bool {
    &&& is_call_to(c, pre)
    &&& (c matches Command::Http { call, .. } && (call matches ApiCall::ThreadMessages {
        thread_id,
    } && thread_id@ == tid))
}

/// The endpoint call a search makes: deep with an offset, or fast.
pub open spec fn is_search_call(c: Command, pre: AppState, q: Seq<char>) -> bool {
    &&& is_call_to(c, pre)
    &&& (c matches Command::Http { call, .. } && (if pre.search_deep_mode {
        call matches ApiCall::SearchDeep { query, offset, limit } && query@ == q && offset == 0
            && limit == 50
    } else {
        call matches ApiCall::SearchFast { query, limit } && query@ == q && limit == 50
    }))
}

/// The endpoint call an account action makes, carrying an email.
pub open spec fn is_email_call(c: Command, pre: AppState, email: Seq<char>, kind: int) -> bool {
    &&& is_call_to(c, pre)
    &&& (c matches Command::Http { call, .. } && (match call {
        ApiCall::TriggerSync { email: e } => kind == 0 && e@ == email,
        ApiCall::InitiateOauth { email: e } => kind == 1 && e@ == email,
        ApiCall::CheckDeviceFlow { email: e } => kind == 2 && e@ == email,
        ApiCall::RemoveAccount { email: e } => kind == 3 && e@ == email,
        _ => false,
    }))
}

/// A single synchronous re-entry with this event.
pub open spec fn emits_only(cmds: Seq<Command>, m: Message) -> bool {
    &&& cmds.len() == 1
    &&& cmds[0] == Command::Emit(m)
}

/// The refetch that follows a navigation change: aggregates views refetch
/// their data, every other view asks for nothing.
pub open spec fn refetch_after_nav(cur: ViewLevel, cmds: Seq<Command>) -> bool {
    match cur {
        ViewLevel::Aggregates { view_type } => emits_only(
            cmds,
            Message::FetchAggregates(view_type),
        ),
        _ => cmds =~= Seq::<Command>::empty(),
    }
}

/// The navigation stack after a push.
pub open spec fn nav_pushed(pre: AppState, post: AppState) -> bool {
    post.navigation.hist() == pre.navigation.hist().push(pre.navigation.cur())
}

/// The navigation stack after a pop: back one view when the history is
/// non-empty, otherwise unchanged.
pub open spec fn nav_popped(pre: AppState, post: AppState) -> bool {
    (post.navigation.hist(), post.navigation.cur()) == nav_apply(
        pre.navigation.hist(),
        pre.navigation.cur(),
        NavOp::Pop,
    )
}

/// The email of the first synced account, or empty when there is none: the
/// default sender for new drafts.
pub open spec fn first_account_email(pre: AppState) -> Seq<char> {
    if pre.sync_accounts@.len() > 0 {
        pre.sync_accounts@[0].email@
    } else {
        Seq::<char>::empty()
    }
}

/// The message id the selection events act on: the selected entry of
/// whichever list the current view shows.
pub open spec fn selection_target(pre: AppState) -> Option<i64> {
    match pre.navigation.cur() {
        ViewLevel::Messages { .. } => if pre.message_selected_index < pre.messages@.len() {
            Option::Some(pre.messages@[pre.message_selected_index as int].id)
        } else {
            Option::None
        },
        ViewLevel::Search => if pre.search_selected_index < pre.search_results@.len() {
            Option::Some(pre.search_results@[pre.search_selected_index as int].id)
        } else {
            Option::None
        },
        _ => Option::None,
    }
}

/// Whether a message list holds the given id.
pub open spec fn list_has_id(list: Seq<MessageSummary>, id: i64) -> bool {
    exists|i: int| 0 <= i < list.len() && list[i].id == id
}

/// A compose draft freshly cleared, the from account kept.
pub open spec fn compose_closed(pre: AppState, post: AppState) -> bool {
    &&& post == (AppState { compose: post.compose, ..pre })
    &&& post.compose.is_cleared()
    &&& post.compose.from_account == pre.compose.from_account
}

/// A screen-local error recorded from a failed call, everything else
/// untouched.
pub open spec fn loading_error(pre: AppState, post: AppState, m: Seq<char>) -> bool {
    &&& post == (AppState { loading: post.loading, ..pre })
    &&& (post.loading matches LoadingState::Error(t) && t@ == m)
}

/// The draft fields a reply or forward never fills.
pub open spec fn compose_fresh_flags(c: ComposeState) -> bool {
    &&& c.is_open
    &&& c.bcc@.len() == 0
    &&& c.attachments@.len() == 0
    &&& !c.is_sending
    &&& c.send_error matches Option::None
    &&& !c.is_dirty
    &&& c.to_input@.len() == 0
    &&& c.cc_input@.len() == 0
    &&& c.bcc_input@.len() == 0
}

/// The strings of a list except those equal to the excluded text, in order.
pub open spec fn minus_email(v: Seq<String>, excl: Seq<char>) -> Seq<String>
    decreases v.len(),
{
    if v.len() == 0 {
        Seq::empty()
    } else if v.last()@ == excl {
        minus_email(v.drop_last(), excl)
    } else {
        minus_email(v.drop_last(), excl).push(v.last())
    }
}

/// The texts of a list of strings joined with a separator.
pub open spec fn joined(v: Seq<String>, sep: Seq<char>) -> Seq<char>
    decreases v.len(),
{
    if v.len() == 0 {
        Seq::empty()
    } else if v.len() == 1 {
        v[0]@
    } else {
        joined(v.drop_last(), sep) + sep + v.last()@
    }
}

/// The header block of a forwarded message.
pub open spec fn forwarded_text(
    from: Seq<char>,
    date: Seq<char>,
    subject: Seq<char>,
    to: Seq<String>,
    body: Seq<char>,
) -> Seq<char> {
    "From: "@ + from + "\nDate: "@ + date + "\nSubject: "@ + subject + "\nTo: "@ + joined(
        to,
        ", "@,
    ) + "\n\n"@ + body
}

/// The attribution date shown in quoted replies and forwards.
pub open spec fn sent_label(epoch: i64) -> Seq<char> {
    datetime_label(epoch as int)
}

/// The aggregate-list index one step up.
pub open spec fn index_up(i: usize) -> usize {
    if i > 0 {
        (i - 1) as usize
    } else {
        0usize
    }
}

/// The list index one step down, clamped at the end of a list of the given
/// length.
pub open spec fn index_down(i: usize, len: nat) -> usize {
    if i + 1 < len {
        (i + 1) as usize
    } else if len > 0 {
        (len - 1) as usize
    } else {
        0usize
    }
}

/// What the character shortcuts ask for, given the state they read.
pub open spec fn char_key_commands(
    pre: AppState,
    c: char,
    m: Modifiers,
    cmds: Seq<Command>,
) -> bool {
    let in_aggregates = pre.navigation.cur() matches ViewLevel::Aggregates { .. };
    let in_messages = pre.navigation.cur() matches ViewLevel::Messages { .. };
    let in_detail = pre.navigation.cur() matches ViewLevel::MessageDetail { .. };
    let in_thread = pre.navigation.cur() matches ViewLevel::Thread { .. };
    let in_search = pre.navigation.cur() matches ViewLevel::Search;
    let none = cmds =~= Seq::<Command>::empty();
    if c == 'j' && !m.shift {
        if in_aggregates {
            emits_only(cmds, Message::SelectNext)
        } else if in_messages {
            emits_only(
                cmds,
                Message::SelectMessage(index_down(pre.message_selected_index, pre.messages@.len())),
            )
        } else if in_search {
            emits_only(
                cmds,
                Message::SelectSearchResult(
                    index_down(pre.search_selected_index, pre.search_results@.len()),
                ),
            )
        } else if in_thread {
            emits_only(cmds, Message::ThreadFocusNext)
        } else {
            none
        }
    } else if c == 'k' && !m.shift {
        if in_aggregates {
            emits_only(cmds, Message::SelectPrevious)
        } else if in_messages {
            emits_only(cmds, Message::SelectMessage(index_up(pre.message_selected_index)))
        } else if in_search {
            emits_only(cmds, Message::SelectSearchResult(index_up(pre.search_selected_index)))
        } else if in_thread {
            emits_only(cmds, Message::ThreadFocusPrevious)
        } else {
            none
        }
    } else if c == '/' && !in_search {
        emits_only(cmds, Message::OpenSearch)
    } else if c == 'n' && !m.shift {
        if in_messages {
            emits_only(cmds, Message::NextPage)
        } else {
            none
        }
    } else if c == 'p' && !m.shift {
        if in_messages {
            emits_only(cmds, Message::PreviousPage)
        } else {
            none
        }
    } else if c == 's' && !m.shift {
        if in_aggregates {
            emits_only(cmds, Message::ToggleSortField)
        } else {
            none
        }
    } else if c == 'r' && !m.shift {
        if in_aggregates {
            emits_only(cmds, Message::ToggleSortDirection)
        } else {
            none
        }
    } else if c == 'q' && !m.shift {
        none
    } else if c == '?' {
        if pre.show_help_modal {
            emits_only(cmds, Message::HideHelp)
        } else {
            emits_only(cmds, Message::ShowHelp)
        }
    } else if c == 'A' && m.shift {
        if in_messages || in_search {
            emits_only(cmds, Message::SelectAll)
        } else {
            none
        }
    } else if c == 'x' && !m.shift {
        emits_only(cmds, Message::ClearSelection)
    } else if c == 'd' && !m.shift {
        if pre.selected_messages.stored() > 0 {
            emits_only(cmds, Message::ShowDeleteModal)
        } else {
            none
        }
    } else if c == 'y' && !m.shift {
        emits_only(cmds, Message::OpenSync)
    } else if c == 'a' && !m.shift {
        emits_only(cmds, Message::OpenAccounts)
    } else if c == ',' {
        emits_only(cmds, Message::OpenSettings)
    } else if c == 'c' && !m.shift && !pre.compose.is_open {
        emits_only(cmds, Message::OpenCompose)
    } else if c == 'R' && m.shift && in_detail {
        match pre.navigation.cur() {
            ViewLevel::MessageDetail { message_id } => emits_only(
                cmds,
                Message::OpenReplyAll(message_id),
            ),
            _ => none,
        }
    } else if c == 'f' && !m.shift && in_detail {
        match pre.navigation.cur() {
            ViewLevel::MessageDetail { message_id } => emits_only(
                cmds,
                Message::OpenForward(message_id),
            ),
            _ => none,
        }
    } else if c == 't' && !m.shift && in_detail {
        match pre.current_message {
            Option::Some(detail) => match detail.thread_id {
                Option::Some(tid) => cmds.len() == 1 && (cmds[0] matches Command::Emit(mm) && (
                mm matches Message::ViewThread(t2) && t2@ == tid@)),
                Option::None => none,
            },
            Option::None => none,
        }
    } else if c == 'e' && !m.shift && in_thread {
        emits_only(cmds, Message::ExpandAllThread)
    } else if c == 'E' && m.shift && in_thread {
        emits_only(cmds, Message::CollapseAllThread)
    } else {
        none
    }
}

/// What a key press asks for: nothing while disconnected, otherwise the
/// shortcut's event for the current view.
pub open spec fn key_commands(pre: AppState, key: Key, m: Modifiers, cmds: Seq<Command>) -> bool {
    let in_aggregates = pre.navigation.cur() matches ViewLevel::Aggregates { .. };
    let in_messages = pre.navigation.cur() matches ViewLevel::Messages { .. };
    let in_detail = pre.navigation.cur() matches ViewLevel::MessageDetail { .. };
    let in_thread = pre.navigation.cur() matches ViewLevel::Thread { .. };
    let in_search = pre.navigation.cur() matches ViewLevel::Search;
    let none = cmds =~= Seq::<Command>::empty();
    if !(pre.connection_status matches ConnectionStatus::Connected) {
        none
    } else {
        match key {
            Key::Named(NamedKey::Escape) => {
                if pre.navigation.hist().len() > 0 {
                    emits_only(cmds, Message::GoBack)
                } else {
                    none
                }
            },
            Key::Named(NamedKey::Tab) => {
                if in_aggregates {
                    if m.shift {
                        emits_only(cmds, Message::PreviousViewType)
                    } else {
                        emits_only(cmds, Message::NextViewType)
                    }
                } else if in_search {
                    emits_only(cmds, Message::ToggleSearchMode)
                } else {
                    none
                }
            },
            Key::Named(NamedKey::Enter) => {
                if in_aggregates {
                    emits_only(cmds, Message::DrillDown)
                } else if in_messages {
                    emits_only(cmds, Message::OpenMessage)
                } else if in_search {
                    emits_only(cmds, Message::OpenSearchResult)
                } else if in_thread {
                    emits_only(cmds, Message::ToggleThreadMessage(pre.thread.focused_index))
                } else {
                    none
                }
            },
            Key::Named(NamedKey::ArrowUp) => {
                if in_aggregates {
                    emits_only(cmds, Message::SelectPrevious)
                } else if in_messages {
                    emits_only(cmds, Message::SelectMessage(index_up(pre.message_selected_index)))
                } else if in_search {
                    emits_only(
                        cmds,
                        Message::SelectSearchResult(index_up(pre.search_selected_index)),
                    )
                } else if in_thread {
                    emits_only(cmds, Message::ThreadFocusPrevious)
                } else {
                    none
                }
            },
            Key::Named(NamedKey::ArrowDown) => {
                if in_aggregates {
                    emits_only(cmds, Message::SelectNext)
                } else if in_messages {
                    emits_only(
                        cmds,
                        Message::SelectMessage(
                            index_down(pre.message_selected_index, pre.messages@.len()),
                        ),
                    )
                } else if in_search {
                    emits_only(
                        cmds,
                        Message::SelectSearchResult(
                            index_down(pre.search_selected_index, pre.search_results@.len()),
                        ),
                    )
                } else if in_thread {
                    emits_only(cmds, Message::ThreadFocusNext)
                } else {
                    none
                }
            },
            Key::Named(NamedKey::ArrowLeft) => {
                if in_detail {
                    emits_only(cmds, Message::PreviousMessage)
                } else {
                    none
                }
            },
            Key::Named(NamedKey::ArrowRight) => {
                if in_detail {
                    emits_only(cmds, Message::NextMessage)
                } else {
                    none
                }
            },
            Key::Named(NamedKey::Space) => {
                if in_messages || in_search {
                    emits_only(cmds, Message::ToggleSelection)
                } else {
                    none
                }
            },
            Key::Character(c) => char_key_commands(pre, c, m, cmds),
        }
    }
}

/// The discovery and wizard events.
pub open spec fn discovery_post(
    pre: AppState,
    msg: Message,
    post: AppState,
    cmds: Seq<Command>,
) -> bool {
    match msg {
        Message::StartDiscovery => {
            &&& post == (AppState {
                discovering: true,
                wizard_step: WizardStep::Discovering,
                ..pre
            })
            &&& cmds =~= seq![Command::RunDiscovery]
        },
        Message::DiscoveryComplete(result) => {
            &&& post == (AppState {
                discovering: false,
                discovery_steps: post.discovery_steps,
                wizard_step: post.wizard_step,
                server_url: post.server_url,
                api_key: post.api_key,
                discovery_result: post.discovery_result,
                ..pre
            })
            &&& post.discovery_steps@ == result.steps@
            &&& match result.server_url {
                Option::Some(u) => {
                    &&& post.wizard_step == WizardStep::FoundServer
                    &&& post.server_url@ == u@
                    &&& match result.api_key {
                        Option::Some(k) => post.api_key@ == k@,
                        Option::None => post.api_key == pre.api_key,
                    }
                },
                Option::None => {
                    &&& post.wizard_step == WizardStep::ManualEntry
                    &&& post.server_url == pre.server_url
                    &&& post.api_key == pre.api_key
                },
            }
            &&& post.discovery_result == Some(result)
            &&& cmds =~= Seq::<Command>::empty()
        },
        Message::ConfirmDiscoveredServer => {
            &&& post == (AppState { wizard_step: WizardStep::Complete, first_run: false, ..pre })
            &&& cmds.len() == 2
            &&& (cmds[0] matches Command::SaveSettings { settings, notify } && settings.server_url@
                == pre.server_url@ && settings.api_key@ == pre.api_key@ && settings.allow_insecure
                && !notify)
            &&& cmds[1] == Command::Emit(Message::CheckHealth)
        },
        Message::ChooseManualEntry => {
            &&& post == (AppState { wizard_step: WizardStep::ManualEntry, ..pre })
            &&& cmds =~= Seq::<Command>::empty()
        },
        Message::WizardServerUrlChanged(url) => {
            &&& post == (AppState { server_url: post.server_url, ..pre })
            &&& post.server_url == url
            &&& cmds =~= Seq::<Command>::empty()
        },
        Message::WizardApiKeyChanged(key) => {
            &&& post == (AppState { api_key: post.api_key, ..pre })
            &&& post.api_key == key
            &&& cmds =~= Seq::<Command>::empty()
        },
        Message::FinishWizard => {
            if pre.server_url@.len() == 0 {
                unchanged(pre, post, cmds)
            } else {
                &&& post == (AppState {
                    wizard_step: WizardStep::Complete,
                    first_run: false,
                    ..pre
                })
                &&& cmds.len() == 2
                &&& (cmds[0] matches Command::SaveSettings { settings, notify }
                    && settings.server_url@ == pre.server_url@ && settings.api_key@
                    == pre.api_key@ && settings.allow_insecure && !notify)
                &&& cmds[1] == Command::Emit(Message::CheckHealth)
            }
        },
        _ => false,
    }
}

/// The connection and statistics events.
pub open spec fn connection_post(
    pre: AppState,
    msg: Message,
    post: AppState,
    cmds: Seq<Command>,
) -> bool {
    match msg {
        Message::CheckHealth => {
            &&& post == (AppState { connection_status: ConnectionStatus::Connecting, ..pre })
            &&& cmds.len() == 1
            &&& is_call(cmds[0], pre, ApiCall::Health)
        },
        Message::HealthChecked(result) => {
            match result {
                Result::Ok(_) => {
                    &&& post == (AppState {
                        connection_status: ConnectionStatus::Connected,
                        ..pre
                    })
                    &&& cmds =~= seq![
                        Command::Emit(Message::FetchStats),
                        Command::Emit(Message::FetchSyncStatus),
                    ]
                },
                Result::Err(e) => {
                    &&& post == (AppState { connection_status: post.connection_status, ..pre })
                    &&& (post.connection_status matches ConnectionStatus::Failed(m) && m@
                        == e.message_spec())
                    &&& cmds =~= Seq::<Command>::empty()
                },
            }
        },
        Message::FetchStats => {
            &&& post == (AppState { loading: LoadingState::Loading, ..pre })
            &&& cmds.len() == 1
            &&& is_call(cmds[0], pre, ApiCall::Stats)
        },
        Message::StatsLoaded(result) => {
            &&& match result {
                Result::Ok(stats) => {
                    &&& post == (AppState {
                        stats: Some(stats),
                        loading: LoadingState::Idle,
                        ..pre
                    })
                },
                Result::Err(e) => loading_error(pre, post, e.message_spec()),
            }
            &&& cmds =~= Seq::<Command>::empty()
        },
        _ => false,
    }
}

/// The aggregate-list events.
pub open spec fn aggregates_post(
    pre: AppState,
    msg: Message,
    post: AppState,
    cmds: Seq<Command>,
) -> bool {
    match msg {
        Message::FetchAggregates(view_type) => {
            &&& post == (AppState { loading: LoadingState::Loading, selected_index: 0, ..pre })
            &&& cmds.len() == 1
            &&& is_call(
                cmds[0],
                pre,
                ApiCall::Aggregates {
                    view_type,
                    sort_field: pre.sort_field,
                    sort_dir: pre.sort_dir,
                },
            )
        },
        Message::AggregatesLoaded(result) => {
            &&& match result {
                Result::Ok(resp) => {
                    &&& post == (AppState {
                        aggregates: post.aggregates,
                        loading: LoadingState::Idle,
                        ..pre
                    })
                    &&& post.aggregates == resp.rows
                },
                Result::Err(e) => loading_error(pre, post, e.message_spec()),
            }
            &&& cmds =~= Seq::<Command>::empty()
        },
        Message::SelectAggregate(index) => {
            &&& if index < pre.aggregates@.len() {
                post == (AppState { selected_index: index, ..pre })
            } else {
                post == pre
            }
            &&& cmds =~= Seq::<Command>::empty()
        },
        Message::SelectPrevious => {
            &&& post == (AppState { selected_index: post.selected_index, ..pre })
            &&& post.selected_index == if pre.selected_index > 0 {
                (pre.selected_index - 1) as usize
            } else {
                0usize
            }
            &&& cmds =~= Seq::<Command>::empty()
        },
        Message::SelectNext => {
            &&& post == (AppState { selected_index: post.selected_index, ..pre })
            &&& post.selected_index == if pre.selected_index + 1 < pre.aggregates@.len() {
                (pre.selected_index + 1) as usize
            } else {
                pre.selected_index
            }
            &&& cmds =~= Seq::<Command>::empty()
        },
        Message::DrillDown => {
            match pre.navigation.cur() {
                ViewLevel::Aggregates { view_type } => {
                    if pre.selected_index < pre.aggregates@.len() {
                        let key = pre.aggregates@[pre.selected_index as int].key;
                        &&& post == (AppState {
                            messages_offset: 0,
                            navigation: post.navigation,
                            ..pre
                        })
                        &&& nav_pushed(pre, post)
                        &&& (post.navigation.cur() matches ViewLevel::Messages {
                            filter_description,
                        } && filter_description@ == view_type.display_name_spec() + ": "@ + key@)
                        &&& cmds.len() == 1
                        &&& (cmds[0] matches Command::Emit(m) && (m matches Message::FetchMessages {
                            filter_type,
                            filter_value,
                        } && filter_type@ == view_type.as_str_spec() && filter_value@ == key@))
                    } else {
                        unchanged(pre, post, cmds)
                    }
                },
                _ => unchanged(pre, post, cmds),
            }
        },
        Message::ToggleSortField => {
            &&& post == (AppState { sort_field: sort_field_cycle(pre.sort_field), ..pre })
            &&& refetch_after_nav(pre.navigation.cur(), cmds)
        },
        Message::ToggleSortDirection => {
            &&& post == (AppState { sort_dir: sort_dir_flip(pre.sort_dir), ..pre })
            &&& refetch_after_nav(pre.navigation.cur(), cmds)
        },
        _ => false,
    }
}

/// The message-list and pagination events.
pub open spec fn message_list_post(
    pre: AppState,
    msg: Message,
    post: AppState,
    cmds: Seq<Command>,
) -> bool {
    match msg {
        Message::FetchMessages { filter_type, filter_value } => {
            &&& post == (AppState {
                loading: LoadingState::Loading,
                message_selected_index: 0,
                filter_type: post.filter_type,
                filter_value: post.filter_value,
                ..pre
            })
            &&& post.filter_type@ == filter_type@
            &&& post.filter_value@ == filter_value@
            &&& cmds.len() == 1
            &&& is_messages_call(cmds[0], pre, filter_type@, filter_value@)
        },
        Message::MessagesLoaded(result) => {
            &&& match result {
                Result::Ok(resp) => {
                    &&& post == (AppState {
                        messages: post.messages,
                        messages_total: resp.total,
                        loading: LoadingState::Idle,
                        ..pre
                    })
                    &&& post.messages == resp.messages
                },
                Result::Err(e) => loading_error(pre, post, e.message_spec()),
            }
            &&& cmds =~= Seq::<Command>::empty()
        },
        Message::SelectMessage(index) => {
            &&& if index < pre.messages@.len() {
                post == (AppState { message_selected_index: index, ..pre })
            } else {
                post == pre
            }
            &&& cmds =~= Seq::<Command>::empty()
        },
        Message::OpenMessage => {
            if pre.message_selected_index < pre.messages@.len() {
                let id = pre.messages@[pre.message_selected_index as int].id;
                &&& post == (AppState {
                    loading: LoadingState::Loading,
                    navigation: post.navigation,
                    ..pre
                })
                &&& nav_pushed(pre, post)
                &&& post.navigation.cur() == (ViewLevel::MessageDetail { message_id: id })
                &&& cmds.len() == 1
                &&& is_call(cmds[0], pre, ApiCall::MessageById { message_id: id })
            } else {
                unchanged(pre, post, cmds)
            }
        },
        Message::MessageDetailLoaded(result) => {
            &&& match result {
                Result::Ok(detail) => {
                    &&& post == (AppState {
                        current_message: post.current_message,
                        loading: LoadingState::Idle,
                        ..pre
                    })
                    &&& post.current_message == Some(detail)
                },
                Result::Err(e) => loading_error(pre, post, e.message_spec()),
            }
            &&& cmds =~= Seq::<Command>::empty()
        },
        Message::NextPage => {
            if pre.messages_offset + pre.messages_limit < pre.messages_total {
                &&& post == (AppState { messages_offset: post.messages_offset, ..pre })
                &&& post.messages_offset == pre.messages_offset + pre.messages_limit
                &&& cmds.len() == 1
                &&& (cmds[0] matches Command::Emit(m) && (m matches Message::FetchMessages {
                    filter_type,
                    filter_value,
                } && filter_type@ == pre.filter_type@ && filter_value@ == pre.filter_value@))
            } else {
                unchanged(pre, post, cmds)
            }
        },
        Message::PreviousPage => {
            if pre.messages_offset > 0 {
                &&& post == (AppState { messages_offset: post.messages_offset, ..pre })
                &&& post.messages_offset == if pre.messages_offset - pre.messages_limit > 0 {
                    pre.messages_offset - pre.messages_limit
                } else {
                    0int
                }
                &&& cmds.len() == 1
                &&& (cmds[0] matches Command::Emit(m) && (m matches Message::FetchMessages {
                    filter_type,
                    filter_value,
                } && filter_type@ == pre.filter_type@ && filter_value@ == pre.filter_value@))
            } else {
                unchanged(pre, post, cmds)
            }
        },
        Message::PreviousMessage => {
            if pre.message_selected_index > 0 {
                &&& post == (AppState {
                    message_selected_index: (pre.message_selected_index - 1) as usize,
                    ..pre
                })
                &&& emits_only(cmds, Message::OpenMessage)
            } else {
                unchanged(pre, post, cmds)
            }
        },
        Message::NextMessage => {
            if pre.message_selected_index + 1 < pre.messages@.len() {
                &&& post == (AppState {
                    message_selected_index: (pre.message_selected_index + 1) as usize,
                    ..pre
                })
                &&& emits_only(cmds, Message::OpenMessage)
            } else {
                unchanged(pre, post, cmds)
            }
        },
        _ => false,
    }
}

/// The thread-view events.
pub open spec fn thread_post(
    pre: AppState,
    msg: Message,
    post: AppState,
    cmds: Seq<Command>,
) -> bool {
    match msg {
        Message::ViewThread(tid) => {
            &&& post == (AppState { thread: post.thread, navigation: post.navigation, ..pre })
            &&& post.thread.thread_id matches Option::None
            &&& post.thread.messages@.len() == 0
            &&& post.thread.expanded@.len() == 0
            &&& post.thread.focused_index == 0
            &&& !post.thread.is_loading
            &&& nav_pushed(pre, post)
            &&& (post.navigation.cur() matches ViewLevel::Thread { thread_id } && thread_id@
                == tid@)
            &&& cmds.len() == 1
            &&& is_thread_call(cmds[0], pre, tid@)
        },
        Message::ThreadLoaded(result) => {
            &&& match result {
                Result::Ok(messages) => {
                    match pre.navigation.cur() {
                        ViewLevel::Thread { thread_id } => {
                            &&& post == (AppState { thread: post.thread, ..pre })
                            &&& (post.thread.thread_id matches Option::Some(t) && t@ == thread_id@)
                            &&& post.thread.messages == messages
                            &&& post.thread.expanded@.len() == messages@.len()
                            &&& (forall|i: int|
                                0 <= i < messages@.len() ==> post.thread.expanded@[i] == (i
                                    == messages@.len() - 1))
                            &&& (messages@.len() > 0 ==> post.thread.focused_index
                                == messages@.len() - 1)
                            &&& (messages@.len() == 0 ==> post.thread.focused_index
                                == pre.thread.focused_index)
                            &&& !post.thread.is_loading
                        },
                        _ => {
                            &&& post == (AppState { thread: post.thread, ..pre })
                            &&& post.thread == (ThreadState { is_loading: false, ..pre.thread })
                        },
                    }
                },
                Result::Err(e) => {
                    &&& post == (AppState { thread: post.thread, loading: post.loading, ..pre })
                    &&& post.thread == (ThreadState { is_loading: false, ..pre.thread })
                    &&& (post.loading matches LoadingState::Error(m) && m@ == e.message_spec())
                },
            }
            &&& cmds =~= Seq::<Command>::empty()
        },
        Message::ToggleThreadMessage(index) => {
            &&& post == (AppState { thread: post.thread, ..pre })
            &&& if index < pre.thread.expanded@.len() {
                post.thread == (ThreadState { expanded: post.thread.expanded, ..pre.thread })
                    && post.thread.expanded@ == toggled(pre.thread.expanded@, index as int)
            } else {
                post.thread == pre.thread
            }
            &&& cmds =~= Seq::<Command>::empty()
        },
        Message::ExpandAllThread => {
            &&& post == (AppState { thread: post.thread, ..pre })
            &&& post.thread == (ThreadState { expanded: post.thread.expanded, ..pre.thread })
            &&& post.thread.expanded@.len() == pre.thread.expanded@.len()
            &&& (forall|i: int| 0 <= i < post.thread.expanded@.len() ==> post.thread.expanded@[i])
            &&& cmds =~= Seq::<Command>::empty()
        },
        Message::CollapseAllThread => {
            &&& post == (AppState { thread: post.thread, ..pre })
            &&& post.thread == (ThreadState { expanded: post.thread.expanded, ..pre.thread })
            &&& post.thread.expanded@.len() == pre.thread.expanded@.len()
            &&& (forall|i: int| 0 <= i < post.thread.expanded@.len() ==> !post.thread.expanded@[i])
            &&& cmds =~= Seq::<Command>::empty()
        },
        Message::ThreadFocusPrevious => {
            &&& post == (AppState { thread: post.thread, ..pre })
            &&& post.thread == (ThreadState {
                focused_index: post.thread.focused_index,
                ..pre.thread
            })
            &&& post.thread.focused_index == if pre.thread.focused_index > 0 {
                (pre.thread.focused_index - 1) as usize
            } else {
                0usize
            }
            &&& cmds =~= Seq::<Command>::empty()
        },
        Message::ThreadFocusNext => {
            &&& post == (AppState { thread: post.thread, ..pre })
            &&& post.thread == (ThreadState {
                focused_index: post.thread.focused_index,
                ..pre.thread
            })
            &&& post.thread.focused_index == if pre.thread.focused_index + 1
                < pre.thread.messages@.len() {
                (pre.thread.focused_index + 1) as usize
            } else {
                pre.thread.focused_index
            }
            &&& cmds =~= Seq::<Command>::empty()
        },
        _ => false,
    }
}

/// The search events.
pub open spec fn search_post(
    pre: AppState,
    msg: Message,
    post: AppState,
    cmds: Seq<Command>,
) -> bool {
    match msg {
        Message::OpenSearch => {
            &&& post == (AppState {
                navigation: post.navigation,
                search_query: post.search_query,
                search_results: post.search_results,
                search_selected_index: 0,
                search_total: 0,
                ..pre
            })
            &&& nav_pushed(pre, post)
            &&& post.navigation.cur() == ViewLevel::Search
            &&& post.search_query@.len() == 0
            &&& post.search_results@.len() == 0
            &&& cmds =~= Seq::<Command>::empty()
        },
        Message::SearchQueryChanged(query) => {
            &&& post == (AppState {
                search_query: post.search_query,
                search_results: post.search_results,
                search_total: post.search_total,
                ..pre
            })
            &&& post.search_query == query
            &&& if query@.len() > 0 {
                post.search_results == pre.search_results && post.search_total == pre.search_total
                    && emits_only(cmds, Message::ExecuteSearch)
            } else {
                post.search_results@.len() == 0 && post.search_total == 0 && cmds =~= Seq::<
                    Command,
                >::empty()
            }
        },
        Message::ExecuteSearch => {
            if pre.search_query@.len() == 0 {
                unchanged(pre, post, cmds)
            } else {
                &&& post == (AppState { is_searching: true, ..pre })
                &&& cmds.len() == 1
                &&& is_search_call(cmds[0], pre, pre.search_query@)
            }
        },
        Message::SearchLoaded(result) => {
            &&& match result {
                Result::Ok(resp) => {
                    &&& post == (AppState {
                        is_searching: false,
                        search_results: post.search_results,
                        search_total: resp.total,
                        search_selected_index: 0,
                        ..pre
                    })
                    &&& post.search_results == resp.messages
                },
                Result::Err(e) => {
                    &&& post == (AppState { is_searching: false, loading: post.loading, ..pre })
                    &&& (post.loading matches LoadingState::Error(m) && m@ == e.message_spec())
                },
            }
            &&& cmds =~= Seq::<Command>::empty()
        },
        Message::ToggleSearchMode => {
            &&& post == (AppState { search_deep_mode: !pre.search_deep_mode, ..pre })
            &&& if pre.search_query@.len() > 0 {
                emits_only(cmds, Message::ExecuteSearch)
            } else {
                cmds =~= Seq::<Command>::empty()
            }
        },
        Message::SelectSearchResult(index) => {
            &&& if index < pre.search_results@.len() {
                post == (AppState { search_selected_index: index, ..pre })
            } else {
                post == pre
            }
            &&& cmds =~= Seq::<Command>::empty()
        },
        Message::OpenSearchResult => {
            if pre.search_selected_index < pre.search_results@.len() {
                let id = pre.search_results@[pre.search_selected_index as int].id;
                &&& post == (AppState {
                    loading: LoadingState::Loading,
                    navigation: post.navigation,
                    ..pre
                })
                &&& nav_pushed(pre, post)
                &&& post.navigation.cur() == (ViewLevel::MessageDetail { message_id: id })
                &&& cmds.len() == 1
                &&& is_call(cmds[0], pre, ApiCall::MessageById { message_id: id })
            } else {
                unchanged(pre, post, cmds)
            }
        },
        _ => false,
    }
}

/// The sync-status events.
pub open spec fn sync_post(
    pre: AppState,
    msg: Message,
    post: AppState,
    cmds: Seq<Command>,
) -> bool {
    match msg {
        Message::OpenSync => {
            &&& post == (AppState { navigation: post.navigation, ..pre })
            &&& nav_pushed(pre, post)
            &&& post.navigation.cur() == ViewLevel::Sync
            &&& emits_only(cmds, Message::FetchSyncStatus)
        },
        Message::FetchSyncStatus => {
            &&& post == (AppState { sync_loading: true, ..pre })
            &&& cmds.len() == 1
            &&& is_call(cmds[0], pre, ApiCall::SchedulerStatus)
        },
        Message::SyncStatusLoaded(result) => {
            &&& match result {
                Result::Ok(status) => {
                    &&& post == (AppState {
                        sync_loading: false,
                        sync_accounts: post.sync_accounts,
                        ..pre
                    })
                    &&& post.sync_accounts == status.accounts
                },
                Result::Err(e) => {
                    &&& post == (AppState { sync_loading: false, loading: post.loading, ..pre })
                    &&& (post.loading matches LoadingState::Error(m) && m@ == e.message_spec())
                },
            }
            &&& cmds =~= Seq::<Command>::empty()
        },
        Message::TriggerSync(email) => {
            &&& post == (AppState { syncing_account: post.syncing_account, ..pre })
            &&& (post.syncing_account matches Option::Some(e) && e@ == email@)
            &&& cmds.len() == 1
            &&& is_email_call(cmds[0], pre, email@, 0)
        },
        Message::SyncTriggered(result) => {
            match result {
                Result::Ok(_) => {
                    &&& post == (AppState { syncing_account: Option::None, ..pre })
                    &&& emits_only(cmds, Message::FetchSyncStatus)
                },
                Result::Err(e) => {
                    &&& post == (AppState {
                        syncing_account: Option::None,
                        loading: post.loading,
                        ..pre
                    })
                    &&& (post.loading matches LoadingState::Error(m) && m@ == e.message_spec())
                    &&& cmds =~= Seq::<Command>::empty()
                },
            }
        },
        Message::RefreshSyncStatus => {
            &&& post == pre
            &&& match pre.navigation.cur() {
                ViewLevel::Sync => emits_only(cmds, Message::FetchSyncStatus),
                _ => cmds =~= Seq::<Command>::empty(),
            }
        },
        Message::SyncTick => {
            &&& post == pre
            &&& emits_only(cmds, Message::FetchSyncStatus)
        },
        _ => false,
    }
}

/// The add-account and device-flow request events.
pub open spec fn add_account_post(
    pre: AppState,
    msg: Message,
    post: AppState,
    cmds: Seq<Command>,
) -> bool {
    match msg {
        Message::OpenAccounts => {
            &&& post == (AppState {
                navigation: post.navigation,
                add_account_email: post.add_account_email,
                adding_account: false,
                oauth_response: Option::None,
                ..pre
            })
            &&& nav_pushed(pre, post)
            &&& post.navigation.cur() == ViewLevel::Accounts
            &&& post.add_account_email@.len() == 0
            &&& emits_only(cmds, Message::FetchSyncStatus)
        },
        Message::AddAccountEmailChanged(email) => {
            &&& post == (AppState { add_account_email: post.add_account_email, ..pre })
            &&& post.add_account_email == email
            &&& cmds =~= Seq::<Command>::empty()
        },
        Message::StartAddAccount => {
            if pre.add_account_email@.len() == 0 {
                unchanged(pre, post, cmds)
            } else {
                &&& post == (AppState { adding_account: true, ..pre })
                &&& cmds.len() == 1
                &&& is_email_call(cmds[0], pre, pre.add_account_email@, 1)
            }
        },
        Message::OAuthInitiated(result) => {
            match result {
                Result::Ok(response) => {
                    if response.device_flow {
                        &&& post == (AppState {
                            oauth_response: post.oauth_response,
                            polling_device_flow: true,
                            ..pre
                        })
                        &&& post.oauth_response == Some(response)
                        &&& cmds =~= Seq::<Command>::empty()
                    } else {
                        &&& post == (AppState { oauth_response: post.oauth_response, ..pre })
                        &&& post.oauth_response == Some(response)
                        &&& cmds.len() == 1
                        &&& (cmds[0] matches Command::Emit(m) && (m
                            matches Message::OpenOAuthBrowser(u) && u == response.auth_url))
                    }
                },
                Result::Err(e) => {
                    &&& post == (AppState {
                        adding_account: false,
                        loading: post.loading,
                        ..pre
                    })
                    &&& (post.loading matches LoadingState::Error(m) && m@ == e.message_spec())
                    &&& cmds =~= Seq::<Command>::empty()
                },
            }
        },
        Message::OpenOAuthBrowser(url) => {
            &&& post == pre
            &&& cmds.len() == 1
            &&& (cmds[0] matches Command::OpenBrowser { url: u } && u == url)
        },
        Message::PollDeviceFlow => {
            if !pre.polling_device_flow {
                unchanged(pre, post, cmds)
            } else {
                &&& post == pre
                &&& cmds.len() == 1
                &&& is_email_call(cmds[0], pre, pre.add_account_email@, 2)
            }
        },
        _ => false,
    }
}

/// The device-flow outcome and account-removal events.
pub open spec fn account_admin_post(
    pre: AppState,
    msg: Message,
    post: AppState,
    cmds: Seq<Command>,
) -> bool {
    match msg {
        Message::DeviceFlowStatusReceived(result) => {
            match result {
                Result::Ok(status) => {
                    match status.status {
                        DeviceFlowState::Complete => {
                            &&& post == (AppState {
                                adding_account: false,
                                polling_device_flow: false,
                                oauth_response: Option::None,
                                add_account_email: post.add_account_email,
                                ..pre
                            })
                            &&& post.add_account_email@.len() == 0
                            &&& emits_only(cmds, Message::FetchSyncStatus)
                        },
                        DeviceFlowState::Pending => unchanged(pre, post, cmds),
                        _ => {
                            &&& post == (AppState {
                                adding_account: false,
                                polling_device_flow: false,
                                loading: post.loading,
                                ..pre
                            })
                            &&& (post.loading matches LoadingState::Error(m) && m@ == match status
                                .error {
                                Option::Some(e) => e@,
                                Option::None => "Device flow failed"@,
                            })
                            &&& cmds =~= Seq::<Command>::empty()
                        },
                    }
                },
                Result::Err(e) => {
                    &&& post == (AppState {
                        polling_device_flow: false,
                        loading: post.loading,
                        ..pre
                    })
                    &&& (post.loading matches LoadingState::Error(m) && m@ == e.message_spec())
                    &&& cmds =~= Seq::<Command>::empty()
                },
            }
        },
        Message::CancelAddAccount => {
            &&& post == (AppState {
                adding_account: false,
                polling_device_flow: false,
                oauth_response: Option::None,
                add_account_email: post.add_account_email,
                ..pre
            })
            &&& post.add_account_email@.len() == 0
            &&& cmds =~= Seq::<Command>::empty()
        },
        Message::ShowRemoveAccountModal(email) => {
            &&& post == (AppState {
                removing_account: post.removing_account,
                show_remove_modal: true,
                ..pre
            })
            &&& post.removing_account == Some(email)
            &&& cmds =~= Seq::<Command>::empty()
        },
        Message::HideRemoveAccountModal => {
            &&& post == (AppState {
                removing_account: Option::None,
                show_remove_modal: false,
                ..pre
            })
            &&& cmds =~= Seq::<Command>::empty()
        },
        Message::ConfirmRemoveAccount => {
            match pre.removing_account {
                Option::Some(email) => {
                    &&& post == (AppState {
                        show_remove_modal: false,
                        removing_account: Option::None,
                        ..pre
                    })
                    &&& cmds.len() == 1
                    &&& is_email_call(cmds[0], pre, email@, 3)
                },
                Option::None => {
                    &&& post == (AppState { show_remove_modal: false, ..pre })
                    &&& cmds =~= Seq::<Command>::empty()
                },
            }
        },
        Message::AccountRemoved(result) => {
            match result {
                Result::Ok(_) => {
                    &&& post == pre
                    &&& emits_only(cmds, Message::FetchSyncStatus)
                },
                Result::Err(e) => {
                    &&& loading_error(pre, post, e.message_spec())
                    &&& cmds =~= Seq::<Command>::empty()
                },
            }
        },
        _ => false,
    }
}

/// The settings and help events.
pub open spec fn settings_post(
    pre: AppState,
    msg: Message,
    post: AppState,
    cmds: Seq<Command>,
) -> bool {
    match msg {
        Message::ShowHelp => {
            &&& post == (AppState { show_help_modal: true, ..pre })
            &&& cmds =~= Seq::<Command>::empty()
        },
        Message::HideHelp => {
            &&& post == (AppState { show_help_modal: false, ..pre })
            &&& cmds =~= Seq::<Command>::empty()
        },
        Message::OpenSettings => {
            &&& post == (AppState {
                settings_server_url: post.settings_server_url,
                settings_api_key: post.settings_api_key,
                settings_tab: SettingsTab::Server,
                connection_test_result: Option::None,
                navigation: post.navigation,
                ..pre
            })
            &&& post.settings_server_url@ == pre.server_url@
            &&& post.settings_api_key@ == pre.api_key@
            &&& nav_pushed(pre, post)
            &&& post.navigation.cur() == ViewLevel::Settings
            &&& cmds =~= Seq::<Command>::empty()
        },
        Message::SwitchSettingsTab(tab) => {
            &&& post == (AppState { settings_tab: tab, ..pre })
            &&& cmds =~= Seq::<Command>::empty()
        },
        Message::SettingsServerUrlChanged(url) => {
            &&& post == (AppState {
                settings_server_url: post.settings_server_url,
                connection_test_result: Option::None,
                ..pre
            })
            &&& post.settings_server_url == url
            &&& cmds =~= Seq::<Command>::empty()
        },
        Message::SettingsApiKeyChanged(key) => {
            &&& post == (AppState {
                settings_api_key: post.settings_api_key,
                connection_test_result: Option::None,
                ..pre
            })
            &&& post.settings_api_key == key
            &&& cmds =~= Seq::<Command>::empty()
        },
        Message::TestConnection => {
            &&& post == (AppState {
                testing_connection: true,
                connection_test_result: Option::None,
                ..pre
            })
            &&& cmds.len() == 1
            &&& (cmds[0] matches Command::Http { base_url, api_key, call } && base_url@
                == pre.settings_server_url@ && opt_view(api_key) == key_opt(
                pre.settings_api_key@,
            ) && call matches ApiCall::HealthTest)
        },
        Message::ConnectionTested(result) => {
            &&& post == (AppState {
                testing_connection: false,
                connection_test_result: post.connection_test_result,
                ..pre
            })
            &&& match result {
                Result::Ok(_) => post.connection_test_result == Some(
                    Result::<(), String>::Ok(()),
                ),
                Result::Err(e) => post.connection_test_result matches Option::Some(r2) && (
                r2 matches Result::Err(m) && m@ == e.message_spec()),
            }
            &&& cmds =~= Seq::<Command>::empty()
        },
        Message::SaveSettings => {
            &&& post == (AppState { server_url: post.server_url, api_key: post.api_key, ..pre })
            &&& post.server_url@ == pre.settings_server_url@
            &&& post.api_key@ == pre.settings_api_key@
            &&& cmds.len() == 1
            &&& (cmds[0] matches Command::SaveSettings { settings, notify } && settings.server_url@
                == pre.settings_server_url@ && settings.api_key@ == pre.settings_api_key@
                && settings.allow_insecure && notify)
        },
        Message::SettingsSaved(result) => {
            &&& match result {
                Result::Ok(_) => {
                    &&& post == (AppState { navigation: post.navigation, ..pre })
                    &&& nav_popped(pre, post)
                },
                Result::Err(e) => loading_error(pre, post, "Failed to save settings: "@ + e@),
            }
            &&& cmds =~= Seq::<Command>::empty()
        },
        _ => false,
    }
}

/// The selection and deletion events.
pub open spec fn selection_post(
    pre: AppState,
    msg: Message,
    post: AppState,
    cmds: Seq<Command>,
) -> bool {
    match msg {
        Message::ToggleSelection => {
            &&& match selection_target(pre) {
                Option::Some(id) => {
                    &&& post == (AppState { selected_messages: post.selected_messages, ..pre })
                    &&& post.selected_messages.wf()
                    &&& post.selected_messages.has(id) == !pre.selected_messages.has(id)
                    &&& (forall|x: i64|
                        x != id ==> post.selected_messages.has(x) == pre.selected_messages.has(x))
                },
                Option::None => post == pre,
            }
            &&& cmds =~= Seq::<Command>::empty()
        },
        Message::SelectAll => {
            &&& match pre.navigation.cur() {
                ViewLevel::Messages { .. } => {
                    &&& post == (AppState { selected_messages: post.selected_messages, ..pre })
                    &&& post.selected_messages.wf()
                    &&& (forall|x: i64|
                        post.selected_messages.has(x) == (pre.selected_messages.has(x)
                            || list_has_id(pre.messages@, x)))
                },
                ViewLevel::Search => {
                    &&& post == (AppState { selected_messages: post.selected_messages, ..pre })
                    &&& post.selected_messages.wf()
                    &&& (forall|x: i64|
                        post.selected_messages.has(x) == (pre.selected_messages.has(x)
                            || list_has_id(pre.search_results@, x)))
                },
                _ => post == pre,
            }
            &&& cmds =~= Seq::<Command>::empty()
        },
        Message::ClearSelection => {
            &&& post == (AppState { selected_messages: post.selected_messages, ..pre })
            &&& post.selected_messages.wf()
            &&& (forall|x: i64| !post.selected_messages.has(x))
            &&& cmds =~= Seq::<Command>::empty()
        },
        Message::ShowDeleteModal => {
            &&& if pre.selected_messages.stored() > 0 {
                post == (AppState { show_delete_modal: true, ..pre })
            } else {
                post == pre
            }
            &&& cmds =~= Seq::<Command>::empty()
        },
        Message::HideDeleteModal => {
            &&& post == (AppState { show_delete_modal: false, ..pre })
            &&& cmds =~= Seq::<Command>::empty()
        },
        Message::ConfirmDelete => {
            &&& post == (AppState { show_delete_modal: false, ..pre })
            &&& emits_only(cmds, Message::StageForDeletion)
        },
        Message::StageForDeletion => {
            &&& post == (AppState { selected_messages: post.selected_messages, ..pre })
            &&& post.selected_messages.wf()
            &&& (forall|x: i64| !post.selected_messages.has(x))
            &&& cmds =~= Seq::<Command>::empty()
        },
        _ => false,
    }
}

/// The navigation and connection-input events.
pub open spec fn navigation_post(
    pre: AppState,
    msg: Message,
    post: AppState,
    cmds: Seq<Command>,
) -> bool {
    match msg {
        Message::NavigateTo(view) => {
            &&& post == (AppState { navigation: post.navigation, ..pre })
            &&& nav_pushed(pre, post)
            &&& post.navigation.cur() == view
            &&& match view {
                ViewLevel::Aggregates { view_type } => emits_only(
                    cmds,
                    Message::FetchAggregates(view_type),
                ),
                _ => cmds =~= Seq::<Command>::empty(),
            }
        },
        Message::GoBack => {
            &&& post == (AppState { navigation: post.navigation, ..pre })
            &&& nav_popped(pre, post)
            &&& refetch_after_nav(post.navigation.cur(), cmds)
        },
        Message::JumpToBreadcrumb(index) => {
            &&& post == (AppState { navigation: post.navigation, ..pre })
            &&& (post.navigation.hist(), post.navigation.cur()) == nav_apply(
                pre.navigation.hist(),
                pre.navigation.cur(),
                NavOp::JumpTo(index as int),
            )
            &&& refetch_after_nav(post.navigation.cur(), cmds)
        },
        Message::NextViewType => {
            match pre.navigation.cur() {
                ViewLevel::Aggregates { view_type } => {
                    let nv = view_type.next_spec();
                    let mid = nav_apply(
                        pre.navigation.hist(),
                        pre.navigation.cur(),
                        NavOp::Pop,
                    );
                    &&& post == (AppState { navigation: post.navigation, ..pre })
                    &&& (post.navigation.hist(), post.navigation.cur()) == nav_apply(
                        mid.0,
                        mid.1,
                        NavOp::Push(ViewLevel::Aggregates { view_type: nv }),
                    )
                    &&& emits_only(cmds, Message::FetchAggregates(nv))
                },
                _ => unchanged(pre, post, cmds),
            }
        },
        Message::PreviousViewType => {
            match pre.navigation.cur() {
                ViewLevel::Aggregates { view_type } => {
                    let nv = view_type.previous_spec();
                    let mid = nav_apply(
                        pre.navigation.hist(),
                        pre.navigation.cur(),
                        NavOp::Pop,
                    );
                    &&& post == (AppState { navigation: post.navigation, ..pre })
                    &&& (post.navigation.hist(), post.navigation.cur()) == nav_apply(
                        mid.0,
                        mid.1,
                        NavOp::Push(ViewLevel::Aggregates { view_type: nv }),
                    )
                    &&& emits_only(cmds, Message::FetchAggregates(nv))
                },
                _ => unchanged(pre, post, cmds),
            }
        },
        Message::ServerUrlChanged(url) => {
            &&& post == (AppState { server_url: post.server_url, ..pre })
            &&& post.server_url == url
            &&& cmds =~= Seq::<Command>::empty()
        },
        Message::ApiKeyChanged(key) => {
            &&& post == (AppState { api_key: post.api_key, ..pre })
            &&& post.api_key == key
            &&& cmds =~= Seq::<Command>::empty()
        },
        Message::RetryConnection => {
            &&& post == pre
            &&& emits_only(cmds, Message::CheckHealth)
        },
        _ => false,
    }
}

/// The attachment-download events.
pub open spec fn downloads_post(
    pre: AppState,
    msg: Message,
    post: AppState,
    cmds: Seq<Command>,
) -> bool {
    match msg {
        Message::DownloadAttachment { message_id, attachment_idx, filename } => {
            &&& post == (AppState { downloads: post.downloads, ..pre })
            &&& post.downloads.state_of(message_id as int, attachment_idx as int)
                == (DownloadState::Downloading { progress: 0u8 })
            &&& (forall|a: int, b: int|
                !(a == message_id as int && b == attachment_idx as int)
                    ==> post.downloads.state_of(a, b) == pre.downloads.state_of(a, b))
            &&& cmds.len() == 1
            &&& (cmds[0] matches Command::Download {
                base_url,
                api_key,
                message_id: m2,
                attachment_idx: a2,
                filename: f2,
            } && base_url@ == pre.server_url@ && opt_view(api_key) == key_opt(pre.api_key@) && m2
                == message_id && a2 == attachment_idx && f2 == filename)
        },
        Message::DownloadProgress { message_id, attachment_idx, progress } => {
            &&& post == (AppState { downloads: post.downloads, ..pre })
            &&& post.downloads.state_of(message_id as int, attachment_idx as int)
                == (DownloadState::Downloading {
                progress: if progress > 100 {
                    100u8
                } else {
                    progress
                },
            })
            &&& (forall|a: int, b: int|
                !(a == message_id as int && b == attachment_idx as int)
                    ==> post.downloads.state_of(a, b) == pre.downloads.state_of(a, b))
            &&& cmds =~= Seq::<Command>::empty()
        },
        Message::DownloadComplete { message_id, attachment_idx, path } => {
            &&& post == (AppState { downloads: post.downloads, ..pre })
            &&& post.downloads.state_of(message_id as int, attachment_idx as int)
                == (DownloadState::Complete { path })
            &&& (forall|a: int, b: int|
                !(a == message_id as int && b == attachment_idx as int)
                    ==> post.downloads.state_of(a, b) == pre.downloads.state_of(a, b))
            &&& cmds =~= Seq::<Command>::empty()
        },
        Message::DownloadFailed { message_id, attachment_idx, error } => {
            &&& post == (AppState { downloads: post.downloads, ..pre })
            &&& post.downloads.state_of(message_id as int, attachment_idx as int)
                == (DownloadState::Failed { error })
            &&& (forall|a: int, b: int|
                !(a == message_id as int && b == attachment_idx as int)
                    ==> post.downloads.state_of(a, b) == pre.downloads.state_of(a, b))
            &&& cmds =~= Seq::<Command>::empty()
        },
        Message::OpenFile(path) => {
            &&& post == pre
            &&& cmds.len() == 1
            &&& (cmds[0] matches Command::OpenPath { path: p } && p == path)
        },
        _ => false,
    }
}

/// The events that open a draft: new, reply, reply-all, forward.
pub open spec fn compose_open_post(
    pre: AppState,
    msg: Message,
    post: AppState,
    cmds: Seq<Command>,
) -> bool {
    match msg {
        Message::OpenCompose => {
            &&& post == (AppState { compose: post.compose, ..pre })
            &&& post.compose.is_open
            &&& post.compose.mode == ComposeMode::New
            &&& post.compose.from_account@ == first_account_email(pre)
            &&& post.compose.reply_to_id matches Option::None
            &&& post.compose.to@.len() == 0
            &&& post.compose.cc@.len() == 0
            &&& post.compose.subject@.len() == 0
            &&& post.compose.body@.len() == 0
            &&& compose_fresh_flags(post.compose)
            &&& !post.compose.show_cc_bcc
            &&& cmds =~= Seq::<Command>::empty()
        },
        Message::OpenReply(message_id) => {
            match pre.current_message {
                Option::Some(detail) => {
                    &&& post == (AppState { compose: post.compose, ..pre })
                    &&& post.compose.mode == ComposeMode::Reply
                    &&& post.compose.reply_to_id == Some(message_id)
                    &&& post.compose.from_account@ == first_account_email(pre)
                    &&& post.compose.to@.len() == 1
                    &&& post.compose.to@[0]@ == detail.from_addr@
                    &&& post.compose.cc@.len() == 0
                    &&& post.compose.subject@ == reply_subject(detail.subject@)
                    &&& post.compose.body@ == "\n\n"@ + quoted_body(
                        detail.from_addr@,
                        sent_label(detail.sent_at),
                        detail.body@,
                    )
                    &&& compose_fresh_flags(post.compose)
                    &&& !post.compose.show_cc_bcc
                    &&& cmds =~= Seq::<Command>::empty()
                },
                Option::None => unchanged(pre, post, cmds),
            }
        },
        Message::OpenReplyAll(message_id) => {
            match pre.current_message {
                Option::Some(detail) => {
                    let me = first_account_email(pre);
                    &&& post == (AppState { compose: post.compose, ..pre })
                    &&& post.compose.mode == ComposeMode::ReplyAll
                    &&& post.compose.reply_to_id == Some(message_id)
                    &&& post.compose.from_account@ == me
                    &&& post.compose.to@ == minus_email(
                        detail.to@.push(detail.from_addr),
                        me,
                    )
                    &&& post.compose.cc@ == minus_email(detail.cc@, me)
                    &&& post.compose.subject@ == reply_subject(detail.subject@)
                    &&& post.compose.body@ == "\n\n"@ + quoted_body(
                        detail.from_addr@,
                        sent_label(detail.sent_at),
                        detail.body@,
                    )
                    &&& compose_fresh_flags(post.compose)
                    &&& post.compose.show_cc_bcc == (minus_email(detail.cc@, me).len() > 0)
                    &&& cmds =~= Seq::<Command>::empty()
                },
                Option::None => unchanged(pre, post, cmds),
            }
        },
        Message::OpenForward(message_id) => {
            match pre.current_message {
                Option::Some(detail) => {
                    &&& post == (AppState { compose: post.compose, ..pre })
                    &&& post.compose.mode == ComposeMode::Forward
                    &&& post.compose.reply_to_id == Some(message_id)
                    &&& post.compose.from_account@ == first_account_email(pre)
                    &&& post.compose.to@.len() == 0
                    &&& post.compose.cc@.len() == 0
                    &&& post.compose.subject@ == forward_subject(detail.subject@)
                    &&& post.compose.body@ == "\n\n---------- Forwarded message ----------\n"@
                        + forwarded_text(
                        detail.from_addr@,
                        sent_label(detail.sent_at),
                        detail.subject@,
                        detail.to@,
                        detail.body@,
                    )
                    &&& compose_fresh_flags(post.compose)
                    &&& !post.compose.show_cc_bcc
                    &&& cmds =~= Seq::<Command>::empty()
                },
                Option::None => unchanged(pre, post, cmds),
            }
        },
        _ => false,
    }
}

/// The events that edit the open draft.
pub open spec fn compose_edit_post(
    pre: AppState,
    msg: Message,
    post: AppState,
    cmds: Seq<Command>,
) -> bool {
    match msg {
        Message::ComposeToChanged(input) => {
            &&& post == (AppState { compose: post.compose, ..pre })
            &&& post.compose == (ComposeState { to_input: post.compose.to_input, ..pre.compose })
            &&& post.compose.to_input == input
            &&& cmds =~= Seq::<Command>::empty()
        },
        Message::ComposeAddTo => {
            let t = crate::text::trimmed(pre.compose.to_input@);
            &&& post == (AppState { compose: post.compose, ..pre })
            &&& if t.len() > 0 && !contains_str(pre.compose.to@, t) {
                post.compose == (ComposeState {
                    to: post.compose.to,
                    is_dirty: true,
                    to_input: post.compose.to_input,
                    ..pre.compose
                }) && post.compose.to@.len() == pre.compose.to@.len() + 1
                    && post.compose.to@.drop_last() == pre.compose.to@
                    && post.compose.to@.last()@ == t
            } else {
                post.compose == (ComposeState {
                    to_input: post.compose.to_input,
                    ..pre.compose
                })
            }
            &&& post.compose.to_input@.len() == 0
            &&& cmds =~= Seq::<Command>::empty()
        },
        Message::ComposeRemoveTo(index) => {
            &&& post == (AppState { compose: post.compose, ..pre })
            &&& if index < pre.compose.to@.len() {
                post.compose == (ComposeState {
                    to: post.compose.to,
                    is_dirty: true,
                    ..pre.compose
                }) && post.compose.to@ == pre.compose.to@.remove(index as int)
            } else {
                post.compose == pre.compose
            }
            &&& cmds =~= Seq::<Command>::empty()
        },
        Message::ComposeCcChanged(input) => {
            &&& post == (AppState { compose: post.compose, ..pre })
            &&& post.compose == (ComposeState { cc_input: post.compose.cc_input, ..pre.compose })
            &&& post.compose.cc_input == input
            &&& cmds =~= Seq::<Command>::empty()
        },
        Message::ComposeAddCc => {
            let t = crate::text::trimmed(pre.compose.cc_input@);
            &&& post == (AppState { compose: post.compose, ..pre })
            &&& if t.len() > 0 && !contains_str(pre.compose.cc@, t) {
                post.compose == (ComposeState {
                    cc: post.compose.cc,
                    is_dirty: true,
                    cc_input: post.compose.cc_input,
                    ..pre.compose
                }) && post.compose.cc@.len() == pre.compose.cc@.len() + 1
                    && post.compose.cc@.drop_last() == pre.compose.cc@
                    && post.compose.cc@.last()@ == t
            } else {
                post.compose == (ComposeState {
                    cc_input: post.compose.cc_input,
                    ..pre.compose
                })
            }
            &&& post.compose.cc_input@.len() == 0
            &&& cmds =~= Seq::<Command>::empty()
        },
        Message::ComposeRemoveCc(index) => {
            &&& post == (AppState { compose: post.compose, ..pre })
            &&& if index < pre.compose.cc@.len() {
                post.compose == (ComposeState {
                    cc: post.compose.cc,
                    is_dirty: true,
                    ..pre.compose
                }) && post.compose.cc@ == pre.compose.cc@.remove(index as int)
            } else {
                post.compose == pre.compose
            }
            &&& cmds =~= Seq::<Command>::empty()
        },
        Message::ComposeBccChanged(input) => {
            &&& post == (AppState { compose: post.compose, ..pre })
            &&& post.compose == (ComposeState { bcc_input: post.compose.bcc_input, ..pre.compose })
            &&& post.compose.bcc_input == input
            &&& cmds =~= Seq::<Command>::empty()
        },
        Message::ComposeAddBcc => {
            let t = crate::text::trimmed(pre.compose.bcc_input@);
            &&& post == (AppState { compose: post.compose, ..pre })
            &&& if t.len() > 0 && !contains_str(pre.compose.bcc@, t) {
                post.compose == (ComposeState {
                    bcc: post.compose.bcc,
                    is_dirty: true,
                    bcc_input: post.compose.bcc_input,
                    ..pre.compose
                }) && post.compose.bcc@.len() == pre.compose.bcc@.len() + 1
                    && post.compose.bcc@.drop_last() == pre.compose.bcc@
                    && post.compose.bcc@.last()@ == t
            } else {
                post.compose == (ComposeState {
                    bcc_input: post.compose.bcc_input,
                    ..pre.compose
                })
            }
            &&& post.compose.bcc_input@.len() == 0
            &&& cmds =~= Seq::<Command>::empty()
        },
        Message::ComposeRemoveBcc(index) => {
            &&& post == (AppState { compose: post.compose, ..pre })
            &&& if index < pre.compose.bcc@.len() {
                post.compose == (ComposeState {
                    bcc: post.compose.bcc,
                    is_dirty: true,
                    ..pre.compose
                }) && post.compose.bcc@ == pre.compose.bcc@.remove(index as int)
            } else {
                post.compose == pre.compose
            }
            &&& cmds =~= Seq::<Command>::empty()
        },
        Message::ComposeSubjectChanged(subject) => {
            &&& post == (AppState { compose: post.compose, ..pre })
            &&& post.compose == (ComposeState {
                subject: post.compose.subject,
                is_dirty: true,
                ..pre.compose
            })
            &&& post.compose.subject == subject
            &&& cmds =~= Seq::<Command>::empty()
        },
        Message::ComposeBodyChanged(body) => {
            &&& post == (AppState { compose: post.compose, ..pre })
            &&& post.compose == (ComposeState {
                body: post.compose.body,
                is_dirty: true,
                ..pre.compose
            })
            &&& post.compose.body == body
            &&& cmds =~= Seq::<Command>::empty()
        },
        Message::ComposeFromChanged(account) => {
            &&& post == (AppState { compose: post.compose, ..pre })
            &&& post.compose == (ComposeState {
                from_account: post.compose.from_account,
                ..pre.compose
            })
            &&& post.compose.from_account == account
            &&& cmds =~= Seq::<Command>::empty()
        },
        Message::ComposeToggleCcBcc => {
            &&& post == (AppState { compose: post.compose, ..pre })
            &&& post.compose == (ComposeState {
                show_cc_bcc: !pre.compose.show_cc_bcc,
                ..pre.compose
            })
            &&& cmds =~= Seq::<Command>::empty()
        },
        Message::ComposeAddAttachment => unchanged(pre, post, cmds),
        Message::ComposeAttachmentSelected { path, filename, size_bytes } => {
            &&& post == (AppState { compose: post.compose, ..pre })
            &&& post.compose == (ComposeState {
                attachments: post.compose.attachments,
                is_dirty: true,
                ..pre.compose
            })
            &&& post.compose.attachments@ == pre.compose.attachments@.push(
                crate::compose::AttachmentDraft {
                    path,
                    filename,
                    size_bytes,
                    mime_type: Option::None,
                },
            )
            &&& cmds =~= Seq::<Command>::empty()
        },
        Message::ComposeRemoveAttachment(index) => {
            &&& post == (AppState { compose: post.compose, ..pre })
            &&& if index < pre.compose.attachments@.len() {
                post.compose == (ComposeState {
                    attachments: post.compose.attachments,
                    is_dirty: true,
                    ..pre.compose
                }) && post.compose.attachments@ == pre.compose.attachments@.remove(index as int)
            } else {
                post.compose == pre.compose
            }
            &&& cmds =~= Seq::<Command>::empty()
        },
        _ => false,
    }
}

/// The events that send, save, or close the draft.
pub open spec fn compose_send_post(
    pre: AppState,
    msg: Message,
    post: AppState,
    cmds: Seq<Command>,
) -> bool {
    match msg {
        Message::ComposeSend => {
            let can = pre.compose.from_account@.len() > 0 && (pre.compose.to@.len() > 0
                || pre.compose.cc@.len() > 0 || pre.compose.bcc@.len() > 0)
                && !pre.compose.is_sending;
            if can {
                &&& post == (AppState { compose: post.compose, ..pre })
                &&& post.compose == (ComposeState {
                    is_sending: true,
                    send_error: Option::None,
                    ..pre.compose
                })
                &&& cmds =~= Seq::<Command>::empty()
            } else {
                unchanged(pre, post, cmds)
            }
        },
        Message::ComposeSent(result) => {
            &&& match result {
                Result::Ok(_) => compose_closed(pre, post),
                Result::Err(e) => {
                    &&& post == (AppState { compose: post.compose, ..pre })
                    &&& post.compose == (ComposeState {
                        is_sending: false,
                        send_error: post.compose.send_error,
                        ..pre.compose
                    })
                    &&& (post.compose.send_error matches Option::Some(m) && m@
                        == e.message_spec())
                },
            }
            &&& cmds =~= Seq::<Command>::empty()
        },
        Message::ComposeSaveDraft => unchanged(pre, post, cmds),
        Message::ComposeDraftSaved(result) => {
            &&& match result {
                Result::Ok(_) => {
                    &&& post == (AppState { compose: post.compose, ..pre })
                    &&& post.compose == (ComposeState { is_dirty: false, ..pre.compose })
                },
                Result::Err(e) => {
                    &&& post == (AppState { compose: post.compose, ..pre })
                    &&& post.compose == (ComposeState {
                        send_error: post.compose.send_error,
                        ..pre.compose
                    })
                    &&& (post.compose.send_error matches Option::Some(m) && m@
                        == "Failed to save draft: "@ + e.message_spec())
                },
            }
            &&& cmds =~= Seq::<Command>::empty()
        },
        Message::ComposeDiscard => {
            &&& compose_closed(pre, post)
            &&& cmds =~= Seq::<Command>::empty()
        },
        Message::ComposeClose => {
            &&& compose_closed(pre, post)
            &&& cmds =~= Seq::<Command>::empty()
        },
        _ => false,
    }
}

/// The keyboard shortcuts.
pub open spec fn keys_post(
    pre: AppState,
    msg: Message,
    post: AppState,
    cmds: Seq<Command>,
) -> bool {
    match msg {
        Message::KeyPressed(key, modifiers) => {
            &&& post == pre
            &&& key_commands(pre, key, modifiers, cmds)
        },
        _ => false,
    }
}

/// What one reducer step does, for every event: how the next state relates
/// to the previous one, and exactly which commands come out.
pub open spec fn reduce_post(
    pre: AppState,
    msg: Message,
    post: AppState,
    cmds: Seq<Command>,
) -> bool {
    match msg {
        Message::StartDiscovery
        | Message::DiscoveryComplete(_)
        | Message::ConfirmDiscoveredServer
        | Message::ChooseManualEntry
        | Message::WizardServerUrlChanged(_)
        | Message::WizardApiKeyChanged(_)
        | Message::FinishWizard => discovery_post(pre, msg, post, cmds),
        Message::CheckHealth
        | Message::HealthChecked(_)
        | Message::FetchStats
        | Message::StatsLoaded(_) => connection_post(pre, msg, post, cmds),
        Message::FetchAggregates(_)
        | Message::AggregatesLoaded(_)
        | Message::SelectAggregate(_)
        | Message::SelectPrevious
        | Message::SelectNext
        | Message::DrillDown
        | Message::ToggleSortField
        | Message::ToggleSortDirection => aggregates_post(pre, msg, post, cmds),
        Message::FetchMessages { .. }
        | Message::MessagesLoaded(_)
        | Message::SelectMessage(_)
        | Message::OpenMessage
        | Message::MessageDetailLoaded(_)
        | Message::NextPage
        | Message::PreviousPage
        | Message::PreviousMessage
        | Message::NextMessage => message_list_post(pre, msg, post, cmds),
        Message::ViewThread(_)
        | Message::ThreadLoaded(_)
        | Message::ToggleThreadMessage(_)
        | Message::ExpandAllThread
        | Message::CollapseAllThread
        | Message::ThreadFocusPrevious
        | Message::ThreadFocusNext => thread_post(pre, msg, post, cmds),
        Message::OpenSearch
        | Message::SearchQueryChanged(_)
        | Message::ExecuteSearch
        | Message::SearchLoaded(_)
        | Message::ToggleSearchMode
        | Message::SelectSearchResult(_)
        | Message::OpenSearchResult => search_post(pre, msg, post, cmds),
        Message::OpenSync
        | Message::FetchSyncStatus
        | Message::SyncStatusLoaded(_)
        | Message::TriggerSync(_)
        | Message::SyncTriggered(_)
        | Message::RefreshSyncStatus
        | Message::SyncTick => sync_post(pre, msg, post, cmds),
        Message::OpenAccounts
        | Message::AddAccountEmailChanged(_)
        | Message::StartAddAccount
        | Message::OAuthInitiated(_)
        | Message::OpenOAuthBrowser(_)
        | Message::PollDeviceFlow => add_account_post(pre, msg, post, cmds),
        Message::DeviceFlowStatusReceived(_)
        | Message::CancelAddAccount
        | Message::ShowRemoveAccountModal(_)
        | Message::HideRemoveAccountModal
        | Message::ConfirmRemoveAccount
        | Message::AccountRemoved(_) => account_admin_post(pre, msg, post, cmds),
        Message::ShowHelp
        | Message::HideHelp
        | Message::OpenSettings
        | Message::SwitchSettingsTab(_)
        | Message::SettingsServerUrlChanged(_)
        | Message::SettingsApiKeyChanged(_)
        | Message::TestConnection
        | Message::ConnectionTested(_)
        | Message::SaveSettings
        | Message::SettingsSaved(_) => settings_post(pre, msg, post, cmds),
        Message::ToggleSelection
        | Message::SelectAll
        | Message::ClearSelection
        | Message::ShowDeleteModal
        | Message::HideDeleteModal
        | Message::ConfirmDelete
        | Message::StageForDeletion => selection_post(pre, msg, post, cmds),
        Message::NavigateTo(_)
        | Message::GoBack
        | Message::JumpToBreadcrumb(_)
        | Message::NextViewType
        | Message::PreviousViewType
        | Message::ServerUrlChanged(_)
        | Message::ApiKeyChanged(_)
        | Message::RetryConnection => navigation_post(pre, msg, post, cmds),
        Message::DownloadAttachment { .. }
        | Message::DownloadProgress { .. }
        | Message::DownloadComplete { .. }
        | Message::DownloadFailed { .. }
        | Message::OpenFile(_) => downloads_post(pre, msg, post, cmds),
        Message::OpenCompose
        | Message::OpenReply(_)
        | Message::OpenReplyAll(_)
        | Message::OpenForward(_) => compose_open_post(pre, msg, post, cmds),
        Message::ComposeToChanged(_)
        | Message::ComposeAddTo
        | Message::ComposeRemoveTo(_)
        | Message::ComposeCcChanged(_)
        | Message::ComposeAddCc
        | Message::ComposeRemoveCc(_)
        | Message::ComposeBccChanged(_)
        | Message::ComposeAddBcc
        | Message::ComposeRemoveBcc(_)
        | Message::ComposeSubjectChanged(_)
        | Message::ComposeBodyChanged(_)
        | Message::ComposeFromChanged(_)
        | Message::ComposeToggleCcBcc
        | Message::ComposeAddAttachment
        | Message::ComposeAttachmentSelected { .. }
        | Message::ComposeRemoveAttachment(_) => compose_edit_post(pre, msg, post, cmds),
        Message::ComposeSend
        | Message::ComposeSent(_)
        | Message::ComposeSaveDraft
        | Message::ComposeDraftSaved(_)
        | Message::ComposeDiscard
        | Message::ComposeClose => compose_send_post(pre, msg, post, cmds),
        Message::KeyPressed(_, _) => keys_post(pre, msg, post, cmds),
        Message::Noop => unchanged(pre, post, cmds),
    }
}

fn no_commands() -> (r: Vec<Command>)
    ensures
        r@ =~= Seq::<Command>::empty(),
{
    Vec::new()
}

fn one_command(c: Command) -> (r: Vec<Command>)
    ensures
        r@.len() == 1,
        r@[0] == c,
{
    let mut v: Vec<Command> = Vec::new();
    v.push(c);
    v
}

fn emit(m: Message) -> (r: Vec<Command>)
    ensures
        emits_only(r@, m),
{
    one_command(Command::Emit(m))
}

fn current_api_key(state: &AppState) -> (r: Option<String>)
    ensures
        opt_view(r) == key_opt(state.api_key@),
{
    if state.api_key.as_str().is_empty() {
        None
    } else {
        Some(state.api_key.clone())
    }
}

fn http(state: &AppState, call: ApiCall) -> (c: Command)
    ensures
        (c matches Command::Http { base_url, api_key, call: cc } && base_url@
            == state.server_url@ && opt_view(api_key) == key_opt(state.api_key@) && cc == call),
{
    Command::Http {
        base_url: state.server_url.clone(),
        api_key: current_api_key(state),
        call,
    }
}

fn settings_snapshot(state: &AppState) -> (r: Settings)
    ensures
        r.server_url@ == state.server_url@,
        r.api_key@ == state.api_key@,
        r.allow_insecure,
{
    Settings {
        server_url: state.server_url.clone(),
        api_key: state.api_key.clone(),
        allow_insecure: true,
    }
}

fn first_account(state: &AppState) -> (r: String)
    ensures
        r@ == first_account_email(*state),
{
    if state.sync_accounts.len() > 0 {
        state.sync_accounts[0].email.clone()
    } else {
        String::new()
    }
}

#[verifier::rlimit(60)]
fn handle_discovery(state: &mut AppState, message: Message) -> (cmds: Vec<Command>)
    requires
        old(state).wf(),
        message matches Message::StartDiscovery || message matches Message::DiscoveryComplete(_)
            || message matches Message::ConfirmDiscoveredServer || message
            matches Message::ChooseManualEntry || message matches Message::WizardServerUrlChanged(
            _,
        ) || message matches Message::WizardApiKeyChanged(_) || message
            matches Message::FinishWizard,
    ensures
        final(state).wf(),
        discovery_post(*old(state), message, *final(state), cmds@),
{
    match message {
        Message::StartDiscovery => {
            state.discovering = true;
            state.wizard_step = WizardStep::Discovering;
            one_command(Command::RunDiscovery)
        },
        Message::DiscoveryComplete(result) => {
            state.discovering = false;
            state.discovery_steps = crate::discovery::clone_steps(&result.steps);
            match &result.server_url {
                Some(url) => {
                    state.wizard_step = WizardStep::FoundServer;
                    state.server_url = url.clone();
                    match &result.api_key {
                        Some(key) => {
                            state.api_key = key.clone();
                        },
                        None => {},
                    }
                },
                None => {
                    state.wizard_step = WizardStep::ManualEntry;
                },
            }
            state.discovery_result = Some(result);
            no_commands()
        },
        Message::ConfirmDiscoveredServer => {
            state.wizard_step = WizardStep::Complete;
            state.first_run = false;
            let settings = settings_snapshot(state);
            let mut cmds = one_command(Command::SaveSettings { settings, notify: false });
            cmds.push(Command::Emit(Message::CheckHealth));
            cmds
        },
        Message::ChooseManualEntry => {
            state.wizard_step = WizardStep::ManualEntry;
            no_commands()
        },
        Message::WizardServerUrlChanged(url) => {
            state.server_url = url;
            no_commands()
        },
        Message::WizardApiKeyChanged(key) => {
            state.api_key = key;
            no_commands()
        },
        Message::FinishWizard => {
            if state.server_url.as_str().is_empty() {
                return no_commands();
            }
            state.wizard_step = WizardStep::Complete;
            state.first_run = false;
            let settings = settings_snapshot(state);
            let mut cmds = one_command(Command::SaveSettings { settings, notify: false });
            cmds.push(Command::Emit(Message::CheckHealth));
            cmds
        },
        _ => {
            proof {
                assert(false);
            }
            no_commands()
        },
    }
}

fn handle_connection(state: &mut AppState, message: Message) -> (cmds: Vec<Command>)
    requires
        old(state).wf(),
        message matches Message::CheckHealth || message matches Message::HealthChecked(_)
            || message matches Message::FetchStats || message matches Message::StatsLoaded(_),
    ensures
        final(state).wf(),
        connection_post(*old(state), message, *final(state), cmds@),
{
    match message {
        Message::CheckHealth => {
            state.connection_status = ConnectionStatus::Connecting;
            one_command(http(state, ApiCall::Health))
        },
        Message::HealthChecked(result) => {
            match result {
                Ok(_) => {
                    state.connection_status = ConnectionStatus::Connected;
                    let mut cmds = emit(Message::FetchStats);
                    cmds.push(Command::Emit(Message::FetchSyncStatus));
                    proof {
                        assert(cmds@ =~= seq![
                            Command::Emit(Message::FetchStats),
                            Command::Emit(Message::FetchSyncStatus),
                        ]);
                    }
                    cmds
                },
                Err(e) => {
                    state.connection_status = ConnectionStatus::Failed(e.message());
                    no_commands()
                },
            }
        },
        Message::FetchStats => {
            state.loading = LoadingState::Loading;
            one_command(http(state, ApiCall::Stats))
        },
        Message::StatsLoaded(result) => {
            match result {
                Ok(stats) => {
                    state.stats = Some(stats);
                    state.loading = LoadingState::Idle;
                },
                Err(e) => {
                    state.loading = LoadingState::Error(e.message());
                },
            }
            no_commands()
        },
        _ => {
            proof {
                assert(false);
            }
            no_commands()
        },
    }
}

fn sort_field_next(f: SortField) -> (r: SortField)
    ensures
        r == sort_field_cycle(f),
{
    match f {
        SortField::Name => SortField::Count,
        SortField::Count => SortField::Size,
        SortField::Size => SortField::AttachmentSize,
        SortField::AttachmentSize => SortField::Name,
    }
}

fn sort_dir_next(d: SortDirection) -> (r: SortDirection)
    ensures
        r == sort_dir_flip(d),
{
    match d {
        SortDirection::Asc => SortDirection::Desc,
        SortDirection::Desc => SortDirection::Asc,
    }
}

fn current_aggregates_view(state: &AppState) -> (r: Option<ViewType>)
    ensures
        match r {
            Some(vt) => state.navigation.cur() matches ViewLevel::Aggregates { view_type } && vt
                == view_type,
            None => !(state.navigation.cur() matches ViewLevel::Aggregates { .. }),
        },
{
    match state.navigation.current() {
        ViewLevel::Aggregates { view_type } => Some(*view_type),
        _ => None,
    }
}

fn refetch_aggregates(state: &AppState) -> (cmds: Vec<Command>)
    ensures
        refetch_after_nav(state.navigation.cur(), cmds@),
{
    match current_aggregates_view(state) {
        Some(vt) => emit(Message::FetchAggregates(vt)),
        None => no_commands(),
    }
}

#[verifier::rlimit(60)]
fn handle_aggregates(state: &mut AppState, message: Message) -> (cmds: Vec<Command>)
    requires
        old(state).wf(),
        message matches Message::FetchAggregates(_) || message matches Message::AggregatesLoaded(
            _,
        ) || message matches Message::SelectAggregate(_) || message
            matches Message::SelectPrevious || message matches Message::SelectNext || message
            matches Message::DrillDown || message matches Message::ToggleSortField || message
            matches Message::ToggleSortDirection,
    ensures
        final(state).wf(),
        aggregates_post(*old(state), message, *final(state), cmds@),
{
    match message {
        Message::FetchAggregates(view_type) => {
            state.loading = LoadingState::Loading;
            state.selected_index = 0;
            one_command(
                http(
                    state,
                    ApiCall::Aggregates {
                        view_type,
                        sort_field: state.sort_field,
                        sort_dir: state.sort_dir,
                    },
                ),
            )
        },
        Message::AggregatesLoaded(result) => {
            match result {
                Ok(resp) => {
                    state.aggregates = resp.rows;
                    state.loading = LoadingState::Idle;
                },
                Err(e) => {
                    state.loading = LoadingState::Error(e.message());
                },
            }
            no_commands()
        },
        Message::SelectAggregate(index) => {
            if index < state.aggregates.len() {
                state.selected_index = index;
            }
            no_commands()
        },
        Message::SelectPrevious => {
            if state.selected_index > 0 {
                state.selected_index = state.selected_index - 1;
            }
            no_commands()
        },
        Message::SelectNext => {
            if state.aggregates.len() > 0 && state.selected_index < state.aggregates.len() - 1 {
                state.selected_index = state.selected_index + 1;
            }
            no_commands()
        },
        Message::DrillDown => {
            let cur_vt = current_aggregates_view(state);
            match cur_vt {
                Some(vt) => {
                    if state.selected_index < state.aggregates.len() {
                        let key = state.aggregates[state.selected_index].key.clone();
                        let desc = vt.display_name().to_owned().concat(": ").concat(key.as_str());
                        state.messages_offset = 0;
                        state.navigation.push(ViewLevel::Messages { filter_description: desc });
                        emit(
                            Message::FetchMessages {
                                filter_type: vt.as_str().to_owned(),
                                filter_value: key,
                            },
                        )
                    } else {
                        no_commands()
                    }
                },
                None => no_commands(),
            }
        },
        Message::ToggleSortField => {
            state.sort_field = sort_field_next(state.sort_field);
            refetch_aggregates(state)
        },
        Message::ToggleSortDirection => {
            state.sort_dir = sort_dir_next(state.sort_dir);
            refetch_aggregates(state)
        },
        _ => {
            proof {
                assert(false);
            }
            no_commands()
        },
    }
}

#[verifier::rlimit(60)]
fn handle_message_list(state: &mut AppState, message: Message) -> (cmds: Vec<Command>)
    requires
        old(state).wf(),
        message matches Message::FetchMessages { .. } || message matches Message::MessagesLoaded(
            _,
        ) || message matches Message::SelectMessage(_) || message matches Message::OpenMessage
            || message matches Message::MessageDetailLoaded(_) || message
            matches Message::NextPage || message matches Message::PreviousPage || message
            matches Message::PreviousMessage || message matches Message::NextMessage,
    ensures
        final(state).wf(),
        message_list_post(*old(state), message, *final(state), cmds@),
{
    match message {
        Message::FetchMessages { filter_type, filter_value } => {
            state.loading = LoadingState::Loading;
            state.message_selected_index = 0;
            state.filter_type = filter_type.clone();
            state.filter_value = filter_value.clone();
            let offset = state.messages_offset;
            let limit = state.messages_limit;
            one_command(
                http(
                    state,
                    ApiCall::MessagesFilter { filter_type, filter_value, offset, limit },
                ),
            )
        },
        Message::MessagesLoaded(result) => {
            match result {
                Ok(resp) => {
                    state.messages = resp.messages;
                    state.messages_total = resp.total;
                    state.loading = LoadingState::Idle;
                },
                Err(e) => {
                    state.loading = LoadingState::Error(e.message());
                },
            }
            no_commands()
        },
        Message::SelectMessage(index) => {
            if index < state.messages.len() {
                state.message_selected_index = index;
            }
            no_commands()
        },
        Message::OpenMessage => {
            if state.message_selected_index < state.messages.len() {
                let message_id = state.messages[state.message_selected_index].id;
                state.loading = LoadingState::Loading;
                state.navigation.push(ViewLevel::MessageDetail { message_id });
                one_command(http(state, ApiCall::MessageById { message_id }))
            } else {
                no_commands()
            }
        },
        Message::MessageDetailLoaded(result) => {
            match result {
                Ok(detail) => {
                    state.current_message = Some(detail);
                    state.loading = LoadingState::Idle;
                },
                Err(e) => {
                    state.loading = LoadingState::Error(e.message());
                },
            }
            no_commands()
        },
        Message::NextPage => {
            if state.messages_offset <= i64::MAX - state.messages_limit {
                let new_offset = state.messages_offset + state.messages_limit;
                if new_offset < state.messages_total {
                    state.messages_offset = new_offset;
                    return emit(
                        Message::FetchMessages {
                            filter_type: state.filter_type.clone(),
                            filter_value: state.filter_value.clone(),
                        },
                    );
                }
            }
            no_commands()
        },
        Message::PreviousPage => {
            if state.messages_offset > 0 {
                let diff = state.messages_offset - state.messages_limit;
                state.messages_offset = if diff > 0 {
                    diff
                } else {
                    0
                };
                emit(
                    Message::FetchMessages {
                        filter_type: state.filter_type.clone(),
                        filter_value: state.filter_value.clone(),
                    },
                )
            } else {
                no_commands()
            }
        },
        Message::PreviousMessage => {
            if state.message_selected_index > 0 {
                state.message_selected_index = state.message_selected_index - 1;
                emit(Message::OpenMessage)
            } else {
                no_commands()
            }
        },
        Message::NextMessage => {
            if state.messages.len() > 0 && state.message_selected_index < state.messages.len()
                - 1 {
                state.message_selected_index = state.message_selected_index + 1;
                emit(Message::OpenMessage)
            } else {
                no_commands()
            }
        },
        _ => {
            proof {
                assert(false);
            }
            no_commands()
        },
    }
}

fn handle_thread_view(state: &mut AppState, message: Message) -> (cmds: Vec<Command>)
    requires
        old(state).wf(),
        message matches Message::ViewThread(_) || message matches Message::ThreadLoaded(_)
            || message matches Message::ToggleThreadMessage(_) || message
            matches Message::ExpandAllThread || message matches Message::CollapseAllThread
            || message matches Message::ThreadFocusPrevious || message
            matches Message::ThreadFocusNext,
    ensures
        final(state).wf(),
        thread_post(*old(state), message, *final(state), cmds@),
{
    match message {
        Message::ViewThread(thread_id) => {
            state.thread.clear();
            state.navigation.push(ViewLevel::Thread { thread_id: thread_id.clone() });
            one_command(http(state, ApiCall::ThreadMessages { thread_id }))
        },
        Message::ThreadLoaded(result) => {
            state.thread.is_loading = false;
            match result {
                Ok(messages) => {
                    let tid: Option<String> = match state.navigation.current() {
                        ViewLevel::Thread { thread_id } => Some(thread_id.clone()),
                        _ => None,
                    };
                    match tid {
                        Some(thread_id) => {
                            state.thread.load_messages(thread_id, messages);
                        },
                        None => {},
                    }
                },
                Err(e) => {
                    state.loading = LoadingState::Error(e.message());
                },
            }
            no_commands()
        },
        Message::ToggleThreadMessage(index) => {
            state.thread.toggle_expanded(index);
            no_commands()
        },
        Message::ExpandAllThread => {
            state.thread.expand_all();
            no_commands()
        },
        Message::CollapseAllThread => {
            state.thread.collapse_all();
            no_commands()
        },
        Message::ThreadFocusPrevious => {
            state.thread.focus_previous();
            no_commands()
        },
        Message::ThreadFocusNext => {
            state.thread.focus_next();
            no_commands()
        },
        _ => {
            proof {
                assert(false);
            }
            no_commands()
        },
    }
}

#[verifier::rlimit(60)]
fn handle_search(state: &mut AppState, message: Message) -> (cmds: Vec<Command>)
    requires
        old(state).wf(),
        message matches Message::OpenSearch || message matches Message::SearchQueryChanged(_)
            || message matches Message::ExecuteSearch || message matches Message::SearchLoaded(_)
            || message matches Message::ToggleSearchMode || message
            matches Message::SelectSearchResult(_) || message matches Message::OpenSearchResult,
    ensures
        final(state).wf(),
        search_post(*old(state), message, *final(state), cmds@),
{
    match message {
        Message::OpenSearch => {
            state.navigation.push(ViewLevel::Search);
            state.search_query = String::new();
            state.search_results = Vec::new();
            state.search_selected_index = 0;
            state.search_total = 0;
            no_commands()
        },
        Message::SearchQueryChanged(query) => {
            state.search_query = query;
            if !state.search_query.as_str().is_empty() {
                emit(Message::ExecuteSearch)
            } else {
                state.search_results = Vec::new();
                state.search_total = 0;
                no_commands()
            }
        },
        Message::ExecuteSearch => {
            if state.search_query.as_str().is_empty() {
                return no_commands();
            }
            state.is_searching = true;
            let query = state.search_query.clone();
            if state.search_deep_mode {
                one_command(http(state, ApiCall::SearchDeep { query, offset: 0, limit: 50 }))
            } else {
                one_command(http(state, ApiCall::SearchFast { query, limit: 50 }))
            }
        },
        Message::SearchLoaded(result) => {
            state.is_searching = false;
            match result {
                Ok(resp) => {
                    state.search_results = resp.messages;
                    state.search_total = resp.total;
                    state.search_selected_index = 0;
                },
                Err(e) => {
                    state.loading = LoadingState::Error(e.message());
                },
            }
            no_commands()
        },
        Message::ToggleSearchMode => {
            state.search_deep_mode = !state.search_deep_mode;
            if !state.search_query.as_str().is_empty() {
                emit(Message::ExecuteSearch)
            } else {
                no_commands()
            }
        },
        Message::SelectSearchResult(index) => {
            if index < state.search_results.len() {
                state.search_selected_index = index;
            }
            no_commands()
        },
        Message::OpenSearchResult => {
            if state.search_selected_index < state.search_results.len() {
                let message_id = state.search_results[state.search_selected_index].id;
                state.loading = LoadingState::Loading;
                state.navigation.push(ViewLevel::MessageDetail { message_id });
                one_command(http(state, ApiCall::MessageById { message_id }))
            } else {
                no_commands()
            }
        },
        _ => {
            proof {
                assert(false);
            }
            no_commands()
        },
    }
}

fn handle_sync(state: &mut AppState, message: Message) -> (cmds: Vec<Command>)
    requires
        old(state).wf(),
        message matches Message::OpenSync || message matches Message::FetchSyncStatus || message
            matches Message::SyncStatusLoaded(_) || message matches Message::TriggerSync(_)
            || message matches Message::SyncTriggered(_) || message
            matches Message::RefreshSyncStatus || message matches Message::SyncTick,
    ensures
        final(state).wf(),
        sync_post(*old(state), message, *final(state), cmds@),
{
    match message {
        Message::OpenSync => {
            state.navigation.push(ViewLevel::Sync);
            emit(Message::FetchSyncStatus)
        },
        Message::FetchSyncStatus => {
            state.sync_loading = true;
            one_command(http(state, ApiCall::SchedulerStatus))
        },
        Message::SyncStatusLoaded(result) => {
            state.sync_loading = false;
            match result {
                Ok(status) => {
                    state.sync_accounts = status.accounts;
                },
                Err(e) => {
                    state.loading = LoadingState::Error(e.message());
                },
            }
            no_commands()
        },
        Message::TriggerSync(email) => {
            state.syncing_account = Some(email.clone());
            one_command(http(state, ApiCall::TriggerSync { email }))
        },
        Message::SyncTriggered(result) => {
            state.syncing_account = None;
            match result {
                Ok(_) => emit(Message::FetchSyncStatus),
                Err(e) => {
                    state.loading = LoadingState::Error(e.message());
                    no_commands()
                },
            }
        },
        Message::RefreshSyncStatus => {
            match state.navigation.current() {
                ViewLevel::Sync => emit(Message::FetchSyncStatus),
                _ => no_commands(),
            }
        },
        Message::SyncTick => emit(Message::FetchSyncStatus),
        _ => {
            proof {
                assert(false);
            }
            no_commands()
        },
    }
}

#[verifier::rlimit(100)]
#[verifier::spinoff_prover]
fn handle_account_open(state: &mut AppState, message: Message) -> (cmds: Vec<Command>)
    requires
        old(state).wf(),
        message matches Message::OpenAccounts || message matches Message::AddAccountEmailChanged(_)
            || message matches Message::StartAddAccount,
    ensures
        final(state).wf(),
        add_account_post(*old(state), message, *final(state), cmds@),
{
    match message {
        Message::OpenAccounts => {
            state.navigation.push(ViewLevel::Accounts);
            state.add_account_email = String::new();
            state.adding_account = false;
            state.oauth_response = None;
            emit(Message::FetchSyncStatus)
        },
        Message::AddAccountEmailChanged(email) => {
            state.add_account_email = email;
            no_commands()
        },
        Message::StartAddAccount => {
            if state.add_account_email.as_str().is_empty() {
                return no_commands();
            }
            state.adding_account = true;
            let email = state.add_account_email.clone();
            one_command(http(state, ApiCall::InitiateOauth { email }))
        },
        _ => {
            proof {
                assert(false);
            }
            no_commands()
        },
    }
}

#[verifier::rlimit(100)]
#[verifier::spinoff_prover]
fn handle_account_flow(state: &mut AppState, message: Message) -> (cmds: Vec<Command>)
    requires
        old(state).wf(),
        message matches Message::OAuthInitiated(_) || message matches Message::OpenOAuthBrowser(_)
            || message matches Message::PollDeviceFlow,
    ensures
        final(state).wf(),
        add_account_post(*old(state), message, *final(state), cmds@),
{
    match message {
        Message::OAuthInitiated(result) => {
            match result {
                Ok(response) => {
                    let device_flow = response.device_flow;
                    let auth_url = response.auth_url.clone();
                    state.oauth_response = Some(response);
                    if device_flow {
                        state.polling_device_flow = true;
                        no_commands()
                    } else {
                        emit(Message::OpenOAuthBrowser(auth_url))
                    }
                },
                Err(e) => {
                    state.adding_account = false;
                    state.loading = LoadingState::Error(e.message());
                    no_commands()
                },
            }
        },
        Message::OpenOAuthBrowser(url) => one_command(Command::OpenBrowser { url }),
        Message::PollDeviceFlow => {
            if !state.polling_device_flow {
                return no_commands();
            }
            let email = state.add_account_email.clone();
            one_command(http(state, ApiCall::CheckDeviceFlow { email }))
        },
        _ => {
            proof {
                assert(false);
            }
            no_commands()
        },
    }
}

#[verifier::rlimit(100)]
#[verifier::spinoff_prover]
fn handle_account_admin(state: &mut AppState, message: Message) -> (cmds: Vec<Command>)
    requires
        old(state).wf(),
        message matches Message::DeviceFlowStatusReceived(_) || message matches Message::CancelAddAccount
            || message matches Message::ShowRemoveAccountModal(_) || message
            matches Message::HideRemoveAccountModal || message matches Message::ConfirmRemoveAccount
            || message matches Message::AccountRemoved(_),
    ensures
        final(state).wf(),
        account_admin_post(*old(state), message, *final(state), cmds@),
{
    match message {
        Message::DeviceFlowStatusReceived(result) => {
            match result {
                Ok(status) => {
                    match status.status {
                        DeviceFlowState::Complete => {
                            state.adding_account = false;
                            state.polling_device_flow = false;
                            state.oauth_response = None;
                            state.add_account_email = String::new();
                            emit(Message::FetchSyncStatus)
                        },
                        DeviceFlowState::Pending => no_commands(),
                        _ => {
                            state.adding_account = false;
                            state.polling_device_flow = false;
                            state.loading = LoadingState::Error(
                                match status.error {
                                    Some(e) => e,
                                    None => "Device flow failed".to_owned(),
                                },
                            );
                            no_commands()
                        },
                    }
                },
                Err(e) => {
                    state.polling_device_flow = false;
                    state.loading = LoadingState::Error(e.message());
                    no_commands()
                },
            }
        },
        Message::CancelAddAccount => {
            state.adding_account = false;
            state.polling_device_flow = false;
            state.oauth_response = None;
            state.add_account_email = String::new();
            no_commands()
        },
        Message::ShowRemoveAccountModal(email) => {
            state.removing_account = Some(email);
            state.show_remove_modal = true;
            no_commands()
        },
        Message::HideRemoveAccountModal => {
            state.removing_account = None;
            state.show_remove_modal = false;
            no_commands()
        },
        Message::ConfirmRemoveAccount => {
            state.show_remove_modal = false;
            let mut taken: Option<String> = None;
            core::mem::swap(&mut state.removing_account, &mut taken);
            match taken {
                Some(email) => one_command(http(state, ApiCall::RemoveAccount { email })),
                None => no_commands(),
            }
        },
        Message::AccountRemoved(result) => {
            match result {
                Ok(_) => emit(Message::FetchSyncStatus),
                Err(e) => {
                    state.loading = LoadingState::Error(e.message());
                    no_commands()
                },
            }
        },
        _ => {
            proof {
                assert(false);
            }
            no_commands()
        },
    }
}

#[verifier::rlimit(60)]
fn handle_settings(state: &mut AppState, message: Message) -> (cmds: Vec<Command>)
    requires
        old(state).wf(),
        message matches Message::ShowHelp || message matches Message::HideHelp || message
            matches Message::OpenSettings || message matches Message::SwitchSettingsTab(_)
            || message matches Message::SettingsServerUrlChanged(_) || message
            matches Message::SettingsApiKeyChanged(_) || message matches Message::TestConnection
            || message matches Message::ConnectionTested(_) || message
            matches Message::SaveSettings || message matches Message::SettingsSaved(_),
    ensures
        final(state).wf(),
        settings_post(*old(state), message, *final(state), cmds@),
{
    match message {
        Message::ShowHelp => {
            state.show_help_modal = true;
            no_commands()
        },
        Message::HideHelp => {
            state.show_help_modal = false;
            no_commands()
        },
        Message::OpenSettings => {
            state.settings_server_url = state.server_url.clone();
            state.settings_api_key = state.api_key.clone();
            state.settings_tab = SettingsTab::Server;
            state.connection_test_result = None;
            state.navigation.push(ViewLevel::Settings);
            no_commands()
        },
        Message::SwitchSettingsTab(tab) => {
            state.settings_tab = tab;
            no_commands()
        },
        Message::SettingsServerUrlChanged(url) => {
            state.settings_server_url = url;
            state.connection_test_result = None;
            no_commands()
        },
        Message::SettingsApiKeyChanged(key) => {
            state.settings_api_key = key;
            state.connection_test_result = None;
            no_commands()
        },
        Message::TestConnection => {
            state.testing_connection = true;
            state.connection_test_result = None;
            let api_key: Option<String> = if state.settings_api_key.as_str().is_empty() {
                None
            } else {
                Some(state.settings_api_key.clone())
            };
            one_command(
                Command::Http {
                    base_url: state.settings_server_url.clone(),
                    api_key,
                    call: ApiCall::HealthTest,
                },
            )
        },
        Message::ConnectionTested(result) => {
            state.testing_connection = false;
            match result {
                Ok(_) => {
                    state.connection_test_result = Some(Ok(()));
                },
                Err(e) => {
                    state.connection_test_result = Some(Err(e.message()));
                },
            }
            no_commands()
        },
        Message::SaveSettings => {
            state.server_url = state.settings_server_url.clone();
            state.api_key = state.settings_api_key.clone();
            let settings = settings_snapshot(state);
            one_command(Command::SaveSettings { settings, notify: true })
        },
        Message::SettingsSaved(result) => {
            match result {
                Ok(_) => {
                    state.navigation.pop();
                },
                Err(e) => {
                    state.loading = LoadingState::Error(
                        "Failed to save settings: ".to_owned().concat(e.as_str()),
                    );
                },
            }
            no_commands()
        },
        _ => {
            proof {
                assert(false);
            }
            no_commands()
        },
    }
}

fn handle_navigation(state: &mut AppState, message: Message) -> (cmds: Vec<Command>)
    requires
        old(state).wf(),
        message matches Message::NavigateTo(_) || message matches Message::GoBack || message
            matches Message::JumpToBreadcrumb(_) || message matches Message::NextViewType
            || message matches Message::PreviousViewType || message
            matches Message::ServerUrlChanged(_) || message matches Message::ApiKeyChanged(_)
            || message matches Message::RetryConnection,
    ensures
        final(state).wf(),
        navigation_post(*old(state), message, *final(state), cmds@),
{
    match message {
        Message::NavigateTo(view) => {
            let fetch: Option<ViewType> = match &view {
                ViewLevel::Aggregates { view_type } => Some(*view_type),
                _ => None,
            };
            state.navigation.push(view);
            match fetch {
                Some(vt) => emit(Message::FetchAggregates(vt)),
                None => no_commands(),
            }
        },
        Message::GoBack => {
            state.navigation.pop();
            refetch_aggregates(state)
        },
        Message::JumpToBreadcrumb(index) => {
            state.navigation.jump_to(index);
            refetch_aggregates(state)
        },
        Message::NextViewType => {
            match current_aggregates_view(state) {
                Some(vt) => {
                    let next_type = vt.next();
                    state.navigation.pop();
                    state.navigation.push(ViewLevel::Aggregates { view_type: next_type });
                    emit(Message::FetchAggregates(next_type))
                },
                None => no_commands(),
            }
        },
        Message::PreviousViewType => {
            match current_aggregates_view(state) {
                Some(vt) => {
                    let prev_type = vt.previous();
                    state.navigation.pop();
                    state.navigation.push(ViewLevel::Aggregates { view_type: prev_type });
                    emit(Message::FetchAggregates(prev_type))
                },
                None => no_commands(),
            }
        },
        Message::ServerUrlChanged(url) => {
            state.server_url = url;
            no_commands()
        },
        Message::ApiKeyChanged(key) => {
            state.api_key = key;
            no_commands()
        },
        Message::RetryConnection => emit(Message::CheckHealth),
        _ => {
            proof {
                assert(false);
            }
            no_commands()
        },
    }
}

fn handle_downloads(state: &mut AppState, message: Message) -> (cmds: Vec<Command>)
    requires
        old(state).wf(),
        message matches Message::DownloadAttachment { .. } || message
            matches Message::DownloadProgress { .. } || message matches Message::DownloadComplete {
            ..
        } || message matches Message::DownloadFailed { .. } || message matches Message::OpenFile(
            _,
        ),
    ensures
        final(state).wf(),
        downloads_post(*old(state), message, *final(state), cmds@),
{
    match message {
        Message::DownloadAttachment { message_id, attachment_idx, filename } => {
            state.downloads.set_downloading(message_id, attachment_idx, 0);
            one_command(
                Command::Download {
                    base_url: state.server_url.clone(),
                    api_key: current_api_key(state),
                    message_id,
                    attachment_idx,
                    filename,
                },
            )
        },
        Message::DownloadProgress { message_id, attachment_idx, progress } => {
            state.downloads.set_downloading(message_id, attachment_idx, progress);
            no_commands()
        },
        Message::DownloadComplete { message_id, attachment_idx, path } => {
            state.downloads.set_complete(message_id, attachment_idx, path);
            no_commands()
        },
        Message::DownloadFailed { message_id, attachment_idx, error } => {
            state.downloads.set_failed(message_id, attachment_idx, error);
            no_commands()
        },
        Message::OpenFile(path) => one_command(Command::OpenPath { path }),
        _ => {
            proof {
                assert(false);
            }
            no_commands()
        },
    }
}

#[verifier::loop_isolation(false)]
fn select_list(sel: &mut crate::selection::SelectionSet, list: &Vec<MessageSummary>)
    requires
        old(sel).wf(),
    ensures
        final(sel).wf(),
        forall|x: i64| final(sel).has(x) == (old(sel).has(x) || list_has_id(list@, x)),
{
    let mut i: usize = 0;
    while i < list.len()
        invariant
            sel.wf(),
            i <= list@.len(),
            forall|x: i64|
                sel.has(x) == (old(sel).has(x) || list_has_id(list@.take(i as int), x)),
        decreases list@.len() - i,
    {
        let id = list[i].id;
        sel.insert(id);
        i = i + 1;
        proof {
            let cur = list@.take(i as int);
            let prev = list@.take(i - 1);
            assert forall|x: i64|
                sel.has(x) == (old(sel).has(x) || list_has_id(cur, x)) by {
                if list_has_id(cur, x) {
                    let j = choose|j: int| 0 <= j < cur.len() && #[trigger] cur[j].id == x;
                    if j < i - 1 {
                        assert(prev[j].id == x);
                    } else {
                        assert(list@[i - 1].id == x);
                    }
                }
                if list_has_id(prev, x) {
                    let j = choose|j: int| 0 <= j < prev.len() && #[trigger] prev[j].id == x;
                    assert(cur[j].id == x);
                }
                if x == id {
                    assert(cur[i - 1].id == x);
                }
            }
        }
    }
    proof {
        assert(list@.take(list@.len() as int) =~= list@);
    }
}

#[verifier::rlimit(100)]
#[verifier::spinoff_prover]
fn handle_selection(state: &mut AppState, message: Message) -> (cmds: Vec<Command>)
    requires
        old(state).wf(),
        message matches Message::ToggleSelection || message matches Message::SelectAll || message
            matches Message::ClearSelection || message matches Message::ShowDeleteModal || message
            matches Message::HideDeleteModal || message matches Message::ConfirmDelete || message
            matches Message::StageForDeletion,
    ensures
        final(state).wf(),
        selection_post(*old(state), message, *final(state), cmds@),
{
    match message {
        Message::ToggleSelection => {
            let target: Option<i64> = match state.navigation.current() {
                ViewLevel::Messages { .. } => {
                    if state.message_selected_index < state.messages.len() {
                        Some(state.messages[state.message_selected_index].id)
                    } else {
                        None
                    }
                },
                ViewLevel::Search => {
                    if state.search_selected_index < state.search_results.len() {
                        Some(state.search_results[state.search_selected_index].id)
                    } else {
                        None
                    }
                },
                _ => None,
            };
            match target {
                Some(id) => {
                    if state.selected_messages.contains(id) {
                        state.selected_messages.remove(id);
                    } else {
                        state.selected_messages.insert(id);
                    }
                },
                None => {},
            }
            no_commands()
        },
        Message::SelectAll => {
            let list: Option<bool> = match state.navigation.current() {
                ViewLevel::Messages { .. } => Some(true),
                ViewLevel::Search => Some(false),
                _ => None,
            };
            match list {
                Some(true) => {
                    let mut sel = crate::selection::SelectionSet::new();
                    core::mem::swap(&mut state.selected_messages, &mut sel);
                    select_list(&mut sel, &state.messages);
                    core::mem::swap(&mut state.selected_messages, &mut sel);
                },
                Some(false) => {
                    let mut sel = crate::selection::SelectionSet::new();
                    core::mem::swap(&mut state.selected_messages, &mut sel);
                    select_list(&mut sel, &state.search_results);
                    core::mem::swap(&mut state.selected_messages, &mut sel);
                },
                None => {},
            }
            no_commands()
        },
        Message::ClearSelection => {
            state.selected_messages.clear();
            no_commands()
        },
        Message::ShowDeleteModal => {
            if !state.selected_messages.is_empty() {
                state.show_delete_modal = true;
            }
            no_commands()
        },
        Message::HideDeleteModal => {
            state.show_delete_modal = false;
            no_commands()
        },
        Message::ConfirmDelete => {
            state.show_delete_modal = false;
            emit(Message::StageForDeletion)
        },
        Message::StageForDeletion => {
            state.selected_messages.clear();
            no_commands()
        },
        _ => {
            proof {
                assert(false);
            }
            no_commands()
        },
    }
}

#[verifier::loop_isolation(false)]
fn clone_strings(v: &Vec<String>) -> (r: Vec<String>)
    ensures
        r@ == v@,
{
    let mut r: Vec<String> = Vec::new();
    let mut i: usize = 0;
    while i < v.len()
        invariant
            i <= v@.len(),
            r@ =~= v@.take(i as int),
        decreases v@.len() - i,
    {
        r.push(v[i].clone());
        i = i + 1;
    }
    proof {
        assert(r@ =~= v@);
    }
    r
}

#[verifier::loop_isolation(false)]
fn without_address(v: &Vec<String>, excl: &String) -> (r: Vec<String>)
    ensures
        r@ == minus_email(v@, excl@),
{
    let mut r: Vec<String> = Vec::new();
    let mut i: usize = 0;
    while i < v.len()
        invariant
            i <= v@.len(),
            r@ =~= minus_email(v@.take(i as int), excl@),
        decreases v@.len() - i,
    {
        proof {
            assert(v@.take(i + 1).last() == v@[i as int]);
            assert(v@.take(i + 1).drop_last() =~= v@.take(i as int));
        }
        if !(v[i] == *excl) {
            r.push(v[i].clone());
        }
        i = i + 1;
    }
    proof {
        assert(v@.take(v@.len() as int) =~= v@);
        assert(r@ =~= minus_email(v@, excl@));
    }
    r
}

#[verifier::loop_isolation(false)]
fn join_addresses(v: &Vec<String>) -> (r: String)
    ensures
        r@ == joined(v@, ", "@),
{
    if v.len() == 0 {
        return String::new();
    }
    let mut r = v[0].clone();
    let mut i: usize = 1;
    proof {
        assert(v@.take(1).len() == 1);
        assert(joined(v@.take(1), ", "@) == v@.take(1)[0]@);
    }
    while i < v.len()
        invariant
            1 <= i <= v@.len(),
            r@ == joined(v@.take(i as int), ", "@),
        decreases v@.len() - i,
    {
        proof {
            assert(v@.take(i + 1).last() == v@[i as int]);
            assert(v@.take(i + 1).drop_last() =~= v@.take(i as int));
        }
        r = r.concat(", ").concat(v[i].as_str());
        i = i + 1;
    }
    proof {
        assert(v@.take(v@.len() as int) =~= v@);
    }
    r
}

#[verifier::rlimit(100)]
#[verifier::spinoff_prover]
fn handle_compose_open(state: &mut AppState, message: Message) -> (cmds: Vec<Command>)
    requires
        old(state).wf(),
        message matches Message::OpenCompose || message matches Message::OpenReply(_) || message
            matches Message::OpenReplyAll(_) || message matches Message::OpenForward(_),
    ensures
        final(state).wf(),
        compose_open_post(*old(state), message, *final(state), cmds@),
{
    match message {
        Message::OpenCompose => {
            let from_account = first_account(state);
            state.compose = ComposeState::open_new(from_account);
            no_commands()
        },
        Message::OpenReply(message_id) => {
            let data: Option<(String, String, i64, String)> = match &state.current_message {
                Some(d) => Some((d.from_addr.clone(), d.subject.clone(), d.sent_at, d.body.clone())),
                None => None,
            };
            match data {
                Some((from_addr, subject, sent_at, body)) => {
                    let from_account = first_account(state);
                    let date = crate::timefmt::format_datetime(sent_at);
                    let quoted = crate::compose::format_quoted_body(
                        from_addr.as_str(),
                        date.as_str(),
                        body.as_str(),
                    );
                    state.compose = ComposeState::open_reply(
                        from_account,
                        message_id,
                        from_addr,
                        subject,
                        quoted,
                    );
                },
                None => {},
            }
            no_commands()
        },
        Message::OpenReplyAll(message_id) => {
            let data: Option<(String, String, i64, String, Vec<String>, Vec<String>)> = match &state
                .current_message {
                Some(d) => Some(
                    (
                        d.from_addr.clone(),
                        d.subject.clone(),
                        d.sent_at,
                        d.body.clone(),
                        clone_strings(&d.to),
                        clone_strings(&d.cc),
                    ),
                ),
                None => None,
            };
            match data {
                Some((from_addr, subject, sent_at, body, to_list, cc_list)) => {
                    let from_account = first_account(state);
                    let date = crate::timefmt::format_datetime(sent_at);
                    let quoted = crate::compose::format_quoted_body(
                        from_addr.as_str(),
                        date.as_str(),
                        body.as_str(),
                    );
                    let mut all_recipients = to_list;
                    all_recipients.push(from_addr);
                    let to = without_address(&all_recipients, &from_account);
                    let cc = without_address(&cc_list, &from_account);
                    state.compose = ComposeState::open_reply_all(
                        from_account,
                        message_id,
                        to,
                        cc,
                        subject,
                        quoted,
                    );
                },
                None => {},
            }
            no_commands()
        },
        Message::OpenForward(message_id) => {
            let data: Option<(String, String, i64, String, Vec<String>)> = match &state
                .current_message {
                Some(d) => Some(
                    (
                        d.from_addr.clone(),
                        d.subject.clone(),
                        d.sent_at,
                        d.body.clone(),
                        clone_strings(&d.to),
                    ),
                ),
                None => None,
            };
            match data {
                Some((from_addr, subject, sent_at, body, to_list)) => {
                    let from_account = first_account(state);
                    let date = crate::timefmt::format_datetime(sent_at);
                    let forward_body = "From: ".to_owned().concat(from_addr.as_str()).concat(
                        "\nDate: ",
                    ).concat(date.as_str()).concat("\nSubject: ").concat(subject.as_str()).concat(
                        "\nTo: ",
                    ).concat(join_addresses(&to_list).as_str()).concat("\n\n").concat(
                        body.as_str(),
                    );
                    state.compose = ComposeState::open_forward(
                        from_account,
                        message_id,
                        subject,
                        forward_body,
                    );
                },
                None => {},
            }
            no_commands()
        },
        _ => {
            proof {
                assert(false);
            }
            no_commands()
        },
    }
}

#[verifier::rlimit(100)]
#[verifier::spinoff_prover]
fn handle_compose_edit(state: &mut AppState, message: Message) -> (cmds: Vec<Command>)
    requires
        old(state).wf(),
        message matches Message::ComposeToChanged(_) || message matches Message::ComposeAddTo
            || message matches Message::ComposeRemoveTo(_) || message
            matches Message::ComposeCcChanged(_) || message matches Message::ComposeAddCc
            || message matches Message::ComposeRemoveCc(_) || message
            matches Message::ComposeBccChanged(_) || message matches Message::ComposeAddBcc
            || message matches Message::ComposeRemoveBcc(_) || message
            matches Message::ComposeSubjectChanged(_) || message
            matches Message::ComposeBodyChanged(_) || message matches Message::ComposeFromChanged(
            _,
        ) || message matches Message::ComposeToggleCcBcc || message
            matches Message::ComposeAddAttachment || message
            matches Message::ComposeAttachmentSelected { .. } || message
            matches Message::ComposeRemoveAttachment(_),
    ensures
        final(state).wf(),
        compose_edit_post(*old(state), message, *final(state), cmds@),
{
    match message {
        Message::ComposeToChanged(input) => {
            state.compose.to_input = input;
            no_commands()
        },
        Message::ComposeAddTo => {
            let email = crate::text::trim_spaces(state.compose.to_input.as_str());
            state.compose.add_to(email);
            state.compose.to_input = String::new();
            proof {
                let t = crate::text::trimmed(old(state).compose.to_input@);
                if t.len() > 0 && !contains_str(old(state).compose.to@, t) {
                    assert(state.compose.to@.drop_last() =~= old(state).compose.to@);
                }
            }
            no_commands()
        },
        Message::ComposeRemoveTo(index) => {
            state.compose.remove_to(index);
            no_commands()
        },
        Message::ComposeCcChanged(input) => {
            state.compose.cc_input = input;
            no_commands()
        },
        Message::ComposeAddCc => {
            let email = crate::text::trim_spaces(state.compose.cc_input.as_str());
            state.compose.add_cc(email);
            state.compose.cc_input = String::new();
            proof {
                let t = crate::text::trimmed(old(state).compose.cc_input@);
                if t.len() > 0 && !contains_str(old(state).compose.cc@, t) {
                    assert(state.compose.cc@.drop_last() =~= old(state).compose.cc@);
                }
            }
            no_commands()
        },
        Message::ComposeRemoveCc(index) => {
            state.compose.remove_cc(index);
            no_commands()
        },
        Message::ComposeBccChanged(input) => {
            state.compose.bcc_input = input;
            no_commands()
        },
        Message::ComposeAddBcc => {
            let email = crate::text::trim_spaces(state.compose.bcc_input.as_str());
            state.compose.add_bcc(email);
            state.compose.bcc_input = String::new();
            proof {
                let t = crate::text::trimmed(old(state).compose.bcc_input@);
                if t.len() > 0 && !contains_str(old(state).compose.bcc@, t) {
                    assert(state.compose.bcc@.drop_last() =~= old(state).compose.bcc@);
                }
            }
            no_commands()
        },
        Message::ComposeRemoveBcc(index) => {
            state.compose.remove_bcc(index);
            no_commands()
        },
        Message::ComposeSubjectChanged(subject) => {
            state.compose.subject = subject;
            state.compose.is_dirty = true;
            no_commands()
        },
        Message::ComposeBodyChanged(body) => {
            state.compose.body = body;
            state.compose.is_dirty = true;
            no_commands()
        },
        Message::ComposeFromChanged(account) => {
            state.compose.from_account = account;
            no_commands()
        },
        Message::ComposeToggleCcBcc => {
            state.compose.show_cc_bcc = !state.compose.show_cc_bcc;
            no_commands()
        },
        Message::ComposeAddAttachment => no_commands(),
        Message::ComposeAttachmentSelected { path, filename, size_bytes } => {
            state.compose.attachments.push(
                crate::compose::AttachmentDraft { path, filename, size_bytes, mime_type: None },
            );
            state.compose.is_dirty = true;
            no_commands()
        },
        Message::ComposeRemoveAttachment(index) => {
            if index < state.compose.attachments.len() {
                state.compose.attachments.remove(index);
                state.compose.is_dirty = true;
            }
            no_commands()
        },
        _ => {
            proof {
                assert(false);
            }
            no_commands()
        },
    }
}

#[verifier::rlimit(100)]
#[verifier::spinoff_prover]
fn handle_compose_submit(state: &mut AppState, message: Message) -> (cmds: Vec<Command>)
    requires
        old(state).wf(),
        message matches Message::ComposeSend || message matches Message::ComposeSent(_) || message
            matches Message::ComposeSaveDraft,
    ensures
        final(state).wf(),
        compose_send_post(*old(state), message, *final(state), cmds@),
{
    match message {
        Message::ComposeSend => {
            if !state.compose.can_send() {
                return no_commands();
            }
            state.compose.is_sending = true;
            state.compose.send_error = None;
            no_commands()
        },
        Message::ComposeSent(result) => {
            match result {
                Ok(_) => {
                    state.compose.close();
                },
                Err(e) => {
                    state.compose.is_sending = false;
                    state.compose.send_error = Some(e.message());
                },
            }
            no_commands()
        },
        Message::ComposeSaveDraft => no_commands(),
        _ => {
            proof {
                assert(false);
            }
            no_commands()
        },
    }
}

#[verifier::rlimit(100)]
#[verifier::spinoff_prover]
fn handle_compose_finish(state: &mut AppState, message: Message) -> (cmds: Vec<Command>)
    requires
        old(state).wf(),
        message matches Message::ComposeDraftSaved(_) || message matches Message::ComposeDiscard
            || message matches Message::ComposeClose,
    ensures
        final(state).wf(),
        compose_send_post(*old(state), message, *final(state), cmds@),
{
    match message {
        Message::ComposeDraftSaved(result) => {
            match result {
                Ok(_) => {
                    state.compose.is_dirty = false;
                },
                Err(e) => {
                    state.compose.send_error = Some(
                        "Failed to save draft: ".to_owned().concat(e.message().as_str()),
                    );
                },
            }
            no_commands()
        },
        Message::ComposeDiscard => {
            state.compose.close();
            no_commands()
        },
        Message::ComposeClose => {
            state.compose.close();
            no_commands()
        },
        _ => {
            proof {
                assert(false);
            }
            no_commands()
        },
    }
}

/// The commands a key press asks for; the state is only read.
#[verifier::rlimit(60)]
fn key_press_commands(state: &AppState, key: Key, modifiers: Modifiers) -> (cmds: Vec<Command>)
    ensures
        key_commands(*state, key, modifiers, cmds@),
{
    if !state.is_connected() {
        return no_commands();
    }
    let in_aggregates = matches!(state.navigation.current(), ViewLevel::Aggregates { .. });
    let in_messages = matches!(state.navigation.current(), ViewLevel::Messages { .. });
    let in_detail = matches!(state.navigation.current(), ViewLevel::MessageDetail { .. });
    let in_thread = matches!(state.navigation.current(), ViewLevel::Thread { .. });
    let in_search = matches!(state.navigation.current(), ViewLevel::Search);
    match key {
        Key::Named(NamedKey::Escape) => {
            if state.navigation.can_go_back() {
                emit(Message::GoBack)
            } else {
                no_commands()
            }
        },
        Key::Named(NamedKey::Tab) => {
            if in_aggregates {
                if modifiers.shift {
                    emit(Message::PreviousViewType)
                } else {
                    emit(Message::NextViewType)
                }
            } else if in_search {
                emit(Message::ToggleSearchMode)
            } else {
                no_commands()
            }
        },
        Key::Named(NamedKey::Enter) => {
            if in_aggregates {
                emit(Message::DrillDown)
            } else if in_messages {
                emit(Message::OpenMessage)
            } else if in_search {
                emit(Message::OpenSearchResult)
            } else if in_thread {
                emit(Message::ToggleThreadMessage(state.thread.focused_index))
            } else {
                no_commands()
            }
        },
        Key::Named(NamedKey::ArrowUp) => {
            if in_aggregates {
                emit(Message::SelectPrevious)
            } else if in_messages {
                emit(Message::SelectMessage(step_up(state.message_selected_index)))
            } else if in_search {
                emit(Message::SelectSearchResult(step_up(state.search_selected_index)))
            } else if in_thread {
                emit(Message::ThreadFocusPrevious)
            } else {
                no_commands()
            }
        },
        Key::Named(NamedKey::ArrowDown) => {
            if in_aggregates {
                emit(Message::SelectNext)
            } else if in_messages {
                emit(
                    Message::SelectMessage(
                        step_down(state.message_selected_index, state.messages.len()),
                    ),
                )
            } else if in_search {
                emit(
                    Message::SelectSearchResult(
                        step_down(state.search_selected_index, state.search_results.len()),
                    ),
                )
            } else if in_thread {
                emit(Message::ThreadFocusNext)
            } else {
                no_commands()
            }
        },
        Key::Named(NamedKey::ArrowLeft) => {
            if in_detail {
                emit(Message::PreviousMessage)
            } else {
                no_commands()
            }
        },
        Key::Named(NamedKey::ArrowRight) => {
            if in_detail {
                emit(Message::NextMessage)
            } else {
                no_commands()
            }
        },
        Key::Named(NamedKey::Space) => {
            if in_messages || in_search {
                emit(Message::ToggleSelection)
            } else {
                no_commands()
            }
        },
        Key::Character(c) => character_commands(state, c, modifiers),
    }
}

#[verifier::rlimit(60)]
fn character_commands(state: &AppState, c: char, modifiers: Modifiers) -> (cmds: Vec<Command>)
    ensures
        char_key_commands(*state, c, modifiers, cmds@),
{
    let in_aggregates = matches!(state.navigation.current(), ViewLevel::Aggregates { .. });
    let in_messages = matches!(state.navigation.current(), ViewLevel::Messages { .. });
    let in_detail = matches!(state.navigation.current(), ViewLevel::MessageDetail { .. });
    let in_thread = matches!(state.navigation.current(), ViewLevel::Thread { .. });
    let in_search = matches!(state.navigation.current(), ViewLevel::Search);
    if c == 'j' && !modifiers.shift {
        if in_aggregates {
            emit(Message::SelectNext)
        } else if in_messages {
            emit(Message::SelectMessage(step_down(state.message_selected_index, state.messages.len())))
        } else if in_search {
            emit(
                Message::SelectSearchResult(
                    step_down(state.search_selected_index, state.search_results.len()),
                ),
            )
        } else if in_thread {
            emit(Message::ThreadFocusNext)
        } else {
            no_commands()
        }
    } else if c == 'k' && !modifiers.shift {
        if in_aggregates {
            emit(Message::SelectPrevious)
        } else if in_messages {
            emit(Message::SelectMessage(step_up(state.message_selected_index)))
        } else if in_search {
            emit(Message::SelectSearchResult(step_up(state.search_selected_index)))
        } else if in_thread {
            emit(Message::ThreadFocusPrevious)
        } else {
            no_commands()
        }
    } else if c == '/' && !in_search {
        emit(Message::OpenSearch)
    } else if c == 'n' && !modifiers.shift {
        if in_messages {
            emit(Message::NextPage)
        } else {
            no_commands()
        }
    } else if c == 'p' && !modifiers.shift {
        if in_messages {
            emit(Message::PreviousPage)
        } else {
            no_commands()
        }
    } else if c == 's' && !modifiers.shift {
        if in_aggregates {
            emit(Message::ToggleSortField)
        } else {
            no_commands()
        }
    } else if c == 'r' && !modifiers.shift {
        if in_aggregates {
            emit(Message::ToggleSortDirection)
        } else {
            no_commands()
        }
    } else if c == 'q' && !modifiers.shift {
        no_commands()
    } else if c == '?' {
        if state.show_help_modal {
            emit(Message::HideHelp)
        } else {
            emit(Message::ShowHelp)
        }
    } else if c == 'A' && modifiers.shift {
        if in_messages || in_search {
            emit(Message::SelectAll)
        } else {
            no_commands()
        }
    } else if c == 'x' && !modifiers.shift {
        emit(Message::ClearSelection)
    } else if c == 'd' && !modifiers.shift {
        if !state.selected_messages.is_empty() {
            emit(Message::ShowDeleteModal)
        } else {
            no_commands()
        }
    } else if c == 'y' && !modifiers.shift {
        emit(Message::OpenSync)
    } else if c == 'a' && !modifiers.shift {
        emit(Message::OpenAccounts)
    } else if c == ',' {
        emit(Message::OpenSettings)
    } else if c == 'c' && !modifiers.shift && !state.compose.is_open {
        emit(Message::OpenCompose)
    } else if c == 'R' && modifiers.shift && in_detail {
        match state.navigation.current() {
            ViewLevel::MessageDetail { message_id } => emit(Message::OpenReplyAll(*message_id)),
            _ => no_commands(),
        }
    } else if c == 'f' && !modifiers.shift && in_detail {
        match state.navigation.current() {
            ViewLevel::MessageDetail { message_id } => emit(Message::OpenForward(*message_id)),
            _ => no_commands(),
        }
    } else if c == 't' && !modifiers.shift && in_detail {
        match &state.current_message {
            Some(detail) => {
                match &detail.thread_id {
                    Some(tid) => emit(Message::ViewThread(tid.clone())),
                    None => no_commands(),
                }
            },
            None => no_commands(),
        }
    } else if c == 'e' && !modifiers.shift && in_thread {
        emit(Message::ExpandAllThread)
    } else if c == 'E' && modifiers.shift && in_thread {
        emit(Message::CollapseAllThread)
    } else {
        no_commands()
    }
}

fn step_up(i: usize) -> (r: usize)
    ensures
        r == index_up(i),
{
    if i > 0 {
        i - 1
    } else {
        0
    }
}

fn step_down(i: usize, len: usize) -> (r: usize)
    ensures
        r == index_down(i, len as nat),
{
    if i < usize::MAX && i + 1 < len {
        i + 1
    } else if len > 0 {
        len - 1
    } else {
        0
    }
}

/// Process one event: mutate the state and return the commands describing
/// the asynchronous work to perform. The reducer never performs I/O itself;
/// every event maps to exactly one handler, and no-op events return an empty
/// command list.
pub fn handle(state: &mut AppState, message: Message) -> (cmds: Vec<Command>)
    requires
        old(state).wf(),
    ensures
        final(state).wf(),
        reduce_post(*old(state), message, *final(state), cmds@),
{
    let family: u8 = match &message {
        Message::StartDiscovery | Message::DiscoveryComplete(_) | Message::ConfirmDiscoveredServer
            | Message::ChooseManualEntry | Message::WizardServerUrlChanged(_)
            | Message::WizardApiKeyChanged(_) | Message::FinishWizard => 0,
        Message::CheckHealth | Message::HealthChecked(_) | Message::FetchStats
            | Message::StatsLoaded(_) => 1,
        Message::FetchAggregates(_) | Message::AggregatesLoaded(_) | Message::SelectAggregate(_)
            | Message::SelectPrevious | Message::SelectNext | Message::DrillDown
            | Message::ToggleSortField | Message::ToggleSortDirection => 2,
        Message::FetchMessages { .. } | Message::MessagesLoaded(_) | Message::SelectMessage(_)
            | Message::OpenMessage | Message::MessageDetailLoaded(_) | Message::NextPage
            | Message::PreviousPage | Message::PreviousMessage | Message::NextMessage => 3,
        Message::ViewThread(_) | Message::ThreadLoaded(_) | Message::ToggleThreadMessage(_)
            | Message::ExpandAllThread | Message::CollapseAllThread
            | Message::ThreadFocusPrevious | Message::ThreadFocusNext => 4,
        Message::OpenSearch | Message::SearchQueryChanged(_) | Message::ExecuteSearch
            | Message::SearchLoaded(_) | Message::ToggleSearchMode
            | Message::SelectSearchResult(_) | Message::OpenSearchResult => 5,
        Message::OpenSync | Message::FetchSyncStatus | Message::SyncStatusLoaded(_)
            | Message::TriggerSync(_) | Message::SyncTriggered(_) | Message::RefreshSyncStatus
            | Message::SyncTick => 6,
        Message::OpenAccounts | Message::AddAccountEmailChanged(_)
            | Message::StartAddAccount => 7,
        Message::OAuthInitiated(_) | Message::OpenOAuthBrowser(_)
            | Message::PollDeviceFlow => 8,
        Message::DeviceFlowStatusReceived(_) | Message::CancelAddAccount
            | Message::ShowRemoveAccountModal(_) | Message::HideRemoveAccountModal
            | Message::ConfirmRemoveAccount | Message::AccountRemoved(_) => 9,
        Message::ShowHelp | Message::HideHelp | Message::OpenSettings
            | Message::SwitchSettingsTab(_) | Message::SettingsServerUrlChanged(_)
            | Message::SettingsApiKeyChanged(_) | Message::TestConnection
            | Message::ConnectionTested(_) | Message::SaveSettings
            | Message::SettingsSaved(_) => 10,
        Message::ToggleSelection | Message::SelectAll | Message::ClearSelection
            | Message::ShowDeleteModal | Message::HideDeleteModal | Message::ConfirmDelete
            | Message::StageForDeletion => 11,
        Message::NavigateTo(_) | Message::GoBack | Message::JumpToBreadcrumb(_)
            | Message::NextViewType | Message::PreviousViewType | Message::ServerUrlChanged(_)
            | Message::ApiKeyChanged(_) | Message::RetryConnection => 12,
        Message::DownloadAttachment { .. } | Message::DownloadProgress { .. }
            | Message::DownloadComplete { .. } | Message::DownloadFailed { .. }
            | Message::OpenFile(_) => 13,
        Message::OpenCompose | Message::OpenReply(_) | Message::OpenReplyAll(_)
            | Message::OpenForward(_) => 14,
        Message::ComposeToChanged(_) | Message::ComposeAddTo | Message::ComposeRemoveTo(_)
            | Message::ComposeCcChanged(_) | Message::ComposeAddCc | Message::ComposeRemoveCc(_)
            | Message::ComposeBccChanged(_) | Message::ComposeAddBcc
            | Message::ComposeRemoveBcc(_) | Message::ComposeSubjectChanged(_)
            | Message::ComposeBodyChanged(_) | Message::ComposeFromChanged(_)
            | Message::ComposeToggleCcBcc | Message::ComposeAddAttachment
            | Message::ComposeAttachmentSelected { .. }
            | Message::ComposeRemoveAttachment(_) => 15,
        Message::ComposeSend | Message::ComposeSent(_) | Message::ComposeSaveDraft => 16,
        Message::ComposeDraftSaved(_) | Message::ComposeDiscard | Message::ComposeClose => 17,
        Message::KeyPressed(_, _) => 18,
        Message::Noop => 19,
    };
    if family == 0 {
        handle_discovery(state, message)
    } else if family == 1 {
        handle_connection(state, message)
    } else if family == 2 {
        handle_aggregates(state, message)
    } else if family == 3 {
        handle_message_list(state, message)
    } else if family == 4 {
        handle_thread_view(state, message)
    } else if family == 5 {
        handle_search(state, message)
    } else if family == 6 {
        handle_sync(state, message)
    } else if family == 7 {
        handle_account_open(state, message)
    } else if family == 8 {
        handle_account_flow(state, message)
    } else if family == 9 {
        handle_account_admin(state, message)
    } else if family == 10 {
        handle_settings(state, message)
    } else if family == 11 {
        handle_selection(state, message)
    } else if family == 12 {
        handle_navigation(state, message)
    } else if family == 13 {
        handle_downloads(state, message)
    } else if family == 14 {
        handle_compose_open(state, message)
    } else if family == 15 {
        handle_compose_edit(state, message)
    } else if family == 16 {
        handle_compose_submit(state, message)
    } else if family == 17 {
        handle_compose_finish(state, message)
    } else if family == 18 {
        match message {
            Message::KeyPressed(key, modifiers) => key_press_commands(state, key, modifiers),
            _ => {
                proof {
                    assert(false);
                }
                no_commands()
            },
        }
    } else {
        proof {
            assert(message matches Message::Noop);
        }
        no_commands()
    }
}

/// Device-flow reset: cancelling the add-account flow and starting over with
/// a fresh email behaves exactly like a first-time invocation — no code, URL
/// or email from the prior attempt survives, and the one authorization call
/// that comes out is the same call a fresh session would make.
pub proof fn lemma_device_flow_reset(
    pre: AppState,
    cancelled: AppState,
    entered: AppState,
    started: AppState,
    start_cmds: Seq<Command>,
    email: String,
)
    requires
        email@.len() > 0,
        account_admin_post(pre, Message::CancelAddAccount, cancelled, Seq::empty()),
        add_account_post(
            cancelled,
            Message::AddAccountEmailChanged(email),
            entered,
            Seq::empty(),
        ),
        add_account_post(entered, Message::StartAddAccount, started, start_cmds),
    ensures
        started.adding_account,
        !started.polling_device_flow,
        started.oauth_response matches Option::None,
        started.add_account_email == email,
        start_cmds.len() == 1,
        is_email_call(start_cmds[0], pre, email@, 1),
{
    assert(entered.server_url == pre.server_url && entered.api_key == pre.api_key);
}

} // verus!
