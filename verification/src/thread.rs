//! Thread (conversation) view state: which messages are expanded and which is
//! focused.

use vstd::prelude::*;
use vstd::pervasive::VecAdditionalExecFns;

use crate::types::MessageDetail;

verus! {

/// The expansion flags after one toggle.
pub open spec fn toggled(flags: Seq<bool>, index: int) -> Seq<bool> {
    flags.update(index, !flags[index])
}

/// Toggling the same message twice restores the original expansion flags, for
/// any valid index.
pub proof fn lemma_toggle_idempotent(flags: Seq<bool>, index: int)
    requires
        0 <= index < flags.len(),
    ensures
        toggled(toggled(flags, index), index) == flags,
{
    assert(toggled(toggled(flags, index), index) =~= flags);
}

/// State for viewing a thread.
#[derive(Debug, Clone, Default)]
pub struct ThreadState {
    /// Thread identifier, if one is loaded.
    pub thread_id: Option<String>,
    /// All messages in the thread, ordered chronologically.
    pub messages: Vec<MessageDetail>,
    /// Which messages are expanded, by index.
    pub expanded: Vec<bool>,
    /// Currently focused message index.
    pub focused_index: usize,
    /// Loading state.
    pub is_loading: bool,
}

impl ThreadState {
    /// Create a new empty thread state.
    pub fn new() -> (r: Self)
        ensures
            r.thread_id matches Option::None,
            r.messages@.len() == 0,
            r.expanded@.len() == 0,
            r.focused_index == 0,
            !r.is_loading,
    {
        ThreadState {
            thread_id: None,
            messages: Vec::new(),
            expanded: Vec::new(),
            focused_index: 0,
            is_loading: false,
        }
    }

    /// Load messages into the thread state: all collapsed except the most
    /// recent, which is expanded and focused.
    pub fn load_messages(&mut self, thread_id: String, messages: Vec<MessageDetail>)
        ensures
            final(self).thread_id == Some(thread_id),
            final(self).messages == messages,
            final(self).expanded@.len() == messages@.len(),
            forall|i: int|
                0 <= i < messages@.len() ==> final(self).expanded@[i] == (i == messages@.len() - 1),
            messages@.len() > 0 ==> final(self).focused_index == messages@.len() - 1,
            messages@.len() == 0 ==> final(self).focused_index == old(self).focused_index,
            !final(self).is_loading,
    {
        self.thread_id = Some(thread_id);
        let len = messages.len();
        self.expanded = vec![false; len];
        if len > 0 {
            self.expanded.set(len - 1, true);
            self.focused_index = len - 1;
        }
        self.messages = messages;
        self.is_loading = false;
    }

    /// Toggle the expanded state of the message at the given index; an
    /// out-of-range index is a no-op.
    pub fn toggle_expanded(&mut self, index: usize)
        ensures
            index < old(self).expanded@.len() ==> *final(self) == (ThreadState {
                expanded: final(self).expanded,
                ..*old(self)
            }) && final(self).expanded@ == toggled(old(self).expanded@, index as int),
            index >= old(self).expanded@.len() ==> *final(self) == *old(self),
    {
        if index < self.expanded.len() {
            let flag = self.expanded[index];
            self.expanded.set(index, !flag);
        }
    }

    /// Expand all messages in the thread.
    #[verifier::loop_isolation(false)]
    pub fn expand_all(&mut self)
        ensures
            *final(self) == (ThreadState { expanded: final(self).expanded, ..*old(self) }),
            final(self).expanded@.len() == old(self).expanded@.len(),
            forall|i: int| 0 <= i < final(self).expanded@.len() ==> final(self).expanded@[i],
    {
        let mut i: usize = 0;
        while i < self.expanded.len()
            invariant
                *self == (ThreadState { expanded: self.expanded, ..*old(self) }),
                i <= self.expanded@.len(),
                self.expanded@.len() == old(self).expanded@.len(),
                forall|j: int| 0 <= j < i ==> self.expanded@[j],
            decreases self.expanded@.len() - i,
        {
            self.expanded.set(i, true);
            i = i + 1;
        }
    }

    /// Collapse all messages in the thread.
    #[verifier::loop_isolation(false)]
    pub fn collapse_all(&mut self)
        ensures
            *final(self) == (ThreadState { expanded: final(self).expanded, ..*old(self) }),
            final(self).expanded@.len() == old(self).expanded@.len(),
            forall|i: int| 0 <= i < final(self).expanded@.len() ==> !final(self).expanded@[i],
    {
        let mut i: usize = 0;
        while i < self.expanded.len()
            invariant
                *self == (ThreadState { expanded: self.expanded, ..*old(self) }),
                i <= self.expanded@.len(),
                self.expanded@.len() == old(self).expanded@.len(),
                forall|j: int| 0 <= j < i ==> !self.expanded@[j],
            decreases self.expanded@.len() - i,
        {
            self.expanded.set(i, false);
            i = i + 1;
        }
    }

    /// Move focus to the previous message, stopping at the first.
    pub fn focus_previous(&mut self)
        ensures
            *final(self) == (ThreadState { focused_index: final(self).focused_index, ..*old(self) }),
            old(self).focused_index > 0 ==> final(self).focused_index == old(self).focused_index
                - 1,
            old(self).focused_index == 0 ==> final(self).focused_index == 0,
    {
        if self.focused_index > 0 {
            self.focused_index = self.focused_index - 1;
        }
    }

    /// Move focus to the next message, stopping at the last.
    pub fn focus_next(&mut self)
        ensures
            *final(self) == (ThreadState { focused_index: final(self).focused_index, ..*old(self) }),
            old(self).focused_index + 1 < old(self).messages@.len() ==> final(self).focused_index
                == old(self).focused_index + 1,
            old(self).focused_index + 1 >= old(self).messages@.len() ==> final(self).focused_index
                == old(self).focused_index,
    {
        if self.messages.len() > 0 && self.focused_index < self.messages.len() - 1 {
            self.focused_index = self.focused_index + 1;
        }
    }

    /// Check if the message at the given index is expanded; out-of-range
    /// indexes read as collapsed.
    pub fn is_expanded(&self, index: usize) -> (r: bool)
        ensures
            r == (index < self.expanded@.len() && self.expanded@[index as int]),
    {
        if index < self.expanded.len() {
            self.expanded[index]
        } else {
            false
        }
    }

    /// The number of messages in the thread.
    pub fn message_count(&self) -> (r: usize)
        ensures
            r == self.messages@.len(),
    {
        self.messages.len()
    }

    /// Clear the thread state.
    pub fn clear(&mut self)
        ensures
            final(self).thread_id matches Option::None,
            final(self).messages@.len() == 0,
            final(self).expanded@.len() == 0,
            final(self).focused_index == 0,
            !final(self).is_loading,
    {
        self.thread_id = None;
        self.messages.clear();
        self.expanded.clear();
        self.focused_index = 0;
        self.is_loading = false;
    }
}

} // verus!
