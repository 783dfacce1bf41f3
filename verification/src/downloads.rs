//! Download state tracking for message attachments.
//!
//! The tracker maps a message id and attachment index to the download state
//! of that attachment. Entries are created on the first download attempt,
//! overwritten on retry, and pruned when the owning message is closed.

use vstd::prelude::*;

verus! {

/// Download state for a single attachment. Progress is a percentage,
/// clamped to the range 0 to 100.
#[derive(Debug, Clone, PartialEq)]
pub enum DownloadState {
    /// Not yet started.
    NotStarted,
    /// Currently downloading.
    Downloading { progress: u8 },
    /// Download complete, saved at the given path.
    Complete { path: String },
    /// Download failed.
    Failed { error: String },
}

impl Default for DownloadState {
    fn default() -> (r: Self)
        ensures
            r == DownloadState::NotStarted,
    {
        DownloadState::NotStarted
    }
}

impl DownloadState {
    /// Check if the download is in progress.
    pub fn is_downloading(&self) -> (r: bool)
        ensures
            r == (self matches DownloadState::Downloading { .. }),
    {
        matches!(self, DownloadState::Downloading { .. })
    }

    /// Check if the download is complete.
    pub fn is_complete(&self) -> (r: bool)
        ensures
            r == (self matches DownloadState::Complete { .. }),
    {
        matches!(self, DownloadState::Complete { .. })
    }

    /// Check if the download failed.
    pub fn is_failed(&self) -> (r: bool)
        ensures
            r == (self matches DownloadState::Failed { .. }),
    {
        matches!(self, DownloadState::Failed { .. })
    }

    /// The saved path, when the download is complete.
    pub fn path(&self) -> (r: Option<&String>)
        ensures
            match r {
                Some(p) => *self matches DownloadState::Complete { path } && *p == path,
                None => !(*self matches DownloadState::Complete { .. }),
            },
    {
        match self {
            DownloadState::Complete { path } => Some(path),
            _ => None,
        }
    }

    /// The progress percentage, when downloading.
    pub fn progress(&self) -> (r: Option<u8>)
        ensures
            match r {
                Some(p) => *self matches DownloadState::Downloading { progress } && p == progress,
                None => !(*self matches DownloadState::Downloading { .. }),
            },
    {
        match self {
            DownloadState::Downloading { progress } => Some(*progress),
            _ => None,
        }
    }

    /// The error message, when the download failed.
    pub fn error(&self) -> (r: Option<&str>)
        ensures
            match r {
                Some(e) => *self matches DownloadState::Failed { error } && e@ == error@,
                None => !(*self matches DownloadState::Failed { .. }),
            },
    {
        match self {
            DownloadState::Failed { error } => Some(error.as_str()),
            _ => None,
        }
    }

    /// An equal copy of the state.
    pub fn duplicate(&self) -> (r: DownloadState)
        ensures
            r == *self,
    {
        match self {
            DownloadState::NotStarted => DownloadState::NotStarted,
            DownloadState::Downloading { progress } => DownloadState::Downloading {
                progress: *progress,
            },
            DownloadState::Complete { path } => DownloadState::Complete { path: path.clone() },
            DownloadState::Failed { error } => DownloadState::Failed { error: error.clone() },
        }
    }
}

/// One tracked attachment download.
#[derive(Debug, Clone)]
struct DownloadEntry {
    message_id: i64,
    attachment_idx: usize,
    state: DownloadState,
}

impl DownloadEntry {
    fn duplicate(&self) -> (r: DownloadEntry)
        ensures
            r == *self,
    {
        DownloadEntry {
            message_id: self.message_id,
            attachment_idx: self.attachment_idx,
            state: self.state.duplicate(),
        }
    }
}

/// The state recorded for a key in a sequence of entries: the most recently
/// appended entry with that key wins; an absent key reads as not started.
spec fn state_in(s: Seq<DownloadEntry>, id: int, ai: int) -> DownloadState
    decreases s.len(),
{
    if s.len() == 0 {
        DownloadState::NotStarted
    } else if s.last().message_id == id && s.last().attachment_idx == ai {
        s.last().state
    } else {
        state_in(s.drop_last(), id, ai)
    }
}

/// The entries that a filter keeps, in order.
spec fn kept(s: Seq<DownloadEntry>, keep: spec_fn(DownloadEntry) -> bool) -> Seq<DownloadEntry>
    decreases s.len(),
{
    if s.len() == 0 {
        Seq::empty()
    } else if keep(s.last()) {
        kept(s.drop_last(), keep).push(s.last())
    } else {
        kept(s.drop_last(), keep)
    }
}

/// A filter that keeps every entry of a key leaves that key's state alone.
proof fn lemma_state_in_kept(
    s: Seq<DownloadEntry>,
    keep: spec_fn(DownloadEntry) -> bool,
    id: int,
    ai: int,
)
    requires
        forall|e: DownloadEntry| e.message_id == id && e.attachment_idx == ai ==> keep(e),
    ensures
        state_in(kept(s, keep), id, ai) == state_in(s, id, ai),
    decreases s.len(),
{
    if s.len() > 0 {
        lemma_state_in_kept(s.drop_last(), keep, id, ai);
        if keep(s.last()) {
            let k = kept(s.drop_last(), keep).push(s.last());
            assert(k.last() == s.last());
            assert(k.drop_last() =~= kept(s.drop_last(), keep));
        }
    }
}

/// A filter that drops every entry of a key resets that key's state.
proof fn lemma_state_in_dropped(
    s: Seq<DownloadEntry>,
    keep: spec_fn(DownloadEntry) -> bool,
    id: int,
    ai: int,
)
    requires
        forall|e: DownloadEntry| e.message_id == id && e.attachment_idx == ai ==> !keep(e),
    ensures
        state_in(kept(s, keep), id, ai) == DownloadState::NotStarted,
    decreases s.len(),
{
    if s.len() > 0 {
        lemma_state_in_dropped(s.drop_last(), keep, id, ai);
        if keep(s.last()) {
            let k = kept(s.drop_last(), keep).push(s.last());
            assert(k.last() == s.last());
            assert(k.drop_last() =~= kept(s.drop_last(), keep));
        }
    }
}

/// Tracks the download state of every attachment.
#[derive(Debug, Clone)]
pub struct DownloadTracker {
    entries: Vec<DownloadEntry>,
}

impl DownloadTracker {
    /// The state recorded for an attachment; an untracked attachment reads
    /// as not started.
    pub closed spec fn state_of(self, id: int, ai: int) -> DownloadState {
        state_in(self.entries@, id, ai)
    }

    /// Create a new download tracker with nothing tracked.
    pub fn new() -> (r: Self)
        ensures
            forall|a: int, b: int| r.state_of(a, b) == DownloadState::NotStarted,
    {
        DownloadTracker { entries: Vec::new() }
    }

    /// The download state of an attachment.
    #[verifier::loop_isolation(false)]
    pub fn get(&self, message_id: i64, attachment_idx: usize) -> (r: DownloadState)
        ensures
            r == self.state_of(message_id as int, attachment_idx as int),
    {
        let ghost id = message_id as int;
        let ghost ai = attachment_idx as int;
        let mut i: usize = self.entries.len();
        proof {
            assert(self.entries@.take(i as int) =~= self.entries@);
        }
        while i > 0
            invariant
                i <= self.entries@.len(),
                state_in(self.entries@.take(i as int), id, ai) == self.state_of(id, ai),
            decreases i,
        {
            i = i - 1;
            let e = &self.entries[i];
            proof {
                let pre = self.entries@.take(i + 1);
                assert(pre.len() == i + 1);
                assert(pre.last() == self.entries@[i as int]);
                assert(pre.drop_last() =~= self.entries@.take(i as int));
                assert(state_in(pre, id, ai) == if pre.last().message_id == id
                    && pre.last().attachment_idx == ai {
                    pre.last().state
                } else {
                    state_in(pre.drop_last(), id, ai)
                });
            }
            if e.message_id == message_id && e.attachment_idx == attachment_idx {
                return e.state.duplicate();
            }
        }
        DownloadState::NotStarted
    }

    /// Keep only the entries of other messages.
    #[verifier::loop_isolation(false)]
    fn retain_other_messages(&mut self, message_id: i64)
        ensures
            forall|b: int|
                final(self).state_of(message_id as int, b) == DownloadState::NotStarted,
            forall|a: int, b: int|
                a != message_id as int ==> final(self).state_of(a, b) == old(self).state_of(a, b),
    {
        let ghost keep = |e: DownloadEntry| e.message_id != message_id;
        let mut acc: Vec<DownloadEntry> = Vec::new();
        let mut i: usize = 0;
        while i < self.entries.len()
            invariant
                i <= self.entries@.len(),
                acc@ =~= kept(self.entries@.take(i as int), keep),
            decreases self.entries@.len() - i,
        {
            let e = &self.entries[i];
            proof {
                assert(self.entries@.take(i + 1).last() == self.entries@[i as int]);
                assert(self.entries@.take(i + 1).drop_last() =~= self.entries@.take(i as int));
            }
            if e.message_id != message_id {
                acc.push(e.duplicate());
            }
            i = i + 1;
        }
        proof {
            assert(self.entries@.take(self.entries@.len() as int) =~= self.entries@);
        }
        self.entries = acc;
        proof {
            assert forall|b: int|
                final(self).state_of(message_id as int, b) == DownloadState::NotStarted by {
                lemma_state_in_dropped(old(self).entries@, keep, message_id as int, b);
            }
            assert forall|a: int, b: int|
                a != message_id as int implies final(self).state_of(a, b) == old(self).state_of(
                a,
                b,
            ) by {
                lemma_state_in_kept(old(self).entries@, keep, a, b);
            }
        }
    }

    /// Keep only the entries of other attachments.
    #[verifier::loop_isolation(false)]
    fn retain_other_attachments(&mut self, message_id: i64, attachment_idx: usize)
        ensures
            final(self).state_of(message_id as int, attachment_idx as int)
                == DownloadState::NotStarted,
            forall|a: int, b: int|
                !(a == message_id as int && b == attachment_idx as int) ==> final(self).state_of(
                    a,
                    b,
                ) == old(self).state_of(a, b),
    {
        let ghost keep = |e: DownloadEntry|
            !(e.message_id == message_id && e.attachment_idx == attachment_idx);
        let mut acc: Vec<DownloadEntry> = Vec::new();
        let mut i: usize = 0;
        while i < self.entries.len()
            invariant
                i <= self.entries@.len(),
                acc@ =~= kept(self.entries@.take(i as int), keep),
            decreases self.entries@.len() - i,
        {
            let e = &self.entries[i];
            proof {
                assert(self.entries@.take(i + 1).last() == self.entries@[i as int]);
                assert(self.entries@.take(i + 1).drop_last() =~= self.entries@.take(i as int));
            }
            if !(e.message_id == message_id && e.attachment_idx == attachment_idx) {
                acc.push(e.duplicate());
            }
            i = i + 1;
        }
        proof {
            assert(self.entries@.take(self.entries@.len() as int) =~= self.entries@);
        }
        self.entries = acc;
        proof {
            lemma_state_in_dropped(
                old(self).entries@,
                keep,
                message_id as int,
                attachment_idx as int,
            );
            assert forall|a: int, b: int|
                !(a == message_id as int && b == attachment_idx as int) implies final(self)
                .state_of(a, b) == old(self).state_of(a, b) by {
                lemma_state_in_kept(old(self).entries@, keep, a, b);
            }
        }
    }

    /// Record a state for an attachment, replacing any previous entry.
    fn put(&mut self, message_id: i64, attachment_idx: usize, state: DownloadState)
        ensures
            final(self).state_of(message_id as int, attachment_idx as int) == state,
            forall|a: int, b: int|
                !(a == message_id as int && b == attachment_idx as int) ==> final(self).state_of(
                    a,
                    b,
                ) == old(self).state_of(a, b),
    {
        self.retain_other_attachments(message_id, attachment_idx);
        let ghost mid = self.entries@;
        self.entries.push(DownloadEntry { message_id, attachment_idx, state });
        proof {
            assert(self.entries@.last() == self.entries@[self.entries@.len() - 1]);
            assert(self.entries@.drop_last() =~= mid);
        }
    }

    /// Mark an attachment as downloading with the given progress percentage,
    /// clamped to 100.
    pub fn set_downloading(&mut self, message_id: i64, attachment_idx: usize, progress: u8)
        ensures
            final(self).state_of(message_id as int, attachment_idx as int)
                == (DownloadState::Downloading {
                progress: if progress > 100 {
                    100u8
                } else {
                    progress
                },
            }),
            forall|a: int, b: int|
                !(a == message_id as int && b == attachment_idx as int) ==> final(self).state_of(
                    a,
                    b,
                ) == old(self).state_of(a, b),
    {
        let clamped: u8 = if progress > 100 {
            100
        } else {
            progress
        };
        self.put(message_id, attachment_idx, DownloadState::Downloading { progress: clamped });
    }

    /// Mark an attachment download as complete.
    pub fn set_complete(&mut self, message_id: i64, attachment_idx: usize, path: String)
        ensures
            final(self).state_of(message_id as int, attachment_idx as int)
                == (DownloadState::Complete { path }),
            forall|a: int, b: int|
                !(a == message_id as int && b == attachment_idx as int) ==> final(self).state_of(
                    a,
                    b,
                ) == old(self).state_of(a, b),
    {
        self.put(message_id, attachment_idx, DownloadState::Complete { path });
    }

    /// Mark an attachment download as failed.
    pub fn set_failed(&mut self, message_id: i64, attachment_idx: usize, error: String)
        ensures
            final(self).state_of(message_id as int, attachment_idx as int)
                == (DownloadState::Failed { error }),
            forall|a: int, b: int|
                !(a == message_id as int && b == attachment_idx as int) ==> final(self).state_of(
                    a,
                    b,
                ) == old(self).state_of(a, b),
    {
        self.put(message_id, attachment_idx, DownloadState::Failed { error });
    }

    /// Clear the state of one attachment.
    pub fn clear(&mut self, message_id: i64, attachment_idx: usize)
        ensures
            final(self).state_of(message_id as int, attachment_idx as int)
                == DownloadState::NotStarted,
            forall|a: int, b: int|
                !(a == message_id as int && b == attachment_idx as int) ==> final(self).state_of(
                    a,
                    b,
                ) == old(self).state_of(a, b),
    {
        self.retain_other_attachments(message_id, attachment_idx);
    }

    /// Clear every download of one message.
    pub fn clear_message(&mut self, message_id: i64)
        ensures
            forall|b: int|
                final(self).state_of(message_id as int, b) == DownloadState::NotStarted,
            forall|a: int, b: int|
                a != message_id as int ==> final(self).state_of(a, b) == old(self).state_of(a, b),
    {
        self.retain_other_messages(message_id);
    }

    /// Clear all downloads.
    pub fn clear_all(&mut self)
        ensures
            forall|a: int, b: int| final(self).state_of(a, b) == DownloadState::NotStarted,
    {
        self.entries.clear();
    }
}

impl Default for DownloadTracker {
    /// An empty tracker, as `new` builds it.
    fn default() -> (r: Self)
        ensures
            forall|a: int, b: int| r.state_of(a, b) == DownloadState::NotStarted,
    {
        DownloadTracker::new()
    }
}

} // verus!
