//! Navigation state: the current view descriptor plus the breadcrumb history,
//! with truncate-on-jump semantics.

use vstd::prelude::*;

use crate::numfmt::{i64_to_string, int_str};
use crate::types::ViewType;

verus! {

/// The current view or screen of the application. Each variant carries only
/// the parameters needed to re-derive its content.
#[derive(Debug, Clone, PartialEq)]
pub enum ViewLevel {
    /// Stats dashboard, the home screen.
    Dashboard,
    /// Aggregate list view (senders, domains, labels, ...).
    Aggregates { view_type: ViewType },
    /// Sub-aggregate after drilling down (for example a sender's labels).
    SubAggregates { parent_view_type: ViewType, parent_key: String, view_type: ViewType },
    /// Message list, filtered by an aggregate.
    Messages { filter_description: String },
    /// Single message detail.
    MessageDetail { message_id: i64 },
    /// Thread (conversation) view.
    Thread { thread_id: String },
    /// Search view.
    Search,
    /// Sync status view.
    Sync,
    /// Accounts view.
    Accounts,
    /// Settings view.
    Settings,
}

impl ViewLevel {
    /// The display title of a view.
    pub open spec fn title_spec(self) -> Seq<char> {
        match self {
            ViewLevel::Dashboard => "Dashboard"@,
            ViewLevel::Aggregates { view_type } => view_type.display_name_spec(),
            ViewLevel::SubAggregates { parent_key, view_type, .. } => parent_key@ + " → "@
                + view_type.display_name_spec(),
            ViewLevel::Messages { filter_description } => filter_description@,
            ViewLevel::MessageDetail { message_id } => "Message #"@ + int_str(message_id as int),
            ViewLevel::Thread { .. } => "Thread"@,
            ViewLevel::Search => "Search"@,
            ViewLevel::Sync => "Sync"@,
            ViewLevel::Accounts => "Accounts"@,
            ViewLevel::Settings => "Settings"@,
        }
    }

    /// Get a display title for the view.
    pub fn title(&self) -> (r: String)
        ensures
            r@ == self.title_spec(),
    {
        match self {
            ViewLevel::Dashboard => "Dashboard".to_owned(),
            ViewLevel::Aggregates { view_type } => view_type.display_name().to_owned(),
            ViewLevel::SubAggregates { parent_key, view_type, .. } => {
                parent_key.clone().concat(" → ").concat(view_type.display_name())
            },
            ViewLevel::Messages { filter_description } => filter_description.clone(),
            ViewLevel::MessageDetail { message_id } => {
                "Message #".to_owned().concat(i64_to_string(*message_id).as_str())
            },
            ViewLevel::Thread { .. } => "Thread".to_owned(),
            ViewLevel::Search => "Search".to_owned(),
            ViewLevel::Sync => "Sync".to_owned(),
            ViewLevel::Accounts => "Accounts".to_owned(),
            ViewLevel::Settings => "Settings".to_owned(),
        }
    }

    /// Check if this is the dashboard (home).
    pub fn is_dashboard(&self) -> (r: bool)
        ensures
            r == (self matches ViewLevel::Dashboard),
    {
        matches!(self, ViewLevel::Dashboard)
    }

    /// An equal copy of the view descriptor.
    pub fn duplicate(&self) -> (r: ViewLevel)
        ensures
            r == *self,
    {
        match self {
            ViewLevel::Dashboard => ViewLevel::Dashboard,
            ViewLevel::Aggregates { view_type } => ViewLevel::Aggregates { view_type: *view_type },
            ViewLevel::SubAggregates { parent_view_type, parent_key, view_type } => {
                ViewLevel::SubAggregates {
                    parent_view_type: *parent_view_type,
                    parent_key: parent_key.clone(),
                    view_type: *view_type,
                }
            },
            ViewLevel::Messages { filter_description } => {
                ViewLevel::Messages { filter_description: filter_description.clone() }
            },
            ViewLevel::MessageDetail { message_id } => {
                ViewLevel::MessageDetail { message_id: *message_id }
            },
            ViewLevel::Thread { thread_id } => ViewLevel::Thread { thread_id: thread_id.clone() },
            ViewLevel::Search => ViewLevel::Search,
            ViewLevel::Sync => ViewLevel::Sync,
            ViewLevel::Accounts => ViewLevel::Accounts,
            ViewLevel::Settings => ViewLevel::Settings,
        }
    }
}

/// Breadcrumb entry for navigation history.
#[derive(Debug, Clone)]
pub struct BreadcrumbEntry {
    pub label: String,
    pub view: ViewLevel,
}

/// One navigation operation, used to state properties over arbitrary
/// sequences of stack manipulations.
pub enum NavOp {
    Push(ViewLevel),
    Pop,
    JumpTo(int),
}

/// The abstract navigation state: the history and the current view after one
/// operation.
pub open spec fn nav_apply(h: Seq<ViewLevel>, c: ViewLevel, op: NavOp) -> (Seq<ViewLevel>, ViewLevel) {
    match op {
        NavOp::Push(v) => (h.push(c), v),
        NavOp::Pop => if h.len() > 0 {
            (h.drop_last(), h.last())
        } else {
            (h, c)
        },
        NavOp::JumpTo(i) => if 0 <= i < h.len() {
            (h.take(i), h[i])
        } else {
            (h, c)
        },
    }
}

/// The abstract navigation state after a sequence of operations.
pub open spec fn nav_apply_all(h: Seq<ViewLevel>, c: ViewLevel, ops: Seq<NavOp>) -> (
    Seq<ViewLevel>,
    ViewLevel,
)
    decreases ops.len(),
{
    if ops.len() == 0 {
        (h, c)
    } else {
        let (h1, c1) = nav_apply(h, c, ops[0]);
        nav_apply_all(h1, c1, ops.drop_first())
    }
}

/// Navigation invariant: however a fresh stack is driven by pushes, pops and
/// jumps, a current view always exists — the breadcrumb trail derived from
/// the resulting state is the history followed by exactly one current view.
pub proof fn lemma_navigation_invariant(ops: Seq<NavOp>)
    ensures
        ({
            let (h, c) = nav_apply_all(Seq::empty(), ViewLevel::Dashboard, ops);
            &&& h.push(c).len() == h.len() + 1
            &&& h.push(c).last() == c
        }),
{
}

/// Navigation history stack.
#[derive(Debug, Clone)]
pub struct NavigationStack {
    /// Stack of previous views, for back navigation.
    history: Vec<ViewLevel>,
    /// Current view.
    current: ViewLevel,
}

impl NavigationStack {
    /// The previous views, oldest first.
    pub closed spec fn hist(self) -> Seq<ViewLevel> {
        self.history@
    }

    /// The current view.
    pub closed spec fn cur(self) -> ViewLevel {
        self.current
    }

    /// A fresh stack: empty history, current view the dashboard.
    pub fn new() -> (r: Self)
        ensures
            r.hist() == Seq::<ViewLevel>::empty(),
            r.cur() == ViewLevel::Dashboard,
    {
        Self { history: Vec::new(), current: ViewLevel::Dashboard }
    }

    /// Get the current view.
    pub fn current(&self) -> (r: &ViewLevel)
        ensures
            *r == self.cur(),
    {
        &self.current
    }

    /// Navigate to a new view, pushing the current one onto the history.
    pub fn push(&mut self, view: ViewLevel)
        ensures
            (final(self).hist(), final(self).cur()) == nav_apply(
                old(self).hist(),
                old(self).cur(),
                NavOp::Push(view),
            ),
            final(self).hist() == old(self).hist().push(old(self).cur()),
            final(self).cur() == view,
    {
        let mut v = view;
        core::mem::swap(&mut self.current, &mut v);
        self.history.push(v);
    }

    /// Go back to the previous view. Returns whether the stack moved; on an
    /// empty history this is a safe no-op.
    pub fn pop(&mut self) -> (moved: bool)
        ensures
            (final(self).hist(), final(self).cur()) == nav_apply(
                old(self).hist(),
                old(self).cur(),
                NavOp::Pop,
            ),
            moved == (old(self).hist().len() > 0),
            moved ==> final(self).hist() == old(self).hist().drop_last() && final(self).cur()
                == old(self).hist().last(),
            !moved ==> final(self).hist() == old(self).hist() && final(self).cur()
                == old(self).cur(),
    {
        match self.history.pop() {
            Some(previous) => {
                self.current = previous;
                true
            },
            None => false,
        }
    }

    /// Check if we can go back: true exactly when the history is non-empty.
    pub fn can_go_back(&self) -> (r: bool)
        ensures
            r == (self.hist().len() > 0),
    {
        self.history.len() > 0
    }

    /// Get the breadcrumb trail: one entry per history view, oldest first,
    /// followed by one entry for the current view, each labelled with the
    /// view's title.
    #[verifier::loop_isolation(false)]
    pub fn breadcrumbs(&self) -> (r: Vec<BreadcrumbEntry>)
        ensures
            r@.len() == self.hist().len() + 1,
            forall|i: int|
                0 <= i < self.hist().len() ==> r@[i].view == self.hist()[i] && r@[i].label@
                    == self.hist()[i].title_spec(),
            r@.last().view == self.cur(),
            r@.last().label@ == self.cur().title_spec(),
    {
        let mut crumbs: Vec<BreadcrumbEntry> = Vec::new();
        let mut i: usize = 0;
        while i < self.history.len()
            invariant
                i <= self.hist().len(),
                crumbs@.len() == i,
                forall|j: int|
                    0 <= j < i ==> crumbs@[j].view == self.hist()[j] && crumbs@[j].label@
                        == self.hist()[j].title_spec(),
            decreases self.hist().len() - i,
        {
            let v = &self.history[i];
            crumbs.push(BreadcrumbEntry { label: v.title(), view: v.duplicate() });
            i = i + 1;
        }
        crumbs.push(BreadcrumbEntry { label: self.current.title(), view: self.current.duplicate() });
        crumbs
    }

    /// Navigate directly to a history entry: the history is truncated to the
    /// entries before it and the entry becomes current. Later entries are
    /// discarded, not retained. An out-of-range index is a no-op.
    pub fn jump_to(&mut self, index: usize)
        ensures
            (final(self).hist(), final(self).cur()) == nav_apply(
                old(self).hist(),
                old(self).cur(),
                NavOp::JumpTo(index as int),
            ),
            index < old(self).hist().len() ==> final(self).hist() == old(self).hist().take(
                index as int,
            ) && final(self).cur() == old(self).hist()[index as int],
            index >= old(self).hist().len() ==> final(self).hist() == old(self).hist()
                && final(self).cur() == old(self).cur(),
    {
        if index < self.history.len() {
            let view = self.history[index].duplicate();
            self.history.truncate(index);
            self.current = view;
            proof {
                assert(final(self).hist() =~= old(self).hist().take(index as int));
            }
        }
    }

    /// Reset to the dashboard, clearing the history.
    pub fn reset(&mut self)
        ensures
            final(self).hist() == Seq::<ViewLevel>::empty(),
            final(self).cur() == ViewLevel::Dashboard,
    {
        self.history.clear();
        self.current = ViewLevel::Dashboard;
    }
}

impl Default for NavigationStack {
    /// A fresh stack, as `new` builds it.
    fn default() -> (r: Self)
        ensures
            r.hist() == Seq::<ViewLevel>::empty(),
            r.cur() == ViewLevel::Dashboard,
    {
        Self::new()
    }
}

} // verus!
