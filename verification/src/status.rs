//! Lifecycle statuses of one running module instance, and the single-writer
//! channel on which they are published.
//!
//! The channel keeps the strictly ordered sequence of statuses published so
//! far. A subscriber attaching late is only promised the latest value and
//! later updates, so the sequence is the most any observer can see. The
//! channel enforces the central protocol invariant: after a `Terminated`
//! status has been published, no further status is ever accepted.

use vstd::prelude::*;

verus! {

/// The lifecycle status of one module instance, as published to the
/// orchestration layer. Timestamps are milliseconds since the Unix epoch.
#[derive(Debug)]
pub enum ContainerStatus {
    /// Initial state, before interpreter setup begins.
    Waiting { timestamp: i64, message: String },
    /// The module entry point is executing.
    Running { timestamp: i64 },
    /// Terminal state: `failed` is true on any setup or runtime error and
    /// false when the entry point returned normally.
    Terminated { failed: bool, message: String, timestamp: i64 },
}

/// Whether a status is the terminal one.
pub open spec fn is_terminated(s: ContainerStatus) -> bool {
    s matches ContainerStatus::Terminated { .. }
}

/// The `failed` flag of a terminal status (false for non-terminal ones).
pub open spec fn terminated_failed(s: ContainerStatus) -> bool {
    match s {
        ContainerStatus::Terminated { failed, .. } => failed,
        _ => false,
    }
}

/// The human-readable message carried by a status.
pub open spec fn status_message(s: ContainerStatus) -> Seq<char> {
    match s {
        ContainerStatus::Waiting { message, .. } => message@,
        ContainerStatus::Running { .. } => Seq::<char>::empty(),
        ContainerStatus::Terminated { message, .. } => message@,
    }
}

/// How many terminal statuses a published history holds.
pub open spec fn count_terminated(h: Seq<ContainerStatus>) -> nat
    decreases h.len(),
{
    if h.len() == 0 {
        0
    } else {
        count_terminated(h.drop_last()) + if is_terminated(h.last()) {
            1nat
        } else {
            0nat
        }
    }
}

/// A well-formed history: non-empty, and a terminal status can only stand at
/// the end, so no transition ever follows `Terminated`.
pub open spec fn wf_history(h: Seq<ContainerStatus>) -> bool {
    &&& h.len() >= 1
    &&& forall|i: int| 0 <= i < h.len() - 1 ==> !is_terminated(#[trigger] h[i])
}

/// In a well-formed history, the terminal status is exactly-once: it occurs
/// once if the history has terminated and never otherwise.
pub proof fn lemma_terminal_exactly_once(h: Seq<ContainerStatus>)
    requires
        wf_history(h),
    ensures
        count_terminated(h) == if is_terminated(h.last()) {
            1nat
        } else {
            0nat
        },
    decreases h.len(),
{
    if h.len() == 1 {
        assert(h.drop_last().len() == 0);
        assert(count_terminated(h.drop_last()) == 0);
    } else {
        assert(wf_history(h.drop_last()));
        assert(!is_terminated(h.drop_last().last())) by {
            assert(h.drop_last().last() == h[h.len() - 2]);
        }
        lemma_terminal_exactly_once(h.drop_last());
        assert(count_terminated(h) == count_terminated(h.drop_last()) + if is_terminated(h.last()) {
            1nat
        } else {
            0nat
        });
    }
}

/// The single-writer broadcast of lifecycle statuses for one instance.
///
/// The writer publishes a strictly ordered sequence; the view of the channel
/// is that sequence. Publishing requires that no terminal status has been
/// accepted yet, so verified code can never publish twice past `Terminated`.
pub struct StatusChannel {
    history: Vec<ContainerStatus>,
}

/// A subscriber's cursor into one channel: what it has not yet observed lies
/// at and after its position.
pub struct StatusSubscription {
    pos: usize,
}

impl StatusSubscription {
    /// The position of the next status this subscriber will observe.
    pub closed spec fn position(&self) -> int {
        self.pos as int
    }
}

impl View for StatusChannel {
    type V = Seq<ContainerStatus>;

    closed spec fn view(&self) -> Seq<ContainerStatus> {
        self.history@
    }
}

impl StatusChannel {
    /// Well-formed: at least the initial status, and nothing after a terminal
    /// one.
    pub open spec fn wf(&self) -> bool {
        wf_history(self@)
    }

    /// Whether the terminal status has been published.
    pub open spec fn has_terminated(&self) -> bool {
        self@.len() > 0 && is_terminated(self@.last())
    }

    /// Creates the channel holding the initial `Waiting` status, as the
    /// channel of a fresh instance does before interpreter setup begins.
    pub fn new(timestamp: i64, message: String) -> (c: Self)
        ensures
            c@ =~= seq![ContainerStatus::Waiting { timestamp, message }],
            c.wf(),
            !c.has_terminated(),
    {
        let mut history: Vec<ContainerStatus> = Vec::new();
        history.push(ContainerStatus::Waiting { timestamp, message });
        StatusChannel { history }
    }

    /// Publishes one status. The terminal status can be published at most
    /// once, and nothing can be published after it.
    pub fn publish(&mut self, status: ContainerStatus)
        requires
            old(self).wf(),
            !old(self).has_terminated(),
        ensures
            final(self)@ == old(self)@.push(status),
            final(self).wf(),
            final(self).has_terminated() == is_terminated(status),
    {
        self.history.push(status);
    }

    /// The number of statuses published so far.
    pub fn len(&self) -> (n: usize)
        ensures
            n == self@.len(),
    {
        self.history.len()
    }

    /// The status at position `i` in publication order.
    pub fn status_at(&self, i: usize) -> (s: &ContainerStatus)
        requires
            i < self@.len(),
        ensures
            *s == self@[i as int],
    {
        &self.history[i]
    }

    /// The most recently published status: what a subscriber attaching now
    /// would observe first.
    pub fn latest(&self) -> (s: &ContainerStatus)
        requires
            self@.len() > 0,
        ensures
            *s == self@.last(),
    {
        &self.history[self.history.len() - 1]
    }

    /// Attaches a subscriber. A late subscriber is not replayed the full
    /// history: it observes the most recent status first, then every later
    /// one in publication order.
    pub fn subscribe(&self) -> (s: StatusSubscription)
        requires
            self@.len() > 0,
        ensures
            s.position() == self@.len() - 1,
    {
        StatusSubscription { pos: self.history.len() - 1 }
    }

    /// The next status the subscriber has not yet observed, if any has been
    /// published; the cursor advances past it.
    pub fn next_status<'a>(&'a self, s: &mut StatusSubscription) -> (r: Option<
        &'a ContainerStatus,
    >)
        requires
            0 <= old(s).position() <= self@.len(),
        ensures
            match r {
                Some(st) => {
                    &&& old(s).position() < self@.len()
                    &&& *st == self@[old(s).position()]
                    &&& final(s).position() == old(s).position() + 1
                },
                None => old(s).position() == self@.len() && final(s).position() == old(
                    s,
                ).position(),
            },
    {
        if s.pos < self.history.len() {
            let st = &self.history[s.pos];
            s.pos = s.pos + 1;
            Some(st)
        } else {
            None
        }
    }

    /// Whether the terminal status has been published (executable form).
    pub fn terminated(&self) -> (b: bool)
        requires
            self@.len() > 0,
        ensures
            b == self.has_terminated(),
    {
        match self.latest() {
            ContainerStatus::Terminated { .. } => true,
            _ => false,
        }
    }
}

} // verus!
