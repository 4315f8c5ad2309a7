use vstd::prelude::*;

verus! {

/// What can happen while a boundary's server output is being resolved.
#[derive(Clone, Copy, Debug, PartialEq, Eq, Structural)]
pub enum RaceEvent {
    /// A descendant read a resource that can only resolve in a running
    /// client, or the notification's sender was dropped with its scope.
    LocalRead,
    /// The task registry became, or already was, empty.
    TasksFinished,
    /// The content subtree reached its final markup-producing form.
    ContentResolved,
}

/// Where the race between the two notifications stands.
#[derive(Clone, Copy, Debug, PartialEq, Eq, Structural)]
pub enum RaceState {
    /// Neither notification has fired.
    AwaitingTasks,
    /// All tasks finished; the content is being resolved.
    ResolvingContent,
    /// The content resolved before any local read.
    Resolved,
    /// A local read came first: the boundary cannot finish on the server.
    Incomplete,
}

/// One transition of the race. Settled states never change again.
pub open spec fn race_step(s: RaceState, e: RaceEvent) -> RaceState {
    match s {
        RaceState::AwaitingTasks => match e {
            RaceEvent::LocalRead => RaceState::Incomplete,
            RaceEvent::TasksFinished => RaceState::ResolvingContent,
            RaceEvent::ContentResolved => RaceState::AwaitingTasks,
        },
        RaceState::ResolvingContent => match e {
            RaceEvent::LocalRead => RaceState::Incomplete,
            RaceEvent::TasksFinished => RaceState::ResolvingContent,
            RaceEvent::ContentResolved => RaceState::Resolved,
        },
        RaceState::Resolved => RaceState::Resolved,
        RaceState::Incomplete => RaceState::Incomplete,
    }
}

/// The state reached from `s` after `events`, in order.
pub open spec fn race_run(s: RaceState, events: Seq<RaceEvent>) -> RaceState
    decreases events.len(),
{
    if events.len() == 0 {
        s
    } else {
        race_step(race_run(s, events.drop_last()), events.last())
    }
}

impl RaceState {
    /// Whether the race has an outcome.
    pub open spec fn spec_settled(self) -> bool {
        self == RaceState::Resolved || self == RaceState::Incomplete
    }

    /// Applies one event.
    pub fn step(self, e: RaceEvent) -> (r: RaceState)
        ensures
            r == race_step(self, e),
    {
        match self {
            RaceState::AwaitingTasks => match e {
                RaceEvent::LocalRead => RaceState::Incomplete,
                RaceEvent::TasksFinished => RaceState::ResolvingContent,
                RaceEvent::ContentResolved => RaceState::AwaitingTasks,
            },
            RaceState::ResolvingContent => match e {
                RaceEvent::LocalRead => RaceState::Incomplete,
                RaceEvent::TasksFinished => RaceState::ResolvingContent,
                RaceEvent::ContentResolved => RaceState::Resolved,
            },
            RaceState::Resolved => RaceState::Resolved,
            RaceState::Incomplete => RaceState::Incomplete,
        }
    }

    /// Whether the race has an outcome.
    pub fn is_settled(self) -> (r: bool)
        ensures
            r == self.spec_settled(),
    {
        match self {
            RaceState::Resolved | RaceState::Incomplete => true,
            _ => false,
        }
    }

    /// Applies the events in order.
    pub fn run(self, events: &Vec<RaceEvent>) -> (r: RaceState)
        ensures
            r == race_run(self, events@),
    {
        let mut s = self;
        let mut i: usize = 0;
        while i < events.len()
            invariant
                i <= events@.len(),
                s == race_run(self, events@.subrange(0, i as int)),
            decreases events@.len() - i,
        {
            assert(events@.subrange(0, i + 1).drop_last() =~= events@.subrange(0, i as int));
            s = s.step(events[i]);
            i = i + 1;
        }
        assert(events@.subrange(0, events@.len() as int) =~= events@);
        s
    }
}

/// Once the race is lost to a local read it stays lost, whatever follows.
pub proof fn lemma_incomplete_absorbs(events: Seq<RaceEvent>)
    ensures
        race_run(RaceState::Incomplete, events) == RaceState::Incomplete,
    decreases events.len(),
{
    if events.len() > 0 {
        lemma_incomplete_absorbs(events.drop_last());
    }
}

/// If a local read happens before the registry is reported empty, the outcome
/// is incomplete, even if the tasks finish right after.
pub proof fn lemma_local_read_first(events: Seq<RaceEvent>, i: int)
    requires
        0 <= i < events.len(),
        events[i] == RaceEvent::LocalRead,
        forall|j: int| 0 <= j < i ==> events[j] != RaceEvent::TasksFinished,
    ensures
        race_run(RaceState::AwaitingTasks, events) == RaceState::Incomplete,
    decreases events.len(),
{
    if i < events.len() - 1 {
        lemma_local_read_first(events.drop_last(), i);
    } else {
        lemma_before_tasks_finish(events.drop_last());
    }
}

/// Before the tasks finish, the race is either still waiting or already lost.
proof fn lemma_before_tasks_finish(events: Seq<RaceEvent>)
    requires
        forall|j: int| 0 <= j < events.len() ==> events[j] != RaceEvent::TasksFinished,
    ensures
        race_run(RaceState::AwaitingTasks, events) == RaceState::AwaitingTasks
            || race_run(RaceState::AwaitingTasks, events) == RaceState::Incomplete,
    decreases events.len(),
{
    if events.len() > 0 {
        lemma_before_tasks_finish(events.drop_last());
    }
}

/// A single-fire notification: only its first firing counts.
pub struct Notification {
    fired: bool,
}

impl Notification {
    pub closed spec fn spec_fired(&self) -> bool {
        self.fired
    }

    /// A notification that has not fired.
    pub fn new() -> (r: Self)
        ensures
            !r.spec_fired(),
    {
        Notification { fired: false }
    }

    /// Whether it has fired.
    pub fn has_fired(&self) -> (r: bool)
        ensures
            r == self.spec_fired(),
    {
        self.fired
    }

    /// Fires it. Returns whether this was the first firing; later firings
    /// change nothing.
    pub fn fire(&mut self) -> (first: bool)
        ensures
            first == !old(self).spec_fired(),
            final(self).spec_fired(),
    {
        let first = !self.fired;
        self.fired = true;
        first
    }

    /// Task completion: fires the first time the registry is observed empty,
    /// including when it already is at the first observation. Returns whether
    /// it fired now.
    pub fn observe_tasks(&mut self, registry_empty: bool) -> (fires: bool)
        ensures
            fires == (registry_empty && !old(self).spec_fired()),
            final(self).spec_fired() == (old(self).spec_fired() || registry_empty),
    {
        if registry_empty {
            self.fire()
        } else {
            false
        }
    }
}

/// How a boundary's server output is written once the race has been polled.
#[derive(Clone, Copy, Debug, PartialEq, Eq, Structural)]
pub enum OutputPlan {
    /// Write the resolved content at the current position.
    InlineContent,
    /// Write the fallback at the current position; the client resolves it.
    InlineFallback,
    /// Write the marked fallback now and send the content later as a labeled
    /// out-of-order chunk.
    FallbackThenOutOfOrder,
    /// Reserve the current position and fill it, in document order, once the
    /// race settles.
    DeferredInOrder,
}

/// The plan for a race polled once, in the given streaming mode.
pub open spec fn spec_plan(s: RaceState, out_of_order: bool) -> OutputPlan {
    match s {
        RaceState::Resolved => OutputPlan::InlineContent,
        RaceState::Incomplete => OutputPlan::InlineFallback,
        _ => if out_of_order {
            OutputPlan::FallbackThenOutOfOrder
        } else {
            OutputPlan::DeferredInOrder
        },
    }
}

/// Chooses how to write a boundary after polling its race once.
pub fn plan_output(s: RaceState, out_of_order: bool) -> (r: OutputPlan)
    ensures
        r == spec_plan(s, out_of_order),
{
    match s {
        RaceState::Resolved => OutputPlan::InlineContent,
        RaceState::Incomplete => OutputPlan::InlineFallback,
        _ => if out_of_order {
            OutputPlan::FallbackThenOutOfOrder
        } else {
            OutputPlan::DeferredInOrder
        },
    }
}

} // verus!
