use vstd::prelude::*;
use crate::registry::{TaskHandle, TaskRegistry, MAX_TASKS};

verus! {

/// Runs that force the fallback on a plain boundary built from scratch: the
/// first run only discovers pending tasks, so neither it nor the next one is
/// trusted as a verdict.
pub const SUSPENSE_FORCED_RUNS: u64 = 2;

/// Runs that force the fallback on a transition-style boundary.
pub const TRANSITION_FORCED_RUNS: u64 = 1;

/// Whether run number `nth_run` shows the fallback.
pub open spec fn spec_show_fallback(ready: bool, nth_run: u64, forced_runs: u64) -> bool {
    !ready || nth_run < forced_runs
}

/// Forced-fallback runs when attaching to server output: none when the server
/// finished the boundary, one when it sent the fallback.
pub open spec fn spec_hydration_forced_runs(server_incomplete: bool) -> u64 {
    if server_incomplete {
        1
    } else {
        0
    }
}

/// The derived readiness of a boundary: `true` means content may be shown.
pub struct PendingSignal {
    starts_incomplete: bool,
    evaluated: bool,
}

impl PendingSignal {
    /// Whether the boundary was reported unfinished by resumption metadata.
    pub closed spec fn starts_incomplete(&self) -> bool {
        self.starts_incomplete
    }

    /// Whether the signal has been evaluated at least once.
    pub closed spec fn evaluated(&self) -> bool {
        self.evaluated
    }

    /// A signal that has not been evaluated yet.
    pub closed spec fn spec_fresh(starts_incomplete: bool) -> PendingSignal {
        PendingSignal { starts_incomplete, evaluated: false }
    }

    /// The signal after one more evaluation.
    pub closed spec fn spec_after_evaluation(&self) -> PendingSignal {
        PendingSignal { starts_incomplete: self.starts_incomplete, evaluated: true }
    }

    /// The value the next evaluation yields when the registry's emptiness is
    /// `registry_empty`.
    pub open spec fn spec_value(&self, registry_empty: bool) -> bool {
        if !self.evaluated() && self.starts_incomplete() {
            false
        } else {
            registry_empty
        }
    }

    /// A signal that has not been evaluated yet.
    pub fn new(starts_incomplete: bool) -> (r: Self)
        ensures
            r == PendingSignal::spec_fresh(starts_incomplete),
            r.starts_incomplete() == starts_incomplete,
            !r.evaluated(),
    {
        PendingSignal { starts_incomplete, evaluated: false }
    }

    /// Recomputes readiness from the registry.
    pub fn evaluate(&mut self, registry: &TaskRegistry) -> (ready: bool)
        ensures
            ready == old(self).spec_value(registry@ == Set::<u64>::empty()),
            *final(self) == old(self).spec_after_evaluation(),
            final(self).evaluated(),
            final(self).starts_incomplete() == old(self).starts_incomplete(),
    {
        let empty = registry.is_empty();
        let ready = if !self.evaluated && self.starts_incomplete {
            false
        } else {
            empty
        };
        self.evaluated = true;
        ready
    }
}

/// Counts the runs of a boundary's effect and applies the flicker policy.
pub struct RunCounter {
    nth_run: u64,
    forced_runs: u64,
}

impl RunCounter {
    pub closed spec fn nth_run(&self) -> u64 {
        self.nth_run
    }

    pub closed spec fn forced_runs(&self) -> u64 {
        self.forced_runs
    }

    /// A counter at run 0 that forces the fallback for `forced_runs` runs.
    pub fn new(forced_runs: u64) -> (r: Self)
        ensures
            r.nth_run() == 0,
            r.forced_runs() == forced_runs,
    {
        RunCounter { nth_run: 0, forced_runs }
    }

    /// The counter of a plain boundary built from scratch.
    pub fn plain() -> (r: Self)
        ensures
            r.nth_run() == 0,
            r.forced_runs() == SUSPENSE_FORCED_RUNS,
    {
        Self::new(SUSPENSE_FORCED_RUNS)
    }

    /// The counter of a transition-style boundary built from scratch.
    pub fn transition() -> (r: Self)
        ensures
            r.nth_run() == 0,
            r.forced_runs() == TRANSITION_FORCED_RUNS,
    {
        Self::new(TRANSITION_FORCED_RUNS)
    }

    /// The counter of a boundary attaching to server output.
    pub fn hydrating(server_incomplete: bool) -> (r: Self)
        ensures
            r.nth_run() == 0,
            r.forced_runs() == spec_hydration_forced_runs(server_incomplete),
    {
        Self::new(if server_incomplete { 1 } else { 0 })
    }

    /// Decides the visibility of one run and counts it. The count stops at
    /// `u64::MAX`, far beyond any forced run.
    pub fn next_run(&mut self, ready: bool) -> (show_fallback: bool)
        ensures
            show_fallback == spec_show_fallback(ready, old(self).nth_run(), old(self).forced_runs()),
            final(self).forced_runs() == old(self).forced_runs(),
            final(self).nth_run() == if old(self).nth_run() < u64::MAX {
                (old(self).nth_run() + 1) as u64
            } else {
                u64::MAX
            },
    {
        let show = !ready || self.nth_run < self.forced_runs;
        if self.nth_run < u64::MAX {
            self.nth_run = self.nth_run + 1;
        }
        show
    }
}

/// The side of a keep-alive switch that is attached to the output.
pub enum Shown<A, B> {
    Content(A),
    Fallback(B),
}

/// Two built render states, of which one is attached and the other is kept
/// alive, detached, until it is shown again.
pub struct KeepAlive<A, B> {
    content: A,
    fallback: B,
    show_fallback: bool,
}

impl<A, B> KeepAlive<A, B> {
    pub closed spec fn content(&self) -> A {
        self.content
    }

    pub closed spec fn fallback(&self) -> B {
        self.fallback
    }

    pub closed spec fn shows_fallback(&self) -> bool {
        self.show_fallback
    }

    /// The switch after one toggle.
    pub open spec fn spec_toggled(&self) -> (A, B, bool) {
        (self.content(), self.fallback(), !self.shows_fallback())
    }

    /// Holds both built states, showing the one `show_fallback` selects.
    pub fn new(content: A, fallback: B, show_fallback: bool) -> (r: Self)
        ensures
            r.content() == content,
            r.fallback() == fallback,
            r.shows_fallback() == show_fallback,
    {
        KeepAlive { content, fallback, show_fallback }
    }

    /// Attaches the selected side, keeping both states as they are.
    pub fn set_visible(&mut self, show_fallback: bool)
        ensures
            final(self).content() == old(self).content(),
            final(self).fallback() == old(self).fallback(),
            final(self).shows_fallback() == show_fallback,
    {
        self.show_fallback = show_fallback;
    }

    /// Swaps which side is attached.
    pub fn toggle(&mut self)
        ensures
            (final(self).content(), final(self).fallback(), final(self).shows_fallback())
                == old(self).spec_toggled(),
    {
        self.show_fallback = !self.show_fallback;
    }

    /// Whether the fallback is the attached side.
    pub fn is_showing_fallback(&self) -> (r: bool)
        ensures
            r == self.shows_fallback(),
    {
        self.show_fallback
    }

    /// The attached side.
    pub fn visible(&self) -> (r: Shown<&A, &B>)
        ensures
            self.shows_fallback() ==> r == Shown::<&A, &B>::Fallback(&self.fallback()),
            !self.shows_fallback() ==> r == Shown::<&A, &B>::Content(&self.content()),
    {
        if self.show_fallback {
            Shown::Fallback(&self.fallback)
        } else {
            Shown::Content(&self.content)
        }
    }
}

/// A change to the inputs of a boundary's readiness: a task registered or
/// unregistered under a key, or one evaluation of the signal.
pub enum TaskOp {
    Register(u64),
    Unregister(u64),
    Evaluate,
}

/// The registry contents and the signal after one operation.
pub open spec fn replay_step(st: (Set<u64>, PendingSignal), op: TaskOp) -> (Set<u64>, PendingSignal) {
    match op {
        TaskOp::Register(k) => (st.0.insert(k), st.1),
        TaskOp::Unregister(k) => (st.0.remove(k), st.1),
        TaskOp::Evaluate => (st.0, st.1.spec_after_evaluation()),
    }
}

/// The registry contents and the signal after `ops`, in order.
pub open spec fn replay(st: (Set<u64>, PendingSignal), ops: Seq<TaskOp>) -> (Set<u64>, PendingSignal)
    decreases ops.len(),
{
    if ops.len() == 0 {
        st
    } else {
        replay_step(replay(st, ops.drop_last()), ops.last())
    }
}

/// Whether `ops` holds an evaluation.
pub open spec fn has_evaluation(ops: Seq<TaskOp>) -> bool {
    exists|i: int| 0 <= i < ops.len() && ops[i] is Evaluate
}

/// After any operations, the signal keeps its start mark and has been
/// evaluated exactly when one of them was an evaluation.
proof fn lemma_replay_signal(starts_incomplete: bool, tasks: Set<u64>, ops: Seq<TaskOp>)
    ensures
        replay((tasks, PendingSignal::spec_fresh(starts_incomplete)), ops).1
            == if has_evaluation(ops) {
                PendingSignal::spec_fresh(starts_incomplete).spec_after_evaluation()
            } else {
                PendingSignal::spec_fresh(starts_incomplete)
            },
    decreases ops.len(),
{
    if ops.len() > 0 {
        let init = PendingSignal::spec_fresh(starts_incomplete);
        let front = ops.drop_last();
        lemma_replay_signal(starts_incomplete, tasks, front);
        if has_evaluation(front) {
            let i = choose|i: int| 0 <= i < front.len() && front[i] is Evaluate;
            assert(ops[i] is Evaluate);
        }
        if ops.last() is Evaluate {
            assert(ops[ops.len() - 1] is Evaluate);
        }
        if has_evaluation(ops) {
            let i = choose|i: int| 0 <= i < ops.len() && ops[i] is Evaluate;
            if i < ops.len() - 1 {
                assert(front[i] is Evaluate);
            }
            assert(init.spec_after_evaluation().spec_after_evaluation() == init.spec_after_evaluation());
        }
    }
}

/// For every sequence of registrations, unregistrations and evaluations
/// applied to a new boundary: when the boundary does not start incomplete, or
/// once it has been evaluated at least once, the signal reports ready exactly
/// when no task is registered.
pub proof fn lemma_readiness_tracks_tasks(starts_incomplete: bool, ops: Seq<TaskOp>)
    requires
        !starts_incomplete || has_evaluation(ops),
    ensures
        ({
            let st = replay((Set::<u64>::empty(), PendingSignal::spec_fresh(starts_incomplete)), ops);
            st.1.spec_value(st.0 == Set::<u64>::empty()) == (st.0 == Set::<u64>::empty())
        }),
{
    lemma_replay_signal(starts_incomplete, Set::<u64>::empty(), ops);
}

/// A suspense boundary: its chunk identifier, its task registry, the readiness
/// signal derived from it, the run counter of its effect, and the keep-alive
/// switch between content and fallback.
pub struct SuspenseBoundary<Fal, Chil> {
    id: u64,
    registry: TaskRegistry,
    signal: PendingSignal,
    counter: RunCounter,
    switch: KeepAlive<Chil, Fal>,
}

impl<Fal, Chil> SuspenseBoundary<Fal, Chil> {
    pub closed spec fn id(&self) -> u64 {
        self.id
    }

    pub closed spec fn tasks(&self) -> Set<u64> {
        self.registry@
    }

    pub closed spec fn signal(&self) -> PendingSignal {
        self.signal
    }

    pub closed spec fn counter(&self) -> RunCounter {
        self.counter
    }

    pub closed spec fn switch(&self) -> KeepAlive<Chil, Fal> {
        self.switch
    }

    pub closed spec fn wf(&self) -> bool {
        self.registry.wf()
    }

    /// A boundary with an empty registry, showing its fallback until its first
    /// run decides. `starts_incomplete` is the resumption metadata for `id`.
    pub fn new(id: u64, starts_incomplete: bool, counter: RunCounter, fallback: Fal, children: Chil) -> (r: Self)
        requires
            counter.nth_run() == 0,
        ensures
            r.wf(),
            r.id() == id,
            r.tasks() == Set::<u64>::empty(),
            r.signal() == PendingSignal::spec_fresh(starts_incomplete),
            r.signal().starts_incomplete() == starts_incomplete,
            !r.signal().evaluated(),
            r.counter() == counter,
            r.switch().content() == children,
            r.switch().fallback() == fallback,
            r.switch().shows_fallback(),
    {
        SuspenseBoundary {
            id,
            registry: TaskRegistry::new(),
            signal: PendingSignal::new(starts_incomplete),
            counter,
            switch: KeepAlive::new(children, fallback, true),
        }
    }

    /// A boundary that attaches to server output: its forced-fallback runs
    /// follow whether the server finished it.
    pub fn hydrating(id: u64, server_incomplete: bool, fallback: Fal, children: Chil) -> (r: Self)
        ensures
            r.wf(),
            r.id() == id,
            r.tasks() == Set::<u64>::empty(),
            r.signal() == PendingSignal::spec_fresh(server_incomplete),
            r.signal().starts_incomplete() == server_incomplete,
            !r.signal().evaluated(),
            r.counter().nth_run() == 0,
            r.counter().forced_runs() == spec_hydration_forced_runs(server_incomplete),
            r.switch().content() == children,
            r.switch().fallback() == fallback,
            r.switch().shows_fallback(),
    {
        Self::new(id, server_incomplete, RunCounter::hydrating(server_incomplete), fallback, children)
    }

    /// The boundary's chunk identifier.
    pub fn chunk_id(&self) -> (r: u64)
        ensures
            r == self.id(),
    {
        self.id
    }

    /// A descendant starts asynchronous work.
    pub fn register_task(&mut self) -> (h: TaskHandle)
        requires
            old(self).wf(),
            old(self).tasks().len() < MAX_TASKS,
        ensures
            final(self).wf(),
            h.wf(),
            !old(self).tasks().contains(h.spec_key()),
            final(self).tasks() == old(self).tasks().insert(h.spec_key()),
            (final(self).tasks(), final(self).signal())
                == replay_step((old(self).tasks(), old(self).signal()), TaskOp::Register(h.spec_key())),
            final(self).id() == old(self).id(),
            final(self).signal() == old(self).signal(),
            final(self).counter() == old(self).counter(),
            final(self).switch() == old(self).switch(),
    {
        self.registry.register()
    }

    /// A descendant's work finished or was cancelled; an unknown handle is
    /// ignored. Returns whether the handle was registered.
    pub fn finish_task(&mut self, h: TaskHandle) -> (removed: bool)
        requires
            old(self).wf(),
            h.wf(),
        ensures
            final(self).wf(),
            removed == old(self).tasks().contains(h.spec_key()),
            final(self).tasks() == old(self).tasks().remove(h.spec_key()),
            (final(self).tasks(), final(self).signal())
                == replay_step((old(self).tasks(), old(self).signal()), TaskOp::Unregister(h.spec_key())),
            final(self).id() == old(self).id(),
            final(self).signal() == old(self).signal(),
            final(self).counter() == old(self).counter(),
            final(self).switch() == old(self).switch(),
    {
        self.registry.unregister(h)
    }

    /// Whether no task is outstanding.
    pub fn tasks_empty(&self) -> (r: bool)
        ensures
            r == (self.tasks() == Set::<u64>::empty()),
    {
        self.registry.is_empty()
    }

    /// One run of the boundary's effect: reads the readiness signal, applies
    /// the flicker policy, and attaches the chosen side without rebuilding
    /// either. Returns whether the fallback is shown.
    pub fn run(&mut self) -> (show_fallback: bool)
        ensures
            show_fallback == spec_show_fallback(
                old(self).signal().spec_value(old(self).tasks() == Set::<u64>::empty()),
                old(self).counter().nth_run(),
                old(self).counter().forced_runs(),
            ),
            final(self).wf() == old(self).wf(),
            final(self).id() == old(self).id(),
            final(self).tasks() == old(self).tasks(),
            (final(self).tasks(), final(self).signal())
                == replay_step((old(self).tasks(), old(self).signal()), TaskOp::Evaluate),
            final(self).signal().evaluated(),
            final(self).signal().starts_incomplete() == old(self).signal().starts_incomplete(),
            final(self).counter().forced_runs() == old(self).counter().forced_runs(),
            final(self).counter().nth_run() == if old(self).counter().nth_run() < u64::MAX {
                (old(self).counter().nth_run() + 1) as u64
            } else {
                u64::MAX
            },
            final(self).switch().content() == old(self).switch().content(),
            final(self).switch().fallback() == old(self).switch().fallback(),
            final(self).switch().shows_fallback() == show_fallback,
    {
        let ready = self.signal.evaluate(&self.registry);
        let show = self.counter.next_run(ready);
        self.switch.set_visible(show);
        show
    }

    /// Whether the fallback is the attached side.
    pub fn is_showing_fallback(&self) -> (r: bool)
        ensures
            r == self.switch().shows_fallback(),
    {
        self.switch.is_showing_fallback()
    }

    /// The attached side.
    pub fn visible(&self) -> (r: Shown<&Chil, &Fal>)
        ensures
            self.switch().shows_fallback() ==> r == Shown::<&Chil, &Fal>::Fallback(&self.switch().fallback()),
            !self.switch().shows_fallback() ==> r == Shown::<&Chil, &Fal>::Content(&self.switch().content()),
    {
        self.switch.visible()
    }
}

/// Creates a plain suspense boundary. `resume` holds the chunk identifier and
/// whether resumption metadata marks that chunk unfinished; without a shared
/// streaming context it is `None`, and the boundary gets identifier 0 and
/// starts as immediately resolvable.
#[allow(non_snake_case)]
pub fn Suspense<Fal, Chil>(fallback: Fal, children: Chil, resume: Option<(u64, bool)>) -> (r: SuspenseBoundary<Fal, Chil>)
    ensures
        r.wf(),
        r.id() == (match resume { Some(m) => m.0, None => 0 }),
        r.signal() == PendingSignal::spec_fresh(match resume { Some(m) => m.1, None => false }),
        r.signal().starts_incomplete() == (match resume { Some(m) => m.1, None => false }),
        !r.signal().evaluated(),
        r.tasks() == Set::<u64>::empty(),
        r.counter().nth_run() == 0,
        r.counter().forced_runs() == SUSPENSE_FORCED_RUNS,
        r.switch().content() == children,
        r.switch().fallback() == fallback,
        r.switch().shows_fallback(),
{
    let (id, starts_incomplete) = match resume {
        Some(m) => m,
        None => (0, false),
    };
    SuspenseBoundary::new(id, starts_incomplete, RunCounter::plain(), fallback, children)
}

/// Toggling a keep-alive switch twice in a row restores both built states and
/// the attached side.
pub proof fn lemma_toggle_twice<A, B>(s: KeepAlive<A, B>, once: KeepAlive<A, B>, twice: KeepAlive<A, B>)
    requires
        (once.content(), once.fallback(), once.shows_fallback()) == s.spec_toggled(),
        (twice.content(), twice.fallback(), twice.shows_fallback()) == once.spec_toggled(),
    ensures
        twice.content() == s.content(),
        twice.fallback() == s.fallback(),
        twice.shows_fallback() == s.shows_fallback(),
{
}

/// A plain boundary shows the fallback on runs 0 and 1 whatever the
/// readiness, and from run 2 on shows it exactly when not ready.
pub proof fn lemma_flicker_bound(c: RunCounter, ready: bool)
    requires
        c.forced_runs() == SUSPENSE_FORCED_RUNS,
    ensures
        c.nth_run() < 2 ==> spec_show_fallback(ready, c.nth_run(), c.forced_runs()),
        c.nth_run() >= 2 ==> spec_show_fallback(ready, c.nth_run(), c.forced_runs()) == !ready,
{
}

/// A boundary that resumption metadata marks unfinished shows the fallback on
/// its first evaluation, even with an empty registry and whatever its policy.
pub proof fn lemma_first_run_override(s: PendingSignal, c: RunCounter, registry_empty: bool)
    requires
        s.starts_incomplete(),
        !s.evaluated(),
    ensures
        spec_show_fallback(s.spec_value(registry_empty), c.nth_run(), c.forced_runs()),
{
}

/// Once the first evaluation has happened (or when the boundary does not start
/// unfinished), the signal reports ready exactly when the registry is empty.
pub proof fn lemma_ready_iff_empty(s: PendingSignal, registry: TaskRegistry)
    requires
        s.evaluated() || !s.starts_incomplete(),
    ensures
        s.spec_value(registry@ == Set::<u64>::empty()) == (registry@ == Set::<u64>::empty()),
{
}

} // verus!
