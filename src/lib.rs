//! Suspense-boundary coordination: task registry, readiness signal,
//! fallback/content switching and server-side resolution, plus matchers for
//! the segments of a route path.

mod boundary;
mod registry;
mod resolution;
mod route;
mod stream;
mod view;

pub use boundary::{
    has_evaluation, replay, replay_step, spec_hydration_forced_runs, spec_show_fallback,
    TaskOp, KeepAlive, PendingSignal, RunCounter, Shown,
    Suspense, SuspenseBoundary, SUSPENSE_FORCED_RUNS, TRANSITION_FORCED_RUNS,
};
pub use registry::{slot_keys, TaskHandle, TaskRegistry, MAX_TASKS};
pub use resolution::{
    plan_output, race_run, race_step, spec_plan, Notification, OutputPlan, RaceEvent, RaceState,
};
pub use route::{
    lead_len, params_view, segment_end, ParamSegment, PartialPathMatch, PathSegment,
    PossibleRouteMatch, StaticSegment, WildcardSegment,
};
pub use stream::{complete_boundary, is_slot, spec_written, write_boundary, Chunk, StreamBuffer};
pub use view::{CollectView, IntoView, Unsuspend, View};
