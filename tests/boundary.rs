use suspense_core::{
    KeepAlive, PendingSignal, RunCounter, Shown, Suspense, SuspenseBoundary, TaskRegistry,
};

#[test]
fn registry_register_unregister() {
    let mut reg = TaskRegistry::new();
    assert!(reg.is_empty());
    let a = reg.register();
    let b = reg.register();
    assert_ne!(a, b);
    assert_eq!(reg.len(), 2);
    assert!(reg.unregister(a));
    assert!(!reg.is_empty());
    assert!(!reg.unregister(a));
    assert_eq!(reg.len(), 1);
    assert!(reg.unregister(b));
    assert!(reg.is_empty());
    assert_eq!(reg.len(), 0);
}

#[test]
fn registry_reuses_slots_without_reviving_old_handles() {
    let mut reg = TaskRegistry::new();
    let a = reg.register();
    assert!(reg.unregister(a));
    let b = reg.register();
    assert_ne!(a, b);
    assert!(!reg.unregister(a));
    assert_eq!(reg.len(), 1);
    assert!(reg.unregister(b));
}

#[test]
fn signal_tracks_registry_emptiness() {
    let mut reg = TaskRegistry::new();
    let mut sig = PendingSignal::new(false);
    assert!(sig.evaluate(&reg));
    let h = reg.register();
    assert!(!sig.evaluate(&reg));
    reg.unregister(h);
    assert!(sig.evaluate(&reg));
}

#[test]
fn first_run_override() {
    let reg = TaskRegistry::new();
    let mut sig = PendingSignal::new(true);
    assert!(!sig.evaluate(&reg));
    assert!(sig.evaluate(&reg));

    let mut b = Suspense("loading", "content", Some((3, true)));
    assert_eq!(b.chunk_id(), 3);
    assert!(b.tasks_empty());
    assert!(b.run());
}

#[test]
fn flicker_bound_plain() {
    let mut c = RunCounter::plain();
    assert!(c.next_run(true));
    assert!(c.next_run(true));
    assert!(!c.next_run(true));
    assert!(c.next_run(false));
    assert!(!c.next_run(true));
}

#[test]
fn transition_forces_only_first_run() {
    let mut c = RunCounter::transition();
    assert!(c.next_run(true));
    assert!(!c.next_run(true));
    assert!(c.next_run(false));
}

#[test]
fn hydration_forced_runs_follow_server() {
    let mut done = RunCounter::hydrating(false);
    assert!(!done.next_run(true));
    let mut unfinished = RunCounter::hydrating(true);
    assert!(unfinished.next_run(true));
    assert!(!unfinished.next_run(true));
}

#[test]
fn boundary_runs_switch_sides() {
    let mut b: SuspenseBoundary<&str, &str> = Suspense("<p>loading</p>", "<p>data</p>", None);
    assert_eq!(b.chunk_id(), 0);
    let h = b.register_task();
    assert!(b.run());
    assert!(b.run());
    assert!(b.run());
    assert!(b.is_showing_fallback());
    assert!(b.finish_task(h));
    assert!(!b.run());
    assert!(matches!(b.visible(), Shown::Content(c) if *c == "<p>data</p>"));
    let h2 = b.register_task();
    assert!(b.run());
    assert!(matches!(b.visible(), Shown::Fallback(f) if *f == "<p>loading</p>"));
    assert!(b.finish_task(h2));
    assert!(!b.finish_task(h2));
}

#[test]
fn hydrating_boundary_trusts_finished_server() {
    let mut b = SuspenseBoundary::hydrating(7, false, "fb", "content");
    assert!(!b.run());
    let mut b2 = SuspenseBoundary::hydrating(8, true, "fb", "content");
    assert!(b2.run());
    assert!(!b2.run());
}

#[test]
fn keep_alive_toggle_twice_restores() {
    let mut k = KeepAlive::new(String::from("<div>content</div>"), String::from("<p>fb</p>"), false);
    let before = match k.visible() {
        Shown::Content(c) => c.clone(),
        Shown::Fallback(f) => f.clone(),
    };
    k.toggle();
    assert!(k.is_showing_fallback());
    assert!(matches!(k.visible(), Shown::Fallback(f) if f == "<p>fb</p>"));
    k.toggle();
    let after = match k.visible() {
        Shown::Content(c) => c.clone(),
        Shown::Fallback(f) => f.clone(),
    };
    assert_eq!(before, after);
    assert!(!k.is_showing_fallback());
}
