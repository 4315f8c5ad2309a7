use std::cell::Cell;
use suspense_core::{
    complete_boundary, plan_output, write_boundary, Chunk, Notification, OutputPlan, RaceEvent, RaceState,
    StreamBuffer, Unsuspend,
};

#[test]
fn local_read_before_tasks_is_incomplete() {
    let events = vec![
        RaceEvent::LocalRead,
        RaceEvent::TasksFinished,
        RaceEvent::ContentResolved,
    ];
    assert_eq!(RaceState::AwaitingTasks.run(&events), RaceState::Incomplete);
}

#[test]
fn local_read_while_resolving_is_incomplete() {
    let events = vec![RaceEvent::TasksFinished, RaceEvent::LocalRead, RaceEvent::ContentResolved];
    assert_eq!(RaceState::AwaitingTasks.run(&events), RaceState::Incomplete);
}

#[test]
fn tasks_then_content_resolves() {
    let events = vec![RaceEvent::TasksFinished, RaceEvent::ContentResolved, RaceEvent::LocalRead];
    assert_eq!(RaceState::AwaitingTasks.run(&events), RaceState::Resolved);
    assert!(RaceState::Resolved.is_settled());
    assert!(!RaceState::ResolvingContent.is_settled());
}

#[test]
fn output_plans() {
    assert_eq!(plan_output(RaceState::Resolved, true), OutputPlan::InlineContent);
    assert_eq!(plan_output(RaceState::Incomplete, false), OutputPlan::InlineFallback);
    assert_eq!(plan_output(RaceState::AwaitingTasks, true), OutputPlan::FallbackThenOutOfOrder);
    assert_eq!(plan_output(RaceState::ResolvingContent, false), OutputPlan::DeferredInOrder);
}

#[test]
fn out_of_order_fallback_then_chunk() {
    let mut buf = StreamBuffer::new();
    buf.push(Chunk::Markup("<main>".to_string()));
    let id = buf.next_chunk_id();
    // one task registered during the dry pass, not yet finished
    let s = RaceState::AwaitingTasks.run(&vec![]);
    write_boundary(&mut buf, id, s, true, "<p>loading</p>".to_string(), None);
    buf.push(Chunk::Markup("</main>".to_string()));
    // the task finishes later and the content resolves
    let s = s.run(&vec![RaceEvent::TasksFinished, RaceEvent::ContentResolved]);
    assert!(complete_boundary(&mut buf, id, s, true, "<p>loading</p>".to_string(), "<p>data</p>".to_string()));
    let (chunks, incomplete) = buf.finish();
    assert!(incomplete.is_empty());
    assert_eq!(chunks.len(), 4);
    assert!(matches!(&chunks[1], Chunk::MarkedFallback { id: 0, markup } if markup == "<p>loading</p>"));
    assert!(matches!(&chunks[3], Chunk::OutOfOrder { id: 0, markup } if markup == "<p>data</p>"));
}

#[test]
fn no_tasks_synchronous_writes_content() {
    let mut buf = StreamBuffer::new();
    let id = buf.next_chunk_id();
    let s = RaceState::AwaitingTasks.run(&vec![RaceEvent::TasksFinished, RaceEvent::ContentResolved]);
    write_boundary(&mut buf, id, s, false, "<p>loading</p>".to_string(), Some("<p>data</p>".to_string()));
    let (chunks, incomplete) = buf.finish();
    assert!(incomplete.is_empty());
    assert_eq!(chunks.len(), 1);
    assert!(matches!(&chunks[0], Chunk::Markup(m) if m == "<p>data</p>"));
}

#[test]
fn dry_pass_local_read_writes_fallback_in_both_modes() {
    for out_of_order in [true, false] {
        let mut buf = StreamBuffer::new();
        let _ = buf.next_chunk_id();
        let id = buf.next_chunk_id();
        let s = RaceState::AwaitingTasks.run(&vec![RaceEvent::LocalRead, RaceEvent::TasksFinished]);
        write_boundary(&mut buf, id, s, out_of_order, "<p>loading</p>".to_string(), None);
        let (chunks, incomplete) = buf.finish();
        assert_eq!(incomplete, vec![1]);
        assert_eq!(chunks.len(), 1);
        assert!(matches!(&chunks[0], Chunk::Markup(m) if m == "<p>loading</p>"));
    }
}

#[test]
fn in_order_deferred_fills_in_place() {
    let mut buf = StreamBuffer::new();
    buf.push(Chunk::Markup("<a>".to_string()));
    let id = buf.next_chunk_id();
    write_boundary(&mut buf, id, RaceState::AwaitingTasks, false, "fb".to_string(), None);
    buf.push(Chunk::Markup("<b>".to_string()));
    assert!(complete_boundary(&mut buf, id, RaceState::Resolved, false, "fb".to_string(), "content".to_string()));
    assert!(!complete_boundary(&mut buf, id, RaceState::Resolved, false, "fb".to_string(), "again".to_string()));
    let (chunks, incomplete) = buf.finish();
    assert!(incomplete.is_empty());
    assert_eq!(chunks.len(), 3);
    assert!(matches!(&chunks[1], Chunk::Markup(m) if m == "content"));
    assert!(matches!(&chunks[2], Chunk::Markup(m) if m == "<b>"));
}

#[test]
fn in_order_lost_race_fills_fallback_and_records() {
    let mut buf = StreamBuffer::new();
    let id = buf.next_chunk_id();
    write_boundary(&mut buf, id, RaceState::ResolvingContent, false, "fb".to_string(), None);
    assert!(complete_boundary(&mut buf, id, RaceState::Incomplete, false, "fb".to_string(), String::new()));
    let (chunks, incomplete) = buf.finish();
    assert_eq!(incomplete, vec![0]);
    assert!(matches!(&chunks[0], Chunk::Markup(m) if m == "fb"));
}

#[test]
fn out_of_order_lost_race_keeps_fallback() {
    let mut buf = StreamBuffer::new();
    let id = buf.next_chunk_id();
    write_boundary(&mut buf, id, RaceState::AwaitingTasks, true, "fb".to_string(), None);
    assert!(!complete_boundary(&mut buf, id, RaceState::Incomplete, true, "fb".to_string(), String::new()));
    let (chunks, incomplete) = buf.finish();
    assert_eq!(incomplete, vec![0]);
    assert_eq!(chunks.len(), 1);
}

#[test]
fn unsuspend_runs_lazily() {
    let calls = Cell::new(0);
    let u = Unsuspend::new(|| {
        calls.set(calls.get() + 1);
        42
    });
    assert_eq!(calls.get(), 0);
    assert_eq!(u.run(), 42);
    assert_eq!(calls.get(), 1);
}

#[test]
fn notifications_fire_once() {
    let mut local = Notification::new();
    assert!(!local.has_fired());
    assert!(local.fire());
    assert!(!local.fire());
    assert!(local.has_fired());

    let mut tasks = Notification::new();
    assert!(!tasks.observe_tasks(false));
    assert!(tasks.observe_tasks(true));
    assert!(!tasks.observe_tasks(true));
    assert!(tasks.has_fired());
}

#[test]
fn peek_shows_next_chunk_id() {
    let mut buf = StreamBuffer::new();
    assert_eq!(buf.peek_next_id(), 0);
    assert_eq!(buf.next_chunk_id(), 0);
    assert_eq!(buf.peek_next_id(), 1);
}
