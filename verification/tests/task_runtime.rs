use otterlang::{SchedulerConfig, TaskChannel, TaskScheduler, WorkerAction};

#[test]
fn task_spawn_and_join() {
    let mut scheduler = TaskScheduler::new(SchedulerConfig::with_workers(2));
    let handle = scheduler.spawn_fn(Some("test".into()));
    let action = scheduler.worker_poll(0);
    match action {
        WorkerAction::RunInjected(id) => {
            assert_eq!(id, handle.raw());
            scheduler.run_task(id);
        }
        other => panic!("expected the injected task, got {:?}", other),
    }
    assert!(scheduler.join_ready(handle));
}

#[test]
fn task_channel_send_recv() {
    let mut channel: TaskChannel<i64> = TaskChannel::new();
    channel.send(42);
    assert_eq!(channel.recv(), Some(42));
}

#[test]
fn channel_orders_first_in_first_out() {
    let mut channel: TaskChannel<i64> = TaskChannel::new();
    channel.send(1);
    channel.send(2);
    channel.send(3);
    assert_eq!(channel.recv(), Some(1));
    assert_eq!(channel.recv(), Some(2));
    assert_eq!(channel.try_recv(), Some(3));
    assert_eq!(channel.try_recv(), None);
}

#[test]
fn task_writes_into_channel_and_joins() {
    let mut scheduler = TaskScheduler::new(SchedulerConfig::with_workers(1));
    let mut channel: TaskChannel<i64> = TaskChannel::new();
    let handle = scheduler.spawn_fn(Some("writer".into()));

    // One worker step: take the task and run its callable, which writes 42.
    match scheduler.worker_poll(0) {
        WorkerAction::RunInjected(id) => {
            channel.send(42);
            scheduler.run_task(id);
        }
        other => panic!("expected the injected task, got {:?}", other),
    }

    assert_eq!(channel.recv(), Some(42));
    assert!(scheduler.join_ready(handle));
    let metrics = scheduler.metrics();
    assert_eq!(metrics.tasks_spawned, 1);
    assert_eq!(metrics.tasks_completed, 1);
    assert_eq!(metrics.tasks_waiting, 0);
}

#[test]
fn worker_prefers_its_own_deque_then_injector() {
    let mut scheduler = TaskScheduler::new(SchedulerConfig::with_workers(2));
    let first = scheduler.spawn_fn(None);
    let second = scheduler.spawn_fn(None);
    match scheduler.worker_poll(1) {
        WorkerAction::RunInjected(id) => assert_eq!(id, first.raw()),
        other => panic!("expected the first injected task, got {:?}", other),
    }
    match scheduler.worker_poll(0) {
        WorkerAction::RunInjected(id) => assert_eq!(id, second.raw()),
        other => panic!("expected the second injected task, got {:?}", other),
    }
    assert!(matches!(scheduler.worker_poll(0), WorkerAction::Backoff));
}

#[test]
fn shutdown_wakes_every_worker() {
    let mut scheduler = TaskScheduler::new(SchedulerConfig::with_workers(3));
    scheduler.shutdown();
    assert!(matches!(scheduler.worker_poll(0), WorkerAction::Exit));
    assert!(matches!(scheduler.worker_poll(2), WorkerAction::Exit));
}

#[test]
fn task_ids_are_monotonic() {
    let mut scheduler = TaskScheduler::new(SchedulerConfig::default());
    let a = scheduler.spawn_fn(None);
    let b = scheduler.spawn_fn(None);
    let c = scheduler.spawn_fn(None);
    assert!(a.raw() < b.raw());
    assert!(b.raw() < c.raw());
}
