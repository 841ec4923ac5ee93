use grass::error::GrassError;
use grass::executor::GrassTaskExecutor;
use grass::ids::{new_v4_id, uuid_string};
use grass::scheduler::{priority_rank, GrassPriority, GrassScheduledTask, GrassTaskScheduler};
use grass::text_map::GrassStringMap;
use grass::timer::GrassTimer;
use grass::types::GrassTaskPayload;

fn make_task_payload() -> GrassTaskPayload {
    GrassTaskPayload {
        task_id: new_v4_id(),
        agent_id: new_v4_id(),
        action: "test".into(),
        input: "{}".into(),
        metadata: GrassStringMap::new(),
    }
}

#[test]
fn test_scheduler_enqueue_dequeue_priority() {
    let mut sched = GrassTaskScheduler::new(2);
    let t1 = GrassScheduledTask::new(make_task_payload(), GrassPriority::Low);
    let t2 = GrassScheduledTask::new(make_task_payload(), GrassPriority::Critical);

    sched.enqueue(t1).unwrap();
    sched.enqueue(t2).unwrap();

    let first = sched.dequeue().unwrap();
    assert_eq!(first.priority, GrassPriority::Critical);
}

#[test]
fn test_scheduler_fifo_within_same_priority() {
    let mut sched = GrassTaskScheduler::new(2);
    let a = GrassScheduledTask::new(make_task_payload(), GrassPriority::Normal);
    let b = GrassScheduledTask::new(make_task_payload(), GrassPriority::Normal);
    let a_id = a.task.task_id;

    sched.enqueue(a).unwrap();
    sched.enqueue(b).unwrap();

    let first = sched.dequeue().unwrap();
    assert_eq!(
        first.task.task_id, a_id,
        "same-priority tasks must stay FIFO"
    );
}

#[test]
fn test_scheduler_dequeue_empty_queue_returns_none() {
    let mut sched = GrassTaskScheduler::new(1);
    assert!(sched.dequeue().is_none());
    assert_eq!(sched.queue_len(), 0);
}

#[test]
fn test_scheduler_respects_max_concurrent() {
    let mut sched = GrassTaskScheduler::new(1);
    sched.enqueue(GrassScheduledTask::new(make_task_payload(), GrassPriority::High)).unwrap();
    sched.enqueue(GrassScheduledTask::new(make_task_payload(), GrassPriority::Normal)).unwrap();
    sched.enqueue(GrassScheduledTask::new(make_task_payload(), GrassPriority::Low)).unwrap();

    let t1 = sched.dequeue().unwrap();
    assert_eq!(t1.priority, GrassPriority::High);
    assert_eq!(sched.active_count(), 1);
    assert_eq!(sched.queue_len(), 2);

    assert!(
        sched.dequeue().is_none(),
        "concurrency limit must block further dispatch"
    );
    assert_eq!(sched.active_count(), 1);

    sched.complete_task();
    assert_eq!(sched.active_count(), 0);

    let t2 = sched.dequeue().unwrap();
    assert_eq!(t2.priority, GrassPriority::Normal);
    sched.complete_task();
}

#[test]
fn test_scheduler_ordering_across_many_priorities() {
    let mut sched = GrassTaskScheduler::new(8);
    let mut order = vec![
        GrassPriority::Low,
        GrassPriority::Critical,
        GrassPriority::Normal,
        GrassPriority::High,
        GrassPriority::Critical,
    ];
    for p in order.clone() {
        sched.enqueue(GrassScheduledTask::new(make_task_payload(), p)).unwrap();
    }
    order.sort();
    order.reverse();
    for expected in order {
        let t = sched.dequeue().expect("scheduled task");
        assert_eq!(t.priority, expected);
        sched.complete_task();
    }
}

#[test]
fn scheduler_keeps_arrival_order_within_each_priority() {
    let mut sched = GrassTaskScheduler::new(10);
    let mut ids = Vec::new();
    for p in [
        GrassPriority::Normal,
        GrassPriority::High,
        GrassPriority::Normal,
        GrassPriority::High,
    ] {
        let t = GrassScheduledTask::new(make_task_payload(), p);
        ids.push(t.task.task_id);
        sched.enqueue(t).unwrap();
    }
    let got: Vec<u128> = (0..4).map(|_| sched.dequeue().unwrap().task.task_id).collect();
    assert_eq!(got, vec![ids[1], ids[3], ids[0], ids[2]]);
    assert_eq!(priority_rank(GrassPriority::Critical), 3);
    assert_eq!(priority_rank(GrassPriority::Low), 0);
}

#[test]
fn scheduler_with_zero_limit_never_dispatches() {
    let mut sched = GrassTaskScheduler::new(0);
    sched.enqueue(GrassScheduledTask::new(make_task_payload(), GrassPriority::High)).unwrap();
    assert!(sched.dequeue().is_none());
    assert_eq!(sched.queue_len(), 1);
    sched.complete_task();
    assert_eq!(sched.active_count(), 0);
}

#[test]
fn test_executor_submit_and_count() {
    let mut exec: GrassTaskExecutor<()> = GrassTaskExecutor::new(4);
    let payload = make_task_payload();
    exec.submit(&payload, ());
    assert_eq!(exec.running_count(), 1);
    exec.finish(payload.task_id);
    assert_eq!(exec.running_count(), 0);
}

#[test]
fn executor_cancel_hands_back_the_handle_once() {
    let mut exec: GrassTaskExecutor<u32> = GrassTaskExecutor::new(2);
    let payload = make_task_payload();
    exec.submit(&payload, 7);
    assert_eq!(exec.cancel(payload.task_id), Ok(7));
    let err = exec.cancel(payload.task_id).unwrap_err();
    assert_eq!(
        err,
        GrassError::NotFound(format!("task {} not running", uuid_string(payload.task_id)))
    );
    assert_eq!(exec.workers(), 2);
}

#[test]
fn timer_keeps_its_interval() {
    let t = GrassTimer::new(std::time::Duration::from_millis(250));
    assert_eq!(t.interval(), std::time::Duration::from_millis(250));
}
