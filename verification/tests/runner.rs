use rust_flows::Flow;
use rust_flows::RunPhase;
use rust_flows::Runner;
use rust_flows::Stamp;
use rust_flows::Status;
use rust_flows::Task;

fn stamp(secs: i64) -> Stamp {
    Stamp::from_secs(secs).unwrap()
}

fn three_task_runner() -> Runner {
    let flow = Flow::new("flow_1", "Sample", "Sample data flow");
    let tasks = vec![
        Task::new("task1", "Data Extraction", "Extract data from source"),
        Task::new("task2", "Data Transformation", "Transform extracted data"),
        Task::new("task3", "Data Loading", "Load transformed data to destination"),
    ];
    Runner::new(flow, tasks)
}

#[test]
fn run_with_all_tasks_succeeding_completes_the_flow() {
    let mut r = three_task_runner();
    r.start_run(stamp(100));
    let mut clock = 101;
    while r.has_next() {
        r.start_task(stamp(clock));
        let failed = r.finish_task(Ok(()), stamp(clock + 1));
        assert!(!failed);
        clock += 2;
    }
    r.finalize(stamp(clock));
    assert_eq!(r.phase, RunPhase::Done);
    assert_eq!(r.flow.status, Status::COMPLETED);
    assert_eq!(r.flow.tasks.len(), 3);
    for t in &r.flow.tasks {
        assert_eq!(t.status, Status::COMPLETED);
        assert!(t.error_message.is_none());
        assert!(t.started_at.is_some());
        assert!(t.completed_at.is_some());
    }
    assert_eq!(r.flow.tasks[0].id, "task1");
    assert_eq!(r.flow.tasks[1].id, "task2");
    assert_eq!(r.flow.tasks[2].id, "task3");
}

#[test]
fn second_task_failure_stops_the_run() {
    let mut r = three_task_runner();
    r.start_run(stamp(100));

    r.start_task(stamp(101));
    assert!(!r.finish_task(Ok(()), stamp(102)));

    r.start_task(stamp(103));
    let failed = r.finish_task(Err("disk full".to_string()), stamp(104));
    assert!(failed);

    // fail-fast: the run is over, the third task is never attempted
    assert!(!r.has_next());
    assert_eq!(r.phase, RunPhase::Done);
    assert_eq!(r.flow.status, Status::FAILED);
    assert_eq!(r.flow.tasks.len(), 2);
    assert_eq!(r.queue.len(), 1);
    assert_eq!(r.queue[0].id, "task3");
    assert_eq!(r.queue[0].status, Status::PENDING);

    assert_eq!(r.flow.tasks[0].status, Status::COMPLETED);
    let failed_task = &r.flow.tasks[1];
    assert_eq!(failed_task.id, "task2");
    assert_eq!(failed_task.status, Status::FAILED);
    assert_eq!(failed_task.error_message.as_deref(), Some("disk full"));
    assert_eq!(failed_task.completed_at.as_ref().unwrap().secs, 104);
    assert_eq!(r.flow.completed_at.as_ref().unwrap().secs, 104);
}

#[test]
fn first_task_failure_leaves_rest_of_queue_pending() {
    let mut r = three_task_runner();
    r.start_run(stamp(10));
    r.start_task(stamp(11));
    assert!(r.finish_task(Err("no source".to_string()), stamp(12)));
    assert_eq!(r.flow.status, Status::FAILED);
    assert_eq!(r.flow.tasks.len(), 1);
    assert_eq!(r.queue.len(), 2);
    assert!(!r.has_next());
}

#[test]
fn run_with_no_tasks_completes_at_once() {
    // A deliberate consequence of the protocol: an empty queue leaves
    // nothing to fail, so the flow completes.
    let flow = Flow::new("flow_0", "Empty", "No tasks");
    let mut r = Runner::new(flow, Vec::new());
    r.start_run(stamp(1));
    assert!(!r.has_next());
    r.finalize(stamp(2));
    assert_eq!(r.flow.status, Status::COMPLETED);
    assert!(r.flow.tasks.is_empty());
}
