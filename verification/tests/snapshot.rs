use rust_flows::command_outcome;
use rust_flows::flow_to_json;
use rust_flows::Flow;
use rust_flows::RunPhase;
use rust_flows::Runner;
use rust_flows::Stamp;
use rust_flows::Status;
use rust_flows::Task;

fn stamp(secs: i64) -> Stamp {
    Stamp::from_secs(secs).unwrap()
}

#[test]
fn stamp_renders_the_epoch() {
    let s = Stamp::from_secs(0).unwrap();
    assert_eq!(s.secs, 0);
    assert_eq!(s.iso, "1970-01-01T00:00:00+00:00");
    let later = Stamp::from_secs(86_400).unwrap();
    assert_eq!(later.iso, "1970-01-02T00:00:00+00:00");
}

#[test]
fn clock_gives_a_usable_stamp() {
    let s = Stamp::now().unwrap();
    assert!(s.iso.contains('T'));
    assert_eq!(s.iso, Stamp::from_secs(s.secs).unwrap().iso);
}

#[test]
fn stamp_out_of_range_is_none() {
    assert!(Stamp::from_secs(i64::MAX).is_none());
}

#[test]
fn snapshot_of_fresh_flow_omits_absent_fields() {
    let f = Flow::new("flow_1", "Sample", "Sample data flow");
    let json = flow_to_json(&f);
    let v: serde_json::Value = serde_json::from_str(&json).unwrap();
    assert_eq!(v["id"].as_str(), Some("flow_1"));
    assert_eq!(v["name"].as_str(), Some("Sample"));
    assert_eq!(v["description"].as_str(), Some("Sample data flow"));
    assert_eq!(v["status"].as_str(), Some("PENDING"));
    assert!(v.get("started_at").is_none());
    assert!(v.get("completed_at").is_none());
    assert_eq!(v["tasks"].as_array().unwrap().len(), 0);
}

#[test]
fn snapshot_of_completed_run_lists_every_task() {
    let flow = Flow::new("flow_1", "Sample", "Sample data flow");
    let tasks = vec![
        Task::new("task1", "Data Extraction", "Extract data from source"),
        Task::new("task2", "Data Transformation", "Transform extracted data"),
        Task::new("task3", "Data Loading", "Load transformed data to destination"),
    ];
    let mut r = Runner::new(flow, tasks);
    r.start_run(stamp(100));
    let mut clock = 101;
    while r.has_next() {
        r.start_task(stamp(clock));
        r.finish_task(Ok(()), stamp(clock + 1));
        clock += 2;
    }
    r.finalize(stamp(clock));

    let json = flow_to_json(&r.flow);
    let v: serde_json::Value = serde_json::from_str(&json).unwrap();
    assert_eq!(v["status"].as_str(), Some("COMPLETED"));
    assert_eq!(v["started_at"].as_str(), Some("1970-01-01T00:01:40+00:00"));
    let tasks = v["tasks"].as_array().unwrap();
    assert_eq!(tasks.len(), 3);
    for t in tasks {
        assert_eq!(t["status"].as_str(), Some("COMPLETED"));
        assert!(t.get("error_message").is_none());
        assert!(t.get("started_at").is_some());
        assert!(t.get("completed_at").is_some());
    }
}

#[test]
fn snapshot_of_failed_run_carries_the_error() {
    let flow = Flow::new("flow_1", "Sample", "Sample data flow");
    let tasks = vec![
        Task::new("task1", "Data Extraction", "Extract data from source"),
        Task::new("task2", "Data Transformation", "Transform extracted data"),
        Task::new("task3", "Data Loading", "Load transformed data to destination"),
    ];
    let mut r = Runner::new(flow, tasks);
    r.start_run(stamp(100));
    r.start_task(stamp(101));
    r.finish_task(Ok(()), stamp(102));
    r.start_task(stamp(103));
    r.finish_task(Err("disk full".to_string()), stamp(104));
    assert_eq!(r.phase, RunPhase::Done);

    let json = flow_to_json(&r.flow);
    let v: serde_json::Value = serde_json::from_str(&json).unwrap();
    assert_eq!(v["status"].as_str(), Some("FAILED"));
    let tasks = v["tasks"].as_array().unwrap();
    assert_eq!(tasks.len(), 2);
    assert_eq!(tasks[0]["status"].as_str(), Some("COMPLETED"));
    assert_eq!(tasks[1]["id"].as_str(), Some("task2"));
    assert_eq!(tasks[1]["status"].as_str(), Some("FAILED"));
    assert_eq!(tasks[1]["error_message"].as_str(), Some("disk full"));
}

#[test]
fn snapshot_escaping_round_trips_through_a_parser() {
    let mut f = Flow::new(
        "id \"quoted\"",
        "name with \\ backslash",
        "line one\nline two\ttabbed\rdone \u{1}low \u{7}bell \u{1b}escape \u{1f}high",
    );
    f.add_task(Task::new("t \"1\"", "n\\n", "d\nd"));
    let json = flow_to_json(&f);
    assert!(json.contains("\\u0001"));
    assert!(json.contains("\\u0007"));
    assert!(json.contains("\\u001b"));
    assert!(json.contains("\\u001f"));
    let v: serde_json::Value = serde_json::from_str(&json).unwrap();
    assert_eq!(v["id"].as_str(), Some("id \"quoted\""));
    assert_eq!(v["name"].as_str(), Some("name with \\ backslash"));
    assert_eq!(
        v["description"].as_str(),
        Some("line one\nline two\ttabbed\rdone \u{1}low \u{7}bell \u{1b}escape \u{1f}high")
    );
    assert_eq!(v["tasks"][0]["id"].as_str(), Some("t \"1\""));
    assert_eq!(v["tasks"][0]["name"].as_str(), Some("n\\n"));
    assert_eq!(v["tasks"][0]["description"].as_str(), Some("d\nd"));
}

#[test]
fn identical_flows_give_identical_snapshots() {
    // Whatever destination a snapshot goes to, it is this one text.
    let mut f = Flow::new("flow_1", "Sample", "Sample data flow");
    f.add_task(Task::new("task1", "Data Extraction", "Extract data from source"));
    let a = flow_to_json(&f);
    let b = flow_to_json(&f);
    assert_eq!(a, b);
}

#[test]
fn status_names_appear_verbatim() {
    let mut f = Flow::new("f", "f", "f");
    let mut t = Task::new("t", "t", "t");
    t.status = Status::RUNNING;
    f.add_task(t);
    f.status = Status::RUNNING;
    let json = flow_to_json(&f);
    let v: serde_json::Value = serde_json::from_str(&json).unwrap();
    assert_eq!(v["status"].as_str(), Some("RUNNING"));
    assert_eq!(v["tasks"][0]["status"].as_str(), Some("RUNNING"));
}

#[test]
fn command_outcome_success_returns_stdout() {
    let r = command_outcome(true, "exit status: 0", "hello\n".to_string(), "");
    assert_eq!(r.unwrap(), "hello\n");
}

#[test]
fn command_outcome_failure_builds_the_error_text() {
    let r = command_outcome(false, "exit status: 1", String::new(), "oops");
    assert_eq!(
        r.unwrap_err(),
        "Command failed with exit code exit status: 1: oops"
    );
}
