use creator_studio::jobs::{job_files, JobManager, JobState};
use creator_studio::json::Json;
use creator_studio::worker::{JobWorker, WorkerAction, WorkerEvent, POLL_INTERVAL_MS};

fn started(table: &mut JobManager) -> (JobWorker, WorkerAction) {
    table.enqueue("j1");
    let files = job_files("out", "j1");
    JobWorker::start(table, files, "py".to_string(), "bridge.py".to_string(), "root".to_string(), "ltx".to_string())
}

fn to_polling(table: &mut JobManager) -> JobWorker {
    let (mut w, _) = started(table);
    w.step(table, WorkerEvent::LogCreated);
    w.step(table, WorkerEvent::LogCreated);
    assert_eq!(w.step(table, WorkerEvent::Spawned), WorkerAction::Poll { after_ms: 0 });
    w
}

fn exited(success: bool, code: Option<i32>, stdout: &str, stderr: &str) -> WorkerEvent {
    WorkerEvent::Exited { success, code, stdout: stdout.to_string(), stderr: stderr.to_string() }
}

#[test]
fn worker_runs_a_job_to_completion() {
    let mut table = JobManager::new();
    let (mut w, a) = started(&mut table);
    assert_eq!(a, WorkerAction::CreateLog { path: "out/j1.stdout.log".to_string() });
    assert_eq!(table.get("j1").unwrap().state, JobState::Running);
    assert_eq!(table.get("j1").unwrap().message, "Running LTX…");
    assert_eq!(w.step(&mut table, WorkerEvent::LogCreated), WorkerAction::CreateLog { path: "out/j1.stderr.log".to_string() });
    match w.step(&mut table, WorkerEvent::LogCreated) {
        WorkerAction::Spawn { invocation } => {
            assert_eq!(invocation.program, "py");
            assert_eq!(
                invocation.args,
                vec!["bridge.py", "--root", "root", "generate", "--model", "ltx", "--settings", "out/j1.json"]
            );
            assert_eq!(invocation.cwd, "root");
            assert_eq!(invocation.envs.len(), 4);
        }
        other => panic!("unexpected action {:?}", other),
    }
    assert_eq!(w.step(&mut table, WorkerEvent::Spawned), WorkerAction::Poll { after_ms: 0 });
    assert_eq!(w.step(&mut table, WorkerEvent::Running), WorkerAction::Poll { after_ms: 250 });
    assert_eq!(w.step(&mut table, WorkerEvent::Gone), WorkerAction::Poll { after_ms: 250 });
    assert_eq!(
        w.step(&mut table, exited(true, Some(0), "{\"ok\":true}", "")),
        WorkerAction::WriteDebugLog {
            path: "out/j1.log".to_string(),
            text: "=== LTX job j1 ===\nexit_code: Some(0)\nsuccess: true\n\n=== STDOUT ===\n{\"ok\":true}\n\n=== STDERR ===\n\n".to_string(),
        }
    );
    assert_eq!(table.get("j1").unwrap().state, JobState::Running);
    assert_eq!(w.step(&mut table, WorkerEvent::LogWritten), WorkerAction::Stop { cleanup: true });
    let s = table.get("j1").unwrap();
    assert_eq!(s.state, JobState::Completed);
    assert_eq!(s.message, "Generation completed");
    assert_eq!(s.result, Some(Json::Object(vec![("ok".to_string(), Json::Bool(true))])));
}

#[test]
fn stopped_worker_asks_nothing_more() {
    let mut table = JobManager::new();
    let mut w = to_polling(&mut table);
    w.step(&mut table, exited(false, Some(1), "", "  boom \n"));
    assert_eq!(w.step(&mut table, WorkerEvent::LogWritten), WorkerAction::Stop { cleanup: true });
    let done = table.get("j1").unwrap();
    assert_eq!(done.state, JobState::Failed);
    assert_eq!(done.message, "boom");
    for e in [WorkerEvent::Running, WorkerEvent::LogWritten, exited(true, Some(0), "{}", ""), WorkerEvent::PollFailed { error: "x".to_string() }] {
        assert_eq!(w.step(&mut table, e), WorkerAction::Stop { cleanup: true });
        assert_eq!(table.get("j1").unwrap(), done);
    }
    assert_eq!(table.cancel("j1").unwrap(), done);
}

#[test]
fn failed_poll_is_recorded_and_polling_goes_on() {
    let mut table = JobManager::new();
    let mut w = to_polling(&mut table);
    assert_eq!(w.step(&mut table, WorkerEvent::PollFailed { error: "io".to_string() }), WorkerAction::Poll { after_ms: POLL_INTERVAL_MS });
    let s = table.get("j1").unwrap();
    assert_eq!(s.state, JobState::Failed);
    assert_eq!(s.message, "Failed while polling LTX process: io");
    w.step(&mut table, exited(true, Some(0), "[1]", ""));
    w.step(&mut table, WorkerEvent::LogWritten);
    let s = table.get("j1").unwrap();
    assert_eq!(s.state, JobState::Completed);
    assert_eq!(s.result, Some(Json::Array(vec![Json::Number("1".to_string())])));
}

#[test]
fn log_failures_stop_without_cleanup() {
    let mut table = JobManager::new();
    let (mut w, _) = started(&mut table);
    assert_eq!(w.step(&mut table, WorkerEvent::LogFailed { error: "denied".to_string() }), WorkerAction::Stop { cleanup: false });
    assert_eq!(table.get("j1").unwrap().message, "Failed to create stdout log: denied");

    let mut table = JobManager::new();
    let (mut w, _) = started(&mut table);
    w.step(&mut table, WorkerEvent::LogCreated);
    assert_eq!(w.step(&mut table, WorkerEvent::LogFailed { error: "full".to_string() }), WorkerAction::Stop { cleanup: false });
    let s = table.get("j1").unwrap();
    assert_eq!(s.state, JobState::Failed);
    assert_eq!(s.message, "Failed to create stderr log: full");
}

#[test]
fn launch_failure_stops_with_cleanup() {
    let mut table = JobManager::new();
    let (mut w, _) = started(&mut table);
    w.step(&mut table, WorkerEvent::LogCreated);
    w.step(&mut table, WorkerEvent::LogCreated);
    assert_eq!(w.step(&mut table, WorkerEvent::SpawnFailed { error: "not found".to_string() }), WorkerAction::Stop { cleanup: true });
    let s = table.get("j1").unwrap();
    assert_eq!(s.state, JobState::Failed);
    assert_eq!(s.message, "Failed to launch LTX adapter with py: not found");
}

#[test]
fn unexpected_event_repeats_the_request() {
    let mut table = JobManager::new();
    let (mut w, first) = started(&mut table);
    assert_eq!(w.step(&mut table, WorkerEvent::Running), first);
    assert_eq!(table.get("j1").unwrap().state, JobState::Running);
    let mut w = to_polling(&mut JobManager::new());
    let mut t = JobManager::new();
    assert_eq!(w.step(&mut t, WorkerEvent::LogWritten), WorkerAction::Poll { after_ms: 250 });
}

#[test]
fn invalid_adapter_answer_names_the_debug_log() {
    let mut table = JobManager::new();
    let mut w = to_polling(&mut table);
    w.step(&mut table, exited(true, Some(0), "not json", ""));
    w.step(&mut table, WorkerEvent::LogWritten);
    let s = table.get("j1").unwrap();
    assert_eq!(s.state, JobState::Failed);
    assert_eq!(
        s.message,
        "Invalid adapter response: Adapter stdout is not valid JSON. First output: not json. Raw output saved to out/j1.log"
    );
}
