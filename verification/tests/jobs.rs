use creator_studio::jobs::{
    debug_log, job_files, new_job, parse_adapter_json, JobEvent, JobManager, JobState,
};
use creator_studio::json::Json;

fn exited(success: bool, stdout: &str, stderr: &str) -> JobEvent {
    JobEvent::Exited {
        success,
        stdout: stdout.to_string(),
        stderr: stderr.to_string(),
        debug_path: "out/j.log".to_string(),
    }
}

#[test]
fn submitted_job_is_queued() {
    let mut m = JobManager::new();
    m.enqueue("j1");
    let s = m.get("j1").unwrap();
    assert_eq!(s.id, "j1");
    assert_eq!(s.state, JobState::Queued);
    assert_eq!(s.message, "Queued…");
    assert_eq!(s.result, None);
}

#[test]
fn unknown_job_is_not_found() {
    let mut m = JobManager::new();
    assert_eq!(m.get("nope").unwrap_err(), "Job not found");
    assert_eq!(m.cancel("nope").unwrap_err(), "Job not found");
    assert!(!m.contains("nope"));
}

#[test]
fn cancel_is_idempotent_and_spares_finished_jobs() {
    let mut m = JobManager::new();
    m.enqueue("a");
    m.enqueue("b");
    m.record("a", JobEvent::Started);
    let c = m.cancel("a").unwrap();
    assert_eq!(c.state, JobState::Cancelled);
    assert_eq!(c.message, "Generation cancelled");
    let again = m.cancel("a").unwrap();
    assert_eq!(again, c);
    assert_eq!(m.get("b").unwrap().state, JobState::Queued);
    m.record("b", exited(true, "{\"ok\": true}", ""));
    let done = m.cancel("b").unwrap();
    assert_eq!(done.state, JobState::Completed);
    assert_eq!(done.message, "Generation completed");
}

#[test]
fn events_set_state_and_message() {
    let mut m = JobManager::new();
    m.enqueue("a");
    m.record("a", JobEvent::Started);
    assert_eq!(m.get("a").unwrap().message, "Running LTX…");
    m.record("a", JobEvent::StdoutLogFailed { error: "denied".to_string() });
    assert_eq!(m.get("a").unwrap().message, "Failed to create stdout log: denied");
    m.record("a", JobEvent::StderrLogFailed { error: "denied".to_string() });
    assert_eq!(m.get("a").unwrap().message, "Failed to create stderr log: denied");
    m.record(
        "a",
        JobEvent::LaunchFailed { python: "py.exe".to_string(), error: "missing".to_string() },
    );
    assert_eq!(m.get("a").unwrap().message, "Failed to launch LTX adapter with py.exe: missing");
    m.record("a", JobEvent::PollFailed { error: "gone".to_string() });
    let s = m.get("a").unwrap();
    assert_eq!(s.state, JobState::Failed);
    assert_eq!(s.message, "Failed while polling LTX process: gone");
    m.record("zz", JobEvent::Started);
    assert!(!m.contains("zz"));
}

#[test]
fn exit_outcomes() {
    let mut m = JobManager::new();
    m.enqueue("a");
    m.record("a", exited(true, "log line\n{\"files\": [1]}\n", ""));
    let s = m.get("a").unwrap();
    assert_eq!(s.state, JobState::Completed);
    assert!(matches!(s.result, Some(Json::Object(_))));

    m.enqueue("b");
    m.record("b", exited(true, "not json", ""));
    let s = m.get("b").unwrap();
    assert_eq!(s.state, JobState::Failed);
    assert_eq!(
        s.message,
        "Invalid adapter response: Adapter stdout is not valid JSON. First output: not json. Raw output saved to out/j.log"
    );

    m.enqueue("c");
    m.record("c", exited(false, " out ", "  err \n"));
    assert_eq!(m.get("c").unwrap().message, "err");
    m.enqueue("d");
    m.record("d", exited(false, " out ", "  "));
    assert_eq!(m.get("d").unwrap().message, "out");
    m.enqueue("e");
    m.record("e", exited(false, "", ""));
    assert_eq!(m.get("e").unwrap().message, "LTX generation failed");
}

#[test]
fn adapter_json_reading() {
    assert_eq!(parse_adapter_json("  \n").unwrap_err(), "Adapter returned empty stdout");
    assert_eq!(parse_adapter_json(" [1] ").unwrap(), Json::Array(vec![Json::Number("1".to_string())]));
    assert_eq!(parse_adapter_json("{\"a\":1}\nnoise\n[true]\nmore noise").unwrap(), Json::Array(vec![Json::Bool(true)]));
    assert_eq!(
        parse_adapter_json("\nfirst\nsecond").unwrap_err(),
        "Adapter stdout is not valid JSON. First output: "
    );
}

#[test]
fn job_files_are_named_by_id() {
    let f = job_files("gen", "abc");
    assert_eq!(f.id, "abc");
    assert_eq!(f.settings, std::path::Path::new("gen").join("abc.json").to_string_lossy());
    assert_eq!(f.stdout, std::path::Path::new("gen").join("abc.stdout.log").to_string_lossy());
    assert_eq!(f.stderr, std::path::Path::new("gen").join("abc.stderr.log").to_string_lossy());
    assert_eq!(f.debug, std::path::Path::new("gen").join("abc.log").to_string_lossy());
}

#[test]
fn new_jobs_get_uuid_ids() {
    let a = new_job("gen");
    let b = new_job("gen");
    assert_eq!(a.id.len(), 36);
    assert_eq!(a.id.chars().nth(8), Some('-'));
    assert_ne!(a.id, b.id);
    assert!(a.settings.ends_with(&format!("{}.json", a.id)));
}

#[test]
fn debug_log_layout() {
    assert_eq!(
        debug_log("j", Some(-2), false, " out \n", "err"),
        "=== LTX job j ===\nexit_code: Some(-2)\nsuccess: false\n\n=== STDOUT ===\nout\n\n=== STDERR ===\nerr\n"
    );
    assert_eq!(
        debug_log("j", None, true, "", ""),
        "=== LTX job j ===\nexit_code: None\nsuccess: true\n\n=== STDOUT ===\n\n\n=== STDERR ===\n\n"
    );
}

#[test]
fn resubmitting_an_id_replaces_the_job() {
    let mut m = JobManager::new();
    m.enqueue("a");
    m.record("a", JobEvent::PollFailed { error: "x".to_string() });
    m.enqueue("a");
    let s = m.get("a").unwrap();
    assert_eq!(s.state, JobState::Queued);
    m.cancel("a").unwrap();
    assert_eq!(m.get("a").unwrap().state, JobState::Cancelled);
}
