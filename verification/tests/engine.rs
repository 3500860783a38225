use creator_studio::engine::{
    adapter_invocation, adapter_outcome, adapter_preflight, bridge_script, bridge_script_probes,
    completed_result, engine_dir, engine_status, generation_invocation, generation_request,
    model_schema_args, resolve_python, runtime_dir, schema_from_payload, start_engine, stop_engine,
};
use creator_studio::jobs::{JobEvent, JobManager};
use creator_studio::json::{parse_json, Json};
use creator_studio::process::CommandOutput;
use std::path::Path;

fn j(base: &str, parts: &[&str]) -> String {
    let mut p = Path::new(base).to_path_buf();
    for x in parts {
        p = p.join(x);
    }
    p.to_string_lossy().into_owned()
}

fn out(success: bool, stdout: &str, stderr: &str) -> CommandOutput {
    CommandOutput { success, status: String::new(), stdout: stdout.as_bytes().to_vec(), stderr: stderr.as_bytes().to_vec() }
}

#[test]
fn directories() {
    assert_eq!(engine_dir(Some("A".into()), Some("B".into()), "rt"), "A");
    assert_eq!(engine_dir(None, Some("B".into()), "rt"), "B");
    assert_eq!(engine_dir(None, None, "rt"), j("rt", &["wan2gp"]));
    assert_eq!(runtime_dir(Some("R".into()), "rt"), "R");
    assert_eq!(runtime_dir(None, "rt"), "rt");
    let s = engine_status(true, false, "r".into(), "e".into());
    assert!(!s.running);
    assert!(engine_status(true, true, "r".into(), "e".into()).running);
    assert_eq!(resolve_python(None), "python");
    assert_eq!(resolve_python(Some("p".into())), "p");
}

#[test]
fn bridge_script_order() {
    let rel = "engine/wan-gp-adapter/wan_gp_api.py";
    let probes = bridge_script_probes(None, Some("env2".into()), Some("S".into()), Some("/w/x".into()), None, "/m/app/src-tauri");
    assert_eq!(probes[0].path, "env2");
    assert!(!probes[0].checked);
    assert_eq!(probes[1].path, j("S", &[rel]));
    assert_eq!(probes[2].path, j("/w/x", &[rel]));
    assert_eq!(probes[3].path, j("/w", &[rel]));
    assert_eq!(probes[4].path, j("/", &[rel]));
    assert_eq!(probes.last().unwrap().path, j("/m", &[rel]));
    assert_eq!(probes.len(), 6);
    let none = vec![false; probes.len()];
    assert_eq!(bridge_script(&probes, &none), "env2");
    let probes = bridge_script_probes(None, None, Some("S".into()), Some("/w/x".into()), None, "m");
    let mut exists = vec![false; probes.len()];
    assert_eq!(bridge_script(&probes, &exists), rel);
    exists[2] = true;
    assert_eq!(bridge_script(&probes, &exists), j("/w", &[rel]));
}

#[test]
fn adapter_checks_and_outcomes() {
    assert_eq!(adapter_preflight("s.py", false, "r", true).unwrap_err(), "Wan2GP adapter not found: s.py");
    assert_eq!(adapter_preflight("s.py", true, "r", false).unwrap_err(), "Wan2GP root does not exist: r");
    assert!(adapter_preflight("s.py", true, "r", true).is_ok());
    assert_eq!(adapter_outcome("py", &Ok(out(true, " {} \n", "warn")), None).unwrap(), "{}");
    assert_eq!(adapter_outcome("py", &Ok(out(false, "x", "boom")), Some("bad model".into())).unwrap_err(), "bad model");
    assert_eq!(adapter_outcome("py", &Ok(out(false, " x ", " boom ")), None).unwrap_err(), "boom");
    assert_eq!(adapter_outcome("py", &Ok(out(false, " x ", "  ")), None).unwrap_err(), "x");
    assert_eq!(adapter_outcome("py", &Err("gone".into()), None).unwrap_err(), "Failed to launch Wan2GP adapter with py: gone");
}

#[test]
fn invocations() {
    let inv = adapter_invocation("py", "s.py", "root", "rt", &vec!["models".to_string()]);
    assert_eq!(inv.args, vec!["s.py", "--root", "root", "models"]);
    assert_eq!(inv.cwd, "root");
    assert_eq!(inv.envs.len(), 5);
    assert_eq!(inv.envs[3], ("WAN2GP_ROOT".to_string(), "root".to_string()));
    assert_eq!(inv.envs[4], ("HF_HOME".to_string(), j("rt", &["models", "huggingface"])));
    let g = generation_invocation("py", "s.py", "root", "ltx", "gen/1.json");
    assert_eq!(g.args, vec!["s.py", "--root", "root", "generate", "--model", "ltx", "--settings", "gen/1.json"]);
    assert_eq!(g.envs.len(), 4);
}

#[test]
fn command_checks() {
    assert_eq!(model_schema_args("  ").unwrap_err(), "model_type is required");
    assert_eq!(model_schema_args("ltx").unwrap(), vec!["schema", "--model", "ltx"]);
    assert!(schema_from_payload("[").unwrap_err().starts_with("Invalid schema response: "));
    assert_eq!(schema_from_payload("true").unwrap(), Json::Bool(true));
    assert_eq!(start_engine(Ok("x".into()), "py").unwrap(), "WanGP adapter is ready · Python: py");
    assert_eq!(start_engine(Err("no".into()), "py").unwrap_err(), "no");
    assert_eq!(stop_engine().unwrap(), "WanGP adapter is invoked per operation; no persistent process to stop");
}

#[test]
fn generation_requests() {
    let settings = parse_json(r#"{"prompt": "cat", "model_type": "old"}"#).unwrap();
    let req = generation_request("ltx", settings).unwrap();
    assert_eq!(req.get_str("model_type"), Some("ltx"));
    assert_eq!(req.get_str("prompt"), Some("cat"));
    assert_eq!(generation_request(" ", Json::Null).unwrap_err(), "model_type is required");
    assert_eq!(generation_request("ltx", Json::Null).unwrap_err(), "settings must be a JSON object");
}

#[test]
fn completed_results() {
    let mut m = JobManager::new();
    m.enqueue("a");
    assert_eq!(completed_result(&m.get("a").unwrap()).unwrap_err(), "Generation job is not completed");
    m.record("a", JobEvent::Exited { success: true, stdout: "[1]".into(), stderr: String::new(), debug_path: "d".into() });
    assert_eq!(completed_result(&m.get("a").unwrap()).unwrap(), Json::Array(vec![Json::Number("1".into())]));
}
