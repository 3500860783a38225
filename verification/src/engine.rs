//! The engine boundary: where the engine and its adapter script are, how the
//! adapter is invoked, how its answers are read, and the checks that the
//! studio's commands make before they reach it.
use vstd::prelude::*;
use crate::jobs::{JobSnapshot, JobState};
use crate::json::{Json, JsonView, json_of_text, parse_json, set_entry, set_member};
use crate::paths::{Probe, choose_path, chosen_path, join_path, joined, parent_of, parent_path, probes_view, upward, upward_probes};
use crate::process::{CommandOutput, err_text, out_text, stderr_text, stdout_text};
use crate::text::{concat2, concat3, is_blank, trimmed};

verus! {

/// Whether the engine can be used, and where it and the runtime are.
#[derive(Debug, PartialEq)]
pub struct EngineStatus {
    pub running: bool,
    pub runtime_dir: String,
    pub engine_dir: String,
}

/// The engine's status: running when both the adapter script and the
/// engine's directory exist.
pub fn engine_status(script_exists: bool, engine_exists: bool, runtime_dir: String, engine_dir: String) -> (r: EngineStatus)
    ensures
        r.running == (script_exists && engine_exists),
        r.runtime_dir@ == runtime_dir@,
        r.engine_dir@ == engine_dir@,
{
    EngineStatus { running: script_exists && engine_exists, runtime_dir, engine_dir }
}

/// The engine's directory: `WAN2GP_ROOT`, else `WAN_GP_ROOT`, else `wan2gp`
/// in the runtime.
pub fn engine_dir(wan2gp_root: Option<String>, wan_gp_root: Option<String>, runtime_root: &str) -> (r: String)
    ensures
        r@ == match wan2gp_root {
            Some(v) => v@,
            None => match wan_gp_root {
                Some(v) => v@,
                None => joined(runtime_root@, "wan2gp"@),
            },
        },
{
    match wan2gp_root {
        Some(v) => v,
        None => match wan_gp_root {
            Some(v) => v,
            None => join_path(runtime_root, "wan2gp"),
        },
    }
}

/// The runtime directory: `WAN2GP_RUNTIME`, else the studio's runtime root.
pub fn runtime_dir(wan2gp_runtime: Option<String>, runtime_root: &str) -> (r: String)
    ensures
        r@ == match wan2gp_runtime {
            Some(v) => v@,
            None => runtime_root@,
        },
{
    match wan2gp_runtime {
        Some(v) => v,
        None => String::from_str(runtime_root),
    }
}

/// The adapter script, relative to the studio's source tree.
pub open spec fn adapter_relative() -> Seq<char> {
    "engine/wan-gp-adapter/wan_gp_api.py"@
}

pub open spec fn opt_text(o: Option<String>) -> Option<Seq<char>> {
    match o {
        Some(s) => Some(s@),
        None => None,
    }
}

pub open spec fn taken(p: Seq<char>) -> (Seq<char>, bool) {
    (p, false)
}

pub open spec fn checked(p: Seq<char>) -> (Seq<char>, bool) {
    (p, true)
}

pub open spec fn upward_checked(start: Option<Seq<char>>) -> Seq<(Seq<char>, bool)> {
    match start {
        Some(s) => upward(s, adapter_relative(), 8).map_values(|p: Seq<char>| (p, true)),
        None => Seq::empty(),
    }
}

/// The candidates for the adapter script, in order: the two adapter
/// variables as they are; the script under `AI_CREATOR_STUDIO_ROOT`; the
/// script in the working directory or up to seven of its parents; likewise
/// from the executable; and the script in the studio tree the build came
/// from. All but the variables count only when the file exists.
pub open spec fn bridge_candidates(
    adapter: Option<Seq<char>>,
    wan2gp_adapter: Option<Seq<char>>,
    studio_root: Option<Seq<char>>,
    cwd: Option<Seq<char>>,
    exe: Option<Seq<char>>,
    manifest_dir: Seq<char>,
) -> Seq<(Seq<char>, bool)> {
    (match adapter {
        Some(a) => seq![taken(a)],
        None => Seq::empty(),
    }) + (match wan2gp_adapter {
        Some(a) => seq![taken(a)],
        None => Seq::empty(),
    }) + (match studio_root {
        Some(r) => seq![checked(joined(r, adapter_relative()))],
        None => Seq::empty(),
    }) + upward_checked(cwd) + upward_checked(exe) + (match parent_of(manifest_dir) {
        Some(p) => match parent_of(p) {
            Some(root) => seq![checked(joined(root, adapter_relative()))],
            None => Seq::empty(),
        },
        None => Seq::empty(),
    })
}

/// Right after the search upward from the working directory come the
/// candidates found by searching upward from the executable, each checked:
/// after the variables that are set and the working directory's search, the
/// `k`th candidate is the `k`th place above the executable.
pub proof fn law_executable_search_follows_working_directory(
    adapter: Option<Seq<char>>,
    wan2gp_adapter: Option<Seq<char>>,
    studio_root: Option<Seq<char>>,
    cwd: Option<Seq<char>>,
    exe: Seq<char>,
    manifest_dir: Seq<char>,
)
    ensures
        ({
            let cands = bridge_candidates(adapter, wan2gp_adapter, studio_root, cwd, Some(exe), manifest_dir);
            let ups = upward(exe, adapter_relative(), 8);
            let before = (if adapter is Some { 1int } else { 0int }) + (if wan2gp_adapter is Some {
                1int
            } else {
                0int
            }) + (if studio_root is Some { 1int } else { 0int }) + match cwd {
                Some(d) => upward(d, adapter_relative(), 8).len() as int,
                None => 0int,
            };
            forall|k: int| 0 <= k < ups.len() ==> before + k < cands.len() && #[trigger] cands[before + k] == (ups[k], true)
        }),
{
    let a = match adapter {
        Some(x) => seq![taken(x)],
        None => Seq::empty(),
    };
    let b = match wan2gp_adapter {
        Some(x) => seq![taken(x)],
        None => Seq::empty(),
    };
    let c = match studio_root {
        Some(r) => seq![checked(joined(r, adapter_relative()))],
        None => Seq::empty(),
    };
    let u1 = upward_checked(cwd);
    let u2 = upward_checked(Some(exe));
    let m = match parent_of(manifest_dir) {
        Some(p) => match parent_of(p) {
            Some(root) => seq![checked(joined(root, adapter_relative()))],
            None => Seq::empty(),
        },
        None => Seq::empty(),
    };
    let head = a + b + c + u1;
    let cands = bridge_candidates(adapter, wan2gp_adapter, studio_root, cwd, Some(exe), manifest_dir);
    assert(cands == head + u2 + m);
    let ups = upward(exe, adapter_relative(), 8);
    assert forall|k: int| 0 <= k < ups.len() implies head.len() + k < cands.len() && #[trigger] cands[head.len() + k] == (ups[k], true) by {
        assert((head + u2)[head.len() + k] == u2[k]);
        assert(cands[head.len() + k] == (head + u2)[head.len() + k]);
    }
}

fn push_all(out: &mut Vec<Probe>, more: Vec<Probe>)
    ensures
        probes_view(final(out)@) == probes_view(old(out)@) + probes_view(more@),
{
    let ghost start = probes_view(out@);
    let ghost all = probes_view(more@);
    let mut i: usize = 0;
    while i < more.len()
        invariant
            i <= more.len(),
            all == probes_view(more@),
            probes_view(out@) == start + all.take(i as int),
        decreases more.len() - i,
    {
        let p = Probe { path: more[i].path.clone(), checked: more[i].checked };
        let ghost before = out@;
        out.push(p);
        assert(probes_view(out@) =~= probes_view(before).push(all[i as int]));
        assert(all.take(i + 1) =~= all.take(i as int).push(all[i as int]));
        i += 1;
    }
    assert(all.take(more.len() as int) =~= all);
}

/// The candidates for the adapter script, from the environment's variables,
/// the working directory, the executable and the build's source tree.
pub fn bridge_script_probes(
    adapter: Option<String>,
    wan2gp_adapter: Option<String>,
    studio_root: Option<String>,
    cwd: Option<String>,
    exe: Option<String>,
    manifest_dir: &str,
) -> (r: Vec<Probe>)
    ensures
        probes_view(r@) == bridge_candidates(
            opt_text(adapter),
            opt_text(wan2gp_adapter),
            opt_text(studio_root),
            opt_text(cwd),
            opt_text(exe),
            manifest_dir@,
        ),
{
    let rel = "engine/wan-gp-adapter/wan_gp_api.py";
    let ghost a = opt_text(adapter);
    let ghost b = opt_text(wan2gp_adapter);
    let ghost c = opt_text(studio_root);
    let ghost d = opt_text(cwd);
    let ghost e = opt_text(exe);
    let mut out: Vec<Probe> = Vec::new();
    if let Some(v) = adapter {
        out.push(Probe { path: v, checked: false });
    }
    if let Some(v) = wan2gp_adapter {
        out.push(Probe { path: v, checked: false });
    }
    if let Some(v) = studio_root {
        out.push(Probe { path: join_path(v.as_str(), rel), checked: true });
    }
    assert(probes_view(out@) =~= (match a {
        Some(x) => seq![taken(x)],
        None => Seq::empty(),
    }) + (match b {
        Some(x) => seq![taken(x)],
        None => Seq::empty(),
    }) + (match c {
        Some(r) => seq![checked(joined(r, adapter_relative()))],
        None => Seq::empty(),
    }));
    match cwd {
        Some(v) => {
            let ups = upward_probes(v.as_str(), rel, 8);
            push_all(&mut out, ups);
        },
        None => {},
    }
    assert(upward_checked(d) == match d {
        Some(s) => upward(s, adapter_relative(), 8).map_values(|p: Seq<char>| (p, true)),
        None => Seq::<(Seq<char>, bool)>::empty(),
    });
    match exe {
        Some(v) => {
            let ups = upward_probes(v.as_str(), rel, 8);
            push_all(&mut out, ups);
        },
        None => {},
    }
    let ghost mid = probes_view(out@);
    match parent_path(manifest_dir) {
        Some(p) => match parent_path(p.as_str()) {
            Some(root) => {
                out.push(Probe { path: join_path(root.as_str(), rel), checked: true });
                assert(probes_view(out@) =~= mid + seq![checked(joined(root@, adapter_relative()))]);
            },
            None => {
                assert(mid + Seq::<(Seq<char>, bool)>::empty() =~= mid);
            },
        },
        None => {
            assert(mid + Seq::<(Seq<char>, bool)>::empty() =~= mid);
        },
    }
    assert(probes_view(out@) =~= bridge_candidates(a, b, c, d, e, manifest_dir@));
    out
}

/// The adapter script: the first candidate that can be taken (`exists[i]`
/// tells whether candidate `i`'s file exists), else the relative path.
pub fn bridge_script(probes: &Vec<Probe>, exists: &Vec<bool>) -> (r: String)
    ensures
        r@ == chosen_path(probes_view(probes@), exists@, adapter_relative()),
{
    choose_path(probes, exists, String::from_str("engine/wan-gp-adapter/wan_gp_api.py"))
}

/// The interpreter that runs the adapter: the studio-managed one when it was
/// found, else `python` from `PATH`.
pub fn resolve_python(found: Option<String>) -> (r: String)
    ensures
        r@ == match found {
            Some(p) => p@,
            None => "python"@,
        },
{
    match found {
        Some(p) => p,
        None => String::from_str("python"),
    }
}

/// The checks before the adapter runs: its script and the engine's entry
/// script must both exist.
pub fn adapter_preflight(script: &str, script_exists: bool, root: &str, wgp_exists: bool) -> (r: Result<(), String>)
    ensures
        match r {
            Ok(_) => script_exists && wgp_exists,
            Err(e) => if !script_exists {
                e@ == "Wan2GP adapter not found: "@ + script@
            } else {
                !wgp_exists && e@ == "Wan2GP root does not exist: "@ + root@
            },
        },
{
    if !script_exists {
        return Err(concat2("Wan2GP adapter not found: ", script));
    }
    if !wgp_exists {
        return Err(concat2("Wan2GP root does not exist: ", root));
    }
    Ok(())
}

/// How a process of the engine is started.
#[derive(Debug, PartialEq)]
pub struct Invocation {
    pub program: String,
    pub args: Vec<String>,
    pub cwd: String,
    pub envs: Vec<(String, String)>,
}

pub open spec fn texts(v: Seq<String>) -> Seq<Seq<char>> {
    v.map_values(|s: String| s@)
}

pub open spec fn pairs(v: Seq<(String, String)>) -> Seq<(Seq<char>, Seq<char>)> {
    v.map_values(|p: (String, String)| (p.0@, p.1@))
}

/// The environment of every engine process: no user site packages, UTF-8,
/// unbuffered output, and the engine's directory.
pub open spec fn engine_envs(root: Seq<char>) -> Seq<(Seq<char>, Seq<char>)> {
    seq![
        ("PYTHONNOUSERSITE"@, "1"@),
        ("PYTHONUTF8"@, "1"@),
        ("PYTHONUNBUFFERED"@, "1"@),
        ("WAN2GP_ROOT"@, root),
    ]
}

fn base_envs(root: &str) -> (r: Vec<(String, String)>)
    ensures
        pairs(r@) == engine_envs(root@),
{
    let mut envs: Vec<(String, String)> = Vec::new();
    envs.push((String::from_str("PYTHONNOUSERSITE"), String::from_str("1")));
    envs.push((String::from_str("PYTHONUTF8"), String::from_str("1")));
    envs.push((String::from_str("PYTHONUNBUFFERED"), String::from_str("1")));
    envs.push((String::from_str("WAN2GP_ROOT"), String::from_str(root)));
    assert(pairs(envs@) =~= engine_envs(root@));
    envs
}

/// How the adapter is run for `args`: the script with the engine's root,
/// in the engine's directory, with the model cache under the runtime.
pub fn adapter_invocation(python: &str, script: &str, root: &str, runtime_dir: &str, args: &Vec<String>) -> (r: Invocation)
    ensures
        r.program@ == python@,
        texts(r.args@) == seq![script@, "--root"@, root@] + texts(args@),
        r.cwd@ == root@,
        pairs(r.envs@) == engine_envs(root@).push(
            ("HF_HOME"@, joined(joined(runtime_dir@, "models"@), "huggingface"@)),
        ),
{
    let mut all: Vec<String> = Vec::new();
    all.push(String::from_str(script));
    all.push(String::from_str("--root"));
    all.push(String::from_str(root));
    let mut i: usize = 0;
    while i < args.len()
        invariant
            i <= args.len(),
            texts(all@) == seq![script@, "--root"@, root@] + texts(args@.take(i as int)),
        decreases args.len() - i,
    {
        let ghost before = all@;
        all.push(args[i].clone());
        assert(texts(all@) =~= texts(before).push(args@[i as int]@));
        assert(texts(args@.take(i + 1)) =~= texts(args@.take(i as int)).push(args@[i as int]@));
        i += 1;
    }
    assert(args@.take(args.len() as int) =~= args@);
    let mut envs = base_envs(root);
    let models = join_path(runtime_dir, "models");
    let hf = join_path(models.as_str(), "huggingface");
    let ghost before = envs@;
    envs.push((String::from_str("HF_HOME"), hf));
    assert(pairs(envs@) =~= pairs(before).push(("HF_HOME"@, hf@)));
    Invocation { program: String::from_str(python), args: all, cwd: String::from_str(root), envs }
}

/// How a generation job is run: the adapter's `generate` with the model and
/// the settings file, in the engine's directory.
pub fn generation_invocation(python: &str, script: &str, root: &str, model_type: &str, settings: &str) -> (r: Invocation)
    ensures
        r.program@ == python@,
        texts(r.args@) == seq![
            script@,
            "--root"@,
            root@,
            "generate"@,
            "--model"@,
            model_type@,
            "--settings"@,
            settings@,
        ],
        r.cwd@ == root@,
        pairs(r.envs@) == engine_envs(root@),
{
    let mut all: Vec<String> = Vec::new();
    all.push(String::from_str(script));
    all.push(String::from_str("--root"));
    all.push(String::from_str(root));
    all.push(String::from_str("generate"));
    all.push(String::from_str("--model"));
    all.push(String::from_str(model_type));
    all.push(String::from_str("--settings"));
    all.push(String::from_str(settings));
    assert(texts(all@) =~= seq![
        script@,
        "--root"@,
        root@,
        "generate"@,
        "--model"@,
        model_type@,
        "--settings"@,
        settings@,
    ]);
    Invocation {
        program: String::from_str(python),
        args: all,
        cwd: String::from_str(root),
        envs: base_envs(root),
    }
}

/// What a run of the adapter answers: its trimmed output on success; on
/// failure the error that its answer names, else its trimmed standard
/// error, else its trimmed standard output; and a launch error when it
/// could not start.
pub open spec fn adapter_answer(
    python: Seq<char>,
    run: Result<CommandOutput, Seq<char>>,
    envelope_error: Option<Seq<char>>,
) -> Result<Seq<char>, Seq<char>> {
    match run {
        Err(e) => Err("Failed to launch Wan2GP adapter with "@ + python + ": "@ + e),
        Ok(o) => if o.success {
            Ok(out_text(o))
        } else {
            match envelope_error {
                Some(e) => Err(e),
                None => if err_text(o).len() > 0 {
                    Err(err_text(o))
                } else {
                    Err(out_text(o))
                },
            }
        },
    }
}

pub open spec fn run_view(run: Result<CommandOutput, String>) -> Result<CommandOutput, Seq<char>> {
    match run {
        Ok(o) => Ok(o),
        Err(e) => Err(e@),
    }
}

pub open spec fn text_result(r: Result<String, String>) -> Result<Seq<char>, Seq<char>> {
    match r {
        Ok(s) => Ok(s@),
        Err(e) => Err(e@),
    }
}

/// Reads a run of the adapter; `envelope_error` is the `error` that its
/// trimmed output names when that output is the adapter's error envelope.
pub fn adapter_outcome(python: &str, run: &Result<CommandOutput, String>, envelope_error: Option<String>) -> (r: Result<String, String>)
    ensures
        text_result(r) == adapter_answer(python@, run_view(*run), opt_text(envelope_error)),
{
    match run {
        Err(e) => {
            let tail = concat2(": ", e.as_str());
            let msg = concat3("Failed to launch Wan2GP adapter with ", python, tail.as_str());
            assert(msg@ =~= "Failed to launch Wan2GP adapter with "@ + python@ + ": "@ + e@);
            Err(msg)
        },
        Ok(o) => {
            let out = stdout_text(o);
            if o.success {
                return Ok(out);
            }
            match envelope_error {
                Some(e) => Err(e),
                None => {
                    let err = stderr_text(o);
                    if err.as_str().unicode_len() > 0 {
                        Err(err)
                    } else {
                        Err(out)
                    }
                },
            }
        },
    }
}

/// The adapter arguments that ask for a model's schema; a blank model type
/// is refused.
pub fn model_schema_args(model_type: &str) -> (r: Result<Vec<String>, String>)
    ensures
        match r {
            Ok(args) => trimmed(model_type@).len() > 0 && texts(args@) == seq![
                "schema"@,
                "--model"@,
                model_type@,
            ],
            Err(e) => trimmed(model_type@).len() == 0 && e@ == "model_type is required"@,
        },
{
    if is_blank(model_type) {
        return Err(String::from_str("model_type is required"));
    }
    let mut args: Vec<String> = Vec::new();
    args.push(String::from_str("schema"));
    args.push(String::from_str("--model"));
    args.push(String::from_str(model_type));
    assert(texts(args@) =~= seq!["schema"@, "--model"@, model_type@]);
    Ok(args)
}

/// A model's schema from the adapter's answer.
pub fn schema_from_payload(payload: &str) -> (r: Result<Json, String>)
    ensures
        match r {
            Ok(j) => json_of_text(payload@) == Ok::<JsonView, Seq<char>>(j@),
            Err(e) => json_of_text(payload@) matches Err(m) && e@ == "Invalid schema response: "@ + m,
        },
{
    match parse_json(payload) {
        Ok(j) => Ok(j),
        Err(e) => Err(concat2("Invalid schema response: ", e.as_str())),
    }
}

/// The answer to starting the engine: the adapter's error, or a ready
/// message naming the interpreter.
pub fn start_engine(adapter: Result<String, String>, python: &str) -> (r: Result<String, String>)
    ensures
        match adapter {
            Ok(_) => r matches Ok(m) && m@ == "WanGP adapter is ready · Python: "@ + python@,
            Err(e) => r matches Err(x) && x@ == e@,
        },
{
    match adapter {
        Ok(_) => Ok(concat2("WanGP adapter is ready · Python: ", python)),
        Err(e) => Err(e),
    }
}

/// The answer to stopping the engine: there is no lasting process.
pub fn stop_engine() -> (r: Result<String, String>)
    ensures
        r matches Ok(m) && m@ == "WanGP adapter is invoked per operation; no persistent process to stop"@,
{
    Ok(String::from_str("WanGP adapter is invoked per operation; no persistent process to stop"))
}

/// A generation request: the settings with `model_type` set. A blank model
/// type, or settings that are not a JSON object, are refused.
pub fn generation_request(model_type: &str, settings: Json) -> (r: Result<Json, String>)
    ensures
        match r {
            Ok(req) => trimmed(model_type@).len() > 0 && settings@ is Object && req@ == JsonView::Object(
                set_entry(settings@->Object_0, "model_type"@, JsonView::Str(model_type@)),
            ),
            Err(e) => if trimmed(model_type@).len() == 0 {
                e@ == "model_type is required"@
            } else {
                !(settings@ is Object) && e@ == "settings must be a JSON object"@
            },
        },
{
    if is_blank(model_type) {
        return Err(String::from_str("model_type is required"));
    }
    if !settings.is_object() {
        return Err(String::from_str("settings must be a JSON object"));
    }
    let mut request = settings;
    set_member(&mut request, "model_type", Json::Str(String::from_str(model_type)));
    Ok(request)
}

/// The result of a job whose assets are to be recorded: it must have
/// completed and hold a result.
pub fn completed_result(job: &JobSnapshot) -> (r: Result<Json, String>)
    ensures
        match r {
            Ok(j) => job.state == JobState::Completed && job@.result == Some(j@),
            Err(e) => if job.state != JobState::Completed {
                e@ == "Generation job is not completed"@
            } else {
                job.result is None && e@ == "Generation job has no result"@
            },
        },
{
    if job.state != JobState::Completed {
        return Err(String::from_str("Generation job is not completed"));
    }
    match &job.result {
        Some(j) => Ok(j.copy()),
        None => Err(String::from_str("Generation job has no result")),
    }
}

} // verus!
