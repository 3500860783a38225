use creator_studio::process::CommandOutput;
use creator_studio::runtime::detector::{find_python, python_candidates, python_version, python_version_args, uv_path};
use creator_studio::runtime::installer::{build_uv_script, ps_escape, InstallAction, InstallEvent, Installer};
use creator_studio::runtime::manifest::{is_ready, path};
use creator_studio::runtime::{install, root, status};
use std::path::Path;

fn j(base: &str, parts: &[&str]) -> String {
    let mut p = Path::new(base).to_path_buf();
    for x in parts {
        p = p.join(x);
    }
    p.to_string_lossy().into_owned()
}

fn output(success: bool, stdout: &str, stderr: &str) -> CommandOutput {
    CommandOutput {
        success,
        status: "exit status: 3".to_string(),
        stdout: stdout.as_bytes().to_vec(),
        stderr: stderr.as_bytes().to_vec(),
    }
}

#[test]
fn quoting_doubles_single_quotes() {
    assert_eq!(ps_escape("C:\\O'Neil\\rt"), "C:\\O''Neil\\rt");
    assert_eq!(ps_escape("''"), "''''");
    assert_eq!(ps_escape("plain"), "plain");
}

#[test]
fn uv_script_quotes_paths() {
    let s = build_uv_script("z'", "x", "u");
    assert!(s.contains("-OutFile 'z'''"));
    assert!(s.starts_with("$ErrorActionPreference='Stop';"));
    assert!(s.ends_with("Remove-Item -Recurse -Force 'x' -ErrorAction SilentlyContinue"));
}

#[test]
fn install_on_unix_with_everything_present() {
    let (mut m, a) = Installer::install("rt", false, "/usr/bin");
    assert_eq!(a, InstallAction::CreateDir { path: "rt".to_string() });
    let a = m.next(InstallEvent::Done);
    assert_eq!(a, InstallAction::CreateDir { path: j("rt", &["bin"]) });
    let a = m.next(InstallEvent::Done);
    assert_eq!(a, InstallAction::CheckExists { path: j("rt", &["bin", "uv"]) });
    let a = m.next(InstallEvent::Exists { exists: true });
    assert_eq!(a, InstallAction::CheckExists { path: j("rt", &["wan2gp", "wgp.py"]) });
    let a = m.next(InstallEvent::Exists { exists: true });
    assert_eq!(a, InstallAction::CreateDir { path: j("rt", &["cache"]) });
    let a = m.next(InstallEvent::Done);
    assert_eq!(a, InstallAction::CreateDir { path: j("rt", &["python"]) });
    let a = m.next(InstallEvent::Done);
    match &a {
        InstallAction::RunCommand { program, args, cwd, envs } => {
            assert_eq!(program, &j("rt", &["bin", "uv"]));
            assert_eq!(args[0], "run");
            assert_eq!(args.len(), 9);
            assert_eq!(cwd.as_deref(), Some(j("rt", &["wan2gp"]).as_str()));
            assert_eq!(envs[5], ("PATH".to_string(), format!("{};/usr/bin", j("rt", &["bin"]))));
        }
        other => panic!("{:?}", other),
    }
    let a = m.next(InstallEvent::Ran { output: Ok(output(true, "", "")) });
    assert_eq!(a, InstallAction::FindPython { runtime: "rt".to_string() });
    let a = m.next(InstallEvent::Python { found: Some("py".to_string()) });
    assert_eq!(a, InstallAction::CreateDir { path: "rt".to_string() });
    let a = m.next(InstallEvent::Done);
    assert_eq!(a, InstallAction::SaveManifest { path: j("rt", &["runtime.json"]), manifest: creator_studio::runtime::manifest::write("py".to_string()) });
    let a = m.next(InstallEvent::Done);
    assert_eq!(a, InstallAction::Finish { result: Ok(()) });
    let a = m.next(InstallEvent::Failed { error: "late".to_string() });
    assert_eq!(a, InstallAction::Finish { result: Ok(()) });
}

#[test]
fn uv_missing_off_windows_stops() {
    let (mut m, _) = Installer::install("rt", false, "");
    m.next(InstallEvent::Done);
    m.next(InstallEvent::Done);
    let a = m.next(InstallEvent::Exists { exists: false });
    assert!(matches!(a, InstallAction::RunCommand { .. }));
    let a = m.next(InstallEvent::Ran { output: Ok(output(false, "", "")) });
    assert_eq!(
        a,
        InstallAction::Finish {
            result: Err("Automatic uv bootstrap is currently implemented for Windows builds.".to_string())
        }
    );
}

#[test]
fn uv_found_on_path_is_copied() {
    let (mut m, _) = Installer::install("rt", true, "");
    m.next(InstallEvent::Done);
    m.next(InstallEvent::Done);
    let a = m.next(InstallEvent::Exists { exists: false });
    assert!(matches!(a, InstallAction::RunCommand { ref program, .. } if program == "where.exe"));
    let a = m.next(InstallEvent::Ran { output: Ok(output(true, " C:\\tools\\uv.exe \r\nC:\\other\\uv.exe\r\n", "")) });
    assert_eq!(a, InstallAction::CheckExists { path: "C:\\tools\\uv.exe".to_string() });
    let a = m.next(InstallEvent::Exists { exists: true });
    assert_eq!(a, InstallAction::CopyFile { from: "C:\\tools\\uv.exe".to_string(), to: j("rt", &["bin", "uv.exe"]) });
    let a = m.next(InstallEvent::Failed { error: "denied".to_string() });
    assert_eq!(a, InstallAction::Finish { result: Err("Failed to copy uv into Studio runtime: denied".to_string()) });
}

#[test]
fn windows_bootstraps_engine_and_reports_failures() {
    let (mut m, _) = Installer::install("rt", true, "");
    m.next(InstallEvent::Done);
    m.next(InstallEvent::Done);
    m.next(InstallEvent::Exists { exists: true });
    let a = m.next(InstallEvent::Exists { exists: false });
    assert_eq!(a, InstallAction::CreateDir { path: "rt".to_string() });
    let a = m.next(InstallEvent::Done);
    assert!(matches!(a, InstallAction::RunPowershell { .. }));
    let a = m.next(InstallEvent::Ran { output: Ok(output(false, "out", "")) });
    assert_eq!(a, InstallAction::Finish { result: Err("out".to_string()) });
}

#[test]
fn setup_failure_and_missing_python() {
    let (mut m, _) = Installer::install("rt", false, "");
    for e in [InstallEvent::Done, InstallEvent::Done] {
        m.next(e);
    }
    m.next(InstallEvent::Exists { exists: true });
    m.next(InstallEvent::Exists { exists: true });
    m.next(InstallEvent::Done);
    m.next(InstallEvent::Done);
    let a = m.next(InstallEvent::Ran { output: Ok(output(false, "", "")) });
    assert_eq!(
        a,
        InstallAction::Finish { result: Err(format!("{} failed with status exit status: 3", j("rt", &["bin", "uv"]))) }
    );
    let (mut m, _) = Installer::install("rt", false, "");
    m.next(InstallEvent::Done);
    m.next(InstallEvent::Done);
    m.next(InstallEvent::Exists { exists: true });
    m.next(InstallEvent::Exists { exists: true });
    m.next(InstallEvent::Done);
    m.next(InstallEvent::Done);
    m.next(InstallEvent::Ran { output: Err("not found".to_string()) });
    let (mut m2, _) = Installer::install("rt", false, "");
    let a = m2.next(InstallEvent::Failed { error: "ro".to_string() });
    assert_eq!(a, InstallAction::Finish { result: Err("Failed to create runtime directory: ro".to_string()) });
    let a = m.next(InstallEvent::Done);
    assert!(matches!(a, InstallAction::Finish { result: Err(ref e) } if e == &format!("Failed to launch {}: not found", j("rt", &["bin", "uv"]))));
}

#[test]
fn mismatched_outcome_repeats_the_step() {
    let (mut m, a) = Installer::install("rt", false, "");
    let again = m.next(InstallEvent::Exists { exists: true });
    assert_eq!(a, again);
}

#[test]
fn manifest_and_status() {
    assert_eq!(path("rt"), j("rt", &["runtime.json"]));
    let m = creator_studio::runtime::manifest::write("py".to_string());
    assert_eq!(m.engine, "Wan2GP");
    assert_eq!(m.engine_url, "https://github.com/deepbeepmeep/Wan2GP.git");
    assert!(m.installed);
    assert!(is_ready(&Some(creator_studio::runtime::manifest::write("py".to_string())), true));
    assert!(!is_ready(&Some(creator_studio::runtime::manifest::write("py".to_string())), false));
    assert!(!is_ready(&None, true));
    let s = status("rt", None, Some("gpu".to_string()), false);
    assert_eq!(s.phase, "not_installed");
    assert_eq!(s.detail, "Wan2GP runtime is not installed");
    assert_eq!(s.engine_dir, j("rt", &["wan2gp"]));
    assert_eq!(install(Err("bad".to_string()), s.clone()).unwrap_err(), "bad");
}

#[test]
fn runtime_root_resolution() {
    assert_eq!(root(Some("S".to_string()), None, None), j("S", &["runtime"]));
    assert_eq!(root(None, Some("/a/b/c".to_string()), None), j("/a", &["runtime"]));
    assert_eq!(root(None, None, Some("/opt/app/studio".to_string())), j("/opt/app", &["runtime"]));
    assert_eq!(root(None, Some("c".to_string()), None), "runtime");
    assert_eq!(root(None, None, None), "runtime");
}

#[test]
fn detector_helpers() {
    let c = python_candidates("rt");
    assert_eq!(c[0], j("rt", &["wan2gp", "env_uv", "Scripts", "python.exe"]));
    assert_eq!(c[5], j("rt", &["venv", "bin", "python"]));
    assert_eq!(find_python(&c, &vec![false, false, true, true, false, false]), Some(c[2].clone()));
    assert_eq!(find_python(&c, &vec![false; 6]), None);
    assert_eq!(python_version_args("py"), vec!["-3.11", "--version"]);
    assert_eq!(python_version_args("python"), vec!["--version"]);
    assert_eq!(python_version(&Some(output(false, "", "Python 3.11.9\n"))), Some("Python 3.11.9".to_string()));
    assert_eq!(python_version(&None), None);
    assert_eq!(uv_path("rt", true), j("rt", &["bin", "uv.exe"]));
    assert_eq!(uv_path("rt", false), j("rt", &["bin", "uv"]));
}

#[test]
fn quoted_paths_read_back_unchanged() {
    for p in ["C:\\Users\\O'Brien\\rt", "''x'", "plain", ""] {
        let quoted = ps_escape(p);
        assert!(!quoted.replace("''", "").contains('\''));
        assert_eq!(quoted.replace("''", "'"), p);
    }
}
