//! Installing the runtime: the package tool, the engine, its interpreter and
//! the manifest, as a machine that asks for one outside step at a time and
//! decides from each step's outcome what comes next.
use vstd::prelude::*;
use crate::paths::{join_path, joined, parent_of, parent_path};
use crate::process::{
    CommandOutput, command_failure_text, command_result, first_line_of, first_line_text,
    powershell_failure_text, powershell_result, run_view,
};
use crate::runtime::detector::uv_path;
use crate::runtime::manifest::{RuntimeManifest, engine_url};
use crate::text::{chars_of, concat2, concat3, string_of};

verus! {

pub open spec fn wan2gp_zip_url() -> Seq<char> {
    "https://github.com/deepbeepmeep/Wan2GP/archive/refs/heads/main.zip"@
}

pub open spec fn uv_zip_url() -> Seq<char> {
    "https://github.com/astral-sh/uv/releases/latest/download/uv-x86_64-pc-windows-msvc.zip"@
}

// ---------------------------------------------------------------------------
// PowerShell single-quoted literals.
// ---------------------------------------------------------------------------

/// A character as it is written inside a PowerShell single-quoted literal.
pub open spec fn ps_piece(c: char) -> Seq<char> {
    if c == '\'' {
        seq!['\'', '\'']
    } else {
        seq![c]
    }
}

/// A text as it is written inside a PowerShell single-quoted literal: each
/// quote doubled.
pub open spec fn ps_escaped(s: Seq<char>) -> Seq<char>
    decreases s.len(),
{
    if s.len() == 0 {
        Seq::empty()
    } else {
        ps_piece(s[0]) + ps_escaped(s.drop_first())
    }
}

/// The text that PowerShell reads from the inside of a single-quoted
/// literal: two quotes stand for one.
pub open spec fn ps_read(t: Seq<char>) -> Seq<char>
    decreases t.len(),
{
    if t.len() == 0 {
        Seq::empty()
    } else if t.len() >= 2 && t[0] == '\'' && t[1] == '\'' {
        seq!['\''] + ps_read(t.skip(2))
    } else {
        seq![t[0]] + ps_read(t.skip(1))
    }
}

proof fn lemma_ps_escaped_append(a: Seq<char>, b: Seq<char>)
    ensures
        ps_escaped(a + b) == ps_escaped(a) + ps_escaped(b),
    decreases a.len(),
{
    if a.len() == 0 {
        assert(a + b =~= b);
    } else {
        assert((a + b).drop_first() =~= a.drop_first() + b);
        lemma_ps_escaped_append(a.drop_first(), b);
        assert(ps_escaped(a + b) =~= ps_piece(a[0]) + ps_escaped(a.drop_first() + b));
    }
}

/// PowerShell reads back from a quoted path exactly the path that was
/// quoted: the quoting loses and adds nothing.
pub proof fn law_ps_quoting_round_trip(s: Seq<char>)
    ensures
        ps_read(ps_escaped(s)) == s,
    decreases s.len(),
{
    if s.len() > 0 {
        law_ps_quoting_round_trip(s.drop_first());
        let rest = ps_escaped(s.drop_first());
        if s[0] == '\'' {
            let t = seq!['\'', '\''] + rest;
            assert(t.skip(2) =~= rest);
            assert(ps_read(t) =~= seq!['\''] + ps_read(rest));
            assert(s =~= seq![s[0]] + s.drop_first());
        } else {
            let t = seq![s[0]] + rest;
            assert(t.skip(1) =~= rest);
            assert(ps_read(t) =~= seq![s[0]] + ps_read(rest));
            assert(s =~= seq![s[0]] + s.drop_first());
        }
    }
}

/// `s.replace('\'', "''")`: the text ready to stand in a single-quoted
/// PowerShell literal.
pub fn ps_escape(s: &str) -> (r: String)
    ensures
        r@ == ps_escaped(s@),
{
    let cs = chars_of(s);
    let mut out: Vec<char> = Vec::new();
    let mut i: usize = 0;
    while i < cs.len()
        invariant
            i <= cs.len(),
            cs@ == s@,
            out@ == ps_escaped(cs@.take(i as int)),
        decreases cs.len() - i,
    {
        proof {
            assert(cs@.take(i + 1) =~= cs@.take(i as int) + seq![cs@[i as int]]);
            lemma_ps_escaped_append(cs@.take(i as int), seq![cs@[i as int]]);
            let one = seq![cs@[i as int]];
            assert(one.drop_first() =~= Seq::<char>::empty());
            assert(ps_escaped(one.drop_first()) =~= Seq::<char>::empty());
            assert(ps_escaped(one) == ps_piece(one[0]) + ps_escaped(one.drop_first()));
            assert(ps_escaped(one) =~= ps_piece(cs@[i as int]));
        }
        if cs[i] == '\'' {
            out.push('\'');
            out.push('\'');
        } else {
            out.push(cs[i]);
        }
        i += 1;
    }
    assert(cs@.take(cs.len() as int) =~= cs@);
    string_of(out.as_slice())
}

/// The PowerShell script that downloads the package tool's archive to `zip`,
/// unpacks it into `extract`, copies `uv.exe` to `uv` and cleans up.
pub open spec fn uv_script(zip: Seq<char>, extract: Seq<char>, uv: Seq<char>) -> Seq<char> {
    let z = ps_escaped(zip);
    let x = ps_escaped(extract);
    let u = ps_escaped(uv);
    "$ErrorActionPreference='Stop'; $ProgressPreference='SilentlyContinue'; Invoke-WebRequest -UseBasicParsing -Uri '"@
        + uv_zip_url() + "' -OutFile '"@ + z + "'; if(Test-Path '"@ + x
        + "'){Remove-Item -Recurse -Force '"@ + x + "'}; Expand-Archive -LiteralPath '"@ + z
        + "' -DestinationPath '"@ + x + "' -Force; $f=Get-ChildItem -LiteralPath '"@ + x
        + "' -Recurse -Filter 'uv.exe' | Select-Object -First 1; if(-not $f){throw 'uv.exe was not found in the downloaded archive'}; Copy-Item -LiteralPath $f.FullName -Destination '"@
        + u + "' -Force; Remove-Item -Force '"@ + z
        + "' -ErrorAction SilentlyContinue; Remove-Item -Recurse -Force '"@ + x
        + "' -ErrorAction SilentlyContinue"@
}

/// The PowerShell script that downloads the engine's archive to `zip`,
/// unpacks it into `extract` and copies its top directory's contents into
/// `engine`.
pub open spec fn engine_script(zip: Seq<char>, extract: Seq<char>, engine: Seq<char>) -> Seq<char> {
    let z = ps_escaped(zip);
    let x = ps_escaped(extract);
    let e = ps_escaped(engine);
    "$ErrorActionPreference='Stop'; $ProgressPreference='SilentlyContinue'; Invoke-WebRequest -UseBasicParsing -Uri '"@
        + wan2gp_zip_url() + "' -OutFile '"@ + z + "'; if(Test-Path '"@ + x
        + "'){Remove-Item -Recurse -Force '"@ + x + "'}; Expand-Archive -LiteralPath '"@ + z
        + "' -DestinationPath '"@ + x + "' -Force; $src=Get-ChildItem -LiteralPath '"@ + x
        + "' -Directory | Select-Object -First 1; if(-not $src){throw 'Wan2GP archive has no root directory'}; New-Item -ItemType Directory -Force -Path '"@
        + e + "' | Out-Null; Copy-Item -Path (Join-Path $src.FullName '*') -Destination '"@ + e
        + "' -Recurse -Force; Remove-Item -Force '"@ + z
        + "' -ErrorAction SilentlyContinue; Remove-Item -Recurse -Force '"@ + x
        + "' -ErrorAction SilentlyContinue"@
}

/// The package tool's bootstrap script for the given paths.
pub fn build_uv_script(zip: &str, extract: &str, uv: &str) -> (r: String)
    ensures
        r@ == uv_script(zip@, extract@, uv@),
{
    let z = ps_escape(zip);
    let x = ps_escape(extract);
    let u = ps_escape(uv);
    let mut s = String::from_str(
        "$ErrorActionPreference='Stop'; $ProgressPreference='SilentlyContinue'; Invoke-WebRequest -UseBasicParsing -Uri '",
    );
    s.append("https://github.com/astral-sh/uv/releases/latest/download/uv-x86_64-pc-windows-msvc.zip");
    s.append("' -OutFile '");
    s.append(z.as_str());
    s.append("'; if(Test-Path '");
    s.append(x.as_str());
    s.append("'){Remove-Item -Recurse -Force '");
    s.append(x.as_str());
    s.append("'}; Expand-Archive -LiteralPath '");
    s.append(z.as_str());
    s.append("' -DestinationPath '");
    s.append(x.as_str());
    s.append("' -Force; $f=Get-ChildItem -LiteralPath '");
    s.append(x.as_str());
    s.append(
        "' -Recurse -Filter 'uv.exe' | Select-Object -First 1; if(-not $f){throw 'uv.exe was not found in the downloaded archive'}; Copy-Item -LiteralPath $f.FullName -Destination '",
    );
    s.append(u.as_str());
    s.append("' -Force; Remove-Item -Force '");
    s.append(z.as_str());
    s.append("' -ErrorAction SilentlyContinue; Remove-Item -Recurse -Force '");
    s.append(x.as_str());
    s.append("' -ErrorAction SilentlyContinue");
    assert(s@ =~= uv_script(zip@, extract@, uv@));
    s
}

/// The engine's bootstrap script for the given paths.
pub fn build_engine_script(zip: &str, extract: &str, engine: &str) -> (r: String)
    ensures
        r@ == engine_script(zip@, extract@, engine@),
{
    let z = ps_escape(zip);
    let x = ps_escape(extract);
    let e = ps_escape(engine);
    let mut s = String::from_str(
        "$ErrorActionPreference='Stop'; $ProgressPreference='SilentlyContinue'; Invoke-WebRequest -UseBasicParsing -Uri '",
    );
    s.append("https://github.com/deepbeepmeep/Wan2GP/archive/refs/heads/main.zip");
    s.append("' -OutFile '");
    s.append(z.as_str());
    s.append("'; if(Test-Path '");
    s.append(x.as_str());
    s.append("'){Remove-Item -Recurse -Force '");
    s.append(x.as_str());
    s.append("'}; Expand-Archive -LiteralPath '");
    s.append(z.as_str());
    s.append("' -DestinationPath '");
    s.append(x.as_str());
    s.append("' -Force; $src=Get-ChildItem -LiteralPath '");
    s.append(x.as_str());
    s.append(
        "' -Directory | Select-Object -First 1; if(-not $src){throw 'Wan2GP archive has no root directory'}; New-Item -ItemType Directory -Force -Path '",
    );
    s.append(e.as_str());
    s.append("' | Out-Null; Copy-Item -Path (Join-Path $src.FullName '*') -Destination '");
    s.append(e.as_str());
    s.append("' -Recurse -Force; Remove-Item -Force '");
    s.append(z.as_str());
    s.append("' -ErrorAction SilentlyContinue; Remove-Item -Recurse -Force '");
    s.append(x.as_str());
    s.append("' -ErrorAction SilentlyContinue");
    assert(s@ =~= engine_script(zip@, extract@, engine@));
    s
}


// ---------------------------------------------------------------------------
// The installation machine.
// ---------------------------------------------------------------------------

/// Where an installation stands: the outside step it waits on.
#[derive(Debug, PartialEq)]
pub enum InstallStage {
    MakeRoot,
    MakeBin,
    CheckUv,
    LocateUv,
    CheckFound { found: String },
    CopyFound { found: String },
    BootstrapUv,
    CheckBootstrappedUv,
    CheckEngine,
    MakeEngineRoot,
    BootstrapEngine,
    CheckBootstrappedEngine,
    MakeCache,
    MakePythonCache,
    Setup,
    FindPython,
    MakeManifestRoot { python: String },
    SaveManifest { python: String },
    Finished { result: Result<(), String> },
}

pub enum StageView {
    MakeRoot,
    MakeBin,
    CheckUv,
    LocateUv,
    CheckFound { found: Seq<char> },
    CopyFound { found: Seq<char> },
    BootstrapUv,
    CheckBootstrappedUv,
    CheckEngine,
    MakeEngineRoot,
    BootstrapEngine,
    CheckBootstrappedEngine,
    MakeCache,
    MakePythonCache,
    Setup,
    FindPython,
    MakeManifestRoot { python: Seq<char> },
    SaveManifest { python: Seq<char> },
    Finished { result: Result<(), Seq<char>> },
}

pub open spec fn unit_result(r: Result<(), String>) -> Result<(), Seq<char>> {
    match r {
        Ok(_) => Ok(()),
        Err(e) => Err(e@),
    }
}

impl View for InstallStage {
    type V = StageView;

    open spec fn view(&self) -> StageView {
        match self {
            InstallStage::MakeRoot => StageView::MakeRoot,
            InstallStage::MakeBin => StageView::MakeBin,
            InstallStage::CheckUv => StageView::CheckUv,
            InstallStage::LocateUv => StageView::LocateUv,
            InstallStage::CheckFound { found } => StageView::CheckFound { found: found@ },
            InstallStage::CopyFound { found } => StageView::CopyFound { found: found@ },
            InstallStage::BootstrapUv => StageView::BootstrapUv,
            InstallStage::CheckBootstrappedUv => StageView::CheckBootstrappedUv,
            InstallStage::CheckEngine => StageView::CheckEngine,
            InstallStage::MakeEngineRoot => StageView::MakeEngineRoot,
            InstallStage::BootstrapEngine => StageView::BootstrapEngine,
            InstallStage::CheckBootstrappedEngine => StageView::CheckBootstrappedEngine,
            InstallStage::MakeCache => StageView::MakeCache,
            InstallStage::MakePythonCache => StageView::MakePythonCache,
            InstallStage::Setup => StageView::Setup,
            InstallStage::FindPython => StageView::FindPython,
            InstallStage::MakeManifestRoot { python } => StageView::MakeManifestRoot {
                python: python@,
            },
            InstallStage::SaveManifest { python } => StageView::SaveManifest { python: python@ },
            InstallStage::Finished { result } => StageView::Finished { result: unit_result(*result) },
        }
    }
}

/// An installation of the runtime into `root`.
pub struct Installer {
    pub root: String,
    pub windows: bool,
    /// The `PATH` of the studio's environment.
    pub path_env: String,
    pub stage: InstallStage,
}

pub struct InstallerView {
    pub root: Seq<char>,
    pub windows: bool,
    pub path_env: Seq<char>,
    pub stage: StageView,
}

impl View for Installer {
    type V = InstallerView;

    open spec fn view(&self) -> InstallerView {
        InstallerView {
            root: self.root@,
            windows: self.windows,
            path_env: self.path_env@,
            stage: self.stage@,
        }
    }
}

/// An outside step that the installation asks for.
#[derive(Debug, PartialEq)]
pub enum InstallAction {
    /// Create the directory and its parents; answer `Done` or `Failed`.
    CreateDir { path: String },
    /// Answer `Exists` with whether the path exists.
    CheckExists { path: String },
    /// Run the program; answer `Ran`.
    RunCommand { program: String, args: Vec<String>, cwd: Option<String>, envs: Vec<(String, String)> },
    /// Run the script with `powershell.exe`; answer `Ran`.
    RunPowershell { script: String },
    /// Copy the file; answer `Done` or `Failed`.
    CopyFile { from: String, to: String },
    /// Look for the studio-managed interpreter in the runtime; answer `Python`.
    FindPython { runtime: String },
    /// Encode the manifest and write it; answer `Done`, `NotEncoded` or `Failed`.
    SaveManifest { path: String, manifest: RuntimeManifest },
    /// The installation is over.
    Finish { result: Result<(), String> },
}

pub enum ActionView {
    CreateDir { path: Seq<char> },
    CheckExists { path: Seq<char> },
    RunCommand {
        program: Seq<char>,
        args: Seq<Seq<char>>,
        cwd: Option<Seq<char>>,
        envs: Seq<(Seq<char>, Seq<char>)>,
    },
    RunPowershell { script: Seq<char> },
    CopyFile { from: Seq<char>, to: Seq<char> },
    FindPython { runtime: Seq<char> },
    SaveManifest {
        path: Seq<char>,
        engine: Seq<char>,
        engine_url: Seq<char>,
        python: Seq<char>,
        installed: bool,
    },
    Finish { result: Result<(), Seq<char>> },
}

pub open spec fn texts(v: Seq<String>) -> Seq<Seq<char>> {
    v.map_values(|s: String| s@)
}

pub open spec fn pairs(v: Seq<(String, String)>) -> Seq<(Seq<char>, Seq<char>)> {
    v.map_values(|p: (String, String)| (p.0@, p.1@))
}

impl View for InstallAction {
    type V = ActionView;

    open spec fn view(&self) -> ActionView {
        match self {
            InstallAction::CreateDir { path } => ActionView::CreateDir { path: path@ },
            InstallAction::CheckExists { path } => ActionView::CheckExists { path: path@ },
            InstallAction::RunCommand { program, args, cwd, envs } => ActionView::RunCommand {
                program: program@,
                args: texts(args@),
                cwd: match cwd {
                    Some(c) => Some(c@),
                    None => None,
                },
                envs: pairs(envs@),
            },
            InstallAction::RunPowershell { script } => ActionView::RunPowershell { script: script@ },
            InstallAction::CopyFile { from, to } => ActionView::CopyFile { from: from@, to: to@ },
            InstallAction::FindPython { runtime } => ActionView::FindPython { runtime: runtime@ },
            InstallAction::SaveManifest { path, manifest } => ActionView::SaveManifest {
                path: path@,
                engine: manifest.engine@,
                engine_url: manifest.engine_url@,
                python: manifest.python@,
                installed: manifest.installed,
            },
            InstallAction::Finish { result } => ActionView::Finish { result: unit_result(*result) },
        }
    }
}

/// The outcome of the step that was asked for.
#[derive(Debug, PartialEq)]
pub enum InstallEvent {
    Done,
    Failed { error: String },
    Exists { exists: bool },
    Ran { output: Result<CommandOutput, String> },
    Python { found: Option<String> },
    NotEncoded { error: String },
}

pub enum InstallEventView {
    Done,
    Failed { error: Seq<char> },
    Exists { exists: bool },
    Ran { output: Result<CommandOutput, Seq<char>> },
    Python { found: Option<Seq<char>> },
    NotEncoded { error: Seq<char> },
}

impl View for InstallEvent {
    type V = InstallEventView;

    open spec fn view(&self) -> InstallEventView {
        match self {
            InstallEvent::Done => InstallEventView::Done,
            InstallEvent::Failed { error } => InstallEventView::Failed { error: error@ },
            InstallEvent::Exists { exists } => InstallEventView::Exists { exists: *exists },
            InstallEvent::Ran { output } => InstallEventView::Ran { output: run_view(*output) },
            InstallEvent::Python { found } => InstallEventView::Python {
                found: match found {
                    Some(p) => Some(p@),
                    None => None,
                },
            },
            InstallEvent::NotEncoded { error } => InstallEventView::NotEncoded { error: error@ },
        }
    }
}

pub open spec fn uv_of(v: InstallerView) -> Seq<char> {
    joined(joined(v.root, "bin"@), if v.windows { "uv.exe"@ } else { "uv"@ })
}

pub open spec fn engine_of(v: InstallerView) -> Seq<char> {
    joined(v.root, "wan2gp"@)
}

pub open spec fn wgp_of(v: InstallerView) -> Seq<char> {
    joined(engine_of(v), "wgp.py"@)
}

/// The arguments of the engine's own setup, run with the package tool.
pub open spec fn setup_args() -> Seq<Seq<char>> {
    seq![
        "run"@,
        "--python"@,
        "3.11.14"@,
        "python"@,
        "setup.py"@,
        "install"@,
        "--env"@,
        "uv"@,
        "--auto"@,
    ]
}

/// The environment of the engine's setup: the package tool's caches in the
/// runtime, a plain UTF-8 unbuffered Python, and the tool's directory first
/// on `PATH`.
pub open spec fn setup_envs(v: InstallerView) -> Seq<(Seq<char>, Seq<char>)> {
    let uv_bin = match parent_of(uv_of(v)) {
        Some(p) => p,
        None => "."@,
    };
    seq![
        ("UV_CACHE_DIR"@, joined(v.root, "cache"@)),
        ("UV_PYTHON_INSTALL_DIR"@, joined(v.root, "python"@)),
        ("PYTHONNOUSERSITE"@, "1"@),
        ("PYTHONUTF8"@, "1"@),
        ("PYTHONUNBUFFERED"@, "1"@),
        ("PATH"@, uv_bin + ";"@ + v.path_env),
    ]
}

/// The step that an installation in state `v` asks for.
pub open spec fn action_of(v: InstallerView) -> ActionView {
    match v.stage {
        StageView::MakeRoot => ActionView::CreateDir { path: v.root },
        StageView::MakeBin => ActionView::CreateDir { path: joined(v.root, "bin"@) },
        StageView::CheckUv => ActionView::CheckExists { path: uv_of(v) },
        StageView::LocateUv => ActionView::RunCommand {
            program: if v.windows { "where.exe"@ } else { "which"@ },
            args: seq!["uv"@],
            cwd: None,
            envs: Seq::empty(),
        },
        StageView::CheckFound { found } => ActionView::CheckExists { path: found },
        StageView::CopyFound { found } => ActionView::CopyFile { from: found, to: uv_of(v) },
        StageView::BootstrapUv => ActionView::RunPowershell {
            script: uv_script(
                joined(v.root, "uv-bootstrap.zip"@),
                joined(v.root, "uv-bootstrap"@),
                uv_of(v),
            ),
        },
        StageView::CheckBootstrappedUv => ActionView::CheckExists { path: uv_of(v) },
        StageView::CheckEngine => ActionView::CheckExists { path: wgp_of(v) },
        StageView::MakeEngineRoot => ActionView::CreateDir { path: v.root },
        StageView::BootstrapEngine => ActionView::RunPowershell {
            script: engine_script(
                joined(v.root, "wan2gp-bootstrap.zip"@),
                joined(v.root, "wan2gp-bootstrap"@),
                engine_of(v),
            ),
        },
        StageView::CheckBootstrappedEngine => ActionView::CheckExists { path: wgp_of(v) },
        StageView::MakeCache => ActionView::CreateDir { path: joined(v.root, "cache"@) },
        StageView::MakePythonCache => ActionView::CreateDir { path: joined(v.root, "python"@) },
        StageView::Setup => ActionView::RunCommand {
            program: uv_of(v),
            args: setup_args(),
            cwd: Some(engine_of(v)),
            envs: setup_envs(v),
        },
        StageView::FindPython => ActionView::FindPython { runtime: v.root },
        StageView::MakeManifestRoot { python } => ActionView::CreateDir { path: v.root },
        StageView::SaveManifest { python } => ActionView::SaveManifest {
            path: joined(v.root, "runtime.json"@),
            engine: "Wan2GP"@,
            engine_url: engine_url(),
            python,
            installed: true,
        },
        StageView::Finished { result } => ActionView::Finish { result },
    }
}

pub open spec fn failed(msg: Seq<char>) -> StageView {
    StageView::Finished { result: Err(msg) }
}

pub open spec fn uv_unsupported() -> Seq<char> {
    "Automatic uv bootstrap is currently implemented for Windows builds."@
}

pub open spec fn engine_unsupported() -> Seq<char> {
    "The automatic archive bootstrap is currently implemented for Windows builds."@
}

pub open spec fn python_missing() -> Seq<char> {
    "Wan2GP setup completed but the Studio-managed Python environment was not found"@
}

/// Without a package tool found on `PATH`: bootstrap it on Windows, give up
/// elsewhere.
pub open spec fn uv_gate(windows: bool) -> StageView {
    if windows {
        StageView::BootstrapUv
    } else {
        failed(uv_unsupported())
    }
}

pub open spec fn ran_ok(output: Result<CommandOutput, Seq<char>>) -> bool {
    output matches Ok(o) && o.success
}

pub open spec fn as_option(output: Result<CommandOutput, Seq<char>>) -> Option<CommandOutput> {
    match output {
        Ok(o) => Some(o),
        Err(_) => None,
    }
}

/// The stage an installation moves to when the step it asked for ends with
/// `e`. An outcome of another kind than the step gives leaves it where it is.
pub open spec fn next_stage(v: InstallerView, e: InstallEventView) -> StageView {
    match (v.stage, e) {
        (StageView::MakeRoot, InstallEventView::Done) => StageView::MakeBin,
        (StageView::MakeRoot, InstallEventView::Failed { error }) => failed(
            "Failed to create runtime directory: "@ + error,
        ),
        (StageView::MakeBin, InstallEventView::Done) => StageView::CheckUv,
        (StageView::MakeBin, InstallEventView::Failed { error }) => failed(
            "Failed to create runtime bin: "@ + error,
        ),
        (StageView::CheckUv, InstallEventView::Exists { exists }) => if exists {
            StageView::CheckEngine
        } else {
            StageView::LocateUv
        },
        (StageView::LocateUv, InstallEventView::Ran { output }) => match first_line_text(
            as_option(output),
        ) {
            Some(found) => StageView::CheckFound { found },
            None => uv_gate(v.windows),
        },
        (StageView::CheckFound { found }, InstallEventView::Exists { exists }) => if exists {
            StageView::CopyFound { found }
        } else {
            uv_gate(v.windows)
        },
        (StageView::CopyFound { found }, InstallEventView::Done) => StageView::CheckEngine,
        (StageView::CopyFound { found }, InstallEventView::Failed { error }) => failed(
            "Failed to copy uv into Studio runtime: "@ + error,
        ),
        (StageView::BootstrapUv, InstallEventView::Ran { output }) => if ran_ok(output) {
            StageView::CheckBootstrappedUv
        } else {
            failed(powershell_failure_text(output))
        },
        (StageView::CheckBootstrappedUv, InstallEventView::Exists { exists }) => if exists {
            StageView::CheckEngine
        } else {
            failed("uv bootstrap completed but "@ + uv_of(v) + " was not created"@)
        },
        (StageView::CheckEngine, InstallEventView::Exists { exists }) => if exists {
            StageView::MakeCache
        } else {
            StageView::MakeEngineRoot
        },
        (StageView::MakeEngineRoot, InstallEventView::Done) => if v.windows {
            StageView::BootstrapEngine
        } else {
            failed(engine_unsupported())
        },
        (StageView::MakeEngineRoot, InstallEventView::Failed { error }) => failed(
            "Failed to create runtime directory: "@ + error,
        ),
        (StageView::BootstrapEngine, InstallEventView::Ran { output }) => if ran_ok(output) {
            StageView::CheckBootstrappedEngine
        } else {
            failed(powershell_failure_text(output))
        },
        (StageView::CheckBootstrappedEngine, InstallEventView::Exists { exists }) => if exists {
            StageView::MakeCache
        } else {
            failed("Wan2GP download completed but "@ + wgp_of(v) + " was not found"@)
        },
        (StageView::MakeCache, InstallEventView::Done) => StageView::MakePythonCache,
        (StageView::MakeCache, InstallEventView::Failed { error }) => failed(
            "Failed to create runtime cache: "@ + error,
        ),
        (StageView::MakePythonCache, InstallEventView::Done) => StageView::Setup,
        (StageView::MakePythonCache, InstallEventView::Failed { error }) => failed(
            "Failed to create runtime Python cache: "@ + error,
        ),
        (StageView::Setup, InstallEventView::Ran { output }) => if ran_ok(output) {
            StageView::FindPython
        } else {
            failed(command_failure_text(uv_of(v), output))
        },
        (StageView::FindPython, InstallEventView::Python { found }) => match found {
            Some(python) => StageView::MakeManifestRoot { python },
            None => failed(python_missing()),
        },
        (StageView::MakeManifestRoot { python }, InstallEventView::Done) => StageView::SaveManifest {
            python,
        },
        (StageView::MakeManifestRoot { python }, InstallEventView::Failed { error }) => failed(
            "Failed to create runtime directory: "@ + error,
        ),
        (StageView::SaveManifest { python }, InstallEventView::Done) => StageView::Finished {
            result: Ok(()),
        },
        (StageView::SaveManifest { python }, InstallEventView::NotEncoded { error }) => failed(
            "Failed to serialize runtime manifest: "@ + error,
        ),
        (StageView::SaveManifest { python }, InstallEventView::Failed { error }) => failed(
            "Failed to write runtime manifest: "@ + error,
        ),
        _ => v.stage,
    }
}

pub open spec fn install_step(v: InstallerView, e: InstallEventView) -> InstallerView {
    InstallerView { stage: next_stage(v, e), ..v }
}

fn finish_err(head: &str, error: &str) -> (r: InstallStage)
    ensures
        r@ == failed(head@ + error@),
{
    InstallStage::Finished { result: Err(concat2(head, error)) }
}

fn copy_text(s: &String) -> (r: String)
    ensures
        r@ == s@,
{
    s.clone()
}

impl Installer {
    /// Begins installing the runtime into `root`: the machine and the first
    /// step it asks for.
    pub fn install(root: &str, windows: bool, path_env: &str) -> (r: (Installer, InstallAction))
        ensures
            r.0@ == (InstallerView {
                root: root@,
                windows,
                path_env: path_env@,
                stage: StageView::MakeRoot,
            }),
            r.1@ == action_of(r.0@),
    {
        let m = Installer {
            root: String::from_str(root),
            windows,
            path_env: String::from_str(path_env),
            stage: InstallStage::MakeRoot,
        };
        let a = m.action();
        (m, a)
    }

    fn uv(&self) -> (r: String)
        ensures
            r@ == uv_of(self@),
    {
        uv_path(self.root.as_str(), self.windows)
    }

    fn engine(&self) -> (r: String)
        ensures
            r@ == engine_of(self@),
    {
        join_path(self.root.as_str(), "wan2gp")
    }

    fn wgp(&self) -> (r: String)
        ensures
            r@ == wgp_of(self@),
    {
        let e = self.engine();
        join_path(e.as_str(), "wgp.py")
    }

    /// The step that the installation asks for now.
    pub fn action(&self) -> (r: InstallAction)
        ensures
            r@ == action_of(self@),
    {
        let root = self.root.as_str();
        match &self.stage {
            InstallStage::MakeRoot => InstallAction::CreateDir { path: String::from_str(root) },
            InstallStage::MakeBin => InstallAction::CreateDir { path: join_path(root, "bin") },
            InstallStage::CheckUv => InstallAction::CheckExists { path: self.uv() },
            InstallStage::LocateUv => {
                let mut args: Vec<String> = Vec::new();
                args.push(String::from_str("uv"));
                let envs: Vec<(String, String)> = Vec::new();
                proof {
                    assert(texts(args@) =~= seq!["uv"@]);
                    assert(pairs(envs@) =~= Seq::<(Seq<char>, Seq<char>)>::empty());
                }
                InstallAction::RunCommand {
                    program: String::from_str(if self.windows { "where.exe" } else { "which" }),
                    args,
                    cwd: None,
                    envs,
                }
            },
            InstallStage::CheckFound { found } => InstallAction::CheckExists { path: copy_text(found) },
            InstallStage::CopyFound { found } => InstallAction::CopyFile {
                from: copy_text(found),
                to: self.uv(),
            },
            InstallStage::BootstrapUv => {
                let zip = join_path(root, "uv-bootstrap.zip");
                let extract = join_path(root, "uv-bootstrap");
                let uv = self.uv();
                InstallAction::RunPowershell {
                    script: build_uv_script(zip.as_str(), extract.as_str(), uv.as_str()),
                }
            },
            InstallStage::CheckBootstrappedUv => InstallAction::CheckExists { path: self.uv() },
            InstallStage::CheckEngine => InstallAction::CheckExists { path: self.wgp() },
            InstallStage::MakeEngineRoot => InstallAction::CreateDir { path: String::from_str(root) },
            InstallStage::BootstrapEngine => {
                let zip = join_path(root, "wan2gp-bootstrap.zip");
                let extract = join_path(root, "wan2gp-bootstrap");
                let engine = self.engine();
                InstallAction::RunPowershell {
                    script: build_engine_script(zip.as_str(), extract.as_str(), engine.as_str()),
                }
            },
            InstallStage::CheckBootstrappedEngine => InstallAction::CheckExists { path: self.wgp() },
            InstallStage::MakeCache => InstallAction::CreateDir { path: join_path(root, "cache") },
            InstallStage::MakePythonCache => InstallAction::CreateDir {
                path: join_path(root, "python"),
            },
            InstallStage::Setup => {
                let uv = self.uv();
                let mut args: Vec<String> = Vec::new();
                args.push(String::from_str("run"));
                args.push(String::from_str("--python"));
                args.push(String::from_str("3.11.14"));
                args.push(String::from_str("python"));
                args.push(String::from_str("setup.py"));
                args.push(String::from_str("install"));
                args.push(String::from_str("--env"));
                args.push(String::from_str("uv"));
                args.push(String::from_str("--auto"));
                let uv_bin = match parent_path(uv.as_str()) {
                    Some(p) => p,
                    None => String::from_str("."),
                };
                let path_value = concat3(uv_bin.as_str(), ";", self.path_env.as_str());
                let mut envs: Vec<(String, String)> = Vec::new();
                envs.push((String::from_str("UV_CACHE_DIR"), join_path(root, "cache")));
                envs.push((String::from_str("UV_PYTHON_INSTALL_DIR"), join_path(root, "python")));
                envs.push((String::from_str("PYTHONNOUSERSITE"), String::from_str("1")));
                envs.push((String::from_str("PYTHONUTF8"), String::from_str("1")));
                envs.push((String::from_str("PYTHONUNBUFFERED"), String::from_str("1")));
                envs.push((String::from_str("PATH"), path_value));
                proof {
                    assert(texts(args@) =~= setup_args());
                    assert(pairs(envs@) =~= setup_envs(self@));
                }
                InstallAction::RunCommand { program: uv, args, cwd: Some(self.engine()), envs }
            },
            InstallStage::FindPython => InstallAction::FindPython { runtime: String::from_str(root) },
            InstallStage::MakeManifestRoot { python } => InstallAction::CreateDir {
                path: String::from_str(root),
            },
            InstallStage::SaveManifest { python } => InstallAction::SaveManifest {
                path: crate::runtime::manifest::path(root),
                manifest: crate::runtime::manifest::write(copy_text(python)),
            },
            InstallStage::Finished { result } => InstallAction::Finish {
                result: match result {
                    Ok(_) => Ok(()),
                    Err(e) => Err(copy_text(e)),
                },
            },
        }
    }

    /// Takes the outcome of the step asked for, moves on, and gives the next
    /// step to take.
    pub fn next(&mut self, event: InstallEvent) -> (r: InstallAction)
        ensures
            final(self)@ == install_step(old(self)@, event@),
            r@ == action_of(final(self)@),
    {
        let stage = self.next_stage(&event);
        self.stage = stage;
        self.action()
    }

    fn gate(&self) -> (r: InstallStage)
        ensures
            r@ == uv_gate(self.windows),
    {
        if self.windows {
            InstallStage::BootstrapUv
        } else {
            InstallStage::Finished {
                result: Err(
                    String::from_str(
                        "Automatic uv bootstrap is currently implemented for Windows builds.",
                    ),
                ),
            }
        }
    }

    fn next_stage(&self, event: &InstallEvent) -> (r: InstallStage)
        ensures
            r@ == next_stage(self@, event@),
    {
        match (&self.stage, event) {
            (InstallStage::MakeRoot, InstallEvent::Done) => InstallStage::MakeBin,
            (InstallStage::MakeRoot, InstallEvent::Failed { error }) => finish_err(
                "Failed to create runtime directory: ",
                error.as_str(),
            ),
            (InstallStage::MakeBin, InstallEvent::Done) => InstallStage::CheckUv,
            (InstallStage::MakeBin, InstallEvent::Failed { error }) => finish_err(
                "Failed to create runtime bin: ",
                error.as_str(),
            ),
            (InstallStage::CheckUv, InstallEvent::Exists { exists }) => if *exists {
                InstallStage::CheckEngine
            } else {
                InstallStage::LocateUv
            },
            (InstallStage::LocateUv, InstallEvent::Ran { output }) => {
                let found = match output {
                    Ok(o) => first_line_of(o),
                    Err(_) => None,
                };
                match found {
                    Some(found) => InstallStage::CheckFound { found },
                    None => self.gate(),
                }
            },
            (InstallStage::CheckFound { found }, InstallEvent::Exists { exists }) => if *exists {
                InstallStage::CopyFound { found: copy_text(found) }
            } else {
                self.gate()
            },
            (InstallStage::CopyFound { found }, InstallEvent::Done) => InstallStage::CheckEngine,
            (InstallStage::CopyFound { found }, InstallEvent::Failed { error }) => finish_err(
                "Failed to copy uv into Studio runtime: ",
                error.as_str(),
            ),
            (InstallStage::BootstrapUv, InstallEvent::Ran { output }) => match powershell_result(
                output,
            ) {
                Ok(_) => InstallStage::CheckBootstrappedUv,
                Err(msg) => InstallStage::Finished { result: Err(msg) },
            },
            (InstallStage::CheckBootstrappedUv, InstallEvent::Exists { exists }) => if *exists {
                InstallStage::CheckEngine
            } else {
                let uv = self.uv();
                InstallStage::Finished {
                    result: Err(concat3("uv bootstrap completed but ", uv.as_str(), " was not created")),
                }
            },
            (InstallStage::CheckEngine, InstallEvent::Exists { exists }) => if *exists {
                InstallStage::MakeCache
            } else {
                InstallStage::MakeEngineRoot
            },
            (InstallStage::MakeEngineRoot, InstallEvent::Done) => if self.windows {
                InstallStage::BootstrapEngine
            } else {
                InstallStage::Finished {
                    result: Err(
                        String::from_str(
                            "The automatic archive bootstrap is currently implemented for Windows builds.",
                        ),
                    ),
                }
            },
            (InstallStage::MakeEngineRoot, InstallEvent::Failed { error }) => finish_err(
                "Failed to create runtime directory: ",
                error.as_str(),
            ),
            (InstallStage::BootstrapEngine, InstallEvent::Ran { output }) => match powershell_result(
                output,
            ) {
                Ok(_) => InstallStage::CheckBootstrappedEngine,
                Err(msg) => InstallStage::Finished { result: Err(msg) },
            },
            (InstallStage::CheckBootstrappedEngine, InstallEvent::Exists { exists }) => if *exists {
                InstallStage::MakeCache
            } else {
                let wgp = self.wgp();
                InstallStage::Finished {
                    result: Err(concat3("Wan2GP download completed but ", wgp.as_str(), " was not found")),
                }
            },
            (InstallStage::MakeCache, InstallEvent::Done) => InstallStage::MakePythonCache,
            (InstallStage::MakeCache, InstallEvent::Failed { error }) => finish_err(
                "Failed to create runtime cache: ",
                error.as_str(),
            ),
            (InstallStage::MakePythonCache, InstallEvent::Done) => InstallStage::Setup,
            (InstallStage::MakePythonCache, InstallEvent::Failed { error }) => finish_err(
                "Failed to create runtime Python cache: ",
                error.as_str(),
            ),
            (InstallStage::Setup, InstallEvent::Ran { output }) => {
                let uv = self.uv();
                match command_result(uv.as_str(), output) {
                    Ok(_) => InstallStage::FindPython,
                    Err(msg) => InstallStage::Finished { result: Err(msg) },
                }
            },
            (InstallStage::FindPython, InstallEvent::Python { found }) => match found {
                Some(python) => InstallStage::MakeManifestRoot { python: copy_text(python) },
                None => InstallStage::Finished {
                    result: Err(
                        String::from_str(
                            "Wan2GP setup completed but the Studio-managed Python environment was not found",
                        ),
                    ),
                },
            },
            (InstallStage::MakeManifestRoot { python }, InstallEvent::Done) => InstallStage::SaveManifest {
                python: copy_text(python),
            },
            (InstallStage::MakeManifestRoot { python }, InstallEvent::Failed { error }) => finish_err(
                "Failed to create runtime directory: ",
                error.as_str(),
            ),
            (InstallStage::SaveManifest { python }, InstallEvent::Done) => InstallStage::Finished {
                result: Ok(()),
            },
            (InstallStage::SaveManifest { python }, InstallEvent::NotEncoded { error }) => finish_err(
                "Failed to serialize runtime manifest: ",
                error.as_str(),
            ),
            (InstallStage::SaveManifest { python }, InstallEvent::Failed { error }) => finish_err(
                "Failed to write runtime manifest: ",
                error.as_str(),
            ),
            _ => self.same_stage(),
        }
    }

    fn same_stage(&self) -> (r: InstallStage)
        ensures
            r@ == self.stage@,
    {
        match &self.stage {
            InstallStage::MakeRoot => InstallStage::MakeRoot,
            InstallStage::MakeBin => InstallStage::MakeBin,
            InstallStage::CheckUv => InstallStage::CheckUv,
            InstallStage::LocateUv => InstallStage::LocateUv,
            InstallStage::CheckFound { found } => InstallStage::CheckFound { found: copy_text(found) },
            InstallStage::CopyFound { found } => InstallStage::CopyFound { found: copy_text(found) },
            InstallStage::BootstrapUv => InstallStage::BootstrapUv,
            InstallStage::CheckBootstrappedUv => InstallStage::CheckBootstrappedUv,
            InstallStage::CheckEngine => InstallStage::CheckEngine,
            InstallStage::MakeEngineRoot => InstallStage::MakeEngineRoot,
            InstallStage::BootstrapEngine => InstallStage::BootstrapEngine,
            InstallStage::CheckBootstrappedEngine => InstallStage::CheckBootstrappedEngine,
            InstallStage::MakeCache => InstallStage::MakeCache,
            InstallStage::MakePythonCache => InstallStage::MakePythonCache,
            InstallStage::Setup => InstallStage::Setup,
            InstallStage::FindPython => InstallStage::FindPython,
            InstallStage::MakeManifestRoot { python } => InstallStage::MakeManifestRoot {
                python: copy_text(python),
            },
            InstallStage::SaveManifest { python } => InstallStage::SaveManifest {
                python: copy_text(python),
            },
            InstallStage::Finished { result } => InstallStage::Finished {
                result: match result {
                    Ok(_) => Ok(()),
                    Err(e) => Err(copy_text(e)),
                },
            },
        }
    }
}

// ---------------------------------------------------------------------------
// Laws of the installation.
// ---------------------------------------------------------------------------

/// A finished installation stays finished with the same result, whatever
/// outcome it is handed.
pub proof fn law_finished_is_final(v: InstallerView, e: InstallEventView)
    requires
        v.stage is Finished,
    ensures
        install_step(v, e) == v,
{
}

/// An installation ends in success only right after its manifest was
/// written.
pub proof fn law_success_only_after_manifest(v: InstallerView, e: InstallEventView)
    requires
        install_step(v, e).stage == (StageView::Finished { result: Ok(()) }),
        !(v.stage is Finished),
    ensures
        v.stage is SaveManifest,
        e is Done,
{
}

/// The engine's setup runs only once both caches were created.
pub proof fn law_setup_after_caches(v: InstallerView, e: InstallEventView)
    requires
        install_step(v, e).stage is Setup,
        !(v.stage is Setup),
    ensures
        v.stage is MakePythonCache,
        e is Done,
{
}

/// The caches are created (and so the setup later runs) only once the
/// engine's `wgp.py` was found: the installation reaches the cache step only
/// from a check of the engine, or of the freshly downloaded engine, that found it.
pub proof fn law_caches_only_after_engine_found(v: InstallerView, e: InstallEventView)
    requires
        install_step(v, e).stage is MakeCache,
        !(v.stage is MakeCache),
    ensures
        v.stage is CheckEngine || v.stage is CheckBootstrappedEngine,
        e == (InstallEventView::Exists { exists: true }),
{
}

/// However uv was obtained (already in the runtime, copied from `PATH`, or
/// bootstrapped), the next thing checked is the engine.
pub proof fn law_engine_checked_after_uv(v: InstallerView)
    ensures
        v.stage is CheckUv ==> install_step(v, InstallEventView::Exists { exists: true }).stage
            is CheckEngine,
        v.stage is CopyFound ==> install_step(v, InstallEventView::Done).stage is CheckEngine,
        v.stage is CheckBootstrappedUv ==> install_step(
            v,
            InstallEventView::Exists { exists: true },
        ).stage is CheckEngine,
{
}
} // verus!
