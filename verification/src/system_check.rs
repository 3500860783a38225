//! The system check: what the studio needs on the machine, what it found,
//! and whether that is enough to start.
use vstd::prelude::*;
use crate::paths::{join_path, joined};
use crate::process::CommandOutput;

verus! {

/// One thing the studio looks for.
#[derive(Debug, Clone, PartialEq)]
pub struct CheckItem {
    pub name: String,
    pub status: String,
    pub detail: String,
    pub required: bool,
}

/// All that the studio looked for, and whether it can start.
#[derive(Debug, PartialEq)]
pub struct SystemCheck {
    pub ready: bool,
    pub items: Vec<CheckItem>,
}

pub open spec fn item_view(i: CheckItem) -> (Seq<char>, Seq<char>, Seq<char>, bool) {
    (i.name@, i.status@, i.detail@, i.required)
}

impl CheckItem {
    pub fn copy(&self) -> (r: CheckItem)
        ensures
            item_view(r) == item_view(*self),
    {
        CheckItem {
            name: self.name.clone(),
            status: self.status.clone(),
            detail: self.detail.clone(),
            required: self.required,
        }
    }
}

/// What was found on the machine.
#[derive(Debug, PartialEq)]
pub struct SystemProbe {
    /// The engine's directory.
    pub engine_root: String,
    /// The studio-managed interpreter, when one was found.
    pub managed_python: Option<String>,
    /// Whether the engine's entry script is in place.
    pub wan: bool,
    /// Whether the package tool is in the runtime or on `PATH`.
    pub uv: bool,
    /// The NVIDIA GPU reported, when one was.
    pub nvidia: Option<String>,
    /// Whether FFmpeg is on `PATH`.
    pub ffmpeg: bool,
}

/// The engine's directory: `WAN2GP_ROOT`, else `wan2gp` in the runtime.
pub fn engine_root(wan2gp_root: Option<String>, runtime_root: &str) -> (r: String)
    ensures
        r@ == match wan2gp_root {
            Some(v) => v@,
            None => joined(runtime_root@, "wan2gp"@),
        },
{
    match wan2gp_root {
        Some(v) => v,
        None => join_path(runtime_root, "wan2gp"),
    }
}

/// The program that tells whether a command is on `PATH`.
pub fn locator(windows: bool) -> (r: String)
    ensures
        r@ == (if windows { "where"@ } else { "which"@ }),
{
    String::from_str(if windows { "where" } else { "which" })
}

/// Whether a command is on `PATH`: the locator ran and succeeded.
pub fn command_exists(output: &Option<CommandOutput>) -> (r: bool)
    ensures
        r == (output matches Some(o) && o.success),
{
    match output {
        Some(o) => o.success,
        None => false,
    }
}

pub open spec fn ready_or(found: bool, otherwise: Seq<char>) -> Seq<char> {
    if found {
        "ready"@
    } else {
        otherwise
    }
}

/// The items of the check, in order: Python and Wan2GP (required), then
/// uv, GPU and FFmpeg.
pub open spec fn check_items(p: SystemProbe) -> Seq<(Seq<char>, Seq<char>, Seq<char>, bool)> {
    seq![
        (
            "Python"@,
            ready_or(p.managed_python is Some, "missing"@),
            match p.managed_python {
                Some(path) => path@,
                None => "Studio-managed Python 3.11 is not installed yet"@,
            },
            true,
        ),
        ("Wan2GP"@, ready_or(p.wan, "missing"@), p.engine_root@, true),
        (
            "uv"@,
            ready_or(p.uv, "missing"@),
            if p.uv {
                "Managed bootstrap tool available"@
            } else {
                "Studio will download uv automatically"@
            },
            false,
        ),
        (
            "GPU"@,
            ready_or(p.nvidia is Some, "limited"@),
            match p.nvidia {
                Some(g) => g@,
                None => "No NVIDIA GPU detected; Wan2GP may use another backend"@,
            },
            false,
        ),
        (
            "FFmpeg"@,
            ready_or(p.ffmpeg, "limited"@),
            if p.ffmpeg {
                "FFmpeg executable found"@
            } else {
                "Not found on PATH; export/render features may be limited"@
            },
            false,
        ),
    ]
}

/// Whether every required item is ready.
pub open spec fn all_required_ready(items: Seq<(Seq<char>, Seq<char>, Seq<char>, bool)>) -> bool {
    forall|k: int| 0 <= k < items.len() ==> (#[trigger] items[k]).3 ==> items[k].1 == "ready"@
}

fn item(name: &str, status: &str, detail: String, required: bool) -> (r: CheckItem)
    ensures
        item_view(r) == (name@, status@, detail@, required),
{
    CheckItem {
        name: String::from_str(name),
        status: String::from_str(status),
        detail,
        required,
    }
}

/// Runs the check over what was found: the items, and whether every
/// required one is ready.
pub fn run(probe: SystemProbe) -> (r: SystemCheck)
    ensures
        r.items@.map_values(|i: CheckItem| item_view(i)) == check_items(probe),
        r.ready == all_required_ready(check_items(probe)),
{
    let ghost p = probe;
    let mut items: Vec<CheckItem> = Vec::new();
    let python_found = probe.managed_python.is_some();
    let python_detail = match probe.managed_python {
        Some(path) => path,
        None => String::from_str("Studio-managed Python 3.11 is not installed yet"),
    };
    items.push(item("Python", if python_found { "ready" } else { "missing" }, python_detail, true));
    items.push(item("Wan2GP", if probe.wan { "ready" } else { "missing" }, probe.engine_root, true));
    items.push(
        item(
            "uv",
            if probe.uv { "ready" } else { "missing" },
            String::from_str(
                if probe.uv {
                    "Managed bootstrap tool available"
                } else {
                    "Studio will download uv automatically"
                },
            ),
            false,
        ),
    );
    let gpu_found = probe.nvidia.is_some();
    let gpu_detail = match probe.nvidia {
        Some(g) => g,
        None => String::from_str("No NVIDIA GPU detected; Wan2GP may use another backend"),
    };
    items.push(item("GPU", if gpu_found { "ready" } else { "limited" }, gpu_detail, false));
    items.push(
        item(
            "FFmpeg",
            if probe.ffmpeg { "ready" } else { "limited" },
            String::from_str(
                if probe.ffmpeg {
                    "FFmpeg executable found"
                } else {
                    "Not found on PATH; export/render features may be limited"
                },
            ),
            false,
        ),
    );
    assert(items@.map_values(|i: CheckItem| item_view(i)) =~= check_items(p));
    let ghost iv = items@.map_values(|i: CheckItem| item_view(i));
    let mut ready = true;
    let mut k: usize = 0;
    while k < items.len()
        invariant
            k <= items.len(),
            iv == items@.map_values(|i: CheckItem| item_view(i)),
            ready == (forall|j: int| 0 <= j < k ==> (#[trigger] iv[j]).3 ==> iv[j].1 == "ready"@),
        decreases items.len() - k,
    {
        assert(iv[k as int] == item_view(items@[k as int]));
        if items[k].required && items[k].status != String::from_str("ready") {
            ready = false;
        }
        k += 1;
    }
    SystemCheck { ready, items }
}

/// Each item of the check follows its own probe alone: Python is ready when
/// a managed interpreter was found, Wan2GP when the engine was, uv when uv
/// was, the GPU when an NVIDIA GPU was, FFmpeg when FFmpeg was; only Python
/// and Wan2GP are required.
pub proof fn law_each_item_follows_its_probe(p: SystemProbe)
    ensures
        ({
            let items = check_items(p);
            &&& items.len() == 5
            &&& items[0].0 == "Python"@ && items[0].3
            &&& items[0].1 == (if p.managed_python is Some { "ready"@ } else { "missing"@ })
            &&& items[1].0 == "Wan2GP"@ && items[1].3 && items[1].2 == p.engine_root@
            &&& items[1].1 == (if p.wan { "ready"@ } else { "missing"@ })
            &&& items[2].0 == "uv"@ && !items[2].3
            &&& items[2].1 == (if p.uv { "ready"@ } else { "missing"@ })
            &&& items[2].2 == (if p.uv {
                "Managed bootstrap tool available"@
            } else {
                "Studio will download uv automatically"@
            })
            &&& items[3].0 == "GPU"@ && !items[3].3
            &&& items[3].1 == (if p.nvidia is Some { "ready"@ } else { "limited"@ })
            &&& items[3].2 == match p.nvidia {
                Some(g) => g@,
                None => "No NVIDIA GPU detected; Wan2GP may use another backend"@,
            }
            &&& items[0].2 == match p.managed_python {
                Some(path) => path@,
                None => "Studio-managed Python 3.11 is not installed yet"@,
            }
            &&& items[4].0 == "FFmpeg"@ && !items[4].3
            &&& items[4].1 == (if p.ffmpeg { "ready"@ } else { "limited"@ })
            &&& items[4].2 == (if p.ffmpeg {
                "FFmpeg executable found"@
            } else {
                "Not found on PATH; export/render features may be limited"@
            })
        }),
{
}

/// The studio can start exactly when the managed interpreter and the engine
/// were both found.
pub proof fn law_ready_iff_python_and_engine(p: SystemProbe)
    ensures
        all_required_ready(check_items(p)) == (p.managed_python is Some && p.wan),
{
    reveal_strlit("ready");
    reveal_strlit("missing");
    assert("missing"@.len() == 7);
    assert("ready"@.len() == 5);
    assert("missing"@ != "ready"@);
    let items = check_items(p);
    if p.managed_python is Some && p.wan {
        assert forall|k: int| 0 <= k < items.len() implies (#[trigger] items[k]).3 ==> items[k].1
            == "ready"@ by {}
    } else if p.managed_python is None {
        assert(items[0].3 && items[0].1 != "ready"@);
    } else {
        assert(items[1].3 && items[1].1 != "ready"@);
    }
}

} // verus!
