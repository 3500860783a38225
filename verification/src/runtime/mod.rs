//! The studio-managed runtime: where it lives, whether it is ready, and how
//! it is installed.
pub mod detector;
pub mod installer;

pub mod manifest;

use vstd::prelude::*;
use crate::paths::{join_path, joined, parent_of, parent_path};

verus! {

/// What the studio reports of its runtime.
#[derive(Debug, Clone, PartialEq)]
pub struct RuntimeStatus {
    pub ready: bool,
    pub phase: String,
    pub detail: String,
    pub runtime_dir: String,
    pub engine_dir: String,
    pub python: Option<String>,
    pub gpu: Option<String>,
}

pub open spec fn opt_text(o: Option<String>) -> Option<Seq<char>> {
    match o {
        Some(s) => Some(s@),
        None => None,
    }
}

/// Where the runtime lives: under `AI_CREATOR_STUDIO_ROOT` when it is set;
/// in a development build, beside the studio's source tree; else beside the
/// executable; else `runtime`.
pub open spec fn runtime_root(
    studio_root: Option<Seq<char>>,
    dev_manifest_dir: Option<Seq<char>>,
    exe: Option<Seq<char>>,
) -> Seq<char> {
    match studio_root {
        Some(r) => joined(r, "runtime"@),
        None => {
            let dev = match dev_manifest_dir {
                Some(m) => match parent_of(m) {
                    Some(s) => match parent_of(s) {
                        Some(p) => Some(joined(p, "runtime"@)),
                        None => None,
                    },
                    None => None,
                },
                None => None,
            };
            match dev {
                Some(d) => d,
                None => match exe {
                    Some(e) => match parent_of(e) {
                        Some(p) => joined(p, "runtime"@),
                        None => "runtime"@,
                    },
                    None => "runtime"@,
                },
            }
        },
    }
}

/// The runtime directory, from `AI_CREATOR_STUDIO_ROOT`, the source tree of
/// a development build (`dev_manifest_dir`, absent in release builds) and the
/// executable's path.
pub fn root(studio_root: Option<String>, dev_manifest_dir: Option<String>, exe: Option<String>) -> (r: String)
    ensures
        r@ == runtime_root(opt_text(studio_root), opt_text(dev_manifest_dir), opt_text(exe)),
{
    if let Some(path) = studio_root {
        return join_path(path.as_str(), "runtime");
    }
    if let Some(manifest_root) = dev_manifest_dir {
        if let Some(studio) = parent_path(manifest_root.as_str()) {
            if let Some(p) = parent_path(studio.as_str()) {
                return join_path(p.as_str(), "runtime");
            }
        }
    }
    if let Some(e) = exe {
        if let Some(parent) = parent_path(e.as_str()) {
            return join_path(parent.as_str(), "runtime");
        }
    }
    String::from_str("runtime")
}

/// The status of the runtime at `runtime`: ready or not installed, with the
/// interpreter and GPU that were found.
pub fn status(runtime: &str, python: Option<String>, gpu: Option<String>, ready: bool) -> (r: RuntimeStatus)
    ensures
        r.ready == ready,
        r.phase@ == (if ready { "ready"@ } else { "not_installed"@ }),
        r.detail@ == (if ready {
            "Wan2GP runtime is installed"@
        } else {
            "Wan2GP runtime is not installed"@
        }),
        r.runtime_dir@ == runtime@,
        r.engine_dir@ == joined(runtime@, "wan2gp"@),
        opt_text(r.python) == opt_text(python),
        opt_text(r.gpu) == opt_text(gpu),
{
    RuntimeStatus {
        ready,
        phase: String::from_str(if ready { "ready" } else { "not_installed" }),
        detail: String::from_str(
            if ready {
                "Wan2GP runtime is installed"
            } else {
                "Wan2GP runtime is not installed"
            },
        ),
        runtime_dir: String::from_str(runtime),
        engine_dir: join_path(runtime, "wan2gp"),
        python,
        gpu,
    }
}

/// The outcome of an installation: its error, or the status read after it.
pub fn install(installed: Result<(), String>, after: RuntimeStatus) -> (r: Result<RuntimeStatus, String>)
    ensures
        match installed {
            Ok(_) => r == Ok::<RuntimeStatus, String>(after),
            Err(e) => r == Err::<RuntimeStatus, String>(e),
        },
{
    match installed {
        Ok(_) => Ok(after),
        Err(e) => Err(e),
    }
}

} // verus!
