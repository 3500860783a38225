//! The runtime manifest: the record left in the runtime directory once the
//! engine and its interpreter are installed.
use vstd::prelude::*;
use crate::paths::{join_path, joined};

verus! {

/// What the runtime directory records of an installation.
#[derive(Debug, PartialEq)]
pub struct RuntimeManifest {
    pub engine: String,
    pub engine_url: String,
    pub python: String,
    pub installed: bool,
}

/// The repository the engine comes from.
pub open spec fn engine_url() -> Seq<char> {
    "https://github.com/deepbeepmeep/Wan2GP.git"@
}

/// The manifest's file in the runtime directory `root`.
pub fn path(root: &str) -> (r: String)
    ensures
        r@ == joined(root@, "runtime.json"@),
{
    join_path(root, "runtime.json")
}

/// Whether the runtime is ready: its manifest was read and says installed,
/// and the engine's entry script is in place.
pub fn is_ready(manifest: &Option<RuntimeManifest>, engine_present: bool) -> (r: bool)
    ensures
        r == (manifest matches Some(m) && m.installed && engine_present),
{
    match manifest {
        Some(m) => m.installed && engine_present,
        None => false,
    }
}

/// The manifest written once the engine is installed with `python`.
pub fn write(python: String) -> (r: RuntimeManifest)
    ensures
        r.engine@ == "Wan2GP"@,
        r.engine_url@ == engine_url(),
        r.python@ == python@,
        r.installed,
{
    RuntimeManifest {
        engine: String::from_str("Wan2GP"),
        engine_url: String::from_str("https://github.com/deepbeepmeep/Wan2GP.git"),
        python,
        installed: true,
    }
}

} // verus!
