//! Where the project document is kept in the runtime directory.
use vstd::prelude::*;
use crate::paths::{join_path, joined};

verus! {

/// The project document's file.
pub fn project_path(runtime_dir: &str) -> (r: String)
    ensures
        r@ == joined(runtime_dir@, "project.json"@),
{
    join_path(runtime_dir, "project.json")
}

/// The file a new project document is written to before it replaces the
/// old one.
pub fn project_temp_path(runtime_dir: &str) -> (r: String)
    ensures
        r@ == joined(runtime_dir@, "project.json.tmp"@),
{
    join_path(runtime_dir, "project.json.tmp")
}

} // verus!
