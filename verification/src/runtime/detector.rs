//! Finding the studio-managed interpreter, the package tool and the GPU.
use vstd::prelude::*;
use crate::paths::{join_path, joined, joined_all};
use crate::process::{CommandOutput, first_line, first_line_text, lossy_text, text_of_bytes};
use crate::text::{concat2, same_text, trim, trimmed};

verus! {

/// The GPU that `nvidia-smi` reports: the first line of its output, trimmed,
/// when it ran, succeeded and that line is not blank.
pub fn nvidia_gpu(output: &Option<CommandOutput>) -> (r: Option<String>)
    ensures
        match r {
            Some(s) => first_line_text(*output) == Some(s@),
            None => first_line_text(*output) is None,
        },
{
    first_line(output)
}

/// The places where the studio-managed interpreter may be, in the order
/// they are tried: the engine's environment, the studio's Python, the
/// studio's venv, first with Windows then with Unix layouts.
pub open spec fn python_places(runtime: Seq<char>) -> Seq<Seq<char>> {
    seq![
        joined_all(runtime, seq!["wan2gp"@, "env_uv"@, "Scripts"@, "python.exe"@]),
        joined_all(runtime, seq!["python"@, "python.exe"@]),
        joined_all(runtime, seq!["venv"@, "Scripts"@, "python.exe"@]),
        joined_all(runtime, seq!["wan2gp"@, "env_uv"@, "bin"@, "python"@]),
        joined_all(runtime, seq!["python"@, "bin"@, "python"@]),
        joined_all(runtime, seq!["venv"@, "bin"@, "python"@]),
    ]
}

fn join_all(base: &str, parts: &[&str]) -> (r: String)
    ensures
        r@ == joined_all(base@, parts@.map_values(|p: &str| p@)),
{
    let mut acc = String::from_str(base);
    let mut i: usize = 0;
    while i < parts.len()
        invariant
            i <= parts.len(),
            acc@ == joined_all(base@, parts@.take(i as int).map_values(|p: &str| p@)),
        decreases parts.len() - i,
    {
        let ghost before = parts@.take(i as int).map_values(|p: &str| p@);
        acc = join_path(acc.as_str(), parts[i]);
        proof {
            let now = parts@.take(i + 1).map_values(|p: &str| p@);
            assert(now.drop_last() =~= before);
            assert(now.last() == parts@[i as int]@);
        }
        i += 1;
    }
    assert(parts@.take(parts.len() as int) =~= parts@);
    acc
}

/// The candidate interpreters under `runtime`, in the order they are tried.
pub fn python_candidates(runtime: &str) -> (r: Vec<String>)
    ensures
        r@.len() == 6,
        forall|i: int| 0 <= i < 6 ==> #[trigger] r@[i]@ == python_places(runtime@)[i],
{
    let a: [&str; 4] = ["wan2gp", "env_uv", "Scripts", "python.exe"];
    let b: [&str; 2] = ["python", "python.exe"];
    let c: [&str; 3] = ["venv", "Scripts", "python.exe"];
    let d: [&str; 4] = ["wan2gp", "env_uv", "bin", "python"];
    let e: [&str; 3] = ["python", "bin", "python"];
    let f: [&str; 3] = ["venv", "bin", "python"];
    let mut v: Vec<String> = Vec::new();
    v.push(join_all(runtime, &a));
    v.push(join_all(runtime, &b));
    v.push(join_all(runtime, &c));
    v.push(join_all(runtime, &d));
    v.push(join_all(runtime, &e));
    v.push(join_all(runtime, &f));
    assert(a@.map_values(|p: &str| p@) =~= seq!["wan2gp"@, "env_uv"@, "Scripts"@, "python.exe"@]);
    assert(b@.map_values(|p: &str| p@) =~= seq!["python"@, "python.exe"@]);
    assert(c@.map_values(|p: &str| p@) =~= seq!["venv"@, "Scripts"@, "python.exe"@]);
    assert(d@.map_values(|p: &str| p@) =~= seq!["wan2gp"@, "env_uv"@, "bin"@, "python"@]);
    assert(e@.map_values(|p: &str| p@) =~= seq!["python"@, "bin"@, "python"@]);
    assert(f@.map_values(|p: &str| p@) =~= seq!["venv"@, "bin"@, "python"@]);
    v
}

/// The index of the first usable candidate from `i` on.
pub open spec fn first_usable(usable: Seq<bool>, n: int, i: int) -> Option<int>
    decreases n - i,
{
    if i < 0 || i >= n || i >= usable.len() {
        None
    } else if usable[i] {
        Some(i)
    } else {
        first_usable(usable, n, i + 1)
    }
}

/// The studio-managed interpreter: the first candidate that exists and
/// answers `--version` with success (`usable[i]` tells whether candidate `i`
/// does).
pub fn find_python(candidates: &Vec<String>, usable: &Vec<bool>) -> (r: Option<String>)
    ensures
        match first_usable(usable@, candidates@.len() as int, 0) {
            Some(i) => r matches Some(p) && p@ == candidates@[i]@,
            None => r is None,
        },
{
    let mut i: usize = 0;
    while i < candidates.len() && i < usable.len()
        invariant
            i <= candidates.len(),
            first_usable(usable@, candidates@.len() as int, 0) == first_usable(
                usable@,
                candidates@.len() as int,
                i as int,
            ),
        decreases candidates.len() - i,
    {
        if usable[i] {
            return Some(candidates[i].clone());
        }
        i += 1;
    }
    None
}

/// The arguments that ask an interpreter for its version; the `py` launcher
/// is asked for Python 3.11.
pub fn python_version_args(python: &str) -> (r: Vec<String>)
    ensures
        python@ == "py"@ ==> r@.map_values(|a: String| a@) == seq!["-3.11"@, "--version"@],
        python@ != "py"@ ==> r@.map_values(|a: String| a@) == seq!["--version"@],
{
    let mut v: Vec<String> = Vec::new();
    if same_text(python, "py") {
        v.push(String::from_str("-3.11"));
    }
    v.push(String::from_str("--version"));
    assert(python@ == "py"@ ==> v@.map_values(|a: String| a@) =~= seq!["-3.11"@, "--version"@]);
    assert(python@ != "py"@ ==> v@.map_values(|a: String| a@) =~= seq!["--version"@]);
    v
}

/// The version an interpreter reports: its standard output followed by its
/// standard error, trimmed, whenever it could be launched.
pub fn python_version(output: &Option<CommandOutput>) -> (r: Option<String>)
    ensures
        match output {
            Some(o) => r matches Some(s) && s@ == trimmed(
                lossy_text(o.stdout@) + lossy_text(o.stderr@),
            ),
            None => r is None,
        },
{
    match output {
        Some(o) => {
            let out = text_of_bytes(o.stdout.as_slice());
            let err = text_of_bytes(o.stderr.as_slice());
            let all = concat2(out.as_str(), err.as_str());
            Some(trim(all.as_str()))
        },
        None => None,
    }
}

/// The package tool's place in the runtime: `bin/uv.exe` on Windows,
/// `bin/uv` elsewhere.
pub fn uv_path(runtime: &str, windows: bool) -> (r: String)
    ensures
        r@ == joined(joined(runtime@, "bin"@), if windows { "uv.exe"@ } else { "uv"@ }),
{
    let bin = join_path(runtime, "bin");
    if windows {
        join_path(bin.as_str(), "uv.exe")
    } else {
        join_path(bin.as_str(), "uv")
    }
}

} // verus!
