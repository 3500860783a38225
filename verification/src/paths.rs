//! Paths as text: joining and parents as `std::path` computes them, and the
//! choice of a path among candidates, some of which must exist on disk.
use vstd::prelude::*;

verus! {

/// What `Path::join` gives for a base and a relative part, as text
/// (on the platform the library is built for).
pub uninterp spec fn joined(base: Seq<char>, part: Seq<char>) -> Seq<char>;

/// What `Path::parent` gives for a path, as text.
pub uninterp spec fn parent_of(path: Seq<char>) -> Option<Seq<char>>;

/// `Path::join`: `part` appended to `base` with the platform's separator.
/// The contract names the result; the separator rules are not stated.
#[verifier::external_body]
pub fn join_path(base: &str, part: &str) -> (r: String)
    ensures
        r@ == joined(base@, part@),
{
    std::path::Path::new(base).join(part).to_string_lossy().into_owned()
}

/// `Path::parent`: the path without its last component, `None` at a root or
/// for the empty path. The contract names the result.
#[verifier::external_body]
pub fn parent_path(path: &str) -> (r: Option<String>)
    ensures
        match r {
            Some(p) => parent_of(path@) == Some(p@),
            None => parent_of(path@) is None,
        },
{
    std::path::Path::new(path).parent().map(|p| p.to_string_lossy().into_owned())
}

/// `base` joined with each of `parts` in turn.
pub open spec fn joined_all(base: Seq<char>, parts: Seq<Seq<char>>) -> Seq<char>
    decreases parts.len(),
{
    if parts.len() == 0 {
        base
    } else {
        joined(joined_all(base, parts.drop_last()), parts.last())
    }
}

/// A candidate path. A `checked` candidate is taken only when it exists;
/// an unchecked one is taken as it is.
#[derive(Debug, PartialEq)]
pub struct Probe {
    pub path: String,
    pub checked: bool,
}

pub open spec fn probe_view(p: Probe) -> (Seq<char>, bool) {
    (p.path@, p.checked)
}

pub open spec fn probes_view(ps: Seq<Probe>) -> Seq<(Seq<char>, bool)> {
    ps.map_values(|p: Probe| probe_view(p))
}

/// The first candidate from `i` on that can be taken, given which of them
/// exist.
pub open spec fn first_taken(ps: Seq<(Seq<char>, bool)>, exists: Seq<bool>, i: int) -> Option<int>
    decreases ps.len() - i,
{
    if i < 0 || i >= ps.len() {
        None
    } else if !ps[i].1 || (i < exists.len() && exists[i]) {
        Some(i)
    } else {
        first_taken(ps, exists, i + 1)
    }
}

/// The path chosen among candidates: the first that can be taken, or the
/// fallback when none can.
pub open spec fn chosen_path(ps: Seq<(Seq<char>, bool)>, exists: Seq<bool>, fallback: Seq<char>) -> Seq<
    char,
> {
    match first_taken(ps, exists, 0) {
        Some(i) => ps[i].0,
        None => fallback,
    }
}

/// Chooses a path among candidates: the first unchecked one, or checked one
/// that exists (`exists[i]` tells whether candidate `i` does), else `fallback`.
pub fn choose_path(probes: &Vec<Probe>, exists: &Vec<bool>, fallback: String) -> (r: String)
    ensures
        r@ == chosen_path(probes_view(probes@), exists@, fallback@),
{
    let ghost pv = probes_view(probes@);
    let mut i: usize = 0;
    while i < probes.len()
        invariant
            i <= probes.len(),
            pv == probes_view(probes@),
            pv.len() == probes@.len(),
            first_taken(pv, exists@, 0) == first_taken(pv, exists@, i as int),
        decreases probes.len() - i,
    {
        assert(pv[i as int] == probe_view(probes@[i as int]));
        if !probes[i].checked || (i < exists.len() && exists[i]) {
            return probes[i].path.clone();
        }
        i += 1;
    }
    fallback
}

/// The places where `relative` is looked for from `start` upward: `start`
/// joined with it, then each parent in turn, at most `n` places.
pub open spec fn upward(start: Seq<char>, relative: Seq<char>, n: nat) -> Seq<Seq<char>>
    decreases n,
{
    if n == 0 {
        Seq::empty()
    } else {
        seq![joined(start, relative)] + match parent_of(start) {
            Some(p) => upward(p, relative, (n - 1) as nat),
            None => Seq::empty(),
        }
    }
}

/// The checked candidates for `relative` from `start` upward, at most `n`.
pub fn upward_probes(start: &str, relative: &str, n: u32) -> (r: Vec<Probe>)
    ensures
        probes_view(r@) == upward(start@, relative@, n as nat).map_values(
            |p: Seq<char>| (p, true),
        ),
{
    let mut out: Vec<Probe> = Vec::new();
    let mut dir = String::from_str(start);
    let mut left = n;
    loop
        invariant
            probes_view(out@) + upward(dir@, relative@, left as nat).map_values(
                |p: Seq<char>| (p, true),
            ) == upward(start@, relative@, n as nat).map_values(|p: Seq<char>| (p, true)),
        decreases left,
    {
        if left == 0 {
            assert(probes_view(out@) =~= probes_view(out@) + upward(
                dir@,
                relative@,
                left as nat,
            ).map_values(|p: Seq<char>| (p, true)));
            return out;
        }
        let candidate = join_path(dir.as_str(), relative);
        let ghost before = out@;
        let ghost old_dir = dir@;
        out.push(Probe { path: candidate, checked: true });
        assert(probes_view(out@) =~= probes_view(before).push((joined(old_dir, relative@), true)));
        match parent_path(dir.as_str()) {
            Some(p) => {
                dir = p;
                left = left - 1;
                assert(upward(old_dir, relative@, (left + 1) as nat) == seq![
                    joined(old_dir, relative@),
                ] + upward(dir@, relative@, left as nat));
                assert(upward(old_dir, relative@, (left + 1) as nat).map_values(
                    |p: Seq<char>| (p, true),
                ) =~= seq![(joined(old_dir, relative@), true)] + upward(
                    dir@,
                    relative@,
                    left as nat,
                ).map_values(|p: Seq<char>| (p, true)));
                assert(probes_view(before) + seq![(joined(old_dir, relative@), true)] + upward(
                    dir@,
                    relative@,
                    left as nat,
                ).map_values(|p: Seq<char>| (p, true)) =~= probes_view(out@) + upward(
                    dir@,
                    relative@,
                    left as nat,
                ).map_values(|p: Seq<char>| (p, true)));
            },
            None => {
                assert(upward(old_dir, relative@, left as nat) == seq![
                    joined(old_dir, relative@),
                ]);
                assert(upward(old_dir, relative@, left as nat).map_values(|p: Seq<char>| (p, true))
                    =~= seq![(joined(old_dir, relative@), true)]);
                return out;
            },
        }
    }
}

} // verus!
