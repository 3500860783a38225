//! The asset manifest: generated media recorded once per path, newest first.
use vstd::prelude::*;
use crate::json::{Json, JsonView, items_of, items_view, lemma_items_view, member, member_text, text_of};
use crate::paths::{join_path, joined};
use crate::text::{concat2, concat3, decimal, u64_to_text, usize_to_text};

verus! {

/// One generated file that the studio keeps.
#[derive(Debug, PartialEq)]
pub struct AssetRecord {
    pub id: String,
    pub path: String,
    pub media_type: String,
    pub model_type: String,
    pub created_at: u64,
}

pub struct AssetView {
    pub id: Seq<char>,
    pub path: Seq<char>,
    pub media_type: Seq<char>,
    pub model_type: Seq<char>,
    pub created_at: u64,
}

impl View for AssetRecord {
    type V = AssetView;

    open spec fn view(&self) -> AssetView {
        AssetView {
            id: self.id@,
            path: self.path@,
            media_type: self.media_type@,
            model_type: self.model_type@,
            created_at: self.created_at,
        }
    }
}

impl AssetRecord {
    pub fn copy(&self) -> (r: AssetRecord)
        ensures
            r@ == self@,
    {
        AssetRecord {
            id: self.id.clone(),
            path: self.path.clone(),
            media_type: self.media_type.clone(),
            model_type: self.model_type.clone(),
            created_at: self.created_at,
        }
    }
}

pub open spec fn assets_view(s: Seq<AssetRecord>) -> Seq<AssetView> {
    s.map_values(|a: AssetRecord| a@)
}

/// The manifest's file in the runtime directory.
pub fn manifest_path(runtime_dir: &str) -> (r: String)
    ensures
        r@ == joined(runtime_dir@, "assets.json"@),
{
    join_path(runtime_dir, "assets.json")
}

/// The entries of a manifest whose path is not `path`, in their order.
pub open spec fn drop_path(m: Seq<AssetView>, path: Seq<char>) -> Seq<AssetView>
    decreases m.len(),
{
    if m.len() == 0 {
        m
    } else {
        let rest = drop_path(m.drop_last(), path);
        if m.last().path != path {
            rest.push(m.last())
        } else {
            rest
        }
    }
}

/// The manifest once `asset` is recorded: the asset first, then every entry
/// of another path, in the order they had.
pub open spec fn recorded(manifest: Seq<AssetView>, asset: AssetView) -> Seq<AssetView> {
    seq![asset] + drop_path(manifest, asset.path)
}

/// Records `asset` in the manifest: it replaces any entry of the same path
/// and stands first.
pub fn record(manifest: Vec<AssetRecord>, asset: &AssetRecord) -> (r: Vec<AssetRecord>)
    ensures
        assets_view(r@) == recorded(assets_view(manifest@), asset@),
{
    let ghost mv = assets_view(manifest@);
    let mut out: Vec<AssetRecord> = Vec::new();
    out.push(asset.copy());
    let mut i: usize = 0;
    assert(mv.take(0) =~= Seq::<AssetView>::empty());
    assert(assets_view(out@) =~= seq![asset@] + drop_path(mv.take(0), asset.path@));
    while i < manifest.len()
        invariant
            i <= manifest.len(),
            mv == assets_view(manifest@),
            assets_view(out@) == seq![asset@] + drop_path(mv.take(i as int), asset.path@),
        decreases manifest.len() - i,
    {
        let ghost before = out@;
        assert(mv.take(i + 1).drop_last() =~= mv.take(i as int));
        assert(mv[i as int] == manifest@[i as int]@);
        if manifest[i].path != asset.path {
            out.push(manifest[i].copy());
            assert(assets_view(out@) =~= assets_view(before).push(manifest@[i as int]@));
        }
        i += 1;
    }
    assert(mv.take(manifest.len() as int) =~= mv);
    out
}

// ---------------------------------------------------------------------------
// Laws of the manifest.
// ---------------------------------------------------------------------------

/// Whether no two entries share a path.
pub open spec fn paths_unique(m: Seq<AssetView>) -> bool {
    forall|i: int, j: int| 0 <= i < j < m.len() ==> #[trigger] m[i].path != #[trigger] m[j].path
}

/// Every entry kept has another path and comes from the manifest, and the
/// kept entries keep unique paths when the manifest had them.
proof fn lemma_drop_path(m: Seq<AssetView>, p: Seq<char>)
    ensures
        drop_path(m, p).len() <= m.len(),
        forall|k: int|
            0 <= k < drop_path(m, p).len() ==> (#[trigger] drop_path(m, p)[k]).path != p,
        forall|k: int|
            0 <= k < drop_path(m, p).len() ==> exists|q: int|
                0 <= q < m.len() && m[q] == #[trigger] drop_path(m, p)[k],
        paths_unique(m) ==> paths_unique(drop_path(m, p)),
    decreases m.len(),
{
    if m.len() > 0 {
        let prev = m.drop_last();
        lemma_drop_path(prev, p);
        let d = drop_path(prev, p);
        let cur = drop_path(m, p);
        assert forall|k: int| 0 <= k < d.len() implies exists|q: int|
            0 <= q < m.len() && m[q] == #[trigger] d[k] by {
            let q = choose|q: int| 0 <= q < prev.len() && prev[q] == #[trigger] d[k];
            assert(m[q] == prev[q]);
        }
        if m.last().path != p {
            assert(cur == d.push(m.last()));
            assert forall|k: int| 0 <= k < cur.len() implies exists|q: int|
                0 <= q < m.len() && m[q] == #[trigger] cur[k] by {
                if k < d.len() {
                    assert(cur[k] == d[k]);
                } else {
                    assert(m[m.len() - 1] == cur[k]);
                }
            }
            if paths_unique(m) {
                assert(paths_unique(prev)) by {
                    assert forall|i: int, j: int| 0 <= i < j < prev.len() implies #[trigger] prev[i].path
                        != #[trigger] prev[j].path by {
                        assert(prev[i] == m[i] && prev[j] == m[j]);
                    }
                }
                assert forall|i: int, j: int| 0 <= i < j < cur.len() implies #[trigger] cur[i].path
                    != #[trigger] cur[j].path by {
                    assert(cur[i] == d[i]);
                    if j == cur.len() - 1 {
                        let q = choose|q: int| 0 <= q < prev.len() && prev[q] == #[trigger] d[i];
                        assert(m[q] == prev[q]);
                        assert(m[q].path != m[m.len() - 1].path);
                    } else {
                        assert(cur[j] == d[j]);
                    }
                }
            }
        } else {
            if paths_unique(m) {
                assert(paths_unique(prev)) by {
                    assert forall|i: int, j: int| 0 <= i < j < prev.len() implies #[trigger] prev[i].path
                        != #[trigger] prev[j].path by {
                        assert(prev[i] == m[i] && prev[j] == m[j]);
                    }
                }
            }
        }
    }
}

/// The recorded asset is the manifest's first entry, and no other entry has
/// its path.
pub proof fn law_record_puts_asset_first(m: Seq<AssetView>, asset: AssetView)
    ensures
        recorded(m, asset)[0] == asset,
        forall|k: int|
            1 <= k < recorded(m, asset).len() ==> (#[trigger] recorded(m, asset)[k]).path
                != asset.path,
{
    lemma_drop_path(m, asset.path);
    let f = drop_path(m, asset.path);
    assert forall|k: int| 1 <= k < recorded(m, asset).len() implies (#[trigger] recorded(
        m,
        asset,
    )[k]).path != asset.path by {
        assert(recorded(m, asset)[k] == f[k - 1]);
    }
}

/// Recording keeps the paths of the manifest unique.
pub proof fn law_record_keeps_paths_unique(m: Seq<AssetView>, asset: AssetView)
    requires
        paths_unique(m),
    ensures
        paths_unique(recorded(m, asset)),
{
    let f = drop_path(m, asset.path);
    lemma_drop_path(m, asset.path);
    let r = recorded(m, asset);
    assert forall|i: int, j: int| 0 <= i < j < r.len() implies #[trigger] r[i].path
        != #[trigger] r[j].path by {
        if i == 0 {
            assert(r[j] == f[j - 1]);
        } else {
            assert(r[i] == f[i - 1]);
            assert(r[j] == f[j - 1]);
        }
    }
}

proof fn lemma_drop_none(s: Seq<AssetView>, p: Seq<char>)
    requires
        forall|k: int| 0 <= k < s.len() ==> (#[trigger] s[k]).path != p,
    ensures
        drop_path(s, p) == s,
    decreases s.len(),
{
    if s.len() > 0 {
        lemma_drop_none(s.drop_last(), p);
        assert(drop_path(s, p) =~= s.drop_last().push(s.last()));
    }
}

proof fn lemma_drop_prepend(a: AssetView, s: Seq<AssetView>, p: Seq<char>)
    requires
        a.path == p,
    ensures
        drop_path(seq![a] + s, p) == drop_path(s, p),
    decreases s.len(),
{
    if s.len() == 0 {
        assert(seq![a] + s =~= seq![a]);
        assert(seq![a].drop_last() =~= Seq::<AssetView>::empty());
        assert(drop_path(seq![a].drop_last(), p) =~= Seq::<AssetView>::empty());
        assert(drop_path(seq![a], p) =~= Seq::<AssetView>::empty());
        assert(drop_path(s, p) =~= Seq::<AssetView>::empty());
    } else {
        lemma_drop_prepend(a, s.drop_last(), p);
        assert((seq![a] + s).drop_last() =~= seq![a] + s.drop_last());
        assert((seq![a] + s).last() == s.last());
    }
}

/// Recording the same asset twice leaves the manifest as recording it once.
pub proof fn law_record_idempotent(m: Seq<AssetView>, asset: AssetView)
    ensures
        recorded(recorded(m, asset), asset) == recorded(m, asset),
{
    let f = drop_path(m, asset.path);
    lemma_drop_path(m, asset.path);
    lemma_drop_prepend(asset, f, asset.path);
    lemma_drop_none(f, asset.path);
}

// ---------------------------------------------------------------------------
// Assets from a finished generation.
// ---------------------------------------------------------------------------

/// The media type that the generation's `artifacts` give for `path`: that of
/// the first artifact of this path, or `unknown`.
pub open spec fn media_type_for(result: JsonView, path: Seq<char>) -> Seq<char> {
    match member(result, "artifacts"@) {
        Some(a) => match items_of(a) {
            Some(arts) => match first_artifact(arts, path, 0) {
                Some(k) => match member_text(arts[k], "media_type"@) {
                    Some(t) => t,
                    None => "unknown"@,
                },
                None => "unknown"@,
            },
            None => "unknown"@,
        },
        None => "unknown"@,
    }
}

/// The index of the first artifact from `i` on whose `path` is `path`.
pub open spec fn first_artifact(arts: Seq<JsonView>, path: Seq<char>, i: int) -> Option<int>
    decreases arts.len() - i,
{
    if i < 0 || i >= arts.len() {
        None
    } else if member_text(arts[i], "path"@) == Some(path) {
        Some(i)
    } else {
        first_artifact(arts, path, i + 1)
    }
}

/// The id of the `index`th generated file of a generation made at `created_at`.
pub open spec fn generation_id(created_at: u64, index: nat) -> Seq<char> {
    "generation-"@ + decimal(created_at as nat) + "-"@ + decimal(index)
}

/// The records for the first `n` entries of `generated_files`: one for each
/// entry that is a string.
pub open spec fn generation_records(
    result: JsonView,
    files: Seq<JsonView>,
    model_type: Seq<char>,
    created_at: u64,
    n: int,
) -> Seq<AssetView>
    decreases n,
{
    if n <= 0 || n > files.len() {
        Seq::empty()
    } else {
        let prev = generation_records(result, files, model_type, created_at, n - 1);
        match text_of(files[n - 1]) {
            Some(path) => prev.push(
                AssetView {
                    id: generation_id(created_at, (n - 1) as nat),
                    path,
                    media_type: media_type_for(result, path),
                    model_type,
                    created_at,
                },
            ),
            None => prev,
        }
    }
}

/// The records that a generation result yields.
pub open spec fn records_of_generation(result: JsonView, model_type: Seq<char>, created_at: u64) -> Seq<
    AssetView,
> {
    match member(result, "generated_files"@) {
        Some(g) => match items_of(g) {
            Some(files) => generation_records(
                result,
                files,
                model_type,
                created_at,
                files.len() as int,
            ),
            None => Seq::empty(),
        },
        None => Seq::empty(),
    }
}

#[verifier::loop_isolation(false)]
fn media_type_of(result: &Json, path: &str) -> (r: String)
    ensures
        r@ == media_type_for(result@, path@),
{
    match result.get("artifacts") {
        Some(a) => match a.as_array() {
            Some(arts) => {
                proof {
                    lemma_items_view(arts@);
                }
                let ghost av = items_view(arts@);
                let mut i: usize = 0;
                while i < arts.len()
                    invariant
                        i <= arts.len(),
                        av == items_view(arts@),
                        av.len() == arts@.len(),
                        forall|k: int| 0 <= k < arts@.len() ==> #[trigger] av[k] == arts@[k]@,
                        first_artifact(av, path@, 0) == first_artifact(av, path@, i as int),
                    decreases arts.len() - i,
                {
                    let matches = match arts[i].get_str("path") {
                        Some(p) => crate::text::same_text(p, path),
                        None => false,
                    };
                    if matches {
                        return match arts[i].get_str("media_type") {
                            Some(t) => String::from_str(t),
                            None => String::from_str("unknown"),
                        };
                    }
                    i += 1;
                }
                String::from_str("unknown")
            },
            None => String::from_str("unknown"),
        },
        None => String::from_str("unknown"),
    }
}

/// The asset records of a finished generation: one per generated file path,
/// numbered by the file's position, typed by the matching artifact.
pub fn from_generation(result: &Json, model_type: &str, created_at: u64) -> (r: Vec<AssetRecord>)
    ensures
        assets_view(r@) == records_of_generation(result@, model_type@, created_at),
{
    let mut out: Vec<AssetRecord> = Vec::new();
    let files = match result.get("generated_files") {
        Some(g) => match g.as_array() {
            Some(files) => files,
            None => {
                assert(assets_view(out@) =~= Seq::<AssetView>::empty());
                return out;
            },
        },
        None => {
            assert(assets_view(out@) =~= Seq::<AssetView>::empty());
            return out;
        },
    };
    proof {
        lemma_items_view(files@);
    }
    let ghost fv = items_view(files@);
    let stamp = u64_to_text(created_at);
    let prefix = concat3("generation-", stamp.as_str(), "-");
    let mut i: usize = 0;
    assert(assets_view(out@) =~= Seq::<AssetView>::empty());
    while i < files.len()
        invariant
            i <= files.len(),
            fv == items_view(files@),
            fv.len() == files@.len(),
            forall|k: int| 0 <= k < files@.len() ==> #[trigger] fv[k] == files@[k]@,
            prefix@ == "generation-"@ + decimal(created_at as nat) + "-"@,
            assets_view(out@) == generation_records(result@, fv, model_type@, created_at, i as int),
        decreases files.len() - i,
    {
        let ghost before = out@;
        match files[i].as_str() {
            Some(path) => {
                let num = usize_to_text(i);
                let id = concat2(prefix.as_str(), num.as_str());
                let media_type = media_type_of(result, path);
                out.push(
                    AssetRecord {
                        id,
                        path: String::from_str(path),
                        media_type,
                        model_type: String::from_str(model_type),
                        created_at,
                    },
                );
                assert(assets_view(out@) =~= assets_view(before).push(out@.last()@));
            },
            None => {},
        }
        i += 1;
    }
    out
}

} // verus!
