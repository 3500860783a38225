//! The model catalog: the models that the engine's adapter lists, each with
//! an id, a label, a kind and whether it is available.
use vstd::prelude::*;
use crate::json::{Json, JsonView, bool_of, items_view, json_of_bytes, lemma_items_view, member, member_text, parse_json_bytes};
use crate::paths::{join_path, joined};
use crate::process::{CommandOutput, err_text, stderr_text};
use crate::text::{concat2, decimal, usize_to_text};

verus! {

/// One model of the catalog; `metadata` is the adapter's whole entry.
#[derive(Debug, PartialEq)]
pub struct ModelEntry {
    pub id: String,
    pub label: String,
    pub kind: String,
    pub available: bool,
    pub metadata: Json,
}

/// The catalog, where it came from, and the error that left it empty.
#[derive(Debug, PartialEq)]
pub struct ModelCatalog {
    pub models: Vec<ModelEntry>,
    pub source: String,
    pub error: Option<String>,
}

pub struct EntryView {
    pub id: Seq<char>,
    pub label: Seq<char>,
    pub kind: Seq<char>,
    pub available: bool,
    pub metadata: JsonView,
}

pub open spec fn entry_view(e: ModelEntry) -> EntryView {
    EntryView { id: e.id@, label: e.label@, kind: e.kind@, available: e.available, metadata: e.metadata@ }
}

pub open spec fn entries_view(s: Seq<ModelEntry>) -> Seq<EntryView> {
    s.map_values(|e: ModelEntry| entry_view(e))
}

/// The adapter script: `AI_CREATOR_WANGP_ADAPTER`, else
/// `AI_CREATOR_WAN2GP_ADAPTER`, else the script under
/// `AI_CREATOR_STUDIO_ROOT`, else the relative path.
pub fn adapter_script(adapter: Option<String>, wan2gp_adapter: Option<String>, studio_root: Option<String>) -> (r: String)
    ensures
        r@ == match adapter {
            Some(v) => v@,
            None => match wan2gp_adapter {
                Some(v) => v@,
                None => match studio_root {
                    Some(v) => joined(v@, "engine/wan-gp-adapter/wan_gp_api.py"@),
                    None => "engine/wan-gp-adapter/wan_gp_api.py"@,
                },
            },
        },
{
    if let Some(v) = adapter {
        return v;
    }
    if let Some(v) = wan2gp_adapter {
        return v;
    }
    if let Some(v) = studio_root {
        return join_path(v.as_str(), "engine/wan-gp-adapter/wan_gp_api.py");
    }
    String::from_str("engine/wan-gp-adapter/wan_gp_api.py")
}

/// The text of the first of `keys` whose member is a string, else `fallback`.
pub open spec fn field_of(v: JsonView, keys: Seq<Seq<char>>, fallback: Seq<char>) -> Seq<char>
    decreases keys.len(),
{
    if keys.len() == 0 {
        fallback
    } else {
        match member_text(v, keys[0]) {
            Some(t) => t,
            None => field_of(v, keys.drop_first(), fallback),
        }
    }
}

/// The text of the first of `keys` whose member of `v` is a string, else
/// `fallback`.
pub fn field(v: &Json, keys: &[&str], fallback: String) -> (r: String)
    ensures
        r@ == field_of(v@, keys@.map_values(|k: &str| k@), fallback@),
{
    let ghost ks = keys@.map_values(|k: &str| k@);
    let mut i: usize = 0;
    assert(ks.skip(0) =~= ks);
    while i < keys.len()
        invariant
            i <= keys.len(),
            ks == keys@.map_values(|k: &str| k@),
            field_of(v@, ks, fallback@) == field_of(v@, ks.skip(i as int), fallback@),
        decreases keys.len() - i,
    {
        assert(ks.skip(i as int)[0] == keys@[i as int]@);
        assert(ks.skip(i as int).drop_first() =~= ks.skip(i + 1));
        match v.get_str(keys[i]) {
            Some(t) => {
                return String::from_str(t);
            },
            None => {},
        }
        i += 1;
    }
    assert(ks.skip(i as int).len() == 0);
    fallback
}

pub open spec fn id_keys() -> Seq<Seq<char>> {
    seq!["model_type"@, "id"@, "name"@, "model_name"@]
}

pub open spec fn label_keys() -> Seq<Seq<char>> {
    seq!["label"@, "title"@, "name"@, "model_type"@]
}

pub open spec fn kind_keys() -> Seq<Seq<char>> {
    seq!["kind"@, "type"@, "task"@, "model_type"@]
}

/// The catalog entry for the adapter's `i`th item.
pub open spec fn catalog_entry(item: JsonView, i: nat) -> EntryView {
    let id = field_of(item, id_keys(), "model-"@ + decimal(i));
    EntryView {
        id,
        label: field_of(item, label_keys(), id),
        kind: field_of(item, kind_keys(), "unknown"@),
        available: match member(item, "available"@) {
            Some(a) => match bool_of(a) {
                Some(b) => b,
                None => true,
            },
            None => true,
        },
        metadata: item,
    }
}

/// An item whose `model_type` member is a string has that string as its id,
/// whatever else it names; its label is its `label` member when that is a
/// string, its kind its `kind` member when that is a string, and it is
/// available unless its `available` member is `false`; an item with none of
/// `model_type`, `id`, `name`, `model_name` as a string is named `model-` and
/// its index.
pub proof fn law_entry_id_is_model_type(item: JsonView, i: nat)
    ensures
        member_text(item, "model_type"@) matches Some(t) ==> catalog_entry(item, i).id == t,
        member_text(item, "id"@) matches Some(t) ==> (member_text(item, "model_type"@) is None
            ==> catalog_entry(item, i).id == t),
        member_text(item, "label"@) matches Some(l) ==> catalog_entry(item, i).label == l,
        member_text(item, "kind"@) matches Some(k) ==> catalog_entry(item, i).kind == k,
        member(item, "available"@) matches Some(a) ==> (bool_of(a) matches Some(b)
            ==> catalog_entry(item, i).available == b),
        member(item, "available"@) is None ==> catalog_entry(item, i).available,
        catalog_entry(item, i).metadata == item,
        member_text(item, "model_type"@) is None && member_text(item, "id"@) is None
            && member_text(item, "name"@) is None && member_text(item, "model_name"@) is None
            ==> catalog_entry(item, i).id == "model-"@ + decimal(i),
{
    reveal_with_fuel(field_of, 5);
    let ks = id_keys();
    assert(ks.drop_first() =~= seq!["id"@, "name"@, "model_name"@]);
    assert(ks.drop_first().drop_first() =~= seq!["name"@, "model_name"@]);
    assert(ks.drop_first().drop_first().drop_first() =~= seq!["model_name"@]);
    assert(ks.drop_first().drop_first().drop_first().drop_first() =~= Seq::<Seq<char>>::empty());
}


/// The entries that the adapter's answer yields: one per item of a top-level
/// array, none for any other document.
pub open spec fn catalog_entries(raw: JsonView) -> Seq<EntryView> {
    match raw {
        JsonView::Array(items) => Seq::new(items.len(), |i: int| catalog_entry(items[i], i as nat)),
        _ => Seq::empty(),
    }
}

fn entry_of(item: &Json, i: usize) -> (r: ModelEntry)
    ensures
        entry_view(r) == catalog_entry(item@, i as nat),
{
    let num = usize_to_text(i);
    let fallback = concat2("model-", num.as_str());
    let id_names: [&str; 4] = ["model_type", "id", "name", "model_name"];
    let label_names: [&str; 4] = ["label", "title", "name", "model_type"];
    let kind_names: [&str; 4] = ["kind", "type", "task", "model_type"];
    assert(id_names@.map_values(|k: &str| k@) =~= id_keys());
    assert(label_names@.map_values(|k: &str| k@) =~= label_keys());
    assert(kind_names@.map_values(|k: &str| k@) =~= kind_keys());
    let id = field(item, &id_names, fallback);
    let label = field(item, &label_names, id.clone());
    let kind = field(item, &kind_names, String::from_str("unknown"));
    let available = match item.get("available") {
        Some(a) => match a.as_bool() {
            Some(b) => b,
            None => true,
        },
        None => true,
    };
    ModelEntry { id, label, kind, available, metadata: item.copy() }
}

/// The catalog entries of the adapter's answer.
pub fn entries(raw: &Json) -> (r: Vec<ModelEntry>)
    ensures
        entries_view(r@) == catalog_entries(raw@),
{
    let mut out: Vec<ModelEntry> = Vec::new();
    match raw {
        Json::Array(items) => {
            proof {
                lemma_items_view(items@);
            }
            let ghost iv = items_view(items@);
            let mut i: usize = 0;
            while i < items.len()
                invariant
                    i <= items.len(),
                    iv == items_view(items@),
                    iv.len() == items@.len(),
                    forall|k: int| 0 <= k < items@.len() ==> #[trigger] iv[k] == items@[k]@,
                    entries_view(out@) == Seq::new(i as nat, |k: int| catalog_entry(iv[k], k as nat)),
                decreases items.len() - i,
            {
                let e = entry_of(&items[i], i);
                let ghost before = out@;
                out.push(e);
                assert(entries_view(out@) =~= entries_view(before).push(entry_view(e)));
                assert(iv[i as int] == items@[i as int]@);
                assert(entries_view(out@) =~= Seq::new((i + 1) as nat, |k: int| catalog_entry(iv[k], k as nat)));
                i += 1;
            }
            assert(entries_view(out@) =~= catalog_entries(raw@));
        },
        _ => {
            assert(entries_view(out@) =~= catalog_entries(raw@));
        },
    }
    out
}

pub open spec fn texts(v: Seq<String>) -> Seq<Seq<char>> {
    v.map_values(|s: String| s@)
}

pub open spec fn pairs(v: Seq<(String, String)>) -> Seq<(Seq<char>, Seq<char>)> {
    v.map_values(|p: (String, String)| (p.0@, p.1@))
}

/// How the adapter is asked for its models: its `models` command with the
/// engine's root, in a plain UTF-8 unbuffered Python without user site
/// packages.
pub fn catalog_command(script: &str, root: &str) -> (r: (Vec<String>, Vec<(String, String)>))
    ensures
        texts(r.0@) == seq![script@, "--root"@, root@, "models"@],
        pairs(r.1@) == seq![
            ("PYTHONNOUSERSITE"@, "1"@),
            ("PYTHONUTF8"@, "1"@),
            ("PYTHONUNBUFFERED"@, "1"@),
        ],
{
    let mut args: Vec<String> = Vec::new();
    args.push(String::from_str(script));
    args.push(String::from_str("--root"));
    args.push(String::from_str(root));
    args.push(String::from_str("models"));
    let mut envs: Vec<(String, String)> = Vec::new();
    envs.push((String::from_str("PYTHONNOUSERSITE"), String::from_str("1")));
    envs.push((String::from_str("PYTHONUTF8"), String::from_str("1")));
    envs.push((String::from_str("PYTHONUNBUFFERED"), String::from_str("1")));
    assert(texts(args@) =~= seq![script@, "--root"@, root@, "models"@]);
    assert(pairs(envs@) =~= seq![
        ("PYTHONNOUSERSITE"@, "1"@),
        ("PYTHONUTF8"@, "1"@),
        ("PYTHONUNBUFFERED"@, "1"@),
    ]);
    (args, envs)
}

/// What was learned while asking the adapter for its models.
#[derive(Debug, PartialEq)]
pub enum CatalogProbe {
    /// The engine's directory does not exist.
    RootMissing,
    /// The adapter script does not exist.
    ScriptMissing,
    /// The adapter ran to its end, or could not be launched.
    Ran { output: Result<CommandOutput, String> },
}

pub open spec fn catalog_error(c: ModelCatalog) -> Option<Seq<char>> {
    match c.error {
        Some(e) => Some(e@),
        None => None,
    }
}

/// The catalog from what was learned: an empty catalog with the error when
/// the engine or the adapter is missing, when the adapter could not be
/// launched, failed, or answered something that is not JSON; otherwise one
/// entry per item of the answer.
pub fn discover(root: &str, script: &str, python: &str, probe: CatalogProbe) -> (r: ModelCatalog)
    ensures
        r.source@ == "wan2gp-api"@,
        match probe {
            CatalogProbe::RootMissing => r.models@.len() == 0 && catalog_error(r) == Some(
                "Wan2GP root not found: "@ + root@,
            ),
            CatalogProbe::ScriptMissing => r.models@.len() == 0 && catalog_error(r) == Some(
                "Wan2GP adapter not found: "@ + script@,
            ),
            CatalogProbe::Ran { output } => match output {
                Err(e) => r.models@.len() == 0 && catalog_error(r) == Some(
                    "Failed to invoke Wan2GP adapter with "@ + python@ + ": "@ + e@,
                ),
                Ok(o) => if !o.success {
                    r.models@.len() == 0 && catalog_error(r) == Some(err_text(o))
                } else {
                    match json_of_bytes(o.stdout@) {
                        Err(m) => r.models@.len() == 0 && catalog_error(r) == Some(
                            "Invalid model catalog: "@ + m,
                        ),
                        Ok(raw) => catalog_error(r) is None && entries_view(r.models@)
                            == catalog_entries(raw),
                    }
                },
            },
        },
{
    let source = String::from_str("wan2gp-api");
    match probe {
        CatalogProbe::RootMissing => ModelCatalog {
            models: Vec::new(),
            source,
            error: Some(concat2("Wan2GP root not found: ", root)),
        },
        CatalogProbe::ScriptMissing => ModelCatalog {
            models: Vec::new(),
            source,
            error: Some(concat2("Wan2GP adapter not found: ", script)),
        },
        CatalogProbe::Ran { output } => match output {
            Err(e) => {
                let head = concat2("Failed to invoke Wan2GP adapter with ", python);
                let msg = crate::text::concat3(head.as_str(), ": ", e.as_str());
                ModelCatalog { models: Vec::new(), source, error: Some(msg) }
            },
            Ok(o) => {
                if !o.success {
                    return ModelCatalog { models: Vec::new(), source, error: Some(stderr_text(&o)) };
                }
                match parse_json_bytes(o.stdout.as_slice()) {
                    Err(m) => ModelCatalog {
                        models: Vec::new(),
                        source,
                        error: Some(concat2("Invalid model catalog: ", m.as_str())),
                    },
                    Ok(raw) => ModelCatalog { models: entries(&raw), source, error: None },
                }
            },
        },
    }
}

} // verus!
