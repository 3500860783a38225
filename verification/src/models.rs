//! Model discovery through the adapter's model listing: the raw definitions
//! it returns, and a status that says whether it could be read.
use vstd::prelude::*;
use crate::json::{Json, JsonView, items_view, json_items_of_bytes, parse_json_items};
use crate::paths::{join_path, joined};
use crate::process::{CommandOutput, err_text, stderr_text};
use crate::text::{concat2, concat3, decimal, usize_to_text};

verus! {

/// One model definition, as the adapter returned it.
#[derive(Debug, PartialEq)]
pub struct ModelRecord {
    pub raw: Json,
}

/// The outcome of a model discovery.
#[derive(Debug, PartialEq)]
pub struct ModelDiscovery {
    pub status: String,
    pub detail: String,
    pub models: Vec<ModelRecord>,
}

pub open spec fn records_view(s: Seq<ModelRecord>) -> Seq<JsonView> {
    s.map_values(|m: ModelRecord| m.raw@)
}

/// The adapter script: under `AI_CREATOR_STUDIO_ROOT` when it is set, else
/// the relative path.
pub fn adapter_script(studio_root: Option<String>) -> (r: String)
    ensures
        r@ == match studio_root {
            Some(v) => joined(v@, "engine/wan-gp-adapter/wan_gp_api.py"@),
            None => "engine/wan-gp-adapter/wan_gp_api.py"@,
        },
{
    match studio_root {
        Some(v) => join_path(v.as_str(), "engine/wan-gp-adapter/wan_gp_api.py"),
        None => String::from_str("engine/wan-gp-adapter/wan_gp_api.py"),
    }
}

/// The arguments that ask the adapter for its model definitions.
pub fn listing_args(script: &str, root: &str) -> (r: Vec<String>)
    ensures
        r@.map_values(|s: String| s@) == seq![script@, "--root"@, root@, "models"@],
{
    let mut args: Vec<String> = Vec::new();
    args.push(String::from_str(script));
    args.push(String::from_str("--root"));
    args.push(String::from_str(root));
    args.push(String::from_str("models"));
    assert(args@.map_values(|s: String| s@) =~= seq![script@, "--root"@, root@, "models"@]);
    args
}

/// What was learned while asking the adapter for its model definitions.
#[derive(Debug, PartialEq)]
pub enum DiscoveryProbe {
    RootMissing,
    ScriptMissing,
    /// The interpreter could not be started.
    LaunchFailed,
    Ran { output: CommandOutput },
}

/// The discovery from what was learned: unavailable with the reason, or
/// available with every definition of the adapter's array.
pub fn discover(root: &str, script: &str, probe: DiscoveryProbe) -> (r: ModelDiscovery)
    ensures
        match probe {
            DiscoveryProbe::RootMissing => r.status@ == "unavailable"@ && r.detail@ == "WanGP root not found: "@
                + root@ && r.models@.len() == 0,
            DiscoveryProbe::ScriptMissing => r.status@ == "unavailable"@ && r.detail@
                == "Adapter script not found: "@ + script@ && r.models@.len() == 0,
            DiscoveryProbe::LaunchFailed => r.status@ == "unavailable"@ && r.detail@
                == "Unable to start Python WanGP API adapter"@ && r.models@.len() == 0,
            DiscoveryProbe::Ran { output } => if !output.success {
                r.status@ == "unavailable"@ && r.detail@ == err_text(output) && r.models@.len() == 0
            } else {
                match json_items_of_bytes(output.stdout@) {
                    Ok(items) => r.status@ == "available"@ && r.detail@ == "WanGP API returned "@
                        + decimal(items.len()) + " model definitions"@ && records_view(r.models@)
                        == items,
                    Err(m) => r.status@ == "unavailable"@ && r.detail@
                        == "Invalid response from WanGP API adapter: "@ + m && r.models@.len() == 0,
                }
            },
        },
{
    let unavailable = "unavailable";
    match probe {
        DiscoveryProbe::RootMissing => ModelDiscovery {
            status: String::from_str(unavailable),
            detail: concat2("WanGP root not found: ", root),
            models: Vec::new(),
        },
        DiscoveryProbe::ScriptMissing => ModelDiscovery {
            status: String::from_str(unavailable),
            detail: concat2("Adapter script not found: ", script),
            models: Vec::new(),
        },
        DiscoveryProbe::LaunchFailed => ModelDiscovery {
            status: String::from_str(unavailable),
            detail: String::from_str("Unable to start Python WanGP API adapter"),
            models: Vec::new(),
        },
        DiscoveryProbe::Ran { output } => {
            if !output.success {
                return ModelDiscovery {
                    status: String::from_str(unavailable),
                    detail: stderr_text(&output),
                    models: Vec::new(),
                };
            }
            match parse_json_items(output.stdout.as_slice()) {
                Ok(values) => {
                    let n = usize_to_text(values.len());
                    let detail = concat3("WanGP API returned ", n.as_str(), " model definitions");
                    proof {
                        crate::json::lemma_items_view(values@);
                    }
                    let ghost vv = items_view(values@);
                    let mut models: Vec<ModelRecord> = Vec::new();
                    let mut i: usize = 0;
                    while i < values.len()
                        invariant
                            i <= values.len(),
                            vv == items_view(values@),
                            vv.len() == values@.len(),
                            forall|k: int| 0 <= k < values@.len() ==> #[trigger] vv[k] == values@[k]@,
                            records_view(models@) == vv.take(i as int),
                        decreases values.len() - i,
                    {
                        let ghost before = models@;
                        models.push(ModelRecord { raw: values[i].copy() });
                        assert(records_view(models@) =~= records_view(before).push(vv[i as int]));
                        assert(vv.take(i + 1) =~= vv.take(i as int).push(vv[i as int]));
                        i += 1;
                    }
                    assert(vv.take(values.len() as int) =~= vv);
                    ModelDiscovery { status: String::from_str("available"), detail, models }
                },
                Err(m) => ModelDiscovery {
                    status: String::from_str(unavailable),
                    detail: concat2("Invalid response from WanGP API adapter: ", m.as_str()),
                    models: Vec::new(),
                },
            }
        },
    }
}

} // verus!
