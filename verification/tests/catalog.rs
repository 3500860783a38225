use creator_studio::capabilities::{contains_any, detect, probe_names, root};
use creator_studio::model_catalog::{adapter_script, discover, entries, field, CatalogProbe};
use creator_studio::models;
use creator_studio::json::{parse_json, Json};
use creator_studio::process::CommandOutput;

fn out(success: bool, stdout: &str, stderr: &str) -> CommandOutput {
    CommandOutput { success, status: String::new(), stdout: stdout.as_bytes().to_vec(), stderr: stderr.as_bytes().to_vec() }
}

#[test]
fn catalog_entries_take_first_string_field() {
    let raw = parse_json(
        r#"[{"model_type": "ltx", "title": "LTX", "task": "video", "available": false},
            {"name": 3, "label": "L"},
            "odd"]"#,
    )
    .unwrap();
    let e = entries(&raw);
    assert_eq!(e.len(), 3);
    assert_eq!((e[0].id.as_str(), e[0].label.as_str(), e[0].kind.as_str(), e[0].available), ("ltx", "LTX", "video", false));
    assert_eq!((e[1].id.as_str(), e[1].label.as_str(), e[1].kind.as_str(), e[1].available), ("model-1", "L", "unknown", true));
    assert_eq!((e[2].id.as_str(), e[2].label.as_str()), ("model-2", "model-2"));
    assert_eq!(e[2].metadata, Json::Str("odd".into()));
    assert!(entries(&parse_json("{}").unwrap()).is_empty());
    assert_eq!(field(&parse_json(r#"{"b": "x"}"#).unwrap(), &["a", "b"], "f".into()), "x");
}

#[test]
fn catalog_discovery_outcomes() {
    let c = discover("R", "S", "py", CatalogProbe::RootMissing);
    assert_eq!(c.error.as_deref(), Some("Wan2GP root not found: R"));
    assert_eq!(c.source, "wan2gp-api");
    assert_eq!(discover("R", "S", "py", CatalogProbe::ScriptMissing).error.as_deref(), Some("Wan2GP adapter not found: S"));
    assert_eq!(
        discover("R", "S", "py", CatalogProbe::Ran { output: Err("e".into()) }).error.as_deref(),
        Some("Failed to invoke Wan2GP adapter with py: e")
    );
    assert_eq!(discover("R", "S", "py", CatalogProbe::Ran { output: Ok(out(false, "", " bad ")) }).error.as_deref(), Some("bad"));
    assert!(discover("R", "S", "py", CatalogProbe::Ran { output: Ok(out(true, "{", "")) }).error.unwrap().starts_with("Invalid model catalog: "));
    let c = discover("R", "S", "py", CatalogProbe::Ran { output: Ok(out(true, r#"[{"id": "a"}]"#, "")) });
    assert_eq!(c.error, None);
    assert_eq!(c.models[0].id, "a");
    assert_eq!(adapter_script(None, None, None), "engine/wan-gp-adapter/wan_gp_api.py");
    assert_eq!(adapter_script(Some("a".into()), Some("b".into()), None), "a");
}

#[test]
fn model_discovery_outcomes() {
    let d = models::discover("R", "S", models::DiscoveryProbe::RootMissing);
    assert_eq!((d.status.as_str(), d.detail.as_str()), ("unavailable", "WanGP root not found: R"));
    let d = models::discover("R", "S", models::DiscoveryProbe::LaunchFailed);
    assert_eq!(d.detail, "Unable to start Python WanGP API adapter");
    let d = models::discover("R", "S", models::DiscoveryProbe::Ran { output: out(true, "[1, {}]", "") });
    assert_eq!((d.status.as_str(), d.detail.as_str(), d.models.len()), ("available", "WanGP API returned 2 model definitions", 2));
    let d = models::discover("R", "S", models::DiscoveryProbe::Ran { output: out(true, "{}", "") });
    assert!(d.detail.starts_with("Invalid response from WanGP API adapter: "));
    assert_eq!(models::adapter_script(None), "engine/wan-gp-adapter/wan_gp_api.py");
}

#[test]
fn capabilities_follow_markers() {
    assert_eq!(root(None, None), "Wan2GP");
    assert_eq!(root(None, Some("b".into())), "b");
    assert_eq!(probe_names().len(), 14);
    let present = vec!["app.py".to_string(), "Deepy".to_string()];
    assert!(contains_any(&present, &["x", "app.py"]));
    assert!(!contains_any(&present, &["deepy"]));
    let c = detect("W", &present);
    let status: Vec<&str> = c.capabilities.iter().map(|x| x.status.as_str()).collect();
    assert_eq!(status, vec!["available", "unknown", "unknown", "available", "unknown"]);
    assert_eq!(c.engine, "Wan2GP");
    assert_eq!(c.root, "W");
    assert_eq!(c.capabilities[3].detail, "Deepy is treated as an engine capability, not a separate bundled model");
}
