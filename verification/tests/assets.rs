use creator_studio::assets::{from_generation, record, AssetRecord};
use creator_studio::json::parse_json;

fn asset(id: &str, path: &str) -> AssetRecord {
    AssetRecord {
        id: id.to_string(),
        path: path.to_string(),
        media_type: "video".to_string(),
        model_type: "ltx".to_string(),
        created_at: 5,
    }
}

#[test]
fn record_puts_new_asset_first_and_drops_same_path() {
    let manifest = vec![asset("1", "a.mp4"), asset("2", "b.mp4"), asset("3", "a.mp4")];
    let out = record(manifest, &asset("4", "a.mp4"));
    let ids: Vec<&str> = out.iter().map(|a| a.id.as_str()).collect();
    assert_eq!(ids, vec!["4", "2"]);
}

#[test]
fn record_is_idempotent() {
    let manifest = vec![asset("1", "a.mp4"), asset("2", "b.mp4")];
    let once = record(manifest, &asset("9", "b.mp4"));
    let twice = record(once.iter().map(|a| a.copy()).collect(), &asset("9", "b.mp4"));
    assert_eq!(once, twice);
}

#[test]
fn generation_records_follow_files_and_artifacts() {
    let result = parse_json(
        r#"{"generated_files": ["out/a.mp4", 7, "out/b.png"],
            "artifacts": [{"path": "out/b.png", "media_type": "image"},
                          {"path": "out/a.mp4"},
                          {"path": "out/a.mp4", "media_type": "video"}]}"#,
    )
    .unwrap();
    let recs = from_generation(&result, "ltx", 1700000000);
    assert_eq!(recs.len(), 2);
    assert_eq!(recs[0].id, "generation-1700000000-0");
    assert_eq!(recs[0].path, "out/a.mp4");
    assert_eq!(recs[0].media_type, "unknown");
    assert_eq!(recs[1].id, "generation-1700000000-2");
    assert_eq!(recs[1].media_type, "image");
    assert_eq!(recs[1].model_type, "ltx");
    assert_eq!(recs[1].created_at, 1700000000);
}

#[test]
fn generation_without_files_yields_nothing() {
    let result = parse_json(r#"{"generated_files": "x"}"#).unwrap();
    assert!(from_generation(&result, "m", 1).is_empty());
    let result = parse_json("[]").unwrap();
    assert!(from_generation(&result, "m", 1).is_empty());
}
