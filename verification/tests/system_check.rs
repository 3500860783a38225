use creator_studio::process::CommandOutput;
use creator_studio::system_check::{command_exists, engine_root, locator, run, SystemProbe};

fn probe(python: bool, wan: bool) -> SystemProbe {
    SystemProbe {
        engine_root: "rt/wan2gp".to_string(),
        managed_python: if python { Some("rt/python/python.exe".to_string()) } else { None },
        wan,
        uv: false,
        nvidia: Some("RTX 4090, 24564".to_string()),
        ffmpeg: false,
    }
}

#[test]
fn ready_exactly_with_python_and_engine() {
    assert!(run(probe(true, true)).ready);
    assert!(!run(probe(false, true)).ready);
    assert!(!run(probe(true, false)).ready);
}

#[test]
fn items_in_order() {
    let c = run(probe(false, true));
    let names: Vec<&str> = c.items.iter().map(|i| i.name.as_str()).collect();
    assert_eq!(names, vec!["Python", "Wan2GP", "uv", "GPU", "FFmpeg"]);
    assert_eq!(c.items[0].status, "missing");
    assert_eq!(c.items[0].detail, "Studio-managed Python 3.11 is not installed yet");
    assert_eq!(c.items[1].detail, "rt/wan2gp");
    assert_eq!(c.items[2].detail, "Studio will download uv automatically");
    assert_eq!(c.items[3].status, "ready");
    assert_eq!(c.items[3].detail, "RTX 4090, 24564");
    assert_eq!(c.items[4].status, "limited");
    assert!(c.items[0].required && c.items[1].required && !c.items[2].required);
}

#[test]
fn helpers() {
    assert_eq!(engine_root(Some("E".to_string()), "rt"), "E");
    assert_eq!(engine_root(None, "rt"), std::path::Path::new("rt").join("wan2gp").to_string_lossy());
    assert_eq!(locator(true), "where");
    assert_eq!(locator(false), "which");
    let ok = CommandOutput { success: true, status: String::new(), stdout: vec![], stderr: vec![] };
    assert!(command_exists(&Some(ok)));
    assert!(!command_exists(&None));
}
