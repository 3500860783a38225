//! The engine's capabilities, told apart by the entries found in its
//! installation directory.
use vstd::prelude::*;
use crate::text::same_text;

verus! {

/// One capability of the engine and whether it was found.
#[derive(Debug, PartialEq)]
pub struct Capability {
    pub id: String,
    pub label: String,
    pub status: String,
    pub detail: String,
}

/// The capabilities of the engine installed at `root`.
#[derive(Debug, PartialEq)]
pub struct Capabilities {
    pub engine: String,
    pub root: String,
    pub capabilities: Vec<Capability>,
}

pub open spec fn capability_view(c: Capability) -> (Seq<char>, Seq<char>, Seq<char>, Seq<char>) {
    (c.id@, c.label@, c.status@, c.detail@)
}

/// The engine's directory: `WAN2GP_ROOT`, else `WAN_GP_ROOT`, else `Wan2GP`.
pub fn root(wan2gp_root: Option<String>, wan_gp_root: Option<String>) -> (r: String)
    ensures
        r@ == match wan2gp_root {
            Some(v) => v@,
            None => match wan_gp_root {
                Some(v) => v@,
                None => "Wan2GP"@,
            },
        },
{
    match wan2gp_root {
        Some(v) => v,
        None => match wan_gp_root {
            Some(v) => v,
            None => String::from_str("Wan2GP"),
        },
    }
}

/// The entries of the engine's directory whose presence is looked at.
pub fn probe_names() -> (r: Vec<String>)
    ensures
        r@.map_values(|s: String| s@) == seq![
            "wan"@, "wan2"@, "wan2gp.py"@, "app.py"@, "image"@, "i2v"@, "t2i"@,
            "deepy"@, "text"@, "prompt"@, "Deepy"@, "audio"@, "tts"@, "voice"@,
        ],
{
    let mut v: Vec<String> = Vec::new();
    v.push(String::from_str("wan"));
    v.push(String::from_str("wan2"));
    v.push(String::from_str("wan2gp.py"));
    v.push(String::from_str("app.py"));
    v.push(String::from_str("image"));
    v.push(String::from_str("i2v"));
    v.push(String::from_str("t2i"));
    v.push(String::from_str("deepy"));
    v.push(String::from_str("text"));
    v.push(String::from_str("prompt"));
    v.push(String::from_str("Deepy"));
    v.push(String::from_str("audio"));
    v.push(String::from_str("tts"));
    v.push(String::from_str("voice"));
    assert(v@.map_values(|s: String| s@) =~= seq![
        "wan"@, "wan2"@, "wan2gp.py"@, "app.py"@, "image"@, "i2v"@, "t2i"@,
        "deepy"@, "text"@, "prompt"@, "Deepy"@, "audio"@, "tts"@, "voice"@,
    ]);
    v
}

/// Whether `name` is among the entries found.
pub open spec fn found(present: Seq<String>, name: Seq<char>) -> bool {
    exists|i: int| 0 <= i < present.len() && (#[trigger] present[i])@ == name
}

/// Whether any of `names` is among the entries found.
pub open spec fn found_any(present: Seq<String>, names: Seq<&str>) -> bool {
    exists|i: int| 0 <= i < names.len() && found(present, (#[trigger] names[i])@)
}

fn is_found(present: &Vec<String>, name: &str) -> (r: bool)
    ensures
        r == found(present@, name@),
{
    let mut i: usize = 0;
    while i < present.len()
        invariant
            i <= present.len(),
            forall|k: int| 0 <= k < i ==> (#[trigger] present@[k])@ != name@,
        decreases present.len() - i,
    {
        if same_text(present[i].as_str(), name) {
            return true;
        }
        i += 1;
    }
    false
}

/// Whether any of `names` is among the entries found in the directory.
pub fn contains_any(present: &Vec<String>, names: &[&str]) -> (r: bool)
    ensures
        r == found_any(present@, names@),
{
    let mut i: usize = 0;
    while i < names.len()
        invariant
            i <= names.len(),
            forall|k: int| 0 <= k < i ==> !found(present@, (#[trigger] names@[k])@),
        decreases names.len() - i,
    {
        if is_found(present, names[i]) {
            assert(found(present@, names@[i as int]@));
            return true;
        }
        i += 1;
    }
    false
}

/// A capability with the given texts.
pub fn capability(id: &str, label: &str, status: &str, detail: &str) -> (r: Capability)
    ensures
        capability_view(r) == (id@, label@, status@, detail@),
{
    Capability {
        id: String::from_str(id),
        label: String::from_str(label),
        status: String::from_str(status),
        detail: String::from_str(detail),
    }
}

/// `available` when found, `unknown` when not.
pub open spec fn availability(found: bool) -> Seq<char> {
    if found {
        "available"@
    } else {
        "unknown"@
    }
}

fn availability_text(f: bool) -> (r: &'static str)
    ensures
        r@ == availability(f),
{
    if f {
        "available"
    } else {
        "unknown"
    }
}

/// The capabilities of the engine at `root`, where `present` lists the
/// entries of `probe_names` found in that directory: video, image, text,
/// Deepy and audio, each available when one of its marker entries is there.
pub fn detect(root: &str, present: &Vec<String>) -> (r: Capabilities)
    ensures
        r.engine@ == "Wan2GP"@,
        r.root@ == root@,
        r.capabilities@.len() == 5,
        capability_view(r.capabilities@[0]) == (
            "video"@,
            "Video generation"@,
            availability(found_any(present@, seq!["wan", "wan2", "wan2gp.py", "app.py"])),
            "Detected from installed Wan2GP files"@,
        ),
        capability_view(r.capabilities@[1]) == (
            "image"@,
            "Image generation"@,
            availability(found_any(present@, seq!["image", "i2v", "t2i"])),
            "Capability requires confirmation from the installed engine"@,
        ),
        capability_view(r.capabilities@[2]) == (
            "text"@,
            "Text / prompt generation"@,
            availability(found_any(present@, seq!["deepy", "text", "prompt"])),
            "Capability requires confirmation from the installed engine"@,
        ),
        capability_view(r.capabilities@[3]) == (
            "deepy"@,
            "Deepy"@,
            availability(found_any(present@, seq!["deepy", "Deepy"])),
            "Deepy is treated as an engine capability, not a separate bundled model"@,
        ),
        capability_view(r.capabilities@[4]) == (
            "audio"@,
            "Audio / TTS"@,
            availability(found_any(present@, seq!["audio", "tts", "voice"])),
            "Capability requires confirmation from the installed engine"@,
        ),
{
    let video_names: [&str; 4] = ["wan", "wan2", "wan2gp.py", "app.py"];
    let image_names: [&str; 3] = ["image", "i2v", "t2i"];
    let text_names: [&str; 3] = ["deepy", "text", "prompt"];
    let deepy_names: [&str; 2] = ["deepy", "Deepy"];
    let audio_names: [&str; 3] = ["audio", "tts", "voice"];
    let video = contains_any(present, &video_names);
    let image = contains_any(present, &image_names);
    let text = contains_any(present, &text_names);
    let deepy = contains_any(present, &deepy_names);
    let audio = contains_any(present, &audio_names);
    assert(video_names@ =~= seq!["wan", "wan2", "wan2gp.py", "app.py"]);
    assert(image_names@ =~= seq!["image", "i2v", "t2i"]);
    assert(text_names@ =~= seq!["deepy", "text", "prompt"]);
    assert(deepy_names@ =~= seq!["deepy", "Deepy"]);
    assert(audio_names@ =~= seq!["audio", "tts", "voice"]);
    let detail_confirm = "Capability requires confirmation from the installed engine";
    let mut caps: Vec<Capability> = Vec::new();
    caps.push(
        capability(
            "video",
            "Video generation",
            availability_text(video),
            "Detected from installed Wan2GP files",
        ),
    );
    caps.push(capability("image", "Image generation", availability_text(image), detail_confirm));
    caps.push(
        capability("text", "Text / prompt generation", availability_text(text), detail_confirm),
    );
    caps.push(
        capability(
            "deepy",
            "Deepy",
            availability_text(deepy),
            "Deepy is treated as an engine capability, not a separate bundled model",
        ),
    );
    caps.push(capability("audio", "Audio / TTS", availability_text(audio), detail_confirm));
    Capabilities {
        engine: String::from_str("Wan2GP"),
        root: String::from_str(root),
        capabilities: caps,
    }
}

} // verus!
