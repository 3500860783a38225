//! The machine's hardware as the studio reports it, read from the output of
//! probing commands.
use vstd::prelude::*;
use crate::process::{CommandOutput, command_text, reported_text};
use crate::text::{parse_u64, parsed_u64, trim, trimmed};

verus! {

/// What the studio knows of the machine.
#[derive(Debug, Clone, PartialEq)]
pub struct HardwareInfo {
    pub os: String,
    pub arch: String,
    pub cpu: String,
    pub ram_gb: Option<u64>,
    pub gpu: Option<String>,
    pub vram_gb: Option<u64>,
}

/// The outputs of the probing commands (`None` where a command could not be
/// launched or was not run).
pub struct HardwareProbe {
    pub os: String,
    pub arch: String,
    pub cpu: Option<CommandOutput>,
    pub ram: Option<CommandOutput>,
    pub gpu: Option<CommandOutput>,
    pub gpu_fallback: Option<CommandOutput>,
    pub vram: Option<CommandOutput>,
}

/// Megabytes rounded to the nearest gigabyte, halves up: `(mb + 512) / 1024`.
pub open spec fn rounded_gb(mb: u64) -> u64 {
    ((mb as int + 512) / 1024) as u64
}

/// `mb` megabytes in whole gigabytes, rounded to the nearest.
pub fn gb_from_mb(mb: u64) -> (r: u64)
    ensures
        r == rounded_gb(mb),
{
    let q = mb / 1024;
    let rem = mb % 1024;
    assert((mb as int + 512) / 1024 == q + (if rem >= 512 {
        1int
    } else {
        0int
    })) by (nonlinear_arith)
        requires
            q == mb / 1024,
            rem == mb % 1024,
    ;
    if rem >= 512 {
        q + 1
    } else {
        q
    }
}

/// A number read from a probe's text, when it parses as a `u64`.
pub open spec fn probed_number(text: Option<Seq<char>>) -> Option<u64> {
    match text {
        Some(t) => parsed_u64(trimmed(t)),
        None => None,
    }
}

fn number_of(text: &Option<String>) -> (r: Option<u64>)
    ensures
        r == probed_number(
            match text {
                Some(t) => Some(t@),
                None => None,
            },
        ),
{
    match text {
        Some(t) => {
            let v = trim(t.as_str());
            parse_u64(v.as_str())
        },
        None => None,
    }
}

pub open spec fn opt_text(o: Option<String>) -> Option<Seq<char>> {
    match o {
        Some(s) => Some(s@),
        None => None,
    }
}

/// The hardware that the probes report: the processor's name or
/// `Unknown CPU`; memory in gigabytes when it parses; the graphics card from
/// the first probe that names one; its memory, reported in megabytes, rounded
/// to gigabytes.
pub fn detect(probe: &HardwareProbe) -> (r: HardwareInfo)
    ensures
        r.os@ == probe.os@,
        r.arch@ == probe.arch@,
        r.cpu@ == match reported_text(probe.cpu) {
            Some(t) => t,
            None => "Unknown CPU"@,
        },
        r.ram_gb == probed_number(reported_text(probe.ram)),
        opt_text(r.gpu) == match reported_text(probe.gpu) {
            Some(t) => Some(t),
            None => reported_text(probe.gpu_fallback),
        },
        r.vram_gb == match probed_number(reported_text(probe.vram)) {
            Some(mb) => Some(rounded_gb(mb)),
            None => None,
        },
{
    let cpu = match command_text(&probe.cpu) {
        Some(t) => t,
        None => String::from_str("Unknown CPU"),
    };
    let ram_text = command_text(&probe.ram);
    let ram_gb = number_of(&ram_text);
    let gpu = match command_text(&probe.gpu) {
        Some(t) => Some(t),
        None => command_text(&probe.gpu_fallback),
    };
    let vram_text = command_text(&probe.vram);
    let vram_gb = match number_of(&vram_text) {
        Some(mb) => Some(gb_from_mb(mb)),
        None => None,
    };
    HardwareInfo {
        os: probe.os.clone(),
        arch: probe.arch.clone(),
        cpu,
        ram_gb,
        gpu,
        vram_gb,
    }
}

} // verus!
