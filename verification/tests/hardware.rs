use creator_studio::hardware::{detect, gb_from_mb, HardwareInfo, HardwareProbe};
use creator_studio::process::{command_text, CommandOutput};

fn ok(stdout: &str) -> Option<CommandOutput> {
    Some(CommandOutput {
        success: true,
        status: "exit status: 0".to_string(),
        stdout: stdout.as_bytes().to_vec(),
        stderr: Vec::new(),
    })
}

fn failed(stdout: &str) -> Option<CommandOutput> {
    Some(CommandOutput {
        success: false,
        status: "exit status: 1".to_string(),
        stdout: stdout.as_bytes().to_vec(),
        stderr: b"boom".to_vec(),
    })
}

#[test]
fn test_hardware_info_debug_format() {
    let info = HardwareInfo {
        os: "windows".to_string(),
        arch: "x86_64".to_string(),
        cpu: "Test CPU".to_string(),
        ram_gb: Some(32),
        gpu: Some("Test GPU".to_string()),
        vram_gb: Some(12),
    };

    let debug = format!("{:?}", info);
    assert!(debug.contains("HardwareInfo"));
    assert!(debug.contains("os: \"windows\""));
}

#[test]
fn test_hardware_info_clone() {
    let info1 = HardwareInfo {
        os: "windows".to_string(),
        arch: "x86_64".to_string(),
        cpu: "CPU".to_string(),
        ram_gb: Some(16),
        gpu: Some("GPU".to_string()),
        vram_gb: Some(8),
    };

    let info2 = info1.clone();
    assert_eq!(info1, info2);
}

#[test]
fn command_text_trims_successful_output() {
    assert_eq!(command_text(&ok("  RTX 4090 \r\n")), Some("RTX 4090".to_string()));
}

#[test]
fn command_text_rejects_failure_blank_and_missing() {
    assert_eq!(command_text(&failed("RTX 4090")), None);
    assert_eq!(command_text(&ok("   \n ")), None);
    assert_eq!(command_text(&None), None);
}

#[test]
fn gigabytes_round_to_nearest() {
    assert_eq!(gb_from_mb(24564), 24);
    assert_eq!(gb_from_mb(511), 0);
    assert_eq!(gb_from_mb(512), 1);
    assert_eq!(gb_from_mb(1535), 1);
    assert_eq!(gb_from_mb(1536), 2);
    assert_eq!(gb_from_mb(u64::MAX), 18014398509481984);
}

#[test]
fn detect_reads_every_probe() {
    let probe = HardwareProbe {
        os: "windows".to_string(),
        arch: "x86_64".to_string(),
        cpu: ok("Intel CPU\n"),
        ram: ok(" 16 \n"),
        gpu: ok("RTX 4090\n"),
        gpu_fallback: None,
        vram: ok("24564\n"),
    };
    let info = detect(&probe);
    assert_eq!(
        info,
        HardwareInfo {
            os: "windows".to_string(),
            arch: "x86_64".to_string(),
            cpu: "Intel CPU".to_string(),
            ram_gb: Some(16),
            gpu: Some("RTX 4090".to_string()),
            vram_gb: Some(24),
        }
    );
}

#[test]
fn detect_falls_back_when_probes_fail() {
    let probe = HardwareProbe {
        os: "linux".to_string(),
        arch: "x86_64".to_string(),
        cpu: None,
        ram: ok("lots"),
        gpu: failed(""),
        gpu_fallback: ok("Radeon\n"),
        vram: None,
    };
    let info = detect(&probe);
    assert_eq!(info.cpu, "Unknown CPU");
    assert_eq!(info.ram_gb, None);
    assert_eq!(info.gpu, Some("Radeon".to_string()));
    assert_eq!(info.vram_gb, None);
}

#[test]
fn test_command_text_nonexistent_program() {
    let result = command_text(&None);
    assert!(result.is_none());
}

#[test]
fn test_detect_returns_valid_structure() {
    let probe = HardwareProbe {
        os: "linux".to_string(),
        arch: "x86_64".to_string(),
        cpu: None,
        ram: None,
        gpu: None,
        gpu_fallback: None,
        vram: None,
    };
    let info = detect(&probe);
    assert!(!info.os.is_empty());
    assert!(!info.arch.is_empty());
    assert!(!info.cpu.is_empty() || info.cpu == "Unknown CPU");
}
