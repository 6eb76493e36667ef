//! The rendered report text: exact formats per tier, monotonic tier
//! containment, the byte-to-gigabyte conversion, the derived occupancy
//! figures and the fan-speed sentinel.
use unifetch::args::DisplayStyle;
use unifetch::component::Component;
use unifetch::cpu::CpuInfo;
use unifetch::disk::DiskInfo;
use unifetch::error::SourceError;
use unifetch::gpu::GpuInfo;
use unifetch::grabber::cpu_record_from_sample;
use unifetch::memory::MemoryInfo;
use unifetch::nvidia_gpu::NvidiaGpuInfo;
use unifetch::os::OSInfo;

#[test]
fn cpu_aggregate_frequency_renders_detailed() {
    // four cores at 2400, 2400, 2600 and 2600 MHz sum to 10000 MHz
    let frequencies: Vec<u64> = vec![2400, 2400, 2600, 2600];
    let cpu = cpu_record_from_sample("Intel".into(), 219, &frequencies).unwrap();
    assert_eq!(cpu.frequency, 10000);
    assert_eq!(cpu.cores, 4);
    let detailed = cpu.get_info(DisplayStyle::Detailed);
    assert_eq!(
        detailed,
        "CPU: Intel\n\t- Cores: 4\n\t- Usage: 21.9%\n\t- Frequency: 10000MHz"
    );
    assert!(detailed.ends_with("10000MHz"));
}

#[test]
fn memory_default_output_in_gigabytes() {
    // 8 GiB total, 2 GiB free: byte counts divided by 1024^3
    let memory = MemoryInfo::new(8_589_934_592, 2_147_483_648);
    assert_eq!(memory.get_info(DisplayStyle::Default), "Memory: 6.0GB/8.0GB");
    assert_eq!(memory.get_info(DisplayStyle::Minimal), "Memory: 6.0GB/8.0GB");
}

#[test]
fn memory_detailed_occupancy() {
    let memory = MemoryInfo::new(8_589_934_592, 2_147_483_648);
    assert_eq!(
        memory.get_info(DisplayStyle::Detailed),
        "Memory: 6.0GB/8.0GB\n\t- Occupancy: 75.00%"
    );
}

#[test]
fn disk_occupancy_rendered_and_omitted_at_minimal() {
    // 4 GiB total, 1 GiB available: occupancy 100 - 1/4*100 = 75.00%
    let disk = DiskInfo::new(
        "C:".to_string(),
        "NTFS".to_string(),
        4_294_967_296,
        1_073_741_824,
        "SSD".to_string(),
    );
    let minimal = disk.get_info(DisplayStyle::Minimal);
    let default = disk.get_info(DisplayStyle::Default);
    let detailed = disk.get_info(DisplayStyle::Detailed);
    assert_eq!(minimal, "Disk: C:");
    assert_eq!(
        default,
        "Disk: C:\n\t- Total space: 4.00GB\n\t- Available space: 1.00GB\n\t- Occupancy: 75.00%"
    );
    assert_eq!(
        detailed,
        "Disk: C:\n\t- Total space: 4.00GB\n\t- Available space: 1.00GB\n\t- Occupancy: 75.00%\n\t- Disk type: SSD\n\t- File system: NTFS"
    );
    assert!(!minimal.contains("Occupancy"));
}

#[test]
fn gpu_render_tiers() {
    let gpu = GpuInfo::new(
        String::from("Nvidia RTX4060 GPU"),
        String::from("30.0.15.1259"),
        8_589_934_592,
        String::from("OK"),
        2560,
        1980,
    );
    assert_eq!(gpu.get_info(DisplayStyle::Minimal), "GPU: Nvidia RTX4060 GPU");
    assert_eq!(
        gpu.get_info(DisplayStyle::Default),
        "GPU: Nvidia RTX4060 GPU\n\t- VRAM: 8.0GB\n\t- Driver version: 30.0.15.1259"
    );
    assert_eq!(
        gpu.get_info(DisplayStyle::Detailed),
        "GPU: Nvidia RTX4060 GPU\n\t- VRAM: 8.0GB\n\t- Driver version: 30.0.15.1259\n\t- Status: OK\n\t- Resolution: 2560x1980"
    );
}

#[test]
fn nvidia_fan_speed_zero_suppresses_line() {
    let quiet = NvidiaGpuInfo::new(
        "RTX 4090".into(),
        "550.54".into(),
        "12040".into(),
        65,
        0,
        8_589_934_592,
        2_147_483_648,
        85,
    );
    let detailed = quiet.get_info(DisplayStyle::Detailed);
    assert!(!detailed.contains("Fan speed"));
    assert!(detailed.ends_with("Temperature: 65°C"));
}

#[test]
fn nvidia_fan_speed_nonzero_shows_line() {
    let loud = NvidiaGpuInfo::new(
        "RTX 4090".into(),
        "550.54".into(),
        "12040".into(),
        65,
        1500,
        8_589_934_592,
        2_147_483_648,
        85,
    );
    let detailed = loud.get_info(DisplayStyle::Detailed);
    assert!(detailed.contains("Fan speed"));
    assert!(detailed.ends_with("Fan speed: 1500rpm"));
}

#[test]
fn nvidia_render_tiers() {
    let gpu = NvidiaGpuInfo::new(
        "RTX 4090".into(),
        "550.54".into(),
        "12040".into(),
        65,
        0,
        8_589_934_592,
        2_147_483_648,
        85,
    );
    assert_eq!(gpu.get_info(DisplayStyle::Minimal), "Nvidia GPU: RTX 4090");
    assert_eq!(
        gpu.get_info(DisplayStyle::Default),
        "Nvidia GPU: RTX 4090\n\t- Driver version: 550.54\n\t- CUDA version: 12040\n\t- Memory utilization: 85%"
    );
    assert_eq!(
        gpu.get_info(DisplayStyle::Detailed),
        "Nvidia GPU: RTX 4090\n\t- Driver version: 550.54\n\t- CUDA version: 12040\n\t- Memory utilization: 85%\n\t- Total memory: 8.0GB\n\t- Used memory: 2.0GB\n\t- Temperature: 65°C"
    );
}

#[test]
fn os_render_tiers() {
    let os = OSInfo::new("Windows 11 Home".into(), "desktop".into());
    assert_eq!(os.get_info(DisplayStyle::Minimal), "OS: Windows 11 Home");
    assert_eq!(os.get_info(DisplayStyle::Default), "OS: Windows 11 Home");
    assert_eq!(
        os.get_info(DisplayStyle::Detailed),
        "OS: Windows 11 Home\n\t- Host name: desktop"
    );
}

#[test]
fn tier_containment_for_every_category() {
    let cpu = CpuInfo::new("Intel".into(), 8, 219, 120000);
    let gpu = GpuInfo::new("G".into(), "1.0".into(), 0, "OK".into(), 0, 0);
    let nvidia = NvidiaGpuInfo::new("N".into(), "d".into(), "c".into(), 1, 2, 3, 4, 5);
    let disk = DiskInfo::new("D".into(), "ext4".into(), 10, 4, "SSD".into());
    let memory = MemoryInfo::new(100, 40);
    let os = OSInfo::new("Linux".into(), "host".into());

    let reports: Vec<[String; 3]> = vec![
        [
            cpu.get_info(DisplayStyle::Minimal),
            cpu.get_info(DisplayStyle::Default),
            cpu.get_info(DisplayStyle::Detailed),
        ],
        [
            gpu.get_info(DisplayStyle::Minimal),
            gpu.get_info(DisplayStyle::Default),
            gpu.get_info(DisplayStyle::Detailed),
        ],
        [
            nvidia.get_info(DisplayStyle::Minimal),
            nvidia.get_info(DisplayStyle::Default),
            nvidia.get_info(DisplayStyle::Detailed),
        ],
        [
            disk.get_info(DisplayStyle::Minimal),
            disk.get_info(DisplayStyle::Default),
            disk.get_info(DisplayStyle::Detailed),
        ],
        [
            memory.get_info(DisplayStyle::Minimal),
            memory.get_info(DisplayStyle::Default),
            memory.get_info(DisplayStyle::Detailed),
        ],
        [
            os.get_info(DisplayStyle::Minimal),
            os.get_info(DisplayStyle::Default),
            os.get_info(DisplayStyle::Detailed),
        ],
    ];
    for [minimal, default, detailed] in &reports {
        assert!(default.starts_with(minimal.as_str()));
        assert!(detailed.starts_with(default.as_str()));
    }
    // memory has no intermediate tier: Default equals Minimal exactly
    assert_eq!(reports[4][0], reports[4][1]);
}

#[test]
fn error_messages() {
    assert_eq!(
        SourceError::EmptyOutput.message(),
        "wmic returned empty result for request."
    );
    assert_eq!(
        SourceError::DecodeFailed.message(),
        "failed to convert wmic query result to String object."
    );
    assert_eq!(
        SourceError::MalformedRow.message(),
        "wmic returned a malformed table row."
    );
    assert_eq!(SourceError::NoCpu.message(), "no CPU cores were reported.");
    assert_eq!(
        SourceError::VendorUnavailable.message(),
        "failed to read NVIDIA GPU information."
    );
    assert_eq!(
        SourceError::MissingOsVersion.message(),
        "failed to detect OS version."
    );
    assert_eq!(
        SourceError::MissingHostName.message(),
        "failed to detect Host name."
    );
}
