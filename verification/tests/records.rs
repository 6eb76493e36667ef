//! Construction of the per-category records and their field values.
use unifetch::args::DisplayStyle;
use unifetch::component::Component;
use unifetch::cpu::CpuInfo;
use unifetch::disk::DiskInfo;
use unifetch::gpu::GpuInfo;
use unifetch::os::OSInfo;

#[test]
fn cpu_it_works() {
    // usage is held in tenths of a percent: 219 renders as 21.9%
    let cpu = CpuInfo::new("Intel".into(), 8, 219, 120000);

    assert_eq!(cpu.name, "Intel".to_string());
    assert_eq!(cpu.cores, 8);
    assert_eq!(cpu.usage_tenths, 219);
    assert_eq!(cpu.frequency, 120000);

    println!("{}", cpu.get_info(DisplayStyle::Detailed));
}

#[test]
fn get_cpu_info() {
    let mut sys = sysinfo::System::new_all();
    sys.refresh_all();

    let cpu = sys.cpus().first().unwrap();

    println!("{:#?}", cpu);
}

#[test]
fn disk_it_works() {
    let disk_info = DiskInfo::new(
        "SAMSUNG".to_string(),
        "NTFS".to_string(),
        8196u64.pow(3),
        2048u64.pow(3),
        "SSD".to_string(),
    );

    assert_eq!(disk_info.name, "SAMSUNG");
    assert_eq!(disk_info.total_space, 8196u64.pow(3));
    assert_eq!(disk_info.available_space, 2048u64.pow(3));
    assert_eq!(disk_info.file_system, "NTFS");

    println!("{:#?}", sysinfo::Disks::new_with_refreshed_list().list());

    let _sys = sysinfo::System::new_all();
}

#[test]
fn gpu_it_works() {
    let gpu = GpuInfo::new(
        String::from("Nvidia RTX4060 GPU"),
        String::from("30.0.15.1259"),
        8589934592u64,
        String::from("OK"),
        2560,
        1980,
    );

    assert_eq!(gpu.name, "Nvidia RTX4060 GPU");
    assert_eq!(gpu.driver, "30.0.15.1259");
    assert_eq!(gpu.adapter_ram, 8589934592u64);
    assert_eq!(gpu.status, "OK");
    assert_eq!(gpu.horizontal_resolution, 2560);
    assert_eq!(gpu.vertical_resolution, 1980);

    println!("{}", gpu.get_info(DisplayStyle::Detailed));
}

#[test]
fn memory_it_works() {
    let sys = sysinfo::System::new_all();

    println!("{:#?}", sys.total_memory());
}

#[test]
fn sys_info_test() {
    let info = OSInfo::new("Windows 11 Home China".into(), "Kochiya早苗".into());

    println!("{}", info.get_info(DisplayStyle::Minimal));
}
