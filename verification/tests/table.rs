//! The shell-query table parsing: column mapping, lenient numeric reads,
//! the vendor-substitution rule and the structural failure modes.
use unifetch::error::SourceError;
use unifetch::nvidia_gpu::NvidiaGpuInfo;
use unifetch::record::Record;
use unifetch::table::parse_gpu_table;

fn sample_vendor() -> Vec<NvidiaGpuInfo> {
    vec![NvidiaGpuInfo::new(
        "NVIDIA GeForce RTX 4060".into(),
        "550.54".into(),
        "12040".into(),
        60,
        0,
        8_589_934_592,
        2_147_483_648,
        40,
    )]
}

#[test]
fn vendor_row_is_substituted_in_row_order() {
    // two rows: the first name carries the vendor marker, the second does not
    let table = "Name,DriverVersion,AdapterRAM,Status,CurrentHorizontalResolution,CurrentVerticalResolution\r\nNVIDIA GeForce RTX 4060,31.0.15.5222,8589934592,OK,2560,1440\r\nIntel UHD Graphics,30.0.101.1000,1073741824,OK,1920,1080";
    let vendor = sample_vendor();
    let records = parse_gpu_table(table, &vendor).unwrap();
    assert_eq!(records.len(), 2);
    match &records[0] {
        Record::NvidiaGpu(g) => assert_eq!(g.name, "NVIDIA GeForce RTX 4060"),
        other => panic!("expected the vendor record first, got {:?}", other),
    }
    match &records[1] {
        Record::Gpu(g) => {
            assert_eq!(g.name, "Intel UHD Graphics");
            assert_eq!(g.driver, "30.0.101.1000");
            assert_eq!(g.adapter_ram, 1_073_741_824);
            assert_eq!(g.status, "OK");
            assert_eq!(g.horizontal_resolution, 1920);
            assert_eq!(g.vertical_resolution, 1080);
        },
        other => panic!("expected the generic record second, got {:?}", other),
    }
}

#[test]
fn table_without_vendor_rows_keeps_every_row() {
    let table = "Name,AdapterRAM\r\nIntel UHD Graphics,1073741824\r\nAMD Radeon,2147483648";
    let vendor: Vec<NvidiaGpuInfo> = Vec::new();
    let records = parse_gpu_table(table, &vendor).unwrap();
    assert_eq!(records.len(), 2);
    assert!(matches!(&records[0], Record::Gpu(g) if g.name == "Intel UHD Graphics"));
    assert!(matches!(&records[1], Record::Gpu(g) if g.name == "AMD Radeon"));
}

#[test]
fn empty_output_is_a_typed_error() {
    let vendor: Vec<NvidiaGpuInfo> = Vec::new();
    assert_eq!(
        parse_gpu_table("", &vendor).unwrap_err(),
        SourceError::EmptyOutput
    );
    assert_eq!(
        parse_gpu_table("  \r\n  ", &vendor).unwrap_err(),
        SourceError::EmptyOutput
    );
}

#[test]
fn short_row_fails_the_whole_acquisition() {
    let table = "Name,DriverVersion,AdapterRAM\r\nIntel UHD Graphics,30.0";
    let vendor: Vec<NvidiaGpuInfo> = Vec::new();
    assert_eq!(
        parse_gpu_table(table, &vendor).unwrap_err(),
        SourceError::MalformedRow
    );
}

#[test]
fn header_only_table_yields_no_records() {
    let table = "Name,DriverVersion,AdapterRAM";
    let vendor: Vec<NvidiaGpuInfo> = Vec::new();
    let records = parse_gpu_table(table, &vendor).unwrap();
    assert_eq!(records.len(), 0);
}

#[test]
fn numeric_cells_read_leniently() {
    // a malformed numeral, an overflowing resolution and a signed numeral
    let table = "Name,AdapterRAM,CurrentHorizontalResolution,CurrentVerticalResolution\r\nCard,not-a-number,99999,+1080";
    let vendor: Vec<NvidiaGpuInfo> = Vec::new();
    let records = parse_gpu_table(table, &vendor).unwrap();
    assert_eq!(records.len(), 1);
    match &records[0] {
        Record::Gpu(g) => {
            assert_eq!(g.adapter_ram, 0);
            assert_eq!(g.horizontal_resolution, 0);
            assert_eq!(g.vertical_resolution, 1080);
        },
        other => panic!("expected a generic record, got {:?}", other),
    }
}

#[test]
fn header_names_are_trimmed_for_matching() {
    let table = " Name , AdapterRAM \r\nCard,4096";
    let vendor: Vec<NvidiaGpuInfo> = Vec::new();
    let records = parse_gpu_table(table, &vendor).unwrap();
    assert_eq!(records.len(), 1);
    match &records[0] {
        Record::Gpu(g) => {
            assert_eq!(g.name, "Card");
            assert_eq!(g.adapter_ram, 4096);
        },
        other => panic!("expected a generic record, got {:?}", other),
    }
}

#[test]
fn unknown_columns_degrade_to_sentinels() {
    let table = "Vendor,Speed\r\nAcme,42";
    let vendor: Vec<NvidiaGpuInfo> = Vec::new();
    let records = parse_gpu_table(table, &vendor).unwrap();
    assert_eq!(records.len(), 1);
    match &records[0] {
        Record::Gpu(g) => {
            assert_eq!(g.name, "");
            assert_eq!(g.driver, "");
            assert_eq!(g.adapter_ram, 0);
        },
        other => panic!("expected a generic record, got {:?}", other),
    }
}

#[test]
fn every_vendor_row_splices_the_vendor_records() {
    let table = "Name\r\nNVIDIA A\r\nNVIDIA B";
    let vendor = sample_vendor();
    let records = parse_gpu_table(table, &vendor).unwrap();
    assert_eq!(records.len(), 2);
    assert!(matches!(&records[0], Record::NvidiaGpu(_)));
    assert!(matches!(&records[1], Record::NvidiaGpu(_)));
}
