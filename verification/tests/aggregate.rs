//! The aggregator's partial-failure isolation and the pure per-sample
//! adapter computations.
use unifetch::disk::DiskInfo;
use unifetch::error::SourceError;
use unifetch::grabber::{
    aggregate, cpu_record_from_sample, default_categories, memory_record_from_sample,
    os_record_from_sample, ComponentType,
};
use unifetch::record::Record;

#[test]
fn disk_success_survives_os_failure() {
    // the disk category succeeds, the OS category fails on a missing host
    // name: all disk records stay, exactly one error is reported, no abort
    let disk_records = vec![
        Record::Disk(DiskInfo::new(
            "C:".into(),
            "NTFS".into(),
            100,
            40,
            "SSD".into(),
        )),
        Record::Disk(DiskInfo::new(
            "D:".into(),
            "NTFS".into(),
            200,
            80,
            "HDD".into(),
        )),
    ];
    let os_failure = os_record_from_sample(Some("Windows 11 Home".into()), None).unwrap_err();
    let results = vec![Ok(disk_records), Err(os_failure)];
    let (records, errors) = aggregate(results);
    assert_eq!(records.len(), 2);
    assert!(matches!(&records[0], Record::Disk(d) if d.name == "C:"));
    assert!(matches!(&records[1], Record::Disk(d) if d.name == "D:"));
    assert_eq!(errors, vec![SourceError::MissingHostName]);
}

#[test]
fn aggregate_keeps_category_order() {
    let results = vec![
        Err(SourceError::NoCpu),
        Ok(vec![Record::Disk(DiskInfo::new(
            "C:".into(),
            "NTFS".into(),
            10,
            5,
            "SSD".into(),
        ))]),
        Err(SourceError::MissingOsVersion),
        Ok(Vec::new()),
    ];
    let (records, errors) = aggregate(results);
    assert_eq!(records.len(), 1);
    assert_eq!(
        errors,
        vec![SourceError::NoCpu, SourceError::MissingOsVersion]
    );
}

#[test]
fn aggregate_of_all_failures_completes() {
    let results: Vec<Result<Vec<Record>, SourceError>> = vec![
        Err(SourceError::NoCpu),
        Err(SourceError::EmptyOutput),
        Err(SourceError::MissingOsVersion),
    ];
    let (records, errors) = aggregate(results);
    assert_eq!(records.len(), 0);
    assert_eq!(errors.len(), 3);
}

#[test]
fn os_sample_failures_are_per_field() {
    assert_eq!(
        os_record_from_sample(None, Some("host".into())).unwrap_err(),
        SourceError::MissingOsVersion
    );
    assert_eq!(
        os_record_from_sample(Some("Windows".into()), None).unwrap_err(),
        SourceError::MissingHostName
    );
    let os = os_record_from_sample(Some("Windows".into()), Some("host".into())).unwrap();
    assert_eq!(os.name, "Windows");
    assert_eq!(os.host_name, "host");
}

#[test]
fn cpu_sample_with_zero_cores_fails() {
    let frequencies: Vec<u64> = Vec::new();
    assert_eq!(
        cpu_record_from_sample("Intel".into(), 0, &frequencies).unwrap_err(),
        SourceError::NoCpu
    );
}

#[test]
fn cpu_sample_sums_frequencies() {
    let frequencies: Vec<u64> = vec![1000, 2000, 3000];
    let cpu = cpu_record_from_sample("Intel".into(), 55, &frequencies).unwrap();
    assert_eq!(cpu.cores, 3);
    assert_eq!(cpu.frequency, 6000);
    assert_eq!(cpu.usage_tenths, 55);
}

#[test]
fn cpu_sample_saturates_on_overflow() {
    let frequencies: Vec<u64> = vec![u64::MAX, 10];
    let cpu = cpu_record_from_sample("Intel".into(), 0, &frequencies).unwrap();
    assert_eq!(cpu.frequency, u64::MAX);
}

#[test]
fn memory_sample_derives_free() {
    let m = memory_record_from_sample(100, 30);
    assert_eq!(m.total_memory, 100);
    assert_eq!(m.free_memory, 70);
    // the unexpected case of more used than total saturates at zero
    let odd = memory_record_from_sample(10, 30);
    assert_eq!(odd.free_memory, 0);
}

#[test]
fn categories_come_in_fixed_order() {
    let categories = default_categories();
    assert_eq!(
        categories,
        vec![
            ComponentType::Cpu,
            ComponentType::Gpu,
            ComponentType::Disk,
            ComponentType::Memory,
            ComponentType::OS,
        ]
    );
}
