//! The per-category source adapters and the aggregator. Each adapter turns
//! one backing subsystem's raw values into that category's records; the
//! aggregator runs the fixed category order, keeps every successful
//! category's records in order, and turns each failing category into one
//! reported error without aborting the run.
use vstd::prelude::*;

verus! {

use crate::cpu::CpuInfo;
use crate::disk::DiskInfo;
use crate::error::SourceError;
use crate::memory::{MemoryInfo, MemoryInfoV};
use crate::nvidia_grabber::NvidiaGrabber;
use crate::os::{OSInfo, OSInfoV};
use crate::record::{Record, RecordV};
use crate::sampling::{disk_file_system, disk_kind, disk_name};
use crate::table::{parse_gpu_table, spec_parse_gpu_table, spec_table_mentions_vendor,
    table_mentions_vendor};
use crate::nvidia_gpu::NvidiaGpuInfoV;
use vstd::string::StringExecFns;

/// The information categories, in the fixed order a run requests them.
#[derive(Debug, Copy, Clone, PartialEq, Eq, Structural)]
pub enum ComponentType {
    Cpu,
    Gpu,
    Disk,
    Memory,
    OS,
}

/// The fixed, ordered category list of one run.
pub fn default_categories() -> (v: Vec<ComponentType>)
    ensures
        v@ == seq![
            ComponentType::Cpu,
            ComponentType::Gpu,
            ComponentType::Disk,
            ComponentType::Memory,
            ComponentType::OS,
        ],
{
    let mut v: Vec<ComponentType> = Vec::new();
    v.push(ComponentType::Cpu);
    v.push(ComponentType::Gpu);
    v.push(ComponentType::Disk);
    v.push(ComponentType::Memory);
    v.push(ComponentType::OS);
    proof {
        assert(v@ =~= seq![
            ComponentType::Cpu,
            ComponentType::Gpu,
            ComponentType::Disk,
            ComponentType::Memory,
            ComponentType::OS,
        ]);
    }
    v
}

/// The sum of a sequence of frequencies.
pub open spec fn spec_sum(s: Seq<u64>) -> nat
    decreases s.len(),
{
    if s.len() == 0 {
        0
    } else {
        spec_sum(s.drop_last()) + s.last() as nat
    }
}

/// The sum of a sequence of frequencies, saturated at the largest
/// representable value.
pub open spec fn spec_sum_saturated(s: Seq<u64>) -> nat {
    if spec_sum(s) <= u64::MAX {
        spec_sum(s)
    } else {
        u64::MAX as nat
    }
}

/// Builds the processor record from one sample: the brand of the first
/// core, the core count, the externally sampled usage, and the aggregate
/// frequency — the sum of all cores' frequencies, saturated at the largest
/// representable value. A sample with zero cores is the one failure.
#[verifier::loop_isolation(false)]
pub fn cpu_record_from_sample(brand: String, usage_tenths: u32, frequencies: &Vec<u64>) -> (r:
    Result<CpuInfo, SourceError>)
    ensures
        frequencies@.len() == 0 ==> r == Err::<CpuInfo, SourceError>(SourceError::NoCpu),
        frequencies@.len() > 0 ==> (r matches Ok(c) && c@.name == brand@ && c@.cores
            == frequencies@.len() && c@.usage_tenths == usage_tenths && c@.frequency
            == spec_sum_saturated(frequencies@)),
{
    if frequencies.len() == 0 {
        return Err(SourceError::NoCpu);
    }
    let mut total: u64 = 0;
    let mut i: usize = 0;
    proof {
        assert(frequencies@.take(0) =~= Seq::<u64>::empty());
    }
    while i < frequencies.len()
        invariant
            i <= frequencies.len(),
            total as nat == spec_sum_saturated(frequencies@.take(i as int)),
        decreases frequencies.len() - i,
    {
        let f = frequencies[i];
        proof {
            assert(frequencies@.take(i + 1).drop_last() =~= frequencies@.take(i as int));
            assert(frequencies@.take(i + 1).last() == frequencies@[i as int]);
        }
        if total > u64::MAX - f {
            total = u64::MAX;
        } else {
            total = total + f;
        }
        i = i + 1;
    }
    proof {
        assert(frequencies@.take(frequencies@.len() as int) =~= frequencies@);
    }
    Ok(CpuInfo::new(brand, frequencies.len(), usage_tenths, total))
}

/// Builds the memory record from one sample: free is total minus used, and
/// zero in the unexpected case that more is used than the total. This
/// acquisition cannot fail.
pub fn memory_record_from_sample(total: u64, used: u64) -> (m: MemoryInfo)
    ensures
        m@ == (MemoryInfoV {
            total_memory: total,
            free_memory: if used <= total {
                (total - used) as u64
            } else {
                0u64
            },
        }),
{
    let free: u64 = if used <= total {
        total - used
    } else {
        0
    };
    MemoryInfo::new(total, free)
}

/// Builds the operating-system record from one sample. Either value being
/// unobtainable is a hard failure for this category: no partial record is
/// meaningful.
pub fn os_record_from_sample(version: Option<String>, host_name: Option<String>) -> (r: Result<
    OSInfo,
    SourceError,
>)
    ensures
        version is None ==> r == Err::<OSInfo, SourceError>(SourceError::MissingOsVersion),
        version is Some && host_name is None ==> r == Err::<OSInfo, SourceError>(
            SourceError::MissingHostName,
        ),
        version matches Some(v) ==> (host_name matches Some(h) ==> (r matches Ok(o) && o@
            == (OSInfoV { name: v@, host_name: h@ }))),
{
    let v = match version {
        Some(v) => v,
        None => {
            return Err(SourceError::MissingOsVersion);
        },
    };
    let h = match host_name {
        Some(h) => h,
        None => {
            return Err(SourceError::MissingHostName);
        },
    };
    Ok(OSInfo::new(v, h))
}

/// The processor adapter: reads the sampled cores and builds one record.
/// The live usage percentage is sampled by the caller — it is a
/// floating-point reading outside this library — and handed in as tenths
/// of a percent.
pub struct CpuGrabber;

impl CpuGrabber {
    /// Acquires the one processor record, or fails when the subsystem
    /// reports zero cores.
    pub fn grab(sys: &sysinfo::System, usage_tenths: u32) -> (r: Result<Vec<Record>, SourceError>)
        ensures
            r matches Ok(v) ==> (v@.len() == 1 && (v.deep_view()[0] matches RecordV::Cpu(c)
                && c.usage_tenths == usage_tenths && c.cores >= 1)),
            r matches Err(e) ==> e == SourceError::NoCpu,
    {
        let cpus = sys.cpus();
        let n = cpus.len();
        if n == 0 {
            return Err(SourceError::NoCpu);
        }
        let brand = String::from_str(cpus[0].brand());
        let mut frequencies: Vec<u64> = Vec::new();
        let mut i: usize = 0;
        while i < n
            invariant
                i <= n,
                n == cpus@.len(),
                frequencies@.len() == i,
            decreases n - i,
        {
            frequencies.push(cpus[i].frequency());
            i = i + 1;
        }
        match cpu_record_from_sample(brand, usage_tenths, &frequencies) {
            Ok(c) => {
                let mut v: Vec<Record> = Vec::new();
                v.push(Record::Cpu(c));
                Ok(v)
            },
            Err(e) => Err(e),
        }
    }
}

/// The display-adapter adapter: parses the shell inventory query's output,
/// splicing in the vendor adapter's records for rows that carry the vendor
/// marker.
pub struct GpuGrabber;

impl GpuGrabber {
    /// Acquires the display-adapter records from the query output. The
    /// vendor adapter is consulted once, and only when some row carries the
    /// vendor marker; its failure fails this acquisition with its error.
    pub fn grab(_sys: &sysinfo::System, output: &str) -> (r: Result<Vec<Record>, SourceError>)
        ensures
            r matches Ok(v) ==> exists|vendor: Seq<NvidiaGpuInfoV>|
                spec_parse_gpu_table(output@, vendor) == Ok::<Seq<RecordV>, SourceError>(
                    v.deep_view(),
                ),
            !spec_table_mentions_vendor(output@) ==> ((r matches Ok(v) && spec_parse_gpu_table(
                output@,
                Seq::<NvidiaGpuInfoV>::empty(),
            ) == Ok::<Seq<RecordV>, SourceError>(v.deep_view())) || (r matches Err(e)
                && spec_parse_gpu_table(output@, Seq::<NvidiaGpuInfoV>::empty()) == Err::<
                Seq<RecordV>,
                SourceError,
            >(e))),
            r matches Err(e) ==> e == SourceError::VendorUnavailable || spec_parse_gpu_table(
                output@,
                Seq::<NvidiaGpuInfoV>::empty(),
            ) == Err::<Seq<RecordV>, SourceError>(e),
    {
        if table_mentions_vendor(output) {
            let vendor = match NvidiaGrabber::grab_infos() {
                Ok(v) => v,
                Err(e) => {
                    return Err(e);
                },
            };
            let r = parse_gpu_table(output, &vendor);
            proof {
                if r is Ok {
                    assert(spec_parse_gpu_table(output@, vendor.deep_view()) == Ok::<
                        Seq<RecordV>,
                        SourceError,
                    >(r->Ok_0.deep_view()));
                }
            }
            r
        } else {
            let vendor: Vec<crate::nvidia_gpu::NvidiaGpuInfo> = Vec::new();
            proof {
                assert(vendor.deep_view() =~= Seq::<NvidiaGpuInfoV>::empty());
            }
            parse_gpu_table(output, &vendor)
        }
    }
}

/// The disk adapter: enumerates the freshly refreshed volume list and
/// builds one record per volume. An empty list is valid, not an error:
/// this acquisition cannot fail.
pub struct DiskGrabber;

impl DiskGrabber {
    /// Acquires one record per mounted volume.
    pub fn grab(_sys: &sysinfo::System) -> (r: Result<Vec<Record>, SourceError>)
        ensures
            r matches Ok(v) && forall|i: int|
                0 <= i < r->Ok_0.deep_view().len() ==> (#[trigger] r->Ok_0.deep_view()[i]) is Disk,
    {
        let disks = sysinfo::Disks::new_with_refreshed_list();
        let list = disks.list();
        let mut records: Vec<Record> = Vec::new();
        let mut i: usize = 0;
        while i < list.len()
            invariant
                i <= list@.len(),
                forall|k: int|
                    0 <= k < records.deep_view().len() ==> (#[trigger] records.deep_view()[k])
                        is Disk,
            decreases list@.len() - i,
        {
            let record = DiskInfo::new(
                disk_name(&list[i]),
                disk_file_system(&list[i]),
                list[i].total_space(),
                list[i].available_space(),
                disk_kind(&list[i]),
            );
            let ghost before = records.deep_view();
            records.push(Record::Disk(record));
            i = i + 1;
            proof {
                assert(records.deep_view() =~= before.push(records@.last()@));
            }
        }
        Ok(records)
    }
}

/// The memory adapter: reads the used and total byte counts from the
/// snapshot. This acquisition cannot fail.
pub struct MemoryGrabber;

impl MemoryGrabber {
    /// Acquires the one memory record.
    pub fn grab(sys: &sysinfo::System) -> (r: Result<Vec<Record>, SourceError>)
        ensures
            r matches Ok(v) && v@.len() == 1 && (v.deep_view()[0] matches RecordV::Memory(m)
                && m.free_memory <= m.total_memory),
    {
        let total = sys.total_memory();
        let used = sys.used_memory();
        let record = memory_record_from_sample(total, used);
        let mut v: Vec<Record> = Vec::new();
        v.push(Record::Memory(record));
        Ok(v)
    }
}

/// The operating-system adapter: reads the long version string and the
/// host name; either being unobtainable fails this category.
pub struct OSGrabber;

impl OSGrabber {
    /// Acquires the one operating-system record, or fails when the version
    /// string or the host name cannot be read.
    pub fn grab(_sys: &sysinfo::System) -> (r: Result<Vec<Record>, SourceError>)
        ensures
            r matches Ok(v) ==> v@.len() == 1 && v.deep_view()[0] is Os,
            r matches Err(e) ==> e == SourceError::MissingOsVersion || e
                == SourceError::MissingHostName,
    {
        let version = sysinfo::System::long_os_version();
        let host_name = sysinfo::System::host_name();
        match os_record_from_sample(version, host_name) {
            Ok(o) => {
                let mut v: Vec<Record> = Vec::new();
                v.push(Record::Os(o));
                Ok(v)
            },
            Err(e) => Err(e),
        }
    }
}

/// Acquires one category's records against the shared snapshot, refreshing
/// it first. The caller supplies the two values the library cannot read
/// itself: the live processor usage in tenths of a percent, and the shell
/// inventory query's output (or the error its invocation produced).
pub fn grab(
    sys: &mut sysinfo::System,
    component_type: &ComponentType,
    cpu_usage_tenths: u32,
    gpu_output: Result<String, SourceError>,
) -> (r: Result<Vec<Record>, SourceError>)
    ensures
        *component_type == ComponentType::Cpu ==> (r matches Ok(v) ==> (v@.len() == 1 && (
        v.deep_view()[0] matches RecordV::Cpu(c) && c.usage_tenths == cpu_usage_tenths && c.cores
            >= 1))),
        *component_type == ComponentType::Cpu ==> (r matches Err(e) ==> e == SourceError::NoCpu),
        *component_type == ComponentType::Gpu ==> (gpu_output matches Err(e0) ==> r == Err::<
            Vec<Record>,
            SourceError,
        >(e0)),
        *component_type == ComponentType::Gpu ==> (gpu_output matches Ok(output) ==> ((
        r matches Ok(v) ==> exists|vendor: Seq<NvidiaGpuInfoV>|
            spec_parse_gpu_table(output@, vendor) == Ok::<Seq<RecordV>, SourceError>(
                v.deep_view(),
            )) && (!spec_table_mentions_vendor(output@) ==> ((r matches Ok(v)
            && spec_parse_gpu_table(output@, Seq::<NvidiaGpuInfoV>::empty()) == Ok::<
            Seq<RecordV>,
            SourceError,
        >(v.deep_view())) || (r matches Err(e) && spec_parse_gpu_table(
            output@,
            Seq::<NvidiaGpuInfoV>::empty(),
        ) == Err::<Seq<RecordV>, SourceError>(e)))) && (r matches Err(e) ==> e
            == SourceError::VendorUnavailable || spec_parse_gpu_table(
            output@,
            Seq::<NvidiaGpuInfoV>::empty(),
        ) == Err::<Seq<RecordV>, SourceError>(e)))),
        *component_type == ComponentType::Disk ==> (r matches Ok(v) && forall|i: int|
            0 <= i < v.deep_view().len() ==> (#[trigger] v.deep_view()[i]) is Disk),
        *component_type == ComponentType::Memory ==> (r matches Ok(v) && v@.len() == 1 && (
        v.deep_view()[0] matches RecordV::Memory(m) && m.free_memory <= m.total_memory)),
        *component_type == ComponentType::OS ==> (r matches Ok(v) ==> v@.len() == 1
            && v.deep_view()[0] is Os),
        *component_type == ComponentType::OS ==> (r matches Err(e) ==> e
            == SourceError::MissingOsVersion || e == SourceError::MissingHostName),
{
    sys.refresh_all();
    match component_type {
        ComponentType::Cpu => CpuGrabber::grab(sys, cpu_usage_tenths),
        ComponentType::Gpu => {
            match gpu_output {
                Ok(output) => GpuGrabber::grab(sys, output.as_str()),
                Err(e) => Err(e),
            }
        },
        ComponentType::Disk => DiskGrabber::grab(sys),
        ComponentType::Memory => MemoryGrabber::grab(sys),
        ComponentType::OS => OSGrabber::grab(sys),
    }
}

/// The records that the successful categories of a run contribute, in
/// category order and, within one category, in the adapter's order.
pub open spec fn spec_ok_records(results: Seq<Result<Vec<Record>, SourceError>>) -> Seq<RecordV>
    decreases results.len(),
{
    if results.len() == 0 {
        Seq::<RecordV>::empty()
    } else {
        spec_ok_records(results.drop_last()) + (match results.last() {
            Ok(v) => v.deep_view(),
            Err(_) => Seq::<RecordV>::empty(),
        })
    }
}

/// The errors that the failing categories of a run report, in category
/// order, one per failing category.
pub open spec fn spec_errors(results: Seq<Result<Vec<Record>, SourceError>>) -> Seq<SourceError>
    decreases results.len(),
{
    if results.len() == 0 {
        Seq::<SourceError>::empty()
    } else {
        spec_errors(results.drop_last()) + (match results.last() {
            Ok(_) => Seq::<SourceError>::empty(),
            Err(e) => seq![e],
        })
    }
}

/// The aggregator's partial-failure isolation: every successful category
/// contributes all its records in order, every failing category exactly
/// one reported error, and no failure aborts the run.
#[verifier::loop_isolation(false)]
pub fn aggregate(results: Vec<Result<Vec<Record>, SourceError>>) -> (out: (
    Vec<Record>,
    Vec<SourceError>,
))
    ensures
        out.0.deep_view() == spec_ok_records(results@),
        out.1@ == spec_errors(results@),
{
    let mut records: Vec<Record> = Vec::new();
    let mut errors: Vec<SourceError> = Vec::new();
    let mut i: usize = 0;
    proof {
        assert(results@.take(0) =~= Seq::<Result<Vec<Record>, SourceError>>::empty());
        assert(records.deep_view() =~= spec_ok_records(results@.take(0)));
        assert(errors@ =~= spec_errors(results@.take(0)));
    }
    while i < results.len()
        invariant
            i <= results.len(),
            records.deep_view() == spec_ok_records(results@.take(i as int)),
            errors@ == spec_errors(results@.take(i as int)),
        decreases results.len() - i,
    {
        proof {
            assert(results@.take(i + 1).drop_last() =~= results@.take(i as int));
            assert(results@.take(i + 1).last() == results@[i as int]);
        }
        match &results[i] {
            Ok(v) => {
                let ghost base = records.deep_view();
                let mut k: usize = 0;
                proof {
                    assert(v.deep_view().take(0) =~= Seq::<RecordV>::empty());
                    assert(records.deep_view() =~= base + v.deep_view().take(0));
                }
                while k < v.len()
                    invariant
                        k <= v.len(),
                        records.deep_view() == base + v.deep_view().take(k as int),
                    decreases v.len() - k,
                {
                    let ghost before = records.deep_view();
                    records.push(v[k].clone());
                    k = k + 1;
                    proof {
                        assert(records.deep_view() =~= before.push(v@[k - 1]@));
                        assert(v.deep_view().take(k as int) =~= v.deep_view().take(k - 1).push(
                            v@[k - 1]@,
                        ));
                        assert(records.deep_view() =~= base + v.deep_view().take(k as int));
                    }
                }
                proof {
                    assert(v.deep_view().take(v@.len() as int) =~= v.deep_view());
                    assert(records.deep_view() =~= spec_ok_records(results@.take(i + 1)));
                    assert(errors@ =~= spec_errors(results@.take(i + 1)));
                }
            },
            Err(e) => {
                errors.push(*e);
                proof {
                    assert(records.deep_view() =~= spec_ok_records(results@.take(i + 1)));
                    assert(errors@ =~= spec_errors(results@.take(i + 1)));
                }
            },
        }
        i = i + 1;
    }
    proof {
        assert(results@.take(results@.len() as int) =~= results@);
    }
    (records, errors)
}

/// The failure-isolation law: in a run where the disk category succeeds
/// and the operating-system category fails, the aggregated output holds
/// all the disk records and no operating-system record, and exactly one
/// error — the operating-system category's — is reported; the run itself
/// completes.
pub proof fn lemma_failure_isolation(disk_records: Vec<Record>, os_failure: SourceError)
    ensures
        spec_ok_records(
            seq![
                Ok::<Vec<Record>, SourceError>(disk_records),
                Err::<Vec<Record>, SourceError>(os_failure),
            ],
        ) == disk_records.deep_view(),
        spec_errors(
            seq![
                Ok::<Vec<Record>, SourceError>(disk_records),
                Err::<Vec<Record>, SourceError>(os_failure),
            ],
        ) == seq![os_failure],
{
    let results = seq![
        Ok::<Vec<Record>, SourceError>(disk_records),
        Err::<Vec<Record>, SourceError>(os_failure),
    ];
    let one = results.drop_last();
    let none: Seq<Result<Vec<Record>, SourceError>> = Seq::empty();
    assert(one.len() == 1);
    assert(one.last() == results[0]);
    assert(one.drop_last() =~= none);
    assert(spec_ok_records(none) == Seq::<RecordV>::empty());
    assert(spec_errors(none) == Seq::<SourceError>::empty());
    assert(spec_ok_records(one) =~= disk_records.deep_view());
    assert(spec_errors(one) =~= Seq::<SourceError>::empty());
    assert(spec_ok_records(results) =~= disk_records.deep_view());
    assert(spec_errors(results) =~= seq![os_failure]);
}

} // verus!
