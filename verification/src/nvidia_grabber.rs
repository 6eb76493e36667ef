//! The vendor GPU adapter: initializes the vendor management library,
//! enumerates the devices and reads each one's attributes, every single
//! read degrading to a sentinel rather than failing the device.
use vstd::prelude::*;

verus! {

use crate::error::SourceError;
use crate::numfmt::{dec_str, int_dec_str, i32_string};
use crate::nvidia_gpu::NvidiaGpuInfo;
use crate::record::{Record, RecordV};
use crate::sampling::{nvml_cuda_version, nvml_device_by_index, nvml_device_count,
    nvml_device_name, nvml_driver_version, nvml_fan_speed, nvml_init, nvml_memory_info,
    nvml_memory_utilization, nvml_temperature};
use vstd::string::StringExecFns;

/// Builds one vendor device record from the per-field readings: every
/// absent reading degrades to its sentinel — a placeholder name, a zero
/// figure — and never fails the device.
pub fn vendor_record_from_readings(
    name: Option<String>,
    driver_version: Option<String>,
    cuda_version: Option<i32>,
    temperature: Option<u32>,
    fan_speed: Option<u32>,
    memory: Option<(u64, u64)>,
    memory_utilization: Option<u32>,
) -> (g: NvidiaGpuInfo)
    ensures
        g@.name == (match name {
            Some(n) => n@,
            None => "Unknown"@,
        }),
        g@.driver_version == (match driver_version {
            Some(d) => d@,
            None => "Unknown"@,
        }),
        g@.cuda_version == (match cuda_version {
            Some(c) => int_dec_str(c as int),
            None => dec_str(0),
        }),
        g@.temperature == (match temperature {
            Some(t) => t,
            None => 0u32,
        }),
        g@.fan_speed == (match fan_speed {
            Some(f) => f,
            None => 0u32,
        }),
        g@.total_memory == (match memory {
            Some(m) => m.0,
            None => 0u64,
        }),
        g@.used_memory == (match memory {
            Some(m) => m.1,
            None => 0u64,
        }),
        g@.memory_utilization == (match memory_utilization {
            Some(u) => u,
            None => 0u32,
        }),
{
    let mut record = NvidiaGpuInfo::default();
    record.name = match name {
        Some(n) => n,
        None => String::from_str("Unknown"),
    };
    record.driver_version = match driver_version {
        Some(d) => d,
        None => String::from_str("Unknown"),
    };
    record.cuda_version = match cuda_version {
        Some(c) => i32_string(c),
        None => crate::numfmt::u64_string(0),
    };
    record.temperature = match temperature {
        Some(t) => t,
        None => 0,
    };
    record.fan_speed = match fan_speed {
        Some(f) => f,
        None => 0,
    };
    match memory {
        Some(m) => {
            record.total_memory = m.0;
            record.used_memory = m.1;
        },
        None => {
            record.total_memory = 0;
            record.used_memory = 0;
        },
    }
    record.memory_utilization = match memory_utilization {
        Some(u) => u,
        None => 0,
    };
    record
}

/// The vendor GPU adapter.
pub struct NvidiaGrabber;

impl NvidiaGrabber {
    /// Acquires one record per enumerated vendor device. Initialization or
    /// enumeration failure aborts the whole adapter with a typed error; a
    /// device that cannot be opened is skipped; every per-field read
    /// failure degrades to a sentinel inside the record.
    pub fn grab_infos() -> (r: Result<Vec<NvidiaGpuInfo>, SourceError>)
        ensures
            r matches Err(e) ==> e == SourceError::VendorUnavailable,
    {
        let nvml = match nvml_init() {
            Some(n) => n,
            None => {
                return Err(SourceError::VendorUnavailable);
            },
        };
        let count = match nvml_device_count(&nvml) {
            Some(c) => c,
            None => {
                return Err(SourceError::VendorUnavailable);
            },
        };
        let mut devices: Vec<NvidiaGpuInfo> = Vec::new();
        let mut i: u32 = 0;
        while i < count
            invariant
                i <= count,
            decreases count - i,
        {
            match nvml_device_by_index(&nvml, i) {
                Some(device) => {
                    let record = vendor_record_from_readings(
                        nvml_device_name(&device),
                        nvml_driver_version(&nvml),
                        nvml_cuda_version(&nvml),
                        nvml_temperature(&device),
                        nvml_fan_speed(&device),
                        nvml_memory_info(&device),
                        nvml_memory_utilization(&device),
                    );
                    devices.push(record);
                },
                None => {},
            }
            i = i + 1;
        }
        Ok(devices)
    }

    /// Acquires the vendor devices as renderable records.
    pub fn grab(_sys: &sysinfo::System) -> (r: Result<Vec<Record>, SourceError>)
        ensures
            r matches Ok(v) ==> forall|i: int|
                0 <= i < v.deep_view().len() ==> (#[trigger] v.deep_view()[i]) is NvidiaGpu,
            r matches Err(e) ==> e == SourceError::VendorUnavailable,
    {
        let infos = match Self::grab_infos() {
            Ok(v) => v,
            Err(e) => {
                return Err(e);
            },
        };
        let mut records: Vec<Record> = Vec::new();
        let mut i: usize = 0;
        while i < infos.len()
            invariant
                i <= infos.len(),
                records@.len() == i,
                forall|k: int|
                    0 <= k < records@.len() ==> (#[trigger] records.deep_view()[k]) is NvidiaGpu,
            decreases infos.len() - i,
        {
            let ghost before = records.deep_view();
            records.push(Record::NvidiaGpu(infos[i].clone()));
            i = i + 1;
            proof {
                assert(records.deep_view() =~= before.push(records@.last()@));
            }
        }
        Ok(records)
    }
}

} // verus!
