//! The backing subsystems the adapters consume: the generic hardware and OS
//! sampling interface and the vendor GPU management library. Every value
//! read here describes the host machine at the moment of the call, so
//! nothing can be promised of it; the adapters state what holds of whatever
//! comes back.
use vstd::prelude::*;

verus! {

use vstd::string::StringExecFns;

#[verifier::external_type_specification]
#[verifier::external_body]
pub struct ExSystem(sysinfo::System);

#[verifier::external_type_specification]
#[verifier::external_body]
pub struct ExCpu(sysinfo::Cpu);

#[verifier::external_type_specification]
#[verifier::external_body]
pub struct ExDisks(sysinfo::Disks);

#[verifier::external_type_specification]
#[verifier::external_body]
pub struct ExDisk(sysinfo::Disk);

#[verifier::external_type_specification]
#[verifier::external_body]
pub struct ExNvml(nvml_wrapper::Nvml);

#[verifier::external_type_specification]
#[verifier::external_body]
pub struct ExDevice<'nvml>(nvml_wrapper::Device<'nvml>);

/// Relies on sysinfo::System::refresh_all: refreshes the snapshot in place.
pub assume_specification[ sysinfo::System::refresh_all ](s: &mut sysinfo::System)
;

/// Relies on sysinfo::System::cpus: the sampled processor cores.
pub assume_specification<'a>[ sysinfo::System::cpus ](s: &'a sysinfo::System) -> &'a [sysinfo::Cpu]
;

/// Relies on sysinfo::System::total_memory: total memory in bytes.
pub assume_specification[ sysinfo::System::total_memory ](s: &sysinfo::System) -> u64
;

/// Relies on sysinfo::System::used_memory: used memory in bytes.
pub assume_specification[ sysinfo::System::used_memory ](s: &sysinfo::System) -> u64
;

/// Relies on sysinfo::System::long_os_version: the long OS version string,
/// if the host reports one.
pub assume_specification[ sysinfo::System::long_os_version ]() -> Option<String>
;

/// Relies on sysinfo::System::host_name: the host name, if the host
/// reports one.
pub assume_specification[ sysinfo::System::host_name ]() -> Option<String>
;

/// Relies on sysinfo::Cpu::brand: the brand string of one core.
pub assume_specification<'a>[ sysinfo::Cpu::brand ](c: &'a sysinfo::Cpu) -> &'a str
;

/// Relies on sysinfo::Cpu::frequency: the clock frequency of one core in
/// MHz.
pub assume_specification[ sysinfo::Cpu::frequency ](c: &sysinfo::Cpu) -> u64
;

/// Relies on sysinfo::Disks::new_with_refreshed_list: a freshly refreshed
/// list of the mounted volumes.
pub assume_specification[ sysinfo::Disks::new_with_refreshed_list ]() -> sysinfo::Disks
;

/// Relies on sysinfo::Disks::list: the volumes of the list.
pub assume_specification<'a>[ sysinfo::Disks::list ](d: &'a sysinfo::Disks) -> &'a [sysinfo::Disk]
;

/// Relies on sysinfo::Disk::total_space: total space in bytes.
pub assume_specification[ sysinfo::Disk::total_space ](d: &sysinfo::Disk) -> u64
;

/// Relies on sysinfo::Disk::available_space: available space in bytes.
pub assume_specification[ sysinfo::Disk::available_space ](d: &sysinfo::Disk) -> u64
;

/// Relies on sysinfo::Disk::name: the volume's name; characters that are
/// not text are replaced rather than failing the read.
#[verifier::external_body]
pub(crate) fn disk_name(d: &sysinfo::Disk) -> String {
    d.name().to_string_lossy().into_owned()
}

/// Relies on sysinfo::Disk::file_system: the volume's file-system label;
/// characters that are not text are replaced rather than failing the read.
#[verifier::external_body]
pub(crate) fn disk_file_system(d: &sysinfo::Disk) -> String {
    d.file_system().to_string_lossy().into_owned()
}

/// Relies on sysinfo::Disk::kind: the media kind, rendered with its own
/// textual form ("SSD", "HDD" or an unknown marker).
#[verifier::external_body]
pub(crate) fn disk_kind(d: &sysinfo::Disk) -> String {
    d.kind().to_string()
}

/// Relies on nvml_wrapper::Nvml::init: a handle to the vendor management
/// library, or nothing when it cannot be initialized.
#[verifier::external_body]
pub(crate) fn nvml_init() -> Option<nvml_wrapper::Nvml> {
    nvml_wrapper::Nvml::init().ok()
}

/// Relies on nvml_wrapper::Nvml::device_count: the number of vendor
/// devices, or nothing when the enumeration fails.
#[verifier::external_body]
pub(crate) fn nvml_device_count(nvml: &nvml_wrapper::Nvml) -> Option<u32> {
    nvml.device_count().ok()
}

/// Relies on nvml_wrapper::Nvml::device_by_index: a handle to one device.
#[verifier::external_body]
pub(crate) fn nvml_device_by_index<'a>(nvml: &'a nvml_wrapper::Nvml, index: u32) -> Option<
    nvml_wrapper::Device<'a>,
> {
    nvml.device_by_index(index).ok()
}

/// Relies on nvml_wrapper::Device::name: the device's name.
#[verifier::external_body]
pub(crate) fn nvml_device_name(device: &nvml_wrapper::Device<'_>) -> Option<String> {
    device.name().ok()
}

/// Relies on nvml_wrapper::Nvml::sys_driver_version: the installed driver
/// version.
#[verifier::external_body]
pub(crate) fn nvml_driver_version(nvml: &nvml_wrapper::Nvml) -> Option<String> {
    nvml.sys_driver_version().ok()
}

/// Relies on nvml_wrapper::Nvml::sys_cuda_driver_version: the compute-stack
/// version as the library encodes it.
#[verifier::external_body]
pub(crate) fn nvml_cuda_version(nvml: &nvml_wrapper::Nvml) -> Option<i32> {
    nvml.sys_cuda_driver_version().ok()
}

/// Relies on nvml_wrapper::Device::temperature for the die sensor, in
/// degrees Celsius.
#[verifier::external_body]
pub(crate) fn nvml_temperature(device: &nvml_wrapper::Device<'_>) -> Option<u32> {
    device.temperature(nvml_wrapper::enum_wrappers::device::TemperatureSensor::Gpu).ok()
}

/// Relies on nvml_wrapper::Device::fan_speed_rpm for the first fan, in rpm.
#[verifier::external_body]
pub(crate) fn nvml_fan_speed(device: &nvml_wrapper::Device<'_>) -> Option<u32> {
    device.fan_speed_rpm(0).ok()
}

/// Relies on nvml_wrapper::Device::memory_info: the total and the used
/// device memory in bytes, in that order.
#[verifier::external_body]
pub(crate) fn nvml_memory_info(device: &nvml_wrapper::Device<'_>) -> Option<(u64, u64)> {
    device.memory_info().ok().map(|m| (m.total, m.used))
}

/// Relies on nvml_wrapper::Device::utilization_rates: the memory
/// utilization percentage.
#[verifier::external_body]
pub(crate) fn nvml_memory_utilization(device: &nvml_wrapper::Device<'_>) -> Option<u32> {
    device.utilization_rates().ok().map(|u| u.memory)
}

} // verus!
