//! The vendor-specific display-adapter record, as read from the vendor
//! management library. A fan speed of zero is a sentinel for an absent
//! sensor and suppresses the fan-speed line entirely.
use vstd::prelude::*;

verus! {

use crate::args::DisplayStyle;
use crate::component::Component;
use crate::numfmt::{dec_str, fixed1_str, fixed1_string, gb_tenths, gb_tenths_of, u64_string};
use vstd::string::StringExecFns;
use crate::chars::contains_seq;

/// The mathematical value of an [`NvidiaGpuInfo`].
pub ghost struct NvidiaGpuInfoV {
    pub name: Seq<char>,
    pub driver_version: Seq<char>,
    pub cuda_version: Seq<char>,
    pub temperature: u32,
    pub fan_speed: u32,
    pub total_memory: u64,
    pub used_memory: u64,
    pub memory_utilization: u32,
}

/// A snapshot of one vendor device. Each unreadable field degrades to zero
/// or to a placeholder, never failing the whole device.
#[derive(Debug)]
pub struct NvidiaGpuInfo {
    pub name: String,
    pub driver_version: String,
    pub cuda_version: String,
    /// Temperature of the die in degrees Celsius.
    pub temperature: u32,
    /// Fan speed in rpm; zero means the sensor is absent and the fan-speed
    /// line is omitted from the report.
    pub fan_speed: u32,
    pub total_memory: u64,
    pub used_memory: u64,
    /// Memory utilization as a whole percentage.
    pub memory_utilization: u32,
}

impl View for NvidiaGpuInfo {
    type V = NvidiaGpuInfoV;

    open spec fn view(&self) -> NvidiaGpuInfoV {
        NvidiaGpuInfoV {
            name: self.name@,
            driver_version: self.driver_version@,
            cuda_version: self.cuda_version@,
            temperature: self.temperature,
            fan_speed: self.fan_speed,
            total_memory: self.total_memory,
            used_memory: self.used_memory,
            memory_utilization: self.memory_utilization,
        }
    }
}

impl DeepView for NvidiaGpuInfo {
    type V = NvidiaGpuInfoV;

    open spec fn deep_view(&self) -> NvidiaGpuInfoV {
        self.view()
    }
}

impl Clone for NvidiaGpuInfo {
    fn clone(&self) -> (r: Self)
        ensures
            r == *self,
    {
        NvidiaGpuInfo {
            name: self.name.clone(),
            driver_version: self.driver_version.clone(),
            cuda_version: self.cuda_version.clone(),
            temperature: self.temperature,
            fan_speed: self.fan_speed,
            total_memory: self.total_memory,
            used_memory: self.used_memory,
            memory_utilization: self.memory_utilization,
        }
    }
}

/// The detailed report of a vendor device up to and including the
/// temperature line; everything except the conditional fan-speed line.
pub open spec fn spec_render_nvidia_base(g: NvidiaGpuInfoV, style: DisplayStyle) -> Seq<char> {
    let minimal = "Nvidia GPU: "@ + g.name;
    if style == DisplayStyle::Minimal {
        minimal
    } else {
        let default = minimal + "\n\t- Driver version: "@ + g.driver_version
            + "\n\t- CUDA version: "@ + g.cuda_version + "\n\t- Memory utilization: "@ + dec_str(
            g.memory_utilization as nat,
        ) + "%"@;
        if style == DisplayStyle::Default {
            default
        } else {
            default + "\n\t- Total memory: "@ + fixed1_str(gb_tenths(g.total_memory as nat))
                + "GB"@ + "\n\t- Used memory: "@ + fixed1_str(gb_tenths(g.used_memory as nat))
                + "GB"@ + "\n\t- Temperature: "@ + dec_str(g.temperature as nat) + "°C"@
        }
    }
}

/// The fan-speed line of a vendor device's detailed report.
pub open spec fn spec_fan_line(g: NvidiaGpuInfoV) -> Seq<char> {
    "\n\t- Fan speed: "@ + dec_str(g.fan_speed as nat) + "rpm"@
}

/// The report text of a vendor device at the given tier: the fan-speed line
/// is appended at the `Detailed` tier exactly when the fan speed is not the
/// zero sentinel.
pub open spec fn spec_render_nvidia(g: NvidiaGpuInfoV, style: DisplayStyle) -> Seq<char> {
    if style == DisplayStyle::Detailed && g.fan_speed != 0 {
        spec_render_nvidia_base(g, style) + spec_fan_line(g)
    } else {
        spec_render_nvidia_base(g, style)
    }
}

/// The fan-sentinel law: for every vendor device record, the `Detailed`
/// report carries the fan-speed line exactly when the fan speed is not the
/// zero sentinel. With fan speed zero the report equals the fan-free base
/// text, whose definition holds no fan-speed line; with a nonzero fan speed
/// it is that base text with the fan-speed line appended, and so contains
/// the fan-speed label.
pub proof fn lemma_fan_speed_line(g: NvidiaGpuInfoV)
    ensures
        g.fan_speed == 0 ==> spec_render_nvidia(g, DisplayStyle::Detailed)
            == spec_render_nvidia_base(g, DisplayStyle::Detailed),
        g.fan_speed != 0 ==> spec_render_nvidia(g, DisplayStyle::Detailed)
            == spec_render_nvidia_base(g, DisplayStyle::Detailed) + spec_fan_line(g),
        g.fan_speed != 0 ==> contains_seq(
            spec_render_nvidia(g, DisplayStyle::Detailed),
            "\n\t- Fan speed: "@,
        ),
{
    if g.fan_speed != 0 {
        let base = spec_render_nvidia_base(g, DisplayStyle::Detailed);
        let whole = spec_render_nvidia(g, DisplayStyle::Detailed);
        let label = "\n\t- Fan speed: "@;
        assert(contains_seq(whole, label)) by {
            assert(whole.subrange(base.len() as int, base.len() as int + label.len() as int)
                =~= label);
        }
    }
}

impl NvidiaGpuInfo {
    #[allow(dead_code)]
    pub fn new(
        name: String,
        driver_version: String,
        cuda_version: String,
        temperature: u32,
        fan_speed: u32,
        total_memory: u64,
        used_memory: u64,
        memory_utilization: u32,
    ) -> (r: NvidiaGpuInfo)
        ensures
            r@ == (NvidiaGpuInfoV {
                name: name@,
                driver_version: driver_version@,
                cuda_version: cuda_version@,
                temperature,
                fan_speed,
                total_memory,
                used_memory,
                memory_utilization,
            }),
    {
        NvidiaGpuInfo {
            name,
            driver_version,
            cuda_version,
            temperature,
            fan_speed,
            total_memory,
            used_memory,
            memory_utilization,
        }
    }

    /// The all-sentinel record that per-field reads then fill in.
    pub fn default() -> (r: NvidiaGpuInfo)
        ensures
            r@.name == Seq::<char>::empty(),
            r@.driver_version == Seq::<char>::empty(),
            r@.cuda_version == Seq::<char>::empty(),
            r@.temperature == 0,
            r@.fan_speed == 0,
            r@.total_memory == 0,
            r@.used_memory == 0,
            r@.memory_utilization == 0,
    {
        NvidiaGpuInfo {
            name: String::new(),
            driver_version: String::new(),
            cuda_version: String::new(),
            temperature: 0,
            fan_speed: 0,
            total_memory: 0,
            used_memory: 0,
            memory_utilization: 0,
        }
    }
}

impl Component for NvidiaGpuInfo {
    open spec fn spec_info(&self, style: DisplayStyle) -> Seq<char> {
        spec_render_nvidia(self@, style)
    }

    fn get_info(&self, style: DisplayStyle) -> (r: String) {
        let mut s = String::from_str("Nvidia GPU: ");
        s.append(self.name.as_str());
        if style == DisplayStyle::Minimal {
            proof {
                assert(s@ =~= self.spec_info(style));
            }
            return s;
        }
        s.append("\n\t- Driver version: ");
        s.append(self.driver_version.as_str());
        s.append("\n\t- CUDA version: ");
        s.append(self.cuda_version.as_str());
        s.append("\n\t- Memory utilization: ");
        let util_text = u64_string(self.memory_utilization as u64);
        s.append(util_text.as_str());
        s.append("%");
        if style == DisplayStyle::Default {
            proof {
                assert(s@ =~= self.spec_info(style));
            }
            return s;
        }
        s.append("\n\t- Total memory: ");
        let total_text = fixed1_string(gb_tenths_of(self.total_memory));
        s.append(total_text.as_str());
        s.append("GB");
        s.append("\n\t- Used memory: ");
        let used_text = fixed1_string(gb_tenths_of(self.used_memory));
        s.append(used_text.as_str());
        s.append("GB");
        s.append("\n\t- Temperature: ");
        let temp_text = u64_string(self.temperature as u64);
        s.append(temp_text.as_str());
        s.append("°C");
        if self.fan_speed == 0 {
            proof {
                assert(s@ =~= self.spec_info(style));
            }
            return s;
        }
        s.append("\n\t- Fan speed: ");
        let fan_text = u64_string(self.fan_speed as u64);
        s.append(fan_text.as_str());
        s.append("rpm");
        proof {
            assert(s@ =~= self.spec_info(style));
        }
        s
    }
}

} // verus!
