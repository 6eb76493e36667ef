//! The processor record: identifying name, core count, live usage and the
//! frequency summed across all cores.
use vstd::prelude::*;

verus! {

use crate::args::DisplayStyle;
use crate::component::Component;
use crate::numfmt::{dec_str, fixed1_str, fixed1_string, u64_string};
use vstd::string::StringExecFns;

/// The mathematical value of a [`CpuInfo`].
pub ghost struct CpuInfoV {
    pub name: Seq<char>,
    pub cores: usize,
    pub usage_tenths: u32,
    pub frequency: u64,
}

/// A snapshot of the processor: brand name, core count, usage percentage in
/// tenths of a percent, and the sum of all cores' frequencies in MHz.
#[derive(Debug)]
pub struct CpuInfo {
    pub name: String,
    pub cores: usize,
    /// Usage percentage scaled by ten: `219` renders as `21.9%`. The live
    /// percentage is sampled outside the library and handed in already
    /// scaled.
    pub usage_tenths: u32,
    pub frequency: u64,
}

impl View for CpuInfo {
    type V = CpuInfoV;

    open spec fn view(&self) -> CpuInfoV {
        CpuInfoV {
            name: self.name@,
            cores: self.cores,
            usage_tenths: self.usage_tenths,
            frequency: self.frequency,
        }
    }
}

impl Clone for CpuInfo {
    fn clone(&self) -> (r: Self)
        ensures
            r == *self,
    {
        CpuInfo {
            name: self.name.clone(),
            cores: self.cores,
            usage_tenths: self.usage_tenths,
            frequency: self.frequency,
        }
    }
}

/// The report text of a processor record at the given tier.
pub open spec fn spec_render_cpu(c: CpuInfoV, style: DisplayStyle) -> Seq<char> {
    let minimal = "CPU: "@ + c.name;
    if style == DisplayStyle::Minimal {
        minimal
    } else {
        let default = minimal + "\n\t- Cores: "@ + dec_str(c.cores as nat);
        if style == DisplayStyle::Default {
            default
        } else {
            default + "\n\t- Usage: "@ + fixed1_str(c.usage_tenths as nat) + "%"@
                + "\n\t- Frequency: "@ + dec_str(c.frequency as nat) + "MHz"@
        }
    }
}

impl CpuInfo {
    pub fn new(name: String, cores: usize, usage_tenths: u32, frequency: u64) -> (r: CpuInfo)
        ensures
            r@ == (CpuInfoV { name: name@, cores, usage_tenths, frequency }),
    {
        CpuInfo { name, cores, usage_tenths, frequency }
    }
}

impl Component for CpuInfo {
    open spec fn spec_info(&self, style: DisplayStyle) -> Seq<char> {
        spec_render_cpu(self@, style)
    }

    fn get_info(&self, style: DisplayStyle) -> (r: String) {
        let mut s = String::from_str("CPU: ");
        s.append(self.name.as_str());
        if style == DisplayStyle::Minimal {
            proof {
                assert(s@ =~= self.spec_info(style));
            }
            return s;
        }
        s.append("\n\t- Cores: ");
        let cores_text = u64_string(self.cores as u64);
        s.append(cores_text.as_str());
        if style == DisplayStyle::Default {
            proof {
                assert(s@ =~= self.spec_info(style));
            }
            return s;
        }
        s.append("\n\t- Usage: ");
        let usage_text = fixed1_string(self.usage_tenths as u64);
        s.append(usage_text.as_str());
        s.append("%");
        s.append("\n\t- Frequency: ");
        let freq_text = u64_string(self.frequency);
        s.append(freq_text.as_str());
        s.append("MHz");
        proof {
            assert(s@ =~= self.spec_info(style));
        }
        s
    }
}

} // verus!
