//! The generic display-adapter record, as read from the shell-invoked
//! inventory query.
use vstd::prelude::*;

verus! {

use crate::args::DisplayStyle;
use crate::component::Component;
use crate::numfmt::{dec_str, fixed1_str, fixed1_string, gb_tenths, gb_tenths_of, u64_string};
use vstd::string::StringExecFns;

/// The mathematical value of a [`GpuInfo`].
pub ghost struct GpuInfoV {
    pub name: Seq<char>,
    pub driver: Seq<char>,
    pub adapter_ram: u64,
    pub status: Seq<char>,
    pub horizontal_resolution: u16,
    pub vertical_resolution: u16,
}

/// A snapshot of one display adapter. The adapter memory may legitimately be
/// zero when the source could not read it.
#[derive(Debug)]
pub struct GpuInfo {
    pub name: String,
    pub driver: String,
    /// Adapter memory size in bytes.
    pub adapter_ram: u64,
    pub status: String,
    pub horizontal_resolution: u16,
    pub vertical_resolution: u16,
}

impl View for GpuInfo {
    type V = GpuInfoV;

    open spec fn view(&self) -> GpuInfoV {
        GpuInfoV {
            name: self.name@,
            driver: self.driver@,
            adapter_ram: self.adapter_ram,
            status: self.status@,
            horizontal_resolution: self.horizontal_resolution,
            vertical_resolution: self.vertical_resolution,
        }
    }
}

impl Clone for GpuInfo {
    fn clone(&self) -> (r: Self)
        ensures
            r == *self,
    {
        GpuInfo {
            name: self.name.clone(),
            driver: self.driver.clone(),
            adapter_ram: self.adapter_ram,
            status: self.status.clone(),
            horizontal_resolution: self.horizontal_resolution,
            vertical_resolution: self.vertical_resolution,
        }
    }
}

/// The report text of a display-adapter record at the given tier.
pub open spec fn spec_render_gpu(g: GpuInfoV, style: DisplayStyle) -> Seq<char> {
    let minimal = "GPU: "@ + g.name;
    if style == DisplayStyle::Minimal {
        minimal
    } else {
        let default = minimal + "\n\t- VRAM: "@ + fixed1_str(gb_tenths(g.adapter_ram as nat))
            + "GB"@ + "\n\t- Driver version: "@ + g.driver;
        if style == DisplayStyle::Default {
            default
        } else {
            default + "\n\t- Status: "@ + g.status + "\n\t- Resolution: "@ + dec_str(
                g.horizontal_resolution as nat,
            ) + "x"@ + dec_str(g.vertical_resolution as nat)
        }
    }
}

impl GpuInfo {
    pub fn new(
        name: String,
        driver: String,
        adapter_ram: u64,
        status: String,
        horizontal_resolution: u16,
        vertical_resolution: u16,
    ) -> (r: GpuInfo)
        ensures
            r@ == (GpuInfoV {
                name: name@,
                driver: driver@,
                adapter_ram,
                status: status@,
                horizontal_resolution,
                vertical_resolution,
            }),
    {
        GpuInfo { name, driver, adapter_ram, status, horizontal_resolution, vertical_resolution }
    }
}

impl Component for GpuInfo {
    open spec fn spec_info(&self, style: DisplayStyle) -> Seq<char> {
        spec_render_gpu(self@, style)
    }

    fn get_info(&self, style: DisplayStyle) -> (r: String) {
        let mut s = String::from_str("GPU: ");
        s.append(self.name.as_str());
        if style == DisplayStyle::Minimal {
            proof {
                assert(s@ =~= self.spec_info(style));
            }
            return s;
        }
        s.append("\n\t- VRAM: ");
        let ram_text = fixed1_string(gb_tenths_of(self.adapter_ram));
        s.append(ram_text.as_str());
        s.append("GB");
        s.append("\n\t- Driver version: ");
        s.append(self.driver.as_str());
        if style == DisplayStyle::Default {
            proof {
                assert(s@ =~= self.spec_info(style));
            }
            return s;
        }
        s.append("\n\t- Status: ");
        s.append(self.status.as_str());
        s.append("\n\t- Resolution: ");
        let h_text = u64_string(self.horizontal_resolution as u64);
        s.append(h_text.as_str());
        s.append("x");
        let v_text = u64_string(self.vertical_resolution as u64);
        s.append(v_text.as_str());
        proof {
            assert(s@ =~= self.spec_info(style));
        }
        s
    }
}

} // verus!
