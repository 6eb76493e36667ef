//! The memory record: total and free byte counts. The used amount is
//! derived at render time as total minus free, never stored.
use vstd::prelude::*;

verus! {

use crate::args::DisplayStyle;
use crate::component::Component;
use crate::numfmt::{fixed1_str, fixed1_string, fixed2_str, fixed2_string, gb_tenths, gb_tenths_of,
    pct_hundredths, pct_hundredths_of};
use vstd::string::StringExecFns;

/// The mathematical value of a [`MemoryInfo`].
pub ghost struct MemoryInfoV {
    pub total_memory: u64,
    pub free_memory: u64,
}

/// A snapshot of system memory, in bytes.
#[derive(Debug)]
pub struct MemoryInfo {
    pub total_memory: u64,
    pub free_memory: u64,
}

impl View for MemoryInfo {
    type V = MemoryInfoV;

    open spec fn view(&self) -> MemoryInfoV {
        MemoryInfoV { total_memory: self.total_memory, free_memory: self.free_memory }
    }
}

impl Clone for MemoryInfo {
    fn clone(&self) -> (r: Self)
        ensures
            r == *self,
    {
        MemoryInfo { total_memory: self.total_memory, free_memory: self.free_memory }
    }
}

/// The used byte count: total minus free, and zero in the unexpected case
/// that more is free than the total.
pub open spec fn used_bytes(m: MemoryInfoV) -> nat {
    if m.free_memory <= m.total_memory {
        (m.total_memory - m.free_memory) as nat
    } else {
        0
    }
}

/// The report text of a memory record at the given tier. The `Default` tier
/// is identical to `Minimal`: memory has no intermediate tier. The gigabyte
/// figures divide the byte counts by 1024^3. In the unexpected case that
/// more is free than the total, the used amount is clamped to zero rather
/// than shown signed.
pub open spec fn spec_render_memory(m: MemoryInfoV, style: DisplayStyle) -> Seq<char> {
    let minimal = "Memory: "@ + fixed1_str(gb_tenths(used_bytes(m))) + "GB/"@ + fixed1_str(
        gb_tenths(m.total_memory as nat),
    ) + "GB"@;
    if style == DisplayStyle::Detailed {
        minimal + "\n\t- Occupancy: "@ + fixed2_str(
            pct_hundredths(used_bytes(m), m.total_memory as nat),
        ) + "%"@
    } else {
        minimal
    }
}

impl MemoryInfo {
    pub fn new(total_memory: u64, free_memory: u64) -> (r: MemoryInfo)
        ensures
            r@ == (MemoryInfoV { total_memory, free_memory }),
    {
        MemoryInfo { total_memory, free_memory }
    }
}

impl Component for MemoryInfo {
    open spec fn spec_info(&self, style: DisplayStyle) -> Seq<char> {
        spec_render_memory(self@, style)
    }

    fn get_info(&self, style: DisplayStyle) -> (r: String) {
        let used: u64 = if self.free_memory <= self.total_memory {
            self.total_memory - self.free_memory
        } else {
            0
        };
        let mut s = String::from_str("Memory: ");
        let used_text = fixed1_string(gb_tenths_of(used));
        s.append(used_text.as_str());
        s.append("GB/");
        let total_text = fixed1_string(gb_tenths_of(self.total_memory));
        s.append(total_text.as_str());
        s.append("GB");
        if style == DisplayStyle::Default || style == DisplayStyle::Minimal {
            proof {
                assert(s@ =~= self.spec_info(style));
            }
            return s;
        }
        s.append("\n\t- Occupancy: ");
        let occ_text = fixed2_string(pct_hundredths_of(used, self.total_memory));
        s.append(occ_text.as_str());
        s.append("%");
        proof {
            assert(s@ =~= self.spec_info(style));
        }
        s
    }
}

} // verus!
