//! The disk record: one mounted volume with its label, file system, space
//! totals and media kind. Occupancy is derived at render time, never stored.
use vstd::prelude::*;

verus! {

use crate::args::DisplayStyle;
use crate::component::Component;
use crate::numfmt::{fixed2_str, fixed2_string, gb_hundredths, gb_hundredths_of, pct_hundredths,
    pct_hundredths_of};
use vstd::arithmetic::div_mod::{lemma_fundamental_div_mod, lemma_mod_bound};
use vstd::string::StringExecFns;

/// The mathematical value of a [`DiskInfo`].
pub ghost struct DiskInfoV {
    pub name: Seq<char>,
    pub file_system: Seq<char>,
    pub total_space: u64,
    pub available_space: u64,
    pub disk_type: Seq<char>,
}

/// A snapshot of one mounted volume. Space counts are in bytes; available
/// space is expected not to exceed the total but that is not enforced here.
#[derive(Debug)]
pub struct DiskInfo {
    pub name: String,
    pub file_system: String,
    pub total_space: u64,
    pub available_space: u64,
    pub disk_type: String,
}

impl View for DiskInfo {
    type V = DiskInfoV;

    open spec fn view(&self) -> DiskInfoV {
        DiskInfoV {
            name: self.name@,
            file_system: self.file_system@,
            total_space: self.total_space,
            available_space: self.available_space,
            disk_type: self.disk_type@,
        }
    }
}

impl Clone for DiskInfo {
    fn clone(&self) -> (r: Self)
        ensures
            r == *self,
    {
        DiskInfo {
            name: self.name.clone(),
            file_system: self.file_system.clone(),
            total_space: self.total_space,
            available_space: self.available_space,
            disk_type: self.disk_type.clone(),
        }
    }
}

/// The occupied byte count of a volume: total minus available, and zero in
/// the unexpected case that more is available than the total.
pub open spec fn occupied_bytes(d: DiskInfoV) -> nat {
    if d.available_space <= d.total_space {
        (d.total_space - d.available_space) as nat
    } else {
        0
    }
}

/// The occupancy of a volume in hundredths of a percent:
/// `100 - available / total * 100`, rounded to the nearest hundredth.
pub open spec fn disk_occupancy_hundredths(d: DiskInfoV) -> nat {
    pct_hundredths(occupied_bytes(d), d.total_space as nat)
}

/// The report text of a disk record at the given tier. The occupancy line
/// appears from the `Default` tier on and never at `Minimal`. In the
/// unexpected case that more is available than the total — where the
/// formula `100 - available / total * 100` would give a negative figure —
/// the occupied amount is clamped to zero and the occupancy shows `0.00%`.
pub open spec fn spec_render_disk(d: DiskInfoV, style: DisplayStyle) -> Seq<char> {
    let minimal = "Disk: "@ + d.name;
    if style == DisplayStyle::Minimal {
        minimal
    } else {
        let default = minimal + "\n\t- Total space: "@ + fixed2_str(
            gb_hundredths(d.total_space as nat),
        ) + "GB"@ + "\n\t- Available space: "@ + fixed2_str(gb_hundredths(d.available_space as nat))
            + "GB"@ + "\n\t- Occupancy: "@ + fixed2_str(disk_occupancy_hundredths(d)) + "%"@;
        if style == DisplayStyle::Default {
            default
        } else {
            default + "\n\t- Disk type: "@ + d.disk_type + "\n\t- File system: "@ + d.file_system
        }
    }
}

/// The occupancy law for disk reports: for every disk record whose
/// available space does not exceed its total, the rendered occupancy figure
/// is `100 - available / total * 100` percent to the rendered precision of
/// two decimal places (the figure, in hundredths of a percent, differs from
/// the exact ratio by at most half a hundredth), it appears in the `Default`
/// report as the trailing occupancy line, and the `Minimal` report omits it:
/// that report is the label and the name alone. The bound on the available
/// space keeps the formula non-negative; outside it the rendered figure is
/// clamped to `0.00%` rather than shown signed.
pub proof fn lemma_disk_occupancy(d: DiskInfoV)
    requires
        0 < d.total_space,
        d.available_space <= d.total_space,
    ensures
        disk_occupancy_hundredths(d) <= 10000,
        2 * disk_occupancy_hundredths(d) * d.total_space <= 20000 * (d.total_space
            - d.available_space) + d.total_space,
        20000 * (d.total_space - d.available_space) <= 2 * disk_occupancy_hundredths(d)
            * d.total_space + d.total_space,
        ("\n\t- Occupancy: "@ + fixed2_str(disk_occupancy_hundredths(d)) + "%"@).is_suffix_of(
            spec_render_disk(d, DisplayStyle::Default),
        ),
        spec_render_disk(d, DisplayStyle::Minimal) == "Disk: "@ + d.name,
{
    let t = d.total_space as int;
    let x = t - d.available_space as int;
    let h = t / 2;
    let xx = x * 10000 + h;
    let q = disk_occupancy_hundredths(d) as int;
    assert(occupied_bytes(d) == x);
    lemma_fundamental_div_mod(t, 2);
    lemma_mod_bound(t, 2);
    lemma_fundamental_div_mod(xx, t);
    lemma_mod_bound(xx, t);
    assert(q == xx / t);
    assert(q <= 10000 && 2 * q * t <= 20000 * x + t && 20000 * x <= 2 * q * t + t)
        by (nonlinear_arith)
        requires
            0 < t,
            0 <= x <= t,
            t - 1 <= 2 * h <= t,
            xx == x * 10000 + h,
            xx == t * (xx / t) + xx % t,
            0 <= xx % t < t,
            q == xx / t,
    ;
    let suffix = "\n\t- Occupancy: "@ + fixed2_str(disk_occupancy_hundredths(d)) + "%"@;
    let whole = spec_render_disk(d, DisplayStyle::Default);
    assert(whole.subrange(whole.len() - suffix.len(), whole.len() as int) =~= suffix);
}

impl DiskInfo {
    pub fn new(
        name: String,
        file_system: String,
        total_space: u64,
        available_space: u64,
        disk_type: String,
    ) -> (r: DiskInfo)
        ensures
            r@ == (DiskInfoV {
                name: name@,
                file_system: file_system@,
                total_space,
                available_space,
                disk_type: disk_type@,
            }),
    {
        DiskInfo { name, file_system, total_space, available_space, disk_type }
    }
}

impl Component for DiskInfo {
    open spec fn spec_info(&self, style: DisplayStyle) -> Seq<char> {
        spec_render_disk(self@, style)
    }

    fn get_info(&self, style: DisplayStyle) -> (r: String) {
        let mut s = String::from_str("Disk: ");
        s.append(self.name.as_str());
        if style == DisplayStyle::Minimal {
            proof {
                assert(s@ =~= self.spec_info(style));
            }
            return s;
        }
        s.append("\n\t- Total space: ");
        let total_text = fixed2_string(gb_hundredths_of(self.total_space));
        s.append(total_text.as_str());
        s.append("GB");
        s.append("\n\t- Available space: ");
        let avail_text = fixed2_string(gb_hundredths_of(self.available_space));
        s.append(avail_text.as_str());
        s.append("GB");
        s.append("\n\t- Occupancy: ");
        let occupied: u64 = if self.available_space <= self.total_space {
            self.total_space - self.available_space
        } else {
            0
        };
        let occ_text = fixed2_string(pct_hundredths_of(occupied, self.total_space));
        s.append(occ_text.as_str());
        s.append("%");
        if style == DisplayStyle::Default {
            proof {
                assert(s@ =~= self.spec_info(style));
            }
            return s;
        }
        s.append("\n\t- Disk type: ");
        s.append(self.disk_type.as_str());
        s.append("\n\t- File system: ");
        s.append(self.file_system.as_str());
        proof {
            assert(s@ =~= self.spec_info(style));
        }
        s
    }
}

} // verus!
