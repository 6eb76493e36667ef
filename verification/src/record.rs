//! The tagged record variant: one closed sum over the six information
//! categories, so the aggregation pipeline can hold an ordered sequence of
//! records of mixed category, each exposing the shared rendering capability.
use vstd::prelude::*;

verus! {

use crate::args::DisplayStyle;
use crate::component::Component;
use crate::cpu::{CpuInfo, CpuInfoV, spec_render_cpu};
use crate::disk::{DiskInfo, DiskInfoV, spec_render_disk};
use crate::gpu::{GpuInfo, GpuInfoV, spec_render_gpu};
use crate::memory::{MemoryInfo, MemoryInfoV, spec_render_memory};
use crate::nvidia_gpu::{NvidiaGpuInfo, NvidiaGpuInfoV, spec_render_nvidia};
use crate::os::{OSInfo, OSInfoV, spec_render_os};

/// The mathematical value of a [`Record`].
pub ghost enum RecordV {
    Cpu(CpuInfoV),
    Gpu(GpuInfoV),
    NvidiaGpu(NvidiaGpuInfoV),
    Disk(DiskInfoV),
    Memory(MemoryInfoV),
    Os(OSInfoV),
}

/// One information record of any category.
#[derive(Debug)]
pub enum Record {
    Cpu(CpuInfo),
    Gpu(GpuInfo),
    NvidiaGpu(NvidiaGpuInfo),
    Disk(DiskInfo),
    Memory(MemoryInfo),
    Os(OSInfo),
}

impl View for Record {
    type V = RecordV;

    open spec fn view(&self) -> RecordV {
        match self {
            Record::Cpu(c) => RecordV::Cpu(c@),
            Record::Gpu(g) => RecordV::Gpu(g@),
            Record::NvidiaGpu(g) => RecordV::NvidiaGpu(g@),
            Record::Disk(d) => RecordV::Disk(d@),
            Record::Memory(m) => RecordV::Memory(m@),
            Record::Os(o) => RecordV::Os(o@),
        }
    }
}

impl DeepView for Record {
    type V = RecordV;

    open spec fn deep_view(&self) -> RecordV {
        self.view()
    }
}

impl Clone for Record {
    fn clone(&self) -> (r: Self)
        ensures
            r == *self,
    {
        match self {
            Record::Cpu(c) => Record::Cpu(c.clone()),
            Record::Gpu(g) => Record::Gpu(g.clone()),
            Record::NvidiaGpu(g) => Record::NvidiaGpu(g.clone()),
            Record::Disk(d) => Record::Disk(d.clone()),
            Record::Memory(m) => Record::Memory(m.clone()),
            Record::Os(o) => Record::Os(o.clone()),
        }
    }
}

/// The report text of a record at the given tier, dispatched on the
/// category.
pub open spec fn spec_render_record(r: RecordV, style: DisplayStyle) -> Seq<char> {
    match r {
        RecordV::Cpu(c) => spec_render_cpu(c, style),
        RecordV::Gpu(g) => spec_render_gpu(g, style),
        RecordV::NvidiaGpu(g) => spec_render_nvidia(g, style),
        RecordV::Disk(d) => spec_render_disk(d, style),
        RecordV::Memory(m) => spec_render_memory(m, style),
        RecordV::Os(o) => spec_render_os(o, style),
    }
}

impl Component for Record {
    open spec fn spec_info(&self, style: DisplayStyle) -> Seq<char> {
        spec_render_record(self@, style)
    }

    fn get_info(&self, style: DisplayStyle) -> (r: String) {
        match self {
            Record::Cpu(c) => c.get_info(style),
            Record::Gpu(g) => g.get_info(style),
            Record::NvidiaGpu(g) => g.get_info(style),
            Record::Disk(d) => d.get_info(style),
            Record::Memory(m) => m.get_info(style),
            Record::Os(o) => o.get_info(style),
        }
    }
}

/// Monotonic tier containment: for every record, the `Minimal` report is a
/// prefix of the `Default` report, which is a prefix of the `Detailed`
/// report — each higher tier only appends content. For memory records the
/// `Default` report equals the `Minimal` report exactly: memory has no
/// intermediate tier.
pub proof fn lemma_tier_containment(r: RecordV)
    ensures
        spec_render_record(r, DisplayStyle::Minimal).is_prefix_of(
            spec_render_record(r, DisplayStyle::Default),
        ),
        spec_render_record(r, DisplayStyle::Default).is_prefix_of(
            spec_render_record(r, DisplayStyle::Detailed),
        ),
        r is Memory ==> spec_render_record(r, DisplayStyle::Default) == spec_render_record(
            r,
            DisplayStyle::Minimal,
        ),
{
    let m = spec_render_record(r, DisplayStyle::Minimal);
    let d = spec_render_record(r, DisplayStyle::Default);
    let t = spec_render_record(r, DisplayStyle::Detailed);
    match r {
        RecordV::Cpu(_) => {
            assert(d.subrange(0, m.len() as int) =~= m);
            assert(t.subrange(0, d.len() as int) =~= d);
        },
        RecordV::Gpu(_) => {
            assert(d.subrange(0, m.len() as int) =~= m);
            assert(t.subrange(0, d.len() as int) =~= d);
        },
        RecordV::NvidiaGpu(_) => {
            assert(d.subrange(0, m.len() as int) =~= m);
            assert(t.subrange(0, d.len() as int) =~= d);
        },
        RecordV::Disk(_) => {
            assert(d.subrange(0, m.len() as int) =~= m);
            assert(t.subrange(0, d.len() as int) =~= d);
        },
        RecordV::Memory(_) => {
            assert(d.subrange(0, m.len() as int) =~= m);
            assert(t.subrange(0, d.len() as int) =~= d);
        },
        RecordV::Os(_) => {
            assert(d.subrange(0, m.len() as int) =~= m);
            assert(t.subrange(0, d.len() as int) =~= d);
        },
    }
}

} // verus!
