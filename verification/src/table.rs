//! The shell-invoked inventory table: the query's textual output is a
//! header row naming the columns, then one comma-separated data row per
//! display adapter. The header gives each recognized column its position;
//! each data row becomes one generic record — unless its name carries the
//! vendor marker, in which case the vendor records are spliced in at that
//! row's place and the generic row is dropped.
use vstd::prelude::*;

verus! {

use crate::chars::{chars_eq, chars_of_str, chars_to_string, contains_chars, contains_seq,
    split_chars, split_on, trim, trim_chars};
use crate::error::SourceError;
use crate::gpu::{GpuInfo, GpuInfoV};
use crate::numfmt::parse_uint_or_zero;
use crate::nvidia_gpu::{NvidiaGpuInfo, NvidiaGpuInfoV};
use crate::record::{Record, RecordV};

/// The row separator of the query output.
pub open spec fn crlf() -> Seq<char> {
    "\r\n"@
}

/// The column separator of the query output.
pub open spec fn comma() -> Seq<char> {
    ","@
}

/// The vendor marker: a row whose name carries it is handed to the vendor
/// adapter instead of becoming a generic record.
pub open spec fn vendor_marker() -> Seq<char> {
    "NVIDIA"@
}

/// The position of the column with the given name: the last header cell
/// whose trimmed text equals the name, as a name-to-position map built left
/// to right would record it.
pub open spec fn col_idx(header: Seq<Seq<char>>, key: Seq<char>) -> Option<int>
    decreases header.len(),
{
    if header.len() == 0 {
        None
    } else if trim(header.last()) == key {
        Some(header.len() - 1)
    } else {
        col_idx(header.drop_last(), key)
    }
}

pub proof fn lemma_col_idx_bounds(header: Seq<Seq<char>>, key: Seq<char>)
    ensures
        col_idx(header, key) matches Some(j) ==> 0 <= j < header.len() && trim(header[j]) == key,
    decreases header.len(),
{
    if header.len() > 0 {
        lemma_col_idx_bounds(header.drop_last(), key);
    }
}

/// The value a row holds in the column of the given name; empty when the
/// header has no such column.
pub open spec fn field_of(header: Seq<Seq<char>>, fields: Seq<Seq<char>>, key: Seq<char>) -> Seq<
    char,
> {
    match col_idx(header, key) {
        Some(j) => fields[j],
        None => Seq::<char>::empty(),
    }
}

/// Whether a row belongs to the vendor adapter: it has a name cell and that
/// cell's text contains the vendor marker.
pub open spec fn row_is_vendor(header: Seq<Seq<char>>, fields: Seq<Seq<char>>) -> bool {
    match col_idx(header, "Name"@) {
        Some(j) => j < fields.len() && contains_seq(fields[j], vendor_marker()),
        None => false,
    }
}

/// The generic record a well-formed, non-vendor row describes. Text cells
/// are taken as they stand; numeric cells are read leniently, any
/// malformed or overflowing numeral degrading to zero.
pub open spec fn gpu_of_row(header: Seq<Seq<char>>, fields: Seq<Seq<char>>) -> GpuInfoV {
    GpuInfoV {
        name: field_of(header, fields, "Name"@),
        driver: field_of(header, fields, "DriverVersion"@),
        adapter_ram: parse_uint_or_zero(
            field_of(header, fields, "AdapterRAM"@),
            u64::MAX as nat,
        ) as u64,
        status: field_of(header, fields, "Status"@),
        horizontal_resolution: parse_uint_or_zero(
            field_of(header, fields, "CurrentHorizontalResolution"@),
            u16::MAX as nat,
        ) as u16,
        vertical_resolution: parse_uint_or_zero(
            field_of(header, fields, "CurrentVerticalResolution"@),
            u16::MAX as nat,
        ) as u16,
    }
}

/// The records one row contributes: the whole vendor output in place of a
/// vendor row, one generic record otherwise.
pub open spec fn records_of_row(
    header: Seq<Seq<char>>,
    fields: Seq<Seq<char>>,
    vendor: Seq<NvidiaGpuInfoV>,
) -> Seq<RecordV> {
    if row_is_vendor(header, fields) {
        vendor.map_values(|g: NvidiaGpuInfoV| RecordV::NvidiaGpu(g))
    } else {
        seq![RecordV::Gpu(gpu_of_row(header, fields))]
    }
}

/// The records of all data rows, in row order.
pub open spec fn records_of_rows(
    header: Seq<Seq<char>>,
    rows: Seq<Seq<char>>,
    vendor: Seq<NvidiaGpuInfoV>,
) -> Seq<RecordV>
    decreases rows.len(),
{
    if rows.len() == 0 {
        Seq::<RecordV>::empty()
    } else {
        records_of_rows(header, rows.drop_last(), vendor) + records_of_row(
            header,
            split_on(rows.last(), comma()),
            vendor,
        )
    }
}

/// Whether some data row has fewer cells than the header has columns.
pub open spec fn has_malformed_row(header: Seq<Seq<char>>, rows: Seq<Seq<char>>) -> bool {
    exists|i: int|
        0 <= i < rows.len() && (#[trigger] split_on(rows[i], comma())).len() < header.len()
}

/// What parsing the query output yields: an error for empty output or for a
/// structurally broken table — the whole acquisition fails, not one row —
/// and otherwise the spliced records of every data row in original order.
pub open spec fn spec_parse_gpu_table(s: Seq<char>, vendor: Seq<NvidiaGpuInfoV>) -> Result<
    Seq<RecordV>,
    SourceError,
> {
    let t = trim(s);
    if t.len() == 0 {
        Err(SourceError::EmptyOutput)
    } else {
        let lines = split_on(t, crlf());
        let header = split_on(lines[0], comma());
        let rows = lines.skip(1);
        if has_malformed_row(header, rows) {
            Err(SourceError::MalformedRow)
        } else {
            Ok(records_of_rows(header, rows, vendor))
        }
    }
}

/// Whether any data row of the query output belongs to the vendor adapter.
pub open spec fn spec_table_mentions_vendor(s: Seq<char>) -> bool {
    let t = trim(s);
    let lines = split_on(t, crlf());
    let header = split_on(lines[0], comma());
    let rows = lines.skip(1);
    exists|i: int|
        0 <= i < rows.len() && row_is_vendor(header, split_on(#[trigger] rows[i], comma()))
}

/// Finds the position of the column with the given name in the header.
#[verifier::loop_isolation(false)]
fn col_index(header: &Vec<Vec<char>>, key: &Vec<char>) -> (r: Option<usize>)
    ensures
        match r {
            Some(j) => col_idx(header.deep_view(), key@) == Some(j as int),
            None => col_idx(header.deep_view(), key@) is None,
        },
{
    let ghost hdv = header.deep_view();
    let mut found: Option<usize> = None;
    let mut i: usize = 0;
    proof {
        assert(hdv.take(0) =~= Seq::<Seq<char>>::empty());
    }
    while i < header.len()
        invariant
            i <= header.len(),
            hdv == header.deep_view(),
            hdv.len() == header.len(),
            match found {
                Some(j) => col_idx(hdv.take(i as int), key@) == Some(j as int),
                None => col_idx(hdv.take(i as int), key@) is None,
            },
        decreases header.len() - i,
    {
        let cell_trimmed = trim_chars(&header[i]);
        proof {
            assert(header@[i as int].deep_view() =~= header@[i as int]@);
            assert(hdv[i as int] == header@[i as int]@);
            assert(hdv.take(i + 1).drop_last() =~= hdv.take(i as int));
            assert(hdv.take(i + 1).last() == hdv[i as int]);
        }
        if chars_eq(&cell_trimmed, key) {
            found = Some(i);
        }
        i = i + 1;
    }
    proof {
        assert(hdv.take(header.len() as int) =~= hdv);
    }
    found
}

/// Renders the cell at the given column position, or the empty string when
/// the header has no such column.
fn cell_string(fields: &Vec<Vec<char>>, idx: Option<usize>) -> (r: String)
    requires
        idx matches Some(j) ==> j < fields.len(),
    ensures
        r@ == (match idx {
            Some(j) => fields.deep_view()[j as int],
            None => Seq::<char>::empty(),
        }),
{
    match idx {
        Some(j) => {
            let s = chars_to_string(&fields[j]);
            proof {
                assert(fields@[j as int].deep_view() =~= fields@[j as int]@);
            }
            s
        },
        None => String::new(),
    }
}

/// Reads the numeric cell at the given column position leniently: zero when
/// the column is absent, as for any malformed numeral.
fn cell_uint(fields: &Vec<Vec<char>>, idx: Option<usize>, max: u64) -> (r: u64)
    requires
        idx matches Some(j) ==> j < fields.len(),
    ensures
        r as nat == (match idx {
            Some(j) => parse_uint_or_zero(fields.deep_view()[j as int], max as nat),
            None => 0,
        }),
{
    match idx {
        Some(j) => {
            let r = crate::numfmt::parse_chars_or_zero(&fields[j], max);
            proof {
                assert(fields@[j as int].deep_view() =~= fields@[j as int]@);
            }
            r
        },
        None => 0,
    }
}

/// Parses the inventory query output against an injected vendor record
/// list: each data row becomes one generic record, except that a row whose
/// name carries the vendor marker is replaced by the whole vendor list, in
/// original row order. Empty output and any data row shorter than the
/// header abort the whole acquisition with a typed error.
#[verifier::loop_isolation(false)]
pub fn parse_gpu_table(output: &str, vendor: &Vec<NvidiaGpuInfo>) -> (r: Result<
    Vec<Record>,
    SourceError,
>)
    ensures
        r matches Ok(v) ==> spec_parse_gpu_table(output@, vendor.deep_view()) matches Ok(sv)
            && v.deep_view() == sv,
        r matches Err(e) ==> spec_parse_gpu_table(output@, vendor.deep_view()) == Err::<
            Seq<RecordV>,
            SourceError,
        >(e),
{
    let cs = chars_of_str(output);
    let trimmed = trim_chars(&cs);
    if trimmed.len() == 0 {
        return Err(SourceError::EmptyOutput);
    }
    proof {
        reveal_strlit("\r\n");
        reveal_strlit(",");
    }
    let mut sep: Vec<char> = Vec::new();
    sep.push('\r');
    sep.push('\n');
    proof {
        assert(sep@ =~= crlf());
    }
    let mut com: Vec<char> = Vec::new();
    com.push(',');
    proof {
        assert(com@ =~= comma());
    }
    let lines = split_chars(&trimmed, &sep);
    let header = split_chars(&lines[0], &com);
    let ghost ldv = lines.deep_view();
    let ghost hdv = header.deep_view();
    let ghost rows = ldv.skip(1);
    proof {
        assert(lines@[0].deep_view() =~= lines@[0]@);
        assert(hdv == split_on(ldv[0], comma()));
    }
    // first pass: a data row shorter than the header fails the acquisition
    let mut i: usize = 1;
    while i < lines.len()
        invariant
            1 <= i <= lines.len(),
            ldv == lines.deep_view(),
            hdv == header.deep_view(),
            ldv.len() == lines.len(),
            hdv.len() == header.len(),
            rows == ldv.skip(1),
            forall|k: int|
                0 <= k < i - 1 ==> (#[trigger] split_on(rows[k], comma())).len() >= hdv.len(),
        decreases lines.len() - i,
    {
        let fields = split_chars(&lines[i], &com);
        proof {
            assert(lines@[i as int].deep_view() =~= lines@[i as int]@);
            assert(rows[i - 1] == ldv[i as int]);
            assert(fields.deep_view() == split_on(rows[i - 1], comma()));
            assert(fields.deep_view().len() == fields.len());
        }
        if fields.len() < header.len() {
            proof {
                assert(has_malformed_row(hdv, rows));
            }
            return Err(SourceError::MalformedRow);
        }
        i = i + 1;
    }
    proof {
        assert(!has_malformed_row(hdv, rows));
    }
    // column positions, by the trimmed header names
    let mut key = chars_of_str("Name");
    let idx_name = col_index(&header, &key);
    key = chars_of_str("DriverVersion");
    let idx_driver = col_index(&header, &key);
    key = chars_of_str("AdapterRAM");
    let idx_ram = col_index(&header, &key);
    key = chars_of_str("Status");
    let idx_status = col_index(&header, &key);
    key = chars_of_str("CurrentHorizontalResolution");
    let idx_hres = col_index(&header, &key);
    key = chars_of_str("CurrentVerticalResolution");
    let idx_vres = col_index(&header, &key);
    let marker = chars_of_str("NVIDIA");
    proof {
        lemma_col_idx_bounds(hdv, "Name"@);
        lemma_col_idx_bounds(hdv, "DriverVersion"@);
        lemma_col_idx_bounds(hdv, "AdapterRAM"@);
        lemma_col_idx_bounds(hdv, "Status"@);
        lemma_col_idx_bounds(hdv, "CurrentHorizontalResolution"@);
        lemma_col_idx_bounds(hdv, "CurrentVerticalResolution"@);
    }
    // second pass: one generic record per row, vendor records spliced in
    let mut out: Vec<Record> = Vec::new();
    let mut i: usize = 1;
    proof {
        assert(rows.take(0) =~= Seq::<Seq<char>>::empty());
        assert(out.deep_view() =~= records_of_rows(hdv, rows.take(0), vendor.deep_view()));
    }
    while i < lines.len()
        invariant
            1 <= i <= lines.len(),
            ldv == lines.deep_view(),
            hdv == header.deep_view(),
            ldv.len() == lines.len(),
            hdv.len() == header.len(),
            rows == ldv.skip(1),
            forall|k: int|
                0 <= k < rows.len() ==> (#[trigger] split_on(rows[k], comma())).len() >= hdv.len(),
            idx_name matches Some(j) ==> col_idx(hdv, "Name"@) == Some(j as int) && j < hdv.len(),
            idx_name is None ==> col_idx(hdv, "Name"@) is None,
            idx_driver matches Some(j) ==> col_idx(hdv, "DriverVersion"@) == Some(j as int) && j
                < hdv.len(),
            idx_driver is None ==> col_idx(hdv, "DriverVersion"@) is None,
            idx_ram matches Some(j) ==> col_idx(hdv, "AdapterRAM"@) == Some(j as int) && j
                < hdv.len(),
            idx_ram is None ==> col_idx(hdv, "AdapterRAM"@) is None,
            idx_status matches Some(j) ==> col_idx(hdv, "Status"@) == Some(j as int) && j
                < hdv.len(),
            idx_status is None ==> col_idx(hdv, "Status"@) is None,
            idx_hres matches Some(j) ==> col_idx(hdv, "CurrentHorizontalResolution"@) == Some(
                j as int,
            ) && j < hdv.len(),
            idx_hres is None ==> col_idx(hdv, "CurrentHorizontalResolution"@) is None,
            idx_vres matches Some(j) ==> col_idx(hdv, "CurrentVerticalResolution"@) == Some(
                j as int,
            ) && j < hdv.len(),
            idx_vres is None ==> col_idx(hdv, "CurrentVerticalResolution"@) is None,
            marker@ == vendor_marker(),
            out.deep_view() == records_of_rows(hdv, rows.take(i - 1), vendor.deep_view()),
        decreases lines.len() - i,
    {
        let fields = split_chars(&lines[i], &com);
        let ghost fdv = fields.deep_view();
        proof {
            assert(lines@[i as int].deep_view() =~= lines@[i as int]@);
            assert(rows[i - 1] == ldv[i as int]);
            assert(fdv == split_on(rows[i - 1], comma()));
            assert(fdv.len() >= hdv.len());
        }
        let is_vendor_row = match idx_name {
            Some(j) => {
                proof {
                    assert(fields@[j as int].deep_view() =~= fields@[j as int]@);
                }
                contains_chars(&fields[j], &marker)
            },
            None => false,
        };
        proof {
            assert(is_vendor_row == row_is_vendor(hdv, fdv));
        }
        let ghost out_before = out.deep_view();
        if is_vendor_row {
            let mut k: usize = 0;
            proof {
                assert(vendor.deep_view().map_values(
                    |g: NvidiaGpuInfoV| RecordV::NvidiaGpu(g),
                ).take(0) =~= Seq::<RecordV>::empty());
                assert(out.deep_view() =~= out_before + vendor.deep_view().map_values(
                    |g: NvidiaGpuInfoV| RecordV::NvidiaGpu(g),
                ).take(0));
            }
            while k < vendor.len()
                invariant
                    k <= vendor.len(),
                    vendor.deep_view().len() == vendor.len(),
                    out.deep_view() == out_before + vendor.deep_view().map_values(
                        |g: NvidiaGpuInfoV| RecordV::NvidiaGpu(g),
                    ).take(k as int),
                decreases vendor.len() - k,
            {
                let ghost odv = out.deep_view();
                out.push(Record::NvidiaGpu(vendor[k].clone()));
                k = k + 1;
                proof {
                    assert(out.deep_view() =~= odv.push(RecordV::NvidiaGpu(vendor@[k - 1]@)));
                    assert(vendor@[k - 1].deep_view() == vendor@[k - 1]@);
                    assert(out.deep_view() =~= out_before + vendor.deep_view().map_values(
                        |g: NvidiaGpuInfoV| RecordV::NvidiaGpu(g),
                    ).take(k as int));
                }
            }
            proof {
                let vm = vendor.deep_view().map_values(|g: NvidiaGpuInfoV| RecordV::NvidiaGpu(g));
                assert(vm.take(vendor.len() as int) =~= vm);
            }
        } else {
            let name = cell_string(&fields, idx_name);
            let driver = cell_string(&fields, idx_driver);
            let ram = cell_uint(&fields, idx_ram, u64::MAX);
            let status = cell_string(&fields, idx_status);
            let hres = cell_uint(&fields, idx_hres, 65535) as u16;
            let vres = cell_uint(&fields, idx_vres, 65535) as u16;
            let ghost odv = out.deep_view();
            out.push(
                Record::Gpu(GpuInfo::new(name, driver, ram, status, hres as u16, vres as u16)),
            );
            proof {
                assert(out.deep_view() =~= odv.push(RecordV::Gpu(gpu_of_row(hdv, fdv))));
            }
        }
        i = i + 1;
        proof {
            assert(rows.take(i - 1).drop_last() =~= rows.take(i - 2));
            assert(rows.take(i - 1).last() == rows[i - 2]);
            assert(out.deep_view() =~= records_of_rows(hdv, rows.take(i - 1), vendor.deep_view()));
        }
    }
    proof {
        assert(rows.take(rows.len() as int) =~= rows);
    }
    Ok(out)
}

/// Decides whether any data row of the query output belongs to the vendor
/// adapter; the acquisition consults the vendor adapter only then.
#[verifier::loop_isolation(false)]
pub(crate) fn table_mentions_vendor(output: &str) -> (b: bool)
    ensures
        b == spec_table_mentions_vendor(output@),
{
    let cs = chars_of_str(output);
    let trimmed = trim_chars(&cs);
    proof {
        reveal_strlit("\r\n");
        reveal_strlit(",");
    }
    let mut sep: Vec<char> = Vec::new();
    sep.push('\r');
    sep.push('\n');
    proof {
        assert(sep@ =~= crlf());
    }
    let mut com: Vec<char> = Vec::new();
    com.push(',');
    proof {
        assert(com@ =~= comma());
    }
    let lines = split_chars(&trimmed, &sep);
    let header = split_chars(&lines[0], &com);
    let ghost ldv = lines.deep_view();
    let ghost hdv = header.deep_view();
    let ghost rows = ldv.skip(1);
    proof {
        assert(lines@[0].deep_view() =~= lines@[0]@);
        assert(hdv == split_on(ldv[0], comma()));
    }
    let key = chars_of_str("Name");
    let idx_name = col_index(&header, &key);
    let marker = chars_of_str("NVIDIA");
    proof {
        lemma_col_idx_bounds(hdv, "Name"@);
    }
    let mut i: usize = 1;
    while i < lines.len()
        invariant
            1 <= i <= lines.len(),
            ldv == lines.deep_view(),
            hdv == header.deep_view(),
            ldv.len() == lines.len(),
            rows == ldv.skip(1),
            idx_name matches Some(j) ==> col_idx(hdv, "Name"@) == Some(j as int) && j < hdv.len(),
            idx_name is None ==> col_idx(hdv, "Name"@) is None,
            marker@ == vendor_marker(),
            forall|k: int|
                0 <= k < i - 1 ==> !row_is_vendor(hdv, split_on(#[trigger] rows[k], comma())),
        decreases lines.len() - i,
    {
        let fields = split_chars(&lines[i], &com);
        let ghost fdv = fields.deep_view();
        proof {
            assert(lines@[i as int].deep_view() =~= lines@[i as int]@);
            assert(rows[i - 1] == ldv[i as int]);
            assert(fdv == split_on(rows[i - 1], comma()));
        }
        let hit = match idx_name {
            Some(j) => {
                if j < fields.len() {
                    proof {
                        assert(fields@[j as int].deep_view() =~= fields@[j as int]@);
                    }
                    contains_chars(&fields[j], &marker)
                } else {
                    false
                }
            },
            None => false,
        };
        proof {
            assert(hit == row_is_vendor(hdv, fdv));
        }
        if hit {
            return true;
        }
        i = i + 1;
    }
    false
}

/// The vendor-substitution law: in a two-row table where the first row's
/// name carries the vendor marker and the second row's does not, the
/// acquisition yields exactly the vendor record spliced in for the first
/// row followed by the generic record of the second row — in original row
/// order.
pub proof fn lemma_vendor_substitution(
    header: Seq<Seq<char>>,
    rows: Seq<Seq<char>>,
    vendor: Seq<NvidiaGpuInfoV>,
)
    requires
        rows.len() == 2,
        row_is_vendor(header, split_on(rows[0], comma())),
        !row_is_vendor(header, split_on(rows[1], comma())),
        vendor.len() == 1,
    ensures
        records_of_rows(header, rows, vendor) == seq![
            RecordV::NvidiaGpu(vendor[0]),
            RecordV::Gpu(gpu_of_row(header, split_on(rows[1], comma()))),
        ],
{
    let f1 = split_on(rows[0], comma());
    let f2 = split_on(rows[1], comma());
    let one = rows.drop_last();
    let none: Seq<Seq<char>> = Seq::empty();
    assert(one.len() == 1);
    assert(one.last() == rows[0]);
    assert(one.drop_last() =~= none);
    assert(records_of_rows(header, none, vendor) == Seq::<RecordV>::empty());
    assert(records_of_rows(header, one, vendor) == records_of_rows(header, one.drop_last(), vendor)
        + records_of_row(header, split_on(one.last(), comma()), vendor));
    assert(vendor.map_values(|g: NvidiaGpuInfoV| RecordV::NvidiaGpu(g)) =~= seq![
        RecordV::NvidiaGpu(vendor[0]),
    ]);
    assert(records_of_row(header, f1, vendor) == seq![RecordV::NvidiaGpu(vendor[0])]);
    assert(records_of_rows(header, one, vendor) =~= seq![RecordV::NvidiaGpu(vendor[0])]);
    assert(records_of_rows(header, rows, vendor) == records_of_rows(header, one, vendor)
        + records_of_row(header, f2, vendor));
    assert(records_of_row(header, f2, vendor) == seq![RecordV::Gpu(gpu_of_row(header, f2))]);
    assert(records_of_rows(header, rows, vendor) =~= seq![
        RecordV::NvidiaGpu(vendor[0]),
        RecordV::Gpu(gpu_of_row(header, f2)),
    ]);
}

} // verus!
