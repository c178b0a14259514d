//! The vendor whose tool prints comma-separated rows, one per device or process.

use vstd::prelude::*;
use crate::number::{parse_u32_or_zero, u32_or_zero};
use crate::record::{DeviceRecord, ProcessRecord};
use crate::text::{chars_of, fields, fields_of, lines, lines_of, string_of};

verus! {

/// Columns of a device row in basic mode: index, name, utilization, memory used, memory total.
pub const BASIC_COLUMNS: usize = 5;

/// Columns of a device row in rich mode: the basic ones, then power draw,
/// temperature, SM, memory and graphics clocks, PCIe generation and width.
pub const RICH_COLUMNS: usize = 12;

/// Columns of a process row: GPU UUID, pid, process name, used memory.
pub const PROCESS_COLUMNS: usize = 4;

pub open spec fn gpu_columns(rich: bool) -> nat {
    if rich {
        RICH_COLUMNS as nat
    } else {
        BASIC_COLUMNS as nat
    }
}

/// The field lists of those lines that have exactly `n` fields, in order.
pub open spec fn rows_with(ls: Seq<Seq<char>>, n: nat) -> Seq<Seq<Seq<char>>>
    decreases ls.len(),
{
    if ls.len() == 0 {
        Seq::empty()
    } else {
        let r = rows_with(ls.drop_last(), n);
        if fields_of(ls.last()).len() == n {
            r.push(fields_of(ls.last()))
        } else {
            r
        }
    }
}

/// The device rows of a tool output.
pub open spec fn gpu_rows(out: Seq<char>, rich: bool) -> Seq<Seq<Seq<char>>> {
    rows_with(lines_of(out), gpu_columns(rich))
}

/// The process rows of a tool output.
pub open spec fn process_rows(out: Seq<char>) -> Seq<Seq<Seq<char>>> {
    rows_with(lines_of(out), PROCESS_COLUMNS as nat)
}

pub open spec fn opt_u32_field(o: Option<u32>, f: Seq<char>) -> bool {
    o == Some(u32_or_zero(f))
}

/// `r` holds the columns `f` of a device row: each integer column parsed, 0 where
/// it is not a number; the rich-mode telemetry present exactly in rich mode.
pub open spec fn gpu_record_matches(r: DeviceRecord, f: Seq<Seq<char>>, rich: bool) -> bool {
    &&& r.index == u32_or_zero(f[0])
    &&& r.name@ == f[1]
    &&& r.gpu_utilization_percent == u32_or_zero(f[2])
    &&& r.gpu_memory_used_mb == u32_or_zero(f[3])
    &&& r.gpu_memory_total_mb == u32_or_zero(f[4])
    &&& r.up
    &&& if rich {
        &&& r.power_draw is Some
        &&& r.power_draw->0@ == f[5]
        &&& opt_u32_field(r.temperature_celsius, f[6])
        &&& opt_u32_field(r.clock_sm_mhz, f[7])
        &&& opt_u32_field(r.clock_mem_mhz, f[8])
        &&& opt_u32_field(r.clock_graphics_mhz, f[9])
        &&& opt_u32_field(r.pcie_gen, f[10])
        &&& opt_u32_field(r.pcie_width, f[11])
    } else {
        &&& r.power_draw is None
        &&& r.temperature_celsius is None
        &&& r.clock_sm_mhz is None
        &&& r.clock_mem_mhz is None
        &&& r.clock_graphics_mhz is None
        &&& r.pcie_gen is None
        &&& r.pcie_width is None
    }
}

/// `r` holds the columns `f` of a process row.
pub open spec fn process_record_matches(r: ProcessRecord, f: Seq<Seq<char>>) -> bool {
    &&& r.gpu_uuid@ == f[0]
    &&& r.pid == u32_or_zero(f[1])
    &&& r.process_name@ == f[2]
    &&& r.used_gpu_memory_mb == u32_or_zero(f[3])
}

/// The device records for the rows of `out`, one for each well-formed row, in order.
pub open spec fn gpu_records_match(r: Seq<DeviceRecord>, out: Seq<char>, rich: bool) -> bool {
    &&& r.len() == gpu_rows(out, rich).len()
    &&& forall|j: int|
        0 <= j < r.len() ==> gpu_record_matches(#[trigger] r[j], gpu_rows(out, rich)[j], rich)
}

/// The process records for the rows of `out`, one for each well-formed row, in order.
pub open spec fn process_records_match(r: Seq<ProcessRecord>, out: Seq<char>) -> bool {
    &&& r.len() == process_rows(out).len()
    &&& forall|j: int|
        0 <= j < r.len() ==> process_record_matches(#[trigger] r[j], process_rows(out)[j])
}

fn opt_u32(f: &Vec<char>) -> (r: Option<u32>)
    ensures
        r == Some(u32_or_zero(f@)),
{
    Some(parse_u32_or_zero(f.as_slice()))
}

/// The device record for the columns of one well-formed row.
pub fn gpu_record_from_fields(f: &Vec<Vec<char>>, rich: bool) -> (r: DeviceRecord)
    requires
        f@.len() == gpu_columns(rich),
    ensures
        gpu_record_matches(r, f@.map_values(|v: Vec<char>| v@), rich),
{
    let ghost fv = f@.map_values(|v: Vec<char>| v@);
    assert(forall|k: int| 0 <= k < f@.len() ==> fv[k] == #[trigger] f@[k]@);
    if rich {
        DeviceRecord {
            index: parse_u32_or_zero(f[0].as_slice()),
            name: string_of(f[1].as_slice()),
            gpu_utilization_percent: parse_u32_or_zero(f[2].as_slice()),
            gpu_memory_used_mb: parse_u32_or_zero(f[3].as_slice()),
            gpu_memory_total_mb: parse_u32_or_zero(f[4].as_slice()),
            power_draw: Some(string_of(f[5].as_slice())),
            temperature_celsius: opt_u32(&f[6]),
            clock_sm_mhz: opt_u32(&f[7]),
            clock_mem_mhz: opt_u32(&f[8]),
            clock_graphics_mhz: opt_u32(&f[9]),
            pcie_gen: opt_u32(&f[10]),
            pcie_width: opt_u32(&f[11]),
            up: true,
        }
    } else {
        DeviceRecord {
            index: parse_u32_or_zero(f[0].as_slice()),
            name: string_of(f[1].as_slice()),
            gpu_utilization_percent: parse_u32_or_zero(f[2].as_slice()),
            gpu_memory_used_mb: parse_u32_or_zero(f[3].as_slice()),
            gpu_memory_total_mb: parse_u32_or_zero(f[4].as_slice()),
            power_draw: None,
            temperature_celsius: None,
            clock_sm_mhz: None,
            clock_mem_mhz: None,
            clock_graphics_mhz: None,
            pcie_gen: None,
            pcie_width: None,
            up: true,
        }
    }
}

/// The process record for the columns of one well-formed row.
pub fn process_record_from_fields(f: &Vec<Vec<char>>) -> (r: ProcessRecord)
    requires
        f@.len() == PROCESS_COLUMNS,
    ensures
        process_record_matches(r, f@.map_values(|v: Vec<char>| v@)),
{
    let ghost fv = f@.map_values(|v: Vec<char>| v@);
    assert(forall|k: int| 0 <= k < f@.len() ==> fv[k] == #[trigger] f@[k]@);
    ProcessRecord {
        gpu_uuid: string_of(f[0].as_slice()),
        pid: parse_u32_or_zero(f[1].as_slice()),
        process_name: string_of(f[2].as_slice()),
        used_gpu_memory_mb: parse_u32_or_zero(f[3].as_slice()),
    }
}

/// The device records of a device query's output: one for each row with the
/// column count of the mode, in order; every other row is dropped.
pub fn parse_gpu_rows(out: &str, rich: bool) -> (r: Vec<DeviceRecord>)
    ensures
        gpu_records_match(r@, out@, rich),
{
    let chars = chars_of(out);
    let ls = lines(chars.as_slice());
    let ghost lv = lines_of(out@);
    let n: usize = if rich { RICH_COLUMNS } else { BASIC_COLUMNS };
    let mut r: Vec<DeviceRecord> = Vec::new();
    let mut i: usize = 0;
    while i < ls.len()
        invariant
            i <= ls@.len(),
            lv == ls@.map_values(|v: Vec<char>| v@),
            n == gpu_columns(rich),
            r@.len() == rows_with(lv.take(i as int), n as nat).len(),
            forall|j: int|
                0 <= j < r@.len() ==> gpu_record_matches(
                    #[trigger] r@[j],
                    rows_with(lv.take(i as int), n as nat)[j],
                    rich,
                ),
        decreases ls@.len() - i,
    {
        let f = fields(ls[i].as_slice());
        assert(lv.take(i + 1).drop_last() =~= lv.take(i as int));
        assert(lv.take(i + 1).last() == ls@[i as int]@);
        if f.len() == n {
            let rec = gpu_record_from_fields(&f, rich);
            r.push(rec);
        }
        i = i + 1;
    }
    assert(lv.take(i as int) =~= lv);
    r
}

/// The process records of a process query's output: one for each row of four
/// columns, in order; every other row is dropped.
pub fn parse_process_rows(out: &str) -> (r: Vec<ProcessRecord>)
    ensures
        process_records_match(r@, out@),
{
    let chars = chars_of(out);
    let ls = lines(chars.as_slice());
    let ghost lv = lines_of(out@);
    let mut r: Vec<ProcessRecord> = Vec::new();
    let mut i: usize = 0;
    while i < ls.len()
        invariant
            i <= ls@.len(),
            lv == ls@.map_values(|v: Vec<char>| v@),
            r@.len() == rows_with(lv.take(i as int), PROCESS_COLUMNS as nat).len(),
            forall|j: int|
                0 <= j < r@.len() ==> process_record_matches(
                    #[trigger] r@[j],
                    rows_with(lv.take(i as int), PROCESS_COLUMNS as nat)[j],
                ),
        decreases ls@.len() - i,
    {
        let f = fields(ls[i].as_slice());
        assert(lv.take(i + 1).drop_last() =~= lv.take(i as int));
        assert(lv.take(i + 1).last() == ls@[i as int]@);
        if f.len() == PROCESS_COLUMNS {
            let rec = process_record_from_fields(&f);
            r.push(rec);
        }
        i = i + 1;
    }
    assert(lv.take(i as int) =~= lv);
    r
}

} // verus!

verus! {

/// The part of a snapshot that this vendor contributes: a bare list of devices in
/// basic mode, devices and processes in rich mode.
#[derive(Clone, Debug, PartialEq, Eq)]
pub enum NvidiaPayload {
    Basic(Vec<DeviceRecord>),
    Rich { gpus: Vec<DeviceRecord>, processes: Vec<ProcessRecord> },
}

/// The device records of a query's output, where `None` stands for a tool that
/// could not be launched: no devices.
pub open spec fn gpu_output_matches(r: Seq<DeviceRecord>, out: Option<&str>, rich: bool) -> bool {
    match out {
        Some(o) => gpu_records_match(r, o@, rich),
        None => r.len() == 0,
    }
}

/// The process records of a query's output, where `None` stands for a tool that
/// could not be launched: no processes.
pub open spec fn process_output_matches(r: Seq<ProcessRecord>, out: Option<&str>) -> bool {
    match out {
        Some(o) => process_records_match(r, o@),
        None => r.len() == 0,
    }
}

/// The collector for the vendor whose tool prints comma-separated rows.
pub struct Nvidia;

impl Nvidia {
    /// Turns the outputs of the device query and, in rich mode, the process query
    /// into this vendor's payload. `None` is a query whose tool could not be launched.
    pub fn collect(&self, complex_mode: bool, gpu_output: Option<&str>, process_output: Option<&str>) -> (r: NvidiaPayload)
        ensures
            !complex_mode ==> (r is Basic && gpu_output_matches(r->Basic_0@, gpu_output, false)),
            complex_mode ==> (r is Rich && gpu_output_matches(r->gpus@, gpu_output, true)
                && process_output_matches(r->processes@, process_output)),
    {
        let gpus = match gpu_output {
            Some(o) => parse_gpu_rows(o, complex_mode),
            None => Vec::new(),
        };
        if complex_mode {
            let processes = match process_output {
                Some(o) => parse_process_rows(o),
                None => Vec::new(),
            };
            NvidiaPayload::Rich { gpus, processes }
        } else {
            NvidiaPayload::Basic(gpus)
        }
    }
}

/// A row whose column count is not the expected one is dropped whole: appending it
/// to the lines leaves the rows as they were.
pub proof fn lemma_malformed_row_dropped(ls: Seq<Seq<char>>, line: Seq<char>, n: nat)
    requires
        fields_of(line).len() != n,
    ensures
        rows_with(ls.push(line), n) == rows_with(ls, n),
{
    assert(ls.push(line).drop_last() =~= ls);
}

/// A row with the expected column count is kept whole: appending it to the lines
/// adds exactly its fields as one more row.
pub proof fn lemma_well_formed_row_kept(ls: Seq<Seq<char>>, line: Seq<char>, n: nat)
    requires
        fields_of(line).len() == n,
    ensures
        rows_with(ls.push(line), n) == rows_with(ls, n).push(fields_of(line)),
{
    assert(ls.push(line).drop_last() =~= ls);
}

/// An output of one line with the column count of the mode has exactly that row,
/// so it yields one device record holding exactly its columns.
pub proof fn lemma_single_row(line: Seq<char>, rich: bool, r: Seq<DeviceRecord>)
    requires
        !line.contains('\n'),
        fields_of(line).len() == gpu_columns(rich),
        gpu_records_match(r, line, rich),
    ensures
        gpu_rows(line, rich) == seq![fields_of(line)],
        r.len() == 1,
        gpu_record_matches(r[0], fields_of(line), rich),
{
    crate::text::lemma_split_on_without_sep(line, '\n');
    if line.len() == 0 {
        assert(line =~= Seq::<char>::empty());
        assert(fields_of(line).len() == 1);
    }
    assert(lines_of(line) == seq![line]);
    assert(seq![line].drop_last() =~= Seq::<Seq<char>>::empty());
    assert(seq![line].last() == line);
    assert(rows_with(Seq::<Seq<char>>::empty(), gpu_columns(rich)) =~= Seq::<Seq<Seq<char>>>::empty());
    assert(Seq::<Seq<Seq<char>>>::empty().push(fields_of(line)) =~= seq![fields_of(line)]);
}

} // verus!
