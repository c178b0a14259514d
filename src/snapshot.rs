//! The combined document of one poll, and the cell that holds the latest one.

use vstd::prelude::*;
use crate::amd::{
    amd_cards_from_json, amd_cards_of, amd_devices_match, cards_view, devices_from_amd_cards, AmdCard,
    AmdCardFields,
};
use crate::nvidia::{
    gpu_output_matches, gpu_records_match, process_output_matches, process_records_match, Nvidia,
    NvidiaPayload,
};
use crate::record::{same_devices, same_processes, DeviceRecord};

verus! {

/// The latest poll's results of both vendors, each under its own key. Device
/// indices stay vendor-local.
#[derive(Clone, Debug, PartialEq, Eq)]
pub struct Snapshot {
    pub nvidia: NvidiaPayload,
    pub amd: Vec<DeviceRecord>,
}

/// `s` is the snapshot of one poll: the payload of the row-printing vendor read
/// from its query outputs in the given mode, and one device per card of the other.
pub open spec fn snapshot_matches(
    s: Snapshot,
    complex_mode: bool,
    gpu_output: Option<&str>,
    process_output: Option<&str>,
    cards: Seq<AmdCard>,
) -> bool {
    &&& !complex_mode ==> (s.nvidia is Basic && gpu_output_matches(s.nvidia->Basic_0@, gpu_output, false))
    &&& complex_mode ==> (s.nvidia is Rich && gpu_output_matches(s.nvidia->gpus@, gpu_output, true)
        && process_output_matches(s.nvidia->processes@, process_output))
    &&& amd_devices_match(s.amd@, cards)
}

/// Two snapshots hold the same values.
pub open spec fn same_snapshot(a: Snapshot, b: Snapshot) -> bool {
    &&& same_devices(a.amd@, b.amd@)
    &&& match (a.nvidia, b.nvidia) {
        (NvidiaPayload::Basic(x), NvidiaPayload::Basic(y)) => same_devices(x@, y@),
        (
            NvidiaPayload::Rich { gpus: x, processes: p },
            NvidiaPayload::Rich { gpus: y, processes: q },
        ) => same_devices(x@, y@) && same_processes(p@, q@),
        _ => false,
    }
}

/// Wraps the two vendors' payloads under their keys, as they are.
pub fn assemble(nvidia: NvidiaPayload, amd: Vec<DeviceRecord>) -> (r: Snapshot)
    ensures
        r.nvidia == nvidia,
        r.amd == amd,
{
    Snapshot { nvidia, amd }
}

/// The snapshot of one poll, from the row-printing vendor's query outputs and the
/// cards read from the other vendor's document. `None` is a query whose tool
/// could not be launched.
pub fn snapshot_from_cards(
    complex_mode: bool,
    gpu_output: Option<&str>,
    process_output: Option<&str>,
    cards: &Vec<AmdCardFields>,
) -> (r: Snapshot)
    ensures
        snapshot_matches(r, complex_mode, gpu_output, process_output, cards_view(cards@)),
{
    let nvidia = Nvidia.collect(complex_mode, gpu_output, process_output);
    let amd = devices_from_amd_cards(cards);
    assemble(nvidia, amd)
}

/// The snapshot of one poll, from the raw outputs of all the vendor tools.
/// `None` is a query whose tool could not be launched; such a vendor, or a
/// document that cannot be read, contributes no devices.
pub fn snapshot_from_outputs(
    complex_mode: bool,
    gpu_output: Option<&str>,
    process_output: Option<&str>,
    amd_output: Option<&str>,
) -> (r: Snapshot)
    ensures
        snapshot_matches(r, complex_mode, gpu_output, process_output, amd_cards_of_output(amd_output)),
{
    let cards = match amd_output {
        Some(o) => amd_cards_from_json(o),
        None => {
            let v: Vec<AmdCardFields> = Vec::new();
            assert(cards_view(v@) =~= Seq::<AmdCard>::empty());
            v
        },
    };
    snapshot_from_cards(complex_mode, gpu_output, process_output, &cards)
}

/// The cards of the JSON-printing vendor's output; none where its tool could not
/// be launched.
pub open spec fn amd_cards_of_output(amd_output: Option<&str>) -> Seq<AmdCard> {
    match amd_output {
        Some(o) => amd_cards_of(o@),
        None => Seq::empty(),
    }
}

/// Running the whole pipeline twice on the same outputs of all the tools gives
/// snapshots that hold the same values.
pub proof fn lemma_outputs_snapshot_deterministic(
    complex_mode: bool,
    gpu_output: Option<&str>,
    process_output: Option<&str>,
    amd_output: Option<&str>,
    a: Snapshot,
    b: Snapshot,
)
    requires
        snapshot_matches(a, complex_mode, gpu_output, process_output, amd_cards_of_output(amd_output)),
        snapshot_matches(b, complex_mode, gpu_output, process_output, amd_cards_of_output(amd_output)),
    ensures
        same_snapshot(a, b),
{
}

/// Parsing is a function of the tool output alone: two device lists read from the
/// same output in the same mode hold the same values.
pub proof fn lemma_gpu_rows_deterministic(
    out: Seq<char>,
    rich: bool,
    a: Seq<DeviceRecord>,
    b: Seq<DeviceRecord>,
)
    requires
        gpu_records_match(a, out, rich),
        gpu_records_match(b, out, rich),
    ensures
        same_devices(a, b),
{
}

/// Assembling twice from the same row outputs and the same cards gives snapshots
/// that hold the same values.
pub proof fn lemma_snapshot_deterministic(
    complex_mode: bool,
    gpu_output: Option<&str>,
    process_output: Option<&str>,
    cards: Seq<AmdCard>,
    a: Snapshot,
    b: Snapshot,
)
    requires
        snapshot_matches(a, complex_mode, gpu_output, process_output, cards),
        snapshot_matches(b, complex_mode, gpu_output, process_output, cards),
    ensures
        same_snapshot(a, b),
{
}

/// The body served before the first poll has completed.
pub fn starting_body() -> (r: String)
    ensures
        r@ == "{\"status\":\"starting\"}"@,
{
    "{\"status\":\"starting\"}".to_owned()
}

/// The latest rendered snapshot. It starts as the placeholder body and is
/// replaced whole by each poll; readers take a copy.
pub struct SnapshotCache {
    body: String,
}

impl View for SnapshotCache {
    type V = Seq<char>;

    closed spec fn view(&self) -> Seq<char> {
        self.body@
    }
}

impl SnapshotCache {
    /// A cache holding the placeholder body.
    pub fn new() -> (r: SnapshotCache)
        ensures
            r@ == "{\"status\":\"starting\"}"@,
    {
        SnapshotCache { body: starting_body() }
    }

    /// Replaces the cached body with `body`.
    pub fn publish(&mut self, body: String)
        ensures
            final(self)@ == body@,
    {
        self.body = body;
    }

    /// A copy of the cached body.
    pub fn current(&self) -> (r: String)
        ensures
            r@ == self@,
    {
        self.body.clone()
    }
}

} // verus!
