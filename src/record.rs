//! The normalized records that every vendor's output is turned into.

use vstd::prelude::*;
use crate::number::{mb_of_mib, mib_to_mb};

verus! {

/// One GPU as a poll saw it. Optional telemetry is `None` where the vendor tool
/// was not asked for it or cannot report it.
#[derive(Clone, Debug, PartialEq, Eq)]
pub struct DeviceRecord {
    pub index: u32,
    pub name: String,
    pub gpu_utilization_percent: u32,
    pub gpu_memory_used_mb: u32,
    pub gpu_memory_total_mb: u32,
    /// The power draw in watts, as the tool printed it; it is read as a
    /// floating-point number, 0 where it is not one, when the record is rendered.
    pub power_draw: Option<String>,
    pub temperature_celsius: Option<u32>,
    pub clock_sm_mhz: Option<u32>,
    pub clock_mem_mhz: Option<u32>,
    pub clock_graphics_mhz: Option<u32>,
    pub pcie_gen: Option<u32>,
    pub pcie_width: Option<u32>,
    /// The device appeared in this poll's output.
    pub up: bool,
}

/// One process holding memory on a GPU.
#[derive(Clone, Debug, PartialEq, Eq)]
pub struct ProcessRecord {
    pub gpu_uuid: String,
    pub pid: u32,
    pub process_name: String,
    pub used_gpu_memory_mb: u32,
}

} // verus!

verus! {

/// Two device records hold the same values.
pub open spec fn same_device(a: DeviceRecord, b: DeviceRecord) -> bool {
    &&& a.index == b.index
    &&& a.name@ == b.name@
    &&& a.gpu_utilization_percent == b.gpu_utilization_percent
    &&& a.gpu_memory_used_mb == b.gpu_memory_used_mb
    &&& a.gpu_memory_total_mb == b.gpu_memory_total_mb
    &&& a.power_draw is Some == b.power_draw is Some
    &&& (a.power_draw is Some ==> a.power_draw->0@ == b.power_draw->0@)
    &&& a.temperature_celsius == b.temperature_celsius
    &&& a.clock_sm_mhz == b.clock_sm_mhz
    &&& a.clock_mem_mhz == b.clock_mem_mhz
    &&& a.clock_graphics_mhz == b.clock_graphics_mhz
    &&& a.pcie_gen == b.pcie_gen
    &&& a.pcie_width == b.pcie_width
    &&& a.up == b.up
}

/// Two process records hold the same values.
pub open spec fn same_process(a: ProcessRecord, b: ProcessRecord) -> bool {
    &&& a.gpu_uuid@ == b.gpu_uuid@
    &&& a.pid == b.pid
    &&& a.process_name@ == b.process_name@
    &&& a.used_gpu_memory_mb == b.used_gpu_memory_mb
}

pub open spec fn same_devices(a: Seq<DeviceRecord>, b: Seq<DeviceRecord>) -> bool {
    &&& a.len() == b.len()
    &&& forall|j: int| 0 <= j < a.len() ==> same_device(#[trigger] a[j], b[j])
}

pub open spec fn same_processes(a: Seq<ProcessRecord>, b: Seq<ProcessRecord>) -> bool {
    &&& a.len() == b.len()
    &&& forall|j: int| 0 <= j < a.len() ==> same_process(#[trigger] a[j], b[j])
}

} // verus!

verus! {

/// An optional reading, 0 where it is absent.
pub open spec fn or_zero(o: Option<u32>) -> u32 {
    match o {
        Some(v) => v,
        None => 0,
    }
}

fn u32_or_zero_of(o: Option<u32>) -> (r: u32)
    ensures
        r == or_zero(o),
{
    match o {
        Some(v) => v,
        None => 0,
    }
}

/// Read access to a device's telemetry, with each optional reading taken as 0
/// where it is absent.
pub trait Smi {
    fn name(&self) -> String;

    fn gpu_utilization_percent(&self) -> u32;

    /// The used memory as the tool reported it.
    fn gpu_memory_used_mib(&self) -> u32;

    /// The reported used memory read as binary mebibytes, in decimal megabytes.
    fn gpu_memory_used_mb(&self) -> u64;

    /// The total memory as the tool reported it.
    fn gpu_memory_total_mib(&self) -> u32;

    /// The reported total memory read as binary mebibytes, in decimal megabytes.
    fn gpu_memory_total_mb(&self) -> u64;

    fn temperature_celsius(&self) -> u32;

    fn clock_sm_mhz(&self) -> u32;

    fn clock_mem_mhz(&self) -> u32;

    fn clock_graphics_mhz(&self) -> u32;

    fn pcie_gen(&self) -> u32;

    fn pcie_width(&self) -> u32;

    fn up(&self) -> bool;
}

impl Smi for DeviceRecord {
    fn name(&self) -> (r: String)
        ensures
            r@ == self.name@,
    {
        self.name.clone()
    }

    fn gpu_utilization_percent(&self) -> (r: u32)
        ensures
            r == self.gpu_utilization_percent,
    {
        self.gpu_utilization_percent
    }

    fn gpu_memory_used_mib(&self) -> (r: u32)
        ensures
            r == self.gpu_memory_used_mb,
    {
        self.gpu_memory_used_mb
    }

    fn gpu_memory_used_mb(&self) -> (r: u64)
        ensures
            r as nat == mb_of_mib(self.gpu_memory_used_mb as nat),
            r as nat == self.gpu_memory_used_mb as nat * 1048576 / 1000000,
    {
        mib_to_mb(self.gpu_memory_used_mb)
    }

    fn gpu_memory_total_mib(&self) -> (r: u32)
        ensures
            r == self.gpu_memory_total_mb,
    {
        self.gpu_memory_total_mb
    }

    fn gpu_memory_total_mb(&self) -> (r: u64)
        ensures
            r as nat == mb_of_mib(self.gpu_memory_total_mb as nat),
            r as nat == self.gpu_memory_total_mb as nat * 1048576 / 1000000,
    {
        mib_to_mb(self.gpu_memory_total_mb)
    }

    fn temperature_celsius(&self) -> (r: u32)
        ensures
            r == or_zero(self.temperature_celsius),
    {
        u32_or_zero_of(self.temperature_celsius)
    }

    fn clock_sm_mhz(&self) -> (r: u32)
        ensures
            r == or_zero(self.clock_sm_mhz),
    {
        u32_or_zero_of(self.clock_sm_mhz)
    }

    fn clock_mem_mhz(&self) -> (r: u32)
        ensures
            r == or_zero(self.clock_mem_mhz),
    {
        u32_or_zero_of(self.clock_mem_mhz)
    }

    fn clock_graphics_mhz(&self) -> (r: u32)
        ensures
            r == or_zero(self.clock_graphics_mhz),
    {
        u32_or_zero_of(self.clock_graphics_mhz)
    }

    fn pcie_gen(&self) -> (r: u32)
        ensures
            r == or_zero(self.pcie_gen),
    {
        u32_or_zero_of(self.pcie_gen)
    }

    fn pcie_width(&self) -> (r: u32)
        ensures
            r == or_zero(self.pcie_width),
    {
        u32_or_zero_of(self.pcie_width)
    }

    fn up(&self) -> (r: bool)
        ensures
            r == self.up,
    {
        self.up
    }
}

} // verus!
