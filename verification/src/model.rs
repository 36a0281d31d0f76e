//! Plain-value models of what the driver reports.
//!
//! The driver's own structures are opaque here; the trusted layer converts
//! the fields this crate reads into these types at the call site.

use vstd::prelude::*;

verus! {

/// Static identity as the driver reports it for one device.
#[derive(Debug, Clone, PartialEq, Eq)]
pub struct StaticInfo {
    /// Marketing name, or the driver's generic default when none is known.
    pub model: String,
    /// GPU family name.
    pub family: String,
    /// Numeric PCI device id.
    pub device_id: u32,
}

/// One point-in-time reading of the VRAM heap.
#[derive(Debug, Clone, Copy, PartialEq, Eq)]
pub struct VramInfo {
    /// Size of the VRAM heap in bytes.
    pub total_heap_size: u64,
    /// Bytes of the VRAM heap currently in use.
    pub heap_usage: u64,
}

/// Which runtime sensor to read.
#[derive(Debug, Clone, Copy, PartialEq, Eq)]
pub enum SensorKind {
    /// GPU load, in percent.
    GpuLoad,
    /// GPU temperature, in degrees.
    GpuTemperature,
}

} // verus!
