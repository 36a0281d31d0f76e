//! The adapter over one discovered device: immutable identity fields fixed
//! at construction, and an optional telemetry view sharing the same driver
//! session.

use vstd::prelude::*;

verus! {

use std::rc::Rc;
use libdrm_amdgpu_sys::AMDGPU::DeviceHandle;
use vstd::string::StringExecFns;
use crate::drv;
use crate::model::SensorKind;
use crate::model::StaticInfo;
use crate::model::VramInfo;

/// The identity fields of one device, fixed at construction.
///
/// Carries no driver resource, so it can be built and read anywhere.
#[derive(Debug, Clone, PartialEq, Eq)]
pub struct DeviceIdentity {
    path: String,
    vendor: String,
    model: String,
    family: String,
    device_id: u32,
}

impl DeviceIdentity {
    /// The render-node path the device was opened on.
    pub closed spec fn path_spec(&self) -> Seq<char> {
        self.path@
    }

    /// The vendor string.
    pub closed spec fn vendor_spec(&self) -> Seq<char> {
        self.vendor@
    }

    /// The model (marketing) name.
    pub closed spec fn model_spec(&self) -> Seq<char> {
        self.model@
    }

    /// The GPU family name.
    pub closed spec fn family_spec(&self) -> Seq<char> {
        self.family@
    }

    /// The numeric PCI device id.
    pub closed spec fn device_id_spec(&self) -> u32 {
        self.device_id
    }

    /// Every identity names the one vendor this adapter serves.
    pub open spec fn wf(&self) -> bool {
        self.vendor_spec() == "AMD"@
    }

    /// Builds the identity of a device from the driver's static info: the
    /// vendor is the constant "AMD", everything else is taken verbatim.
    pub fn from_info(path: String, info: StaticInfo) -> (r: DeviceIdentity)
        ensures
            r.wf(),
            r.path_spec() == path@,
            r.model_spec() == info.model@,
            r.family_spec() == info.family@,
            r.device_id_spec() == info.device_id,
    {
        DeviceIdentity {
            path,
            vendor: String::from_str("AMD"),
            model: info.model,
            family: info.family,
            device_id: info.device_id,
        }
    }

    /// Vendor accessor; pure, pinned to [`Self::vendor_spec`].
    pub fn vendor(&self) -> (r: &str)
        ensures
            r@ == self.vendor_spec(),
    {
        self.vendor.as_str()
    }

    /// Model accessor; pure, pinned to [`Self::model_spec`].
    pub fn model(&self) -> (r: &str)
        ensures
            r@ == self.model_spec(),
    {
        self.model.as_str()
    }

    /// Family accessor; pure, pinned to [`Self::family_spec`].
    pub fn family(&self) -> (r: &str)
        ensures
            r@ == self.family_spec(),
    {
        self.family.as_str()
    }

    /// Device-id accessor; pure, pinned to [`Self::device_id_spec`].
    pub fn device_id(&self) -> (r: u32)
        ensures
            r == self.device_id_spec(),
    {
        self.device_id
    }

    /// Path accessor; pure, pinned to [`Self::path_spec`].
    pub fn path(&self) -> (r: &str)
        ensures
            r@ == self.path_spec(),
    {
        self.path.as_str()
    }
}

/// One discovered AMD GPU: its identity and the shared driver session.
///
/// An instance exists only for a device whose session was initialized and
/// whose static info was read; there is no partially constructed adapter.
pub struct AmdGpu {
    identity: DeviceIdentity,
    device: Rc<DeviceHandle>,
}

impl AmdGpu {
    /// The identity fields.
    pub closed spec fn identity_spec(&self) -> DeviceIdentity {
        self.identity
    }

    /// The shared driver session.
    pub closed spec fn device_spec(&self) -> Rc<DeviceHandle> {
        self.device
    }

    /// The render-node path the device was opened on.
    pub open spec fn path_spec(&self) -> Seq<char> {
        self.identity_spec().path_spec()
    }

    /// The vendor string.
    pub open spec fn vendor_spec(&self) -> Seq<char> {
        self.identity_spec().vendor_spec()
    }

    /// The model (marketing) name.
    pub open spec fn model_spec(&self) -> Seq<char> {
        self.identity_spec().model_spec()
    }

    /// The GPU family name.
    pub open spec fn family_spec(&self) -> Seq<char> {
        self.identity_spec().family_spec()
    }

    /// The numeric PCI device id.
    pub open spec fn device_id_spec(&self) -> u32 {
        self.identity_spec().device_id_spec()
    }

    /// A well-formed adapter carries a well-formed identity.
    pub open spec fn wf(&self) -> bool {
        self.identity_spec().wf()
    }

    /// Wraps a freshly initialized driver session together with the identity
    /// built from its static info.
    pub(crate) fn new(path: String, device: DeviceHandle, info: StaticInfo) -> (r: AmdGpu)
        ensures
            r.wf(),
            r.path_spec() == path@,
            r.model_spec() == info.model@,
            r.family_spec() == info.family@,
            r.device_id_spec() == info.device_id,
            r.device_spec() == device,
    {
        AmdGpu { identity: DeviceIdentity::from_info(path, info), device: Rc::new(device) }
    }

    /// Vendor accessor; pure, pinned to [`Self::vendor_spec`].
    pub fn vendor(&self) -> (r: &str)
        ensures
            r@ == self.vendor_spec(),
    {
        self.identity.vendor()
    }

    /// Model accessor; pure, pinned to [`Self::model_spec`].
    pub fn model(&self) -> (r: &str)
        ensures
            r@ == self.model_spec(),
    {
        self.identity.model()
    }

    /// Family accessor; pure, pinned to [`Self::family_spec`].
    pub fn family(&self) -> (r: &str)
        ensures
            r@ == self.family_spec(),
    {
        self.identity.family()
    }

    /// Device-id accessor; pure, pinned to [`Self::device_id_spec`].
    pub fn device_id(&self) -> (r: &u32)
        ensures
            *r == self.device_id_spec(),
    {
        &self.identity.device_id
    }

    /// Path accessor; pure, pinned to [`Self::path_spec`].
    pub fn path(&self) -> (r: &str)
        ensures
            r@ == self.path_spec(),
    {
        self.identity.path()
    }

    /// The identity fields alone, without the driver session.
    pub fn identity(&self) -> (r: &DeviceIdentity)
        ensures
            *r == self.identity_spec(),
    {
        &self.identity
    }

    /// Builds the telemetry view: it shares this adapter's driver session,
    /// no new kernel handle is opened.
    pub fn info(&self) -> (r: AmdGpuInfo)
        ensures
            r.device_spec() == self.device_spec(),
    {
        AmdGpuInfo { device: drv::share_handle(&self.device) }
    }
}

/// The telemetry view over a shared driver session.
///
/// Every reading is an independent point-in-time query against the session;
/// nothing is cached and a failed query degrades to zero.
pub struct AmdGpuInfo {
    device: Rc<DeviceHandle>,
}

/// Degrade-to-zero policy for the VRAM total: a failed heap query reads as
/// zero bytes, never as an error.
pub fn vram_total_from(m: Option<VramInfo>) -> (r: u64)
    ensures
        m matches Some(v) ==> r == v.total_heap_size,
        m is None ==> r == 0,
{
    match m {
        Some(v) => v.total_heap_size,
        None => 0,
    }
}

/// Degrade-to-zero policy for the VRAM usage: a failed heap query reads as
/// zero bytes, never as an error.
pub fn vram_used_from(m: Option<VramInfo>) -> (r: u64)
    ensures
        m matches Some(v) ==> r == v.heap_usage,
        m is None ==> r == 0,
{
    match m {
        Some(v) => v.heap_usage,
        None => 0,
    }
}

/// Degrade-to-zero policy for sensors: an absent or failed reading counts
/// as zero, never as an error.
pub fn sensor_or_zero(reading: Option<u32>) -> (r: u32)
    ensures
        reading matches Some(v) ==> r == v,
        reading is None ==> r == 0,
{
    match reading {
        Some(v) => v,
        None => 0,
    }
}

impl AmdGpuInfo {
    /// The shared driver session.
    pub closed spec fn device_spec(&self) -> Rc<DeviceHandle> {
        self.device
    }

    /// Total VRAM in bytes; zero when the heap query fails.
    pub fn total_vram(&self) -> u64 {
        vram_total_from(drv::query_memory_info(&self.device))
    }

    /// Used VRAM in bytes; zero when the heap query fails.
    pub fn used_vram(&self) -> u64 {
        vram_used_from(drv::query_memory_info(&self.device))
    }

    /// GPU load in percent; zero when the sensor is absent or the read fails.
    pub fn load_pct(&self) -> u32 {
        sensor_or_zero(drv::query_sensor(&self.device, SensorKind::GpuLoad))
    }

    /// GPU temperature in degrees; zero when the sensor is absent or the
    /// read fails.
    pub fn temperature(&self) -> u32 {
        sensor_or_zero(drv::query_sensor(&self.device, SensorKind::GpuTemperature))
    }
}

/// Law: telemetry views taken from the same adapter hold the same driver
/// session, so their readings come from the same underlying device.
pub proof fn lemma_views_share_device(a: &AmdGpu, v1: &AmdGpuInfo, v2: &AmdGpuInfo)
    requires
        v1.device_spec() == a.device_spec(),
        v2.device_spec() == a.device_spec(),
    ensures
        v1.device_spec() == v2.device_spec(),
{
}

} // verus!
