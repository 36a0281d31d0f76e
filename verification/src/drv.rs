//! The trusted layer over the kernel DRM/amdgpu driver library.
//!
//! Every item here is believed, not proved: each wrapper makes exactly the
//! outside calls its doc comment names and converts their results to the
//! plain values of [`crate::model`]. Every outcome depends on the machine
//! (which devices exist, what the kernel answers), so no wrapper promises
//! success; the verified callers state what holds whatever comes back.

use vstd::prelude::*;

verus! {

use std::rc::Rc;
use libdrm_amdgpu_sys::LibDrmAmdgpu;
use libdrm_amdgpu_sys::AMDGPU::DeviceHandle;
use libdrm_amdgpu_sys::AMDGPU::GPU_INFO;
use libdrm_amdgpu_sys::AMDGPU::SENSOR_INFO::SENSOR_TYPE;
use libdrm_amdgpu_sys::PCI;
use crate::model::SensorKind;
use crate::model::StaticInfo;
use crate::model::VramInfo;

#[verifier::external_type_specification]
#[verifier::external_body]
pub struct ExLibDrmAmdgpu(LibDrmAmdgpu);

#[verifier::external_type_specification]
#[verifier::external_body]
pub struct ExDeviceHandle(DeviceHandle);

#[verifier::external_type_specification]
#[verifier::external_body]
pub struct ExBusInfo(PCI::BUS_INFO);

/// Relies on `LibDrmAmdgpu::new`: loads the system libdrm libraries and
/// fails when they are absent or unusable.
#[verifier::external_body]
pub(crate) fn init_drm() -> Option<LibDrmAmdgpu> {
    LibDrmAmdgpu::new().ok()
}

/// Relies on `AMDGPU::get_all_amdgpu_pci_bus`: lists the PCI bus entries
/// currently bound to the amdgpu driver, empty when there are none.
#[verifier::external_body]
pub(crate) fn enumerate_amd_pci() -> Vec<PCI::BUS_INFO> {
    libdrm_amdgpu_sys::AMDGPU::get_all_amdgpu_pci_bus()
}

/// Relies on `PCI::BUS_INFO::get_drm_render_path`: resolves the `/dev/dri`
/// render node of one device, or reports the OS error as a string.
#[verifier::external_body]
pub(crate) fn render_path_of(dev: &PCI::BUS_INFO) -> Result<String, String> {
    match dev.get_drm_render_path() {
        Ok(p) => Ok(p.to_string_lossy().into_owned()),
        Err(e) => Err(e.to_string()),
    }
}

/// Relies on `LibDrmAmdgpu::init_device_handle`: initializes a driver
/// session from an open render-node descriptor, or reports the driver's
/// errno as a string. The descriptor must stay open across this call.
#[verifier::external_body]
#[allow(deprecated)]
pub(crate) fn init_handle(drm: &LibDrmAmdgpu, fd: i32) -> Result<DeviceHandle, String> {
    match drm.init_device_handle(fd) {
        Ok((device, _major, _minor)) => Ok(device),
        Err(e) => Err(e.to_string()),
    }
}

/// Relies on `DeviceHandle::device_info` and the `GPU_INFO` accessors
/// `find_device_name_or_default`, `get_family_name` and `device_id`, which
/// read the queried info structure.
#[verifier::external_body]
pub(crate) fn query_device_info(device: &DeviceHandle) -> Result<StaticInfo, String> {
    match device.device_info() {
        Ok(info) => Ok(
            StaticInfo {
                model: info.find_device_name_or_default(),
                family: info.get_family_name().to_string(),
                device_id: info.device_id(),
            },
        ),
        Err(e) => Err(e.to_string()),
    }
}

/// Relies on `DeviceHandle::memory_info`: reads the VRAM heap's size and
/// current usage in bytes.
#[verifier::external_body]
pub(crate) fn query_memory_info(device: &DeviceHandle) -> Option<VramInfo> {
    match device.memory_info() {
        Ok(m) => Some(
            VramInfo { total_heap_size: m.vram.total_heap_size, heap_usage: m.vram.heap_usage },
        ),
        Err(_) => None,
    }
}

/// Relies on `DeviceHandle::sensor_info` with `SENSOR_TYPE::GPU_LOAD` or
/// `SENSOR_TYPE::GPU_TEMP`: reads one runtime sensor value.
#[verifier::external_body]
pub(crate) fn query_sensor(device: &DeviceHandle, kind: SensorKind) -> Option<u32> {
    let sensor = match kind {
        SensorKind::GpuLoad => SENSOR_TYPE::GPU_LOAD,
        SensorKind::GpuTemperature => SENSOR_TYPE::GPU_TEMP,
    };
    device.sensor_info(sensor).ok()
}

/// Relies on `Rc::clone`: hands out another reference to the same driver
/// session; no new kernel handle is opened.
#[verifier::external_body]
pub(crate) fn share_handle(device: &Rc<DeviceHandle>) -> (r: Rc<DeviceHandle>)
    ensures
        r == *device,
{
    Rc::clone(device)
}

} // verus!
