//! The discovery pipeline: driver init, PCI enumeration, device selection,
//! render-path resolution, session init, and static-info query.
//!
//! Opening the render node itself needs file I/O, so the pipeline is split
//! around it: [`discover_device`] runs up to the resolved path, the caller
//! opens that path, and [`adapter_from_fd`] runs the rest on the open
//! descriptor. Each half reports exactly the error variants of its stages.

use vstd::prelude::*;

verus! {

use libdrm_amdgpu_sys::LibDrmAmdgpu;
use crate::adapter::AmdGpu;
use crate::drv;
use crate::errors::DiscoveryError;

/// The selection policy over an enumeration of `count` devices: the first
/// in discovery order wins, and an empty enumeration means no device.
pub fn select_device(count: usize) -> (r: Result<usize, DiscoveryError>)
    ensures
        count == 0 ==> r == Err::<usize, DiscoveryError>(DiscoveryError::NoDeviceFound),
        count > 0 ==> r == Ok::<usize, DiscoveryError>(0usize),
{
    if count == 0 {
        Err(DiscoveryError::NoDeviceFound)
    } else {
        Ok(0)
    }
}

/// Initializes the driver library, enumerates AMD devices, selects one by
/// the policy of [`select_device`], and resolves its render-node path.
///
/// Whatever the machine answers, a failure is one of the three early-stage
/// variants, in particular `NoDeviceFound` when the enumeration is empty.
pub fn discover_device() -> (r: Result<(LibDrmAmdgpu, String), DiscoveryError>)
    ensures
        r matches Err(e) ==> (e is DriverInit || e is NoDeviceFound || e is PathResolution),
{
    let drm = match drv::init_drm() {
        Some(d) => d,
        None => {
            return Err(DiscoveryError::DriverInit);
        },
    };
    let devs = drv::enumerate_amd_pci();
    let idx = match select_device(devs.len()) {
        Ok(i) => i,
        Err(e) => {
            return Err(e);
        },
    };
    let path = match drv::render_path_of(&devs[idx]) {
        Ok(p) => p,
        Err(detail) => {
            return Err(DiscoveryError::PathResolution(detail));
        },
    };
    Ok((drm, path))
}

/// Initializes a driver session on the open render-node descriptor `fd`,
/// queries the static device info, and constructs the adapter.
///
/// Whatever the driver answers, a failure is `HandleInit` or `InfoQuery`,
/// and a failed result carries no driver session; on success the adapter is
/// well formed and remembers `path`.
pub fn adapter_from_fd(drm: &LibDrmAmdgpu, path: String, fd: i32) -> (r: Result<
    AmdGpu,
    DiscoveryError,
>)
    ensures
        r matches Err(e) ==> (e is HandleInit || e is InfoQuery),
        r matches Ok(a) ==> a.wf() && a.path_spec() == path@,
{
    let device = match drv::init_handle(drm, fd) {
        Ok(d) => d,
        Err(detail) => {
            return Err(DiscoveryError::HandleInit(detail));
        },
    };
    let info = match drv::query_device_info(&device) {
        Ok(i) => i,
        Err(detail) => {
            return Err(DiscoveryError::InfoQuery(detail));
        },
    };
    Ok(AmdGpu::new(path, device, info))
}

} // verus!
