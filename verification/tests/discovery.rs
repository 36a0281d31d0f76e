use amdgpu_probe::discovery::{discover_device, select_device};
use amdgpu_probe::errors::DiscoveryError;

#[test]
fn zero_enumerated_devices_yield_no_device_found() {
    assert_eq!(select_device(0), Err(DiscoveryError::NoDeviceFound));
}

#[test]
fn first_device_wins() {
    assert_eq!(select_device(1), Ok(0));
    assert_eq!(select_device(3), Ok(0));
}

#[test]
fn discovery_on_this_machine_stays_in_its_stage_errors() {
    // Whatever hardware and libraries this machine has, the first half of
    // the pipeline either succeeds or reports one of its own three stages.
    match discover_device() {
        Ok((_drm, path)) => assert!(!path.is_empty()),
        Err(e) => assert!(matches!(
            e,
            DiscoveryError::DriverInit
                | DiscoveryError::NoDeviceFound
                | DiscoveryError::PathResolution(_)
        )),
    }
}
