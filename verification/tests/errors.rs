use amdgpu_probe::errors::DiscoveryError;

#[test]
fn driver_init_message() {
    assert_eq!(
        DiscoveryError::DriverInit.message(),
        "Could not initialize libdrm"
    );
}

#[test]
fn no_device_message() {
    assert_eq!(DiscoveryError::NoDeviceFound.message(), "No AMD GPU found");
}

#[test]
fn path_resolution_message_keeps_detail() {
    let e = DiscoveryError::PathResolution("No such file or directory".to_string());
    assert_eq!(
        e.message(),
        "Could not resolve render path: No such file or directory"
    );
}

#[test]
fn io_message_keeps_detail() {
    let e = DiscoveryError::Io("Permission denied".to_string());
    assert_eq!(e.message(), "Could not open render node: Permission denied");
}

#[test]
fn handle_init_failure_surfaces_driver_detail() {
    let e = DiscoveryError::HandleInit("E1".to_string());
    let msg = e.message();
    assert!(msg.contains("E1"));
    assert_eq!(msg, "Could not init device handle: E1");
}

#[test]
fn info_query_message_keeps_detail() {
    let e = DiscoveryError::InfoQuery("E2".to_string());
    let msg = e.message();
    assert!(msg.contains("E2"));
    assert_eq!(msg, "Could not get device info: E2");
}
