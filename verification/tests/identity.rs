use amdgpu_probe::adapter::DeviceIdentity;
use amdgpu_probe::model::StaticInfo;

fn navi21_identity() -> DeviceIdentity {
    let info = StaticInfo {
        model: "AMD Radeon RX 6800 XT".to_string(),
        family: "Navi21".to_string(),
        device_id: 0x1002,
    };
    DeviceIdentity::from_info("/dev/dri/renderD128".to_string(), info)
}

#[test]
fn identity_from_successful_queries() {
    let id = navi21_identity();
    assert_eq!(id.vendor(), "AMD");
    assert_eq!(id.model(), "AMD Radeon RX 6800 XT");
    assert_eq!(id.family(), "Navi21");
    assert_eq!(id.device_id(), 0x1002);
    assert_eq!(id.path(), "/dev/dri/renderD128");
}

#[test]
fn identity_accessors_are_stable_across_calls() {
    let id = navi21_identity();
    assert_eq!(id.vendor(), id.vendor());
    assert_eq!(id.model(), id.model());
    assert_eq!(id.family(), id.family());
    assert_eq!(id.device_id(), id.device_id());
    assert_eq!(id.path(), id.path());
}

#[test]
fn vendor_is_always_amd() {
    let info = StaticInfo {
        model: "AMD Radeon Graphics".to_string(),
        family: "GFX9".to_string(),
        device_id: 0x73bf,
    };
    let id = DeviceIdentity::from_info("/dev/dri/renderD129".to_string(), info);
    assert_eq!(id.vendor(), "AMD");
}
