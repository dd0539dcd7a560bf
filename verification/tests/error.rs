use yawngf::error::InitError;

#[test]
fn no_adapter_has_its_message() {
    assert_eq!(InitError::NoAdapter.message(), "no adapter found that matched preferred options");
}

#[test]
fn no_device_has_its_message() {
    assert_eq!(
        InitError::NoDevice(wgpu::RequestDeviceError).message(),
        "requesting a device failed"
    );
}

#[test]
fn a_device_error_converts_to_no_device() {
    let error = InitError::from(wgpu::RequestDeviceError);
    assert_eq!(error, InitError::NoDevice(wgpu::RequestDeviceError));
    assert!(matches!(error, InitError::NoDevice(_)));
}

#[test]
fn the_variants_differ() {
    assert_ne!(InitError::NoAdapter, InitError::NoDevice(wgpu::RequestDeviceError));
}
