use yawngf::request::{
    AdapterRequest, Backends, DeviceRequest, InstanceRequest, LimitsProfile, TargetEnvironment,
};
use yawngf::PowerPreference;

#[test]
fn all_backends_sets_every_flag() {
    let all = Backends::all();
    assert!(all.vulkan && all.gl && all.metal && all.dx12 && all.dx11 && all.browser_webgpu);
}

#[test]
fn the_instance_is_asked_for_all_backends() {
    assert_eq!(InstanceRequest::initial(), InstanceRequest { backends: Backends::all() });
}

#[test]
fn the_adapter_request_carries_preference_and_flag() {
    let preferences = [
        PowerPreference::LowPower,
        PowerPreference::HighPerformance,
        PowerPreference::NoPreference,
    ];
    for preference in preferences {
        for fallback in [false, true] {
            assert_eq!(
                AdapterRequest::matching(preference, fallback),
                AdapterRequest {
                    power_preference: preference,
                    force_fallback_adapter: fallback,
                    compatible_surface: true,
                }
            );
        }
    }
}

#[test]
fn a_native_target_asks_for_default_limits() {
    assert_eq!(
        DeviceRequest::for_target(TargetEnvironment::Native),
        DeviceRequest { features: 0, limits: LimitsProfile::Default }
    );
}

#[test]
fn a_web_target_asks_for_webgl2_limits() {
    assert_eq!(
        DeviceRequest::for_target(TargetEnvironment::Web),
        DeviceRequest { features: 0, limits: LimitsProfile::DownlevelWebGl2 }
    );
}
