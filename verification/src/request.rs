//! What the initialization asks of the graphics driver, as plain values.
//!
//! Each request mirrors one descriptor of the driver's interface and holds
//! every choice that the library makes for it; whoever talks to the driver
//! turns the request into the driver's own descriptor, field by field.

use vstd::prelude::*;

verus! {

/// Which kind of adapter the caller would rather have.
#[derive(Clone, Copy, Debug, PartialEq, Eq, Hash, Structural)]
pub enum PowerPreference {
    /// The adapter that draws the least power, often an integrated GPU.
    LowPower,
    /// The adapter with the highest performance, often a discrete GPU.
    HighPerformance,
    /// No preference between the two.
    NoPreference,
}

/// The environment the program is built for.
#[derive(Clone, Copy, Debug, PartialEq, Eq, Hash, Structural)]
pub enum TargetEnvironment {
    /// A native platform.
    Native,
    /// A browser, through WebAssembly.
    Web,
}

/// A set of graphics backends, one flag for each.
#[derive(Clone, Copy, Debug, PartialEq, Eq, Hash, Structural)]
pub struct Backends {
    pub vulkan: bool,
    pub gl: bool,
    pub metal: bool,
    pub dx12: bool,
    pub dx11: bool,
    pub browser_webgpu: bool,
}

impl Backends {
    /// The set that holds every backend.
    pub open spec fn spec_all() -> Backends {
        Backends {
            vulkan: true,
            gl: true,
            metal: true,
            dx12: true,
            dx11: true,
            browser_webgpu: true,
        }
    }

    /// The set that holds every backend.
    #[verifier::when_used_as_spec(spec_all)]
    pub fn all() -> (backends: Backends)
        ensures
            backends == Backends::spec_all(),
    {
        Backends {
            vulkan: true,
            gl: true,
            metal: true,
            dx12: true,
            dx11: true,
            browser_webgpu: true,
        }
    }
}

/// The graphics instance to create before the surface.
#[derive(Clone, Copy, Debug, PartialEq, Eq, Hash, Structural)]
pub struct InstanceRequest {
    /// The backends the instance may use.
    pub backends: Backends,
}

/// The adapter to look for.
#[derive(Clone, Copy, Debug, PartialEq, Eq, Hash, Structural)]
pub struct AdapterRequest {
    pub power_preference: PowerPreference,
    /// Only a fallback (software) adapter will do.
    pub force_fallback_adapter: bool,
    /// The adapter must be able to present to the surface created before.
    pub compatible_surface: bool,
}

/// The resource limits to ask of the device.
#[derive(Clone, Copy, Debug, PartialEq, Eq, Hash, Structural)]
pub enum LimitsProfile {
    /// The platform's default limits.
    Default,
    /// The constrained limits that are safe for WebGL2.
    DownlevelWebGl2,
}

/// The logical device and queue to ask of the adapter.
#[derive(Clone, Copy, Debug, PartialEq, Eq, Hash, Structural)]
pub struct DeviceRequest {
    /// The optional features to enable, as the bits of the driver's feature
    /// flags; zero enables none.
    pub features: u64,
    pub limits: LimitsProfile,
}

/// The limits that suit a target environment.
pub open spec fn limits_for(target: TargetEnvironment) -> LimitsProfile {
    match target {
        TargetEnvironment::Native => LimitsProfile::Default,
        TargetEnvironment::Web => LimitsProfile::DownlevelWebGl2,
    }
}

impl InstanceRequest {
    /// The instance request of the initialization: all backends.
    pub open spec fn spec_initial() -> InstanceRequest {
        InstanceRequest { backends: Backends::spec_all() }
    }

    /// The instance request of the initialization: all backends.
    #[verifier::when_used_as_spec(spec_initial)]
    pub fn initial() -> (request: InstanceRequest)
        ensures
            request == InstanceRequest::spec_initial(),
    {
        InstanceRequest { backends: Backends::all() }
    }
}

impl AdapterRequest {
    /// The adapter request for the caller's preferences: the adapter must
    /// also be compatible with the surface.
    pub open spec fn spec_matching(
        power_preference: PowerPreference,
        force_fallback: bool,
    ) -> AdapterRequest {
        AdapterRequest {
            power_preference,
            force_fallback_adapter: force_fallback,
            compatible_surface: true,
        }
    }

    /// The adapter request for the caller's preferences: the adapter must
    /// also be compatible with the surface.
    #[verifier::when_used_as_spec(spec_matching)]
    pub fn matching(power_preference: PowerPreference, force_fallback: bool) -> (request:
        AdapterRequest)
        ensures
            request == AdapterRequest::spec_matching(power_preference, force_fallback),
    {
        AdapterRequest {
            power_preference,
            force_fallback_adapter: force_fallback,
            compatible_surface: true,
        }
    }
}

impl DeviceRequest {
    /// The device request for a target environment: no optional feature, and
    /// the limits that suit the target.
    pub open spec fn spec_for_target(target: TargetEnvironment) -> DeviceRequest {
        DeviceRequest { features: 0, limits: limits_for(target) }
    }

    /// The device request for a target environment: no optional feature, and
    /// the limits that suit the target.
    #[verifier::when_used_as_spec(spec_for_target)]
    pub fn for_target(target: TargetEnvironment) -> (request: DeviceRequest)
        ensures
            request == DeviceRequest::spec_for_target(target),
    {
        let limits = match target {
            TargetEnvironment::Native => LimitsProfile::Default,
            TargetEnvironment::Web => LimitsProfile::DownlevelWebGl2,
        };
        DeviceRequest { features: 0, limits }
    }
}

} // verus!
