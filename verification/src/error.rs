//! Why the initialization of the graphics context failed.

use vstd::prelude::*;

verus! {

/// `wgpu::CreateSurfaceError`, carried through as an opaque value.
#[verifier::external_type_specification]
#[verifier::external_body]
pub struct ExCreateSurfaceError(wgpu::CreateSurfaceError);

/// `wgpu::RequestDeviceError`, carried through as an opaque value.
#[verifier::external_type_specification]
#[verifier::external_body]
pub struct ExRequestDeviceError(wgpu::RequestDeviceError);

/// The reason an initialization ended without a graphics context. Every one
/// is final: nothing is retried.
#[derive(Debug, PartialEq, Eq)]
pub enum InitError {
    /// The platform could not create a surface for the window.
    SurfaceCreation(wgpu::CreateSurfaceError),
    /// No adapter matches the power preference, the fallback flag and the
    /// surface.
    NoAdapter,
    /// The adapter did not hand out a device and queue.
    NoDevice(wgpu::RequestDeviceError),
}

impl InitError {
    /// The text that describes the error.
    pub open spec fn spec_message(self) -> Seq<char> {
        match self {
            InitError::SurfaceCreation(_) => "couldn't create a wgpu surface"@,
            InitError::NoAdapter => "no adapter found that matched preferred options"@,
            InitError::NoDevice(_) => "requesting a device failed"@,
        }
    }

    /// The text that describes the error.
    pub fn message(&self) -> (text: String)
        ensures
            text@ == self.spec_message(),
    {
        match self {
            InitError::SurfaceCreation(_) => "couldn't create a wgpu surface".to_owned(),
            InitError::NoAdapter => "no adapter found that matched preferred options".to_owned(),
            InitError::NoDevice(_) => "requesting a device failed".to_owned(),
        }
    }
}

impl From<wgpu::CreateSurfaceError> for InitError {
    fn from(cause: wgpu::CreateSurfaceError) -> (error: InitError) {
        InitError::SurfaceCreation(cause)
    }
}

impl vstd::std_specs::convert::FromSpecImpl<wgpu::CreateSurfaceError> for InitError {
    open spec fn obeys_from_spec() -> bool {
        true
    }

    open spec fn from_spec(cause: wgpu::CreateSurfaceError) -> InitError {
        InitError::SurfaceCreation(cause)
    }
}

impl From<wgpu::RequestDeviceError> for InitError {
    fn from(cause: wgpu::RequestDeviceError) -> (error: InitError) {
        InitError::NoDevice(cause)
    }
}

impl vstd::std_specs::convert::FromSpecImpl<wgpu::RequestDeviceError> for InitError {
    open spec fn obeys_from_spec() -> bool {
        true
    }

    open spec fn from_spec(cause: wgpu::RequestDeviceError) -> InitError {
        InitError::NoDevice(cause)
    }
}

} // verus!
