//! The initialization of the graphics context, as a state machine.
//!
//! The sequence is linear: create the surface, find an adapter, acquire a
//! device and queue, query the surface's capabilities, configure the surface.
//! The machine decides each step and never touches the platform. Its caller
//! performs the action that a step returns and reports the outcome as the
//! next event. A failure ends the sequence; nothing is retried.

use vstd::prelude::*;
use crate::error::InitError;
use crate::request::{
    AdapterRequest, DeviceRequest, InstanceRequest, PowerPreference, TargetEnvironment,
};
use crate::surface::{
    initial_context, GraphicsContext, GraphicsContextView, PhysicalSize, SurfaceCapabilities,
};

verus! {

/// What the initialization is waiting for, or how it ended.
#[derive(Clone, Copy, Debug, PartialEq, Eq, Hash, Structural)]
pub enum Stage {
    /// The surface is being created.
    Surface,
    /// An adapter is being looked for.
    Adapter,
    /// A device and queue are being acquired.
    Device,
    /// The surface's capabilities are being queried.
    Capabilities,
    /// The configuration was handed out: the context is complete.
    Ready,
    /// A step failed: there is no context.
    Failed,
}

/// The outcome of the action that the machine asked for last.
#[derive(Debug, PartialEq, Eq)]
pub enum InitEvent {
    /// The surface exists.
    SurfaceCreated,
    /// The platform refused to create the surface.
    SurfaceFailed(wgpu::CreateSurfaceError),
    /// An adapter matches the request.
    AdapterFound,
    /// No adapter matches the request.
    AdapterMissing,
    /// The adapter handed out a device and queue.
    DeviceAcquired,
    /// The adapter refused the device request.
    DeviceFailed(wgpu::RequestDeviceError),
    /// The surface's capabilities on the adapter.
    Capabilities(SurfaceCapabilities),
}

/// What the caller has to do next.
#[derive(Debug, PartialEq, Eq)]
pub enum InitAction {
    /// Create the graphics instance, and on it a surface bound to the window.
    CreateSurface(InstanceRequest),
    /// Ask the instance for an adapter.
    RequestAdapter(AdapterRequest),
    /// Ask the adapter for a device and queue.
    RequestDevice(DeviceRequest),
    /// Ask the surface for its capabilities on the adapter.
    QueryCapabilities,
    /// Apply the context's configuration to the surface on the device. The
    /// initialization has succeeded with this context.
    Configure(GraphicsContext),
    /// Stop: the initialization has failed for this reason.
    Fail(InitError),
}

/// The mathematical content of `InitAction`.
pub enum ActionView {
    CreateSurface(InstanceRequest),
    RequestAdapter(AdapterRequest),
    RequestDevice(DeviceRequest),
    QueryCapabilities,
    Configure(GraphicsContextView),
    Fail(InitError),
}

impl View for InitAction {
    type V = ActionView;

    open spec fn view(&self) -> ActionView {
        match *self {
            InitAction::CreateSurface(request) => ActionView::CreateSurface(request),
            InitAction::RequestAdapter(request) => ActionView::RequestAdapter(request),
            InitAction::RequestDevice(request) => ActionView::RequestDevice(request),
            InitAction::QueryCapabilities => ActionView::QueryCapabilities,
            InitAction::Configure(context) => ActionView::Configure(context@),
            InitAction::Fail(error) => ActionView::Fail(error),
        }
    }
}

impl ActionView {
    /// The action reaches for a device, its queue or the surface's
    /// configuration.
    pub open spec fn touches_device(self) -> bool {
        self is RequestDevice || self is QueryCapabilities || self is Configure
    }
}

/// The mathematical content of `Initializer`: the stage it is in and the
/// inputs it was started with.
pub struct InitState {
    pub stage: Stage,
    pub size: PhysicalSize,
    pub power_preference: PowerPreference,
    pub force_fallback: bool,
    pub target: TargetEnvironment,
}

impl InitState {
    /// The same initialization at another stage.
    pub open spec fn at(self, stage: Stage) -> InitState {
        InitState { stage, ..self }
    }

    /// The state in which every initialization starts.
    pub open spec fn initial(
        size: PhysicalSize,
        power_preference: PowerPreference,
        force_fallback: bool,
        target: TargetEnvironment,
    ) -> InitState {
        InitState { stage: Stage::Surface, size, power_preference, force_fallback, target }
    }

    /// The event reports the outcome of what this state is waiting for.
    /// Capabilities count only where the surface can be presented to.
    pub open spec fn accepts(self, event: InitEvent) -> bool {
        match event {
            InitEvent::SurfaceCreated | InitEvent::SurfaceFailed(_) => self.stage == Stage::Surface,
            InitEvent::AdapterFound | InitEvent::AdapterMissing => self.stage == Stage::Adapter,
            InitEvent::DeviceAcquired | InitEvent::DeviceFailed(_) => self.stage == Stage::Device,
            InitEvent::Capabilities(capabilities) => {
                self.stage == Stage::Capabilities && capabilities@.presentable()
            },
        }
    }

    /// The state that follows an accepted event, and the action to take.
    pub open spec fn transition(self, event: InitEvent) -> (InitState, ActionView) {
        match event {
            InitEvent::SurfaceCreated => (
                self.at(Stage::Adapter),
                ActionView::RequestAdapter(
                    AdapterRequest::spec_matching(self.power_preference, self.force_fallback),
                ),
            ),
            InitEvent::SurfaceFailed(cause) => (
                self.at(Stage::Failed),
                ActionView::Fail(InitError::SurfaceCreation(cause)),
            ),
            InitEvent::AdapterFound => (
                self.at(Stage::Device),
                ActionView::RequestDevice(DeviceRequest::spec_for_target(self.target)),
            ),
            InitEvent::AdapterMissing => (
                self.at(Stage::Failed),
                ActionView::Fail(InitError::NoAdapter),
            ),
            InitEvent::DeviceAcquired => (
                self.at(Stage::Capabilities),
                ActionView::QueryCapabilities,
            ),
            InitEvent::DeviceFailed(cause) => (
                self.at(Stage::Failed),
                ActionView::Fail(InitError::NoDevice(cause)),
            ),
            InitEvent::Capabilities(capabilities) => (
                self.at(Stage::Ready),
                ActionView::Configure(initial_context(self.size, capabilities@)),
            ),
        }
    }
}

/// The action every initialization starts with.
pub open spec fn first_action() -> ActionView {
    ActionView::CreateSurface(InstanceRequest::spec_initial())
}

/// The decisions of one initialization.
#[derive(Debug)]
pub struct Initializer {
    stage: Stage,
    size: PhysicalSize,
    power_preference: PowerPreference,
    force_fallback: bool,
    target: TargetEnvironment,
}

impl View for Initializer {
    type V = InitState;

    closed spec fn view(&self) -> InitState {
        InitState {
            stage: self.stage,
            size: self.size,
            power_preference: self.power_preference,
            force_fallback: self.force_fallback,
            target: self.target,
        }
    }
}

impl Initializer {
    /// Starts an initialization for a window of the given inner size, and
    /// says what to do first.
    pub fn begin(
        size: PhysicalSize,
        power_preference: PowerPreference,
        force_fallback: bool,
        target: TargetEnvironment,
    ) -> (start: (Initializer, InitAction))
        ensures
            start.0@ == InitState::initial(size, power_preference, force_fallback, target),
            start.1@ == first_action(),
    {
        let machine = Initializer {
            stage: Stage::Surface,
            size,
            power_preference,
            force_fallback,
            target,
        };
        (machine, InitAction::CreateSurface(InstanceRequest::initial()))
    }

    /// The stage the initialization is in.
    pub fn stage(&self) -> (stage: Stage)
        ensures
            stage == self@.stage,
    {
        self.stage
    }

    /// Whether the event is the outcome that the initialization waits for.
    pub fn accepts(&self, event: &InitEvent) -> (ok: bool)
        ensures
            ok == self@.accepts(*event),
    {
        match event {
            InitEvent::SurfaceCreated | InitEvent::SurfaceFailed(_) => self.stage == Stage::Surface,
            InitEvent::AdapterFound | InitEvent::AdapterMissing => self.stage == Stage::Adapter,
            InitEvent::DeviceAcquired | InitEvent::DeviceFailed(_) => self.stage == Stage::Device,
            InitEvent::Capabilities(capabilities) => {
                self.stage == Stage::Capabilities && capabilities.presentable()
            },
        }
    }

    /// Takes the outcome of the last action and decides what follows.
    pub fn step(&mut self, event: InitEvent) -> (action: InitAction)
        requires
            old(self)@.accepts(event),
        ensures
            (final(self)@, action@) == old(self)@.transition(event),
    {
        match event {
            InitEvent::SurfaceCreated => {
                self.stage = Stage::Adapter;
                InitAction::RequestAdapter(
                    AdapterRequest::matching(self.power_preference, self.force_fallback),
                )
            },
            InitEvent::SurfaceFailed(cause) => {
                self.stage = Stage::Failed;
                InitAction::Fail(InitError::SurfaceCreation(cause))
            },
            InitEvent::AdapterFound => {
                self.stage = Stage::Device;
                InitAction::RequestDevice(DeviceRequest::for_target(self.target))
            },
            InitEvent::AdapterMissing => {
                self.stage = Stage::Failed;
                InitAction::Fail(InitError::NoAdapter)
            },
            InitEvent::DeviceAcquired => {
                self.stage = Stage::Capabilities;
                InitAction::QueryCapabilities
            },
            InitEvent::DeviceFailed(cause) => {
                self.stage = Stage::Failed;
                InitAction::Fail(InitError::NoDevice(cause))
            },
            InitEvent::Capabilities(capabilities) => {
                self.stage = Stage::Ready;
                InitAction::Configure(GraphicsContext::initial(self.size, &capabilities))
            },
        }
    }
}

} // verus!
