//! Runs of the initialization: what holds of every sequence of events that
//! the machine accepts.

use vstd::prelude::*;
use crate::error::InitError;
use crate::init::{first_action, ActionView, InitEvent, InitState, Stage};
use crate::request::{PowerPreference, TargetEnvironment};
use crate::surface::{initial_context, PhysicalSize, SurfaceCapabilities};

verus! {

/// The state after the first `n` events of a run that starts in `start`.
pub open spec fn state_after(start: InitState, events: Seq<InitEvent>, n: nat) -> InitState
    decreases n,
{
    if n == 0 {
        start
    } else {
        state_after(start, events, (n - 1) as nat).transition(events[n - 1]).0
    }
}

/// The action that answers event `n` of the run.
pub open spec fn action_after(start: InitState, events: Seq<InitEvent>, n: int) -> ActionView {
    state_after(start, events, n as nat).transition(events[n]).1
}

/// Every event of the run is accepted by the state it arrives in.
pub open spec fn admissible(start: InitState, events: Seq<InitEvent>) -> bool {
    forall|n: nat|
        n < events.len() ==> (#[trigger] state_after(start, events, n)).accepts(events[n as int])
}

/// The run in which every step succeeds.
pub open spec fn successful_run(capabilities: SurfaceCapabilities) -> Seq<InitEvent> {
    seq![
        InitEvent::SurfaceCreated,
        InitEvent::AdapterFound,
        InitEvent::DeviceAcquired,
        InitEvent::Capabilities(capabilities),
    ]
}

/// A finished initialization accepts no further event.
pub proof fn lemma_finished_accepts_nothing(state: InitState, event: InitEvent)
    requires
        state.stage == Stage::Ready || state.stage == Stage::Failed,
    ensures
        !state.accepts(event),
{
}

/// No step changes the inputs that the initialization was started with.
pub proof fn lemma_inputs_are_kept(start: InitState, events: Seq<InitEvent>, n: nat)
    ensures
        state_after(start, events, n) == start.at(state_after(start, events, n).stage),
    decreases n,
{
    if n > 0 {
        lemma_inputs_are_kept(start, events, (n - 1) as nat);
    }
}

/// The shape of every run from the start: the stages come in their order,
/// each event reports on the stage it arrives in, and a failure is the last
/// event of its run.
pub proof fn lemma_run_is_linear(start: InitState, events: Seq<InitEvent>)
    requires
        start.stage == Stage::Surface,
        admissible(start, events),
    ensures
        events.len() <= 4,
        events.len() >= 1 ==> (events[0] is SurfaceCreated || events[0] is SurfaceFailed),
        events.len() >= 2 ==> events[0] is SurfaceCreated && (events[1] is AdapterFound
            || events[1] is AdapterMissing),
        events.len() >= 3 ==> events[1] is AdapterFound && (events[2] is DeviceAcquired
            || events[2] is DeviceFailed),
        events.len() >= 4 ==> events[2] is DeviceAcquired && events[3] is Capabilities,
{
    let s0 = state_after(start, events, 0);
    let s1 = state_after(start, events, 1);
    let s2 = state_after(start, events, 2);
    let s3 = state_after(start, events, 3);
    let s4 = state_after(start, events, 4);
    if events.len() >= 1 {
        assert(s0.accepts(events[0]));
        assert(s1 == s0.transition(events[0]).0);
    }
    if events.len() >= 2 {
        assert(s1.accepts(events[1]));
        assert(s2 == s1.transition(events[1]).0);
    }
    if events.len() >= 3 {
        assert(s2.accepts(events[2]));
        assert(s3 == s2.transition(events[2]).0);
    }
    if events.len() >= 4 {
        assert(s3.accepts(events[3]));
        assert(s4 == s3.transition(events[3]).0);
    }
    if events.len() >= 5 {
        assert(s4.accepts(events[4]));
    }
}

/// Whatever the power preference, the fallback flag and the target: where a
/// run hands out a configuration, its width and height are those of the
/// window's inner size that the initialization was started with.
pub proof fn lemma_configuration_has_window_size(
    size: PhysicalSize,
    power_preference: PowerPreference,
    force_fallback: bool,
    target: TargetEnvironment,
    events: Seq<InitEvent>,
    n: int,
)
    requires
        admissible(InitState::initial(size, power_preference, force_fallback, target), events),
        0 <= n < events.len(),
        action_after(
            InitState::initial(size, power_preference, force_fallback, target),
            events,
            n,
        ) is Configure,
    ensures
        ({
            let start = InitState::initial(size, power_preference, force_fallback, target);
            let context = action_after(start, events, n)->Configure_0;
            &&& context.size == size
            &&& context.surface_config.width == size.width
            &&& context.surface_config.height == size.height
            &&& context.well_formed()
        }),
{
    let start = InitState::initial(size, power_preference, force_fallback, target);
    lemma_inputs_are_kept(start, events, n as nat);
}

/// Where the surface is created, an adapter is found and the device is
/// acquired, the run is accepted for every presentable surface, and it ends
/// with the configuration of that surface at the window's size.
pub proof fn lemma_successful_run_configures(
    size: PhysicalSize,
    power_preference: PowerPreference,
    force_fallback: bool,
    target: TargetEnvironment,
    capabilities: SurfaceCapabilities,
)
    requires
        capabilities@.presentable(),
    ensures
        ({
            let start = InitState::initial(size, power_preference, force_fallback, target);
            let events = successful_run(capabilities);
            &&& admissible(start, events)
            &&& action_after(start, events, 3) == ActionView::Configure(
                initial_context(size, capabilities@),
            )
            &&& state_after(start, events, 4).stage == Stage::Ready
        }),
{
    reveal_with_fuel(state_after, 6);
}

/// Where no adapter matches, the run ends there: the answer is `NoAdapter`,
/// and no action of the run reaches for a device, its queue or the surface's
/// configuration.
pub proof fn lemma_missing_adapter_ends_run(
    size: PhysicalSize,
    power_preference: PowerPreference,
    force_fallback: bool,
    target: TargetEnvironment,
    events: Seq<InitEvent>,
    n: int,
)
    requires
        admissible(InitState::initial(size, power_preference, force_fallback, target), events),
        0 <= n < events.len(),
        events[n] is AdapterMissing,
    ensures
        ({
            let start = InitState::initial(size, power_preference, force_fallback, target);
            &&& n == 1
            &&& events.len() == 2
            &&& action_after(start, events, n) == ActionView::Fail(InitError::NoAdapter)
            &&& state_after(start, events, 2).stage == Stage::Failed
            &&& !first_action().touches_device()
            &&& forall|k: int|
                0 <= k < events.len() ==> !(#[trigger] action_after(
                    start,
                    events,
                    k,
                )).touches_device()
        }),
{
    let start = InitState::initial(size, power_preference, force_fallback, target);
    lemma_run_is_linear(start, events);
    reveal_with_fuel(state_after, 6);
}

/// Where the device request fails, the run ends there: the answer is
/// `NoDevice` with the cause that was reported, and no action of the run
/// queries or configures the surface.
pub proof fn lemma_failed_device_ends_run(
    size: PhysicalSize,
    power_preference: PowerPreference,
    force_fallback: bool,
    target: TargetEnvironment,
    events: Seq<InitEvent>,
    n: int,
)
    requires
        admissible(InitState::initial(size, power_preference, force_fallback, target), events),
        0 <= n < events.len(),
        events[n] is DeviceFailed,
    ensures
        ({
            let start = InitState::initial(size, power_preference, force_fallback, target);
            &&& n == 2
            &&& events.len() == 3
            &&& action_after(start, events, n) == ActionView::Fail(
                InitError::NoDevice(events[n]->DeviceFailed_0),
            )
            &&& state_after(start, events, 3).stage == Stage::Failed
            &&& !(first_action() is QueryCapabilities) && !(first_action() is Configure)
            &&& forall|k: int|
                0 <= k < events.len() ==> {
                    let action = #[trigger] action_after(start, events, k);
                    !(action is QueryCapabilities) && !(action is Configure)
                }
        }),
{
    let start = InitState::initial(size, power_preference, force_fallback, target);
    lemma_run_is_linear(start, events);
    reveal_with_fuel(state_after, 6);
}

/// Where the surface cannot be created, the run ends at once: the answer is
/// `SurfaceCreation` with the cause that was reported, and no adapter is
/// asked for.
pub proof fn lemma_failed_surface_ends_run(
    size: PhysicalSize,
    power_preference: PowerPreference,
    force_fallback: bool,
    target: TargetEnvironment,
    events: Seq<InitEvent>,
    n: int,
)
    requires
        admissible(InitState::initial(size, power_preference, force_fallback, target), events),
        0 <= n < events.len(),
        events[n] is SurfaceFailed,
    ensures
        ({
            let start = InitState::initial(size, power_preference, force_fallback, target);
            &&& n == 0
            &&& events.len() == 1
            &&& action_after(start, events, n) == ActionView::Fail(
                InitError::SurfaceCreation(events[n]->SurfaceFailed_0),
            )
            &&& state_after(start, events, 1).stage == Stage::Failed
        }),
{
    let start = InitState::initial(size, power_preference, force_fallback, target);
    lemma_run_is_linear(start, events);
    reveal_with_fuel(state_after, 6);
}

} // verus!
