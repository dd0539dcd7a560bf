use yawngf::event::{
    decide, ControlFlow, ElementState, Event, Key, KeyboardInput, WindowEvent, WindowId,
};
use yawngf::surface::{GraphicsContext, PhysicalSize, SurfaceCapabilities};
use yawngf::Context;

const OWNED: WindowId = WindowId { raw: 11 };
const STRANGER: WindowId = WindowId { raw: 12 };

fn key(window_id: WindowId, state: ElementState, key: Option<Key>) -> Event {
    Event::Window { window_id, event: WindowEvent::KeyboardInput(KeyboardInput { state, key }) }
}

fn close(window_id: WindowId) -> Event {
    Event::Window { window_id, event: WindowEvent::CloseRequested }
}

#[test]
fn a_close_request_for_the_owned_window_exits() {
    let context = Context::new(OWNED, None);
    assert_eq!(context.handle(&close(OWNED)), ControlFlow::Exit);
}

#[test]
fn a_close_request_for_another_window_does_not_exit() {
    let context = Context::new(OWNED, None);
    assert_eq!(context.handle(&close(STRANGER)), ControlFlow::Continue);
}

#[test]
fn escape_pressed_in_the_owned_window_exits() {
    let context = Context::new(OWNED, None);
    let event = key(OWNED, ElementState::Pressed, Some(Key::Escape));
    assert_eq!(context.handle(&event), ControlFlow::Exit);
}

#[test]
fn escape_released_does_not_exit() {
    let context = Context::new(OWNED, None);
    let event = key(OWNED, ElementState::Released, Some(Key::Escape));
    assert_eq!(context.handle(&event), ControlFlow::Continue);
}

#[test]
fn another_key_pressed_does_not_exit() {
    let context = Context::new(OWNED, None);
    assert_eq!(
        context.handle(&key(OWNED, ElementState::Pressed, Some(Key::Other))),
        ControlFlow::Continue
    );
    assert_eq!(context.handle(&key(OWNED, ElementState::Pressed, None)), ControlFlow::Continue);
}

#[test]
fn escape_pressed_in_another_window_does_not_exit() {
    let context = Context::new(OWNED, None);
    let event = key(STRANGER, ElementState::Pressed, Some(Key::Escape));
    assert_eq!(context.handle(&event), ControlFlow::Continue);
}

#[test]
fn other_events_do_not_exit() {
    let context = Context::new(OWNED, None);
    assert_eq!(context.handle(&Event::Other), ControlFlow::Continue);
    let event = Event::Window { window_id: OWNED, event: WindowEvent::Other };
    assert_eq!(context.handle(&event), ControlFlow::Continue);
}

#[test]
fn decide_agrees_with_the_context() {
    assert_eq!(decide(OWNED, &close(OWNED)), ControlFlow::Exit);
    assert_eq!(decide(OWNED, &close(STRANGER)), ControlFlow::Continue);
    assert_eq!(decide(STRANGER, &close(STRANGER)), ControlFlow::Exit);
}

#[test]
fn window_events_say_whether_they_request_the_exit() {
    assert!(WindowEvent::CloseRequested.requests_exit());
    assert!(!WindowEvent::Other.requests_exit());
    let pressed = KeyboardInput { state: ElementState::Pressed, key: Some(Key::Escape) };
    assert!(WindowEvent::KeyboardInput(pressed).requests_exit());
    let released = KeyboardInput { state: ElementState::Released, key: Some(Key::Escape) };
    assert!(!WindowEvent::KeyboardInput(released).requests_exit());
}

#[test]
fn the_loop_stops_at_the_first_event_that_ends_it() {
    let context = Context::new(OWNED, None);
    let events = vec![
        Event::Other,
        close(STRANGER),
        key(OWNED, ElementState::Released, Some(Key::Escape)),
        key(OWNED, ElementState::Pressed, Some(Key::Other)),
        key(OWNED, ElementState::Pressed, Some(Key::Escape)),
        close(OWNED),
    ];
    assert_eq!(context.run(&events), Some(4));
}

#[test]
fn the_loop_goes_on_without_an_event_that_ends_it() {
    let context = Context::new(OWNED, None);
    let events = vec![
        Event::Other,
        close(STRANGER),
        key(STRANGER, ElementState::Pressed, Some(Key::Escape)),
        key(OWNED, ElementState::Released, Some(Key::Escape)),
    ];
    assert_eq!(context.run(&events), None);
    assert_eq!(context.run(&Vec::new()), None);
}

#[test]
fn a_close_request_ends_the_loop_at_once() {
    let context = Context::new(OWNED, None);
    assert_eq!(context.run(&vec![close(OWNED), close(OWNED)]), Some(0));
}

#[test]
fn the_context_keeps_its_window_and_graphics() {
    let without = Context::new(OWNED, None);
    assert_eq!(without.window(), OWNED);
    assert!(without.graphics().is_none());

    let capabilities = SurfaceCapabilities {
        formats: vec![wgpu::TextureFormat::Bgra8UnormSrgb],
        present_modes: vec![wgpu::PresentMode::Fifo],
        alpha_modes: vec![wgpu::CompositeAlphaMode::Opaque],
    };
    let size = PhysicalSize { width: 640, height: 480 };
    let with = Context::new(STRANGER, Some(GraphicsContext::initial(size, &capabilities)));
    assert_eq!(with.window(), STRANGER);
    assert_eq!(with.graphics(), &Some(GraphicsContext::initial(size, &capabilities)));
    assert_eq!(with.handle(&close(STRANGER)), ControlFlow::Exit);
}
