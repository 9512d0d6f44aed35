use wgpu_cube::dispatch::{frame_finished, handle_event, Directive};
use wgpu_cube::event::{
    ElementState, Event, KeyboardInput, PhysicalSize, VirtualKeyCode, WindowEvent,
};
use wgpu_cube::render::SurfaceError;
use wgpu_cube::state::State;

const WINDOW: u64 = 7;

fn start() -> State {
    State::new(PhysicalSize { width: 800, height: 600 })
}

fn own(event: WindowEvent) -> Event {
    Event::WindowEvent { window_id: WINDOW, event }
}

fn key(state: ElementState, code: VirtualKeyCode) -> WindowEvent {
    WindowEvent::KeyboardInput { input: KeyboardInput { state, virtual_keycode: Some(code) } }
}

#[test]
fn close_request_exits() {
    let mut state = start();
    let event = own(WindowEvent::CloseRequested);
    assert_eq!(handle_event(&mut state, WINDOW, &event), Directive::Exit);
    assert_eq!(state, start());
}

#[test]
fn escape_going_down_exits() {
    let mut state = start();
    let event = own(key(ElementState::Pressed, VirtualKeyCode::Escape));
    assert_eq!(handle_event(&mut state, WINDOW, &event), Directive::Exit);
    assert_eq!(state, start());
}

#[test]
fn escape_coming_up_does_nothing() {
    let mut state = start();
    let event = own(key(ElementState::Released, VirtualKeyCode::Escape));
    assert_eq!(handle_event(&mut state, WINDOW, &event), Directive::Wait);
    assert_eq!(state, start());
}

#[test]
fn events_of_another_window_are_ignored() {
    let mut state = start();
    let close = Event::WindowEvent { window_id: WINDOW + 1, event: WindowEvent::CloseRequested };
    assert_eq!(handle_event(&mut state, WINDOW, &close), Directive::Wait);
    let resized = Event::WindowEvent {
        window_id: WINDOW + 1,
        event: WindowEvent::Resized(PhysicalSize { width: 10, height: 10 }),
    };
    assert_eq!(handle_event(&mut state, WINDOW, &resized), Directive::Wait);
    let pressed = Event::WindowEvent {
        window_id: WINDOW + 1,
        event: key(ElementState::Pressed, VirtualKeyCode::W),
    };
    assert_eq!(handle_event(&mut state, WINDOW, &pressed), Directive::Wait);
    let redraw = Event::RedrawRequested { window_id: WINDOW + 1 };
    assert_eq!(handle_event(&mut state, WINDOW, &redraw), Directive::Wait);
    assert_eq!(state, start());
}

#[test]
fn new_size_is_taken_up() {
    let mut state = start();
    let event = own(WindowEvent::Resized(PhysicalSize { width: 400, height: 300 }));
    assert_eq!(handle_event(&mut state, WINDOW, &event), Directive::Reconfigure);
    assert_eq!(state.size, PhysicalSize { width: 400, height: 300 });
    assert_eq!(state.config.width, 400);
    assert_eq!(state.config.height, 300);
    assert_eq!(state.aspect.width, 400);
    assert_eq!(state.aspect.height, 300);
}

#[test]
fn new_scale_factor_brings_a_new_size() {
    let mut state = start();
    let event = own(WindowEvent::ScaleFactorChanged {
        new_inner_size: PhysicalSize { width: 1600, height: 1200 },
    });
    assert_eq!(handle_event(&mut state, WINDOW, &event), Directive::Reconfigure);
    assert_eq!(state.size, PhysicalSize { width: 1600, height: 1200 });
    assert_eq!(state.config.width, 1600);
    assert_eq!(state.config.height, 1200);
}

#[test]
fn size_without_area_is_ignored() {
    let mut state = start();
    let event = own(WindowEvent::Resized(PhysicalSize { width: 0, height: 300 }));
    assert_eq!(handle_event(&mut state, WINDOW, &event), Directive::Wait);
    assert_eq!(state, start());
    let event = own(WindowEvent::ScaleFactorChanged {
        new_inner_size: PhysicalSize { width: 400, height: 0 },
    });
    assert_eq!(handle_event(&mut state, WINDOW, &event), Directive::Wait);
    assert_eq!(state, start());
}

#[test]
fn movement_keys_reach_the_controller() {
    let mut state = start();
    let event = own(key(ElementState::Pressed, VirtualKeyCode::W));
    assert_eq!(handle_event(&mut state, WINDOW, &event), Directive::Wait);
    assert!(state.camera_controller.is_forward_pressed);
    let event = own(key(ElementState::Released, VirtualKeyCode::Up));
    assert_eq!(handle_event(&mut state, WINDOW, &event), Directive::Wait);
    assert_eq!(state, start());
}

#[test]
fn redraw_request_asks_for_a_frame() {
    let mut state = start();
    let event = Event::RedrawRequested { window_id: WINDOW };
    assert_eq!(handle_event(&mut state, WINDOW, &event), Directive::DrawFrame);
    assert_eq!(state, start());
}

#[test]
fn cleared_events_ask_for_a_redraw() {
    let mut state = start();
    assert_eq!(
        handle_event(&mut state, WINDOW, &Event::MainEventsCleared),
        Directive::RequestRedraw
    );
    assert_eq!(state, start());
}

#[test]
fn other_events_do_nothing() {
    let mut state = start();
    assert_eq!(handle_event(&mut state, WINDOW, &Event::Other), Directive::Wait);
    assert_eq!(handle_event(&mut state, WINDOW, &own(WindowEvent::Other)), Directive::Wait);
    assert_eq!(state, start());
}

#[test]
fn presented_frame_needs_nothing() {
    let mut state = start();
    assert_eq!(frame_finished(&mut state, Ok(())), Directive::Wait);
    assert_eq!(state, start());
}

#[test]
fn lost_surface_is_reconfigured() {
    let mut state = start();
    assert_eq!(frame_finished(&mut state, Err(SurfaceError::Lost)), Directive::Reconfigure);
    assert_eq!(state, start());
}

#[test]
fn out_of_memory_exits() {
    let mut state = start();
    assert_eq!(frame_finished(&mut state, Err(SurfaceError::OutOfMemory)), Directive::Exit);
    assert_eq!(state, start());
}

#[test]
fn passing_errors_skip_the_frame() {
    let mut state = start();
    assert_eq!(
        frame_finished(&mut state, Err(SurfaceError::Timeout)),
        Directive::Skip(SurfaceError::Timeout)
    );
    assert_eq!(
        frame_finished(&mut state, Err(SurfaceError::Outdated)),
        Directive::Skip(SurfaceError::Outdated)
    );
    assert_eq!(state, start());
}
