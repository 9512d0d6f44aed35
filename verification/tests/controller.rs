use wgpu_cube::controller::{CameraController, Direction, Motion};
use wgpu_cube::event::{ElementState, KeyboardInput, PhysicalSize, VirtualKeyCode, WindowEvent};

fn key(state: ElementState, code: VirtualKeyCode) -> WindowEvent {
    WindowEvent::KeyboardInput { input: KeyboardInput { state, virtual_keycode: Some(code) } }
}

fn press(code: VirtualKeyCode) -> WindowEvent {
    key(ElementState::Pressed, code)
}

fn release(code: VirtualKeyCode) -> WindowEvent {
    key(ElementState::Released, code)
}

const NONE_HELD: CameraController = CameraController {
    is_forward_pressed: false,
    is_backward_pressed: false,
    is_left_pressed: false,
    is_right_pressed: false,
};

#[test]
fn new_controller_holds_no_key() {
    let controller = CameraController::new();
    assert_eq!(controller, NONE_HELD);
    assert!(!controller.is_pressed(Direction::Forward));
    assert!(!controller.is_pressed(Direction::Backward));
    assert!(!controller.is_pressed(Direction::Left));
    assert!(!controller.is_pressed(Direction::Right));
}

#[test]
fn letter_keys_set_their_flags() {
    let mut controller = CameraController::new();
    assert!(controller.process_events(&press(VirtualKeyCode::W)));
    assert_eq!(controller, CameraController { is_forward_pressed: true, ..NONE_HELD });
    assert!(controller.process_events(&press(VirtualKeyCode::A)));
    assert_eq!(
        controller,
        CameraController { is_forward_pressed: true, is_left_pressed: true, ..NONE_HELD }
    );
    assert!(controller.process_events(&press(VirtualKeyCode::S)));
    assert!(controller.process_events(&press(VirtualKeyCode::D)));
    assert_eq!(
        controller,
        CameraController {
            is_forward_pressed: true,
            is_backward_pressed: true,
            is_left_pressed: true,
            is_right_pressed: true,
        }
    );
}

#[test]
fn arrow_keys_set_their_flags() {
    let mut controller = CameraController::new();
    assert!(controller.process_events(&press(VirtualKeyCode::Up)));
    assert_eq!(controller, CameraController { is_forward_pressed: true, ..NONE_HELD });
    let mut controller = CameraController::new();
    assert!(controller.process_events(&press(VirtualKeyCode::Down)));
    assert_eq!(controller, CameraController { is_backward_pressed: true, ..NONE_HELD });
    let mut controller = CameraController::new();
    assert!(controller.process_events(&press(VirtualKeyCode::Left)));
    assert_eq!(controller, CameraController { is_left_pressed: true, ..NONE_HELD });
    let mut controller = CameraController::new();
    assert!(controller.process_events(&press(VirtualKeyCode::Right)));
    assert_eq!(controller, CameraController { is_right_pressed: true, ..NONE_HELD });
}

#[test]
fn release_clears_the_flag() {
    let mut controller = CameraController::new();
    controller.process_events(&press(VirtualKeyCode::W));
    controller.process_events(&press(VirtualKeyCode::D));
    assert!(controller.process_events(&release(VirtualKeyCode::Up)));
    assert_eq!(controller, CameraController { is_right_pressed: true, ..NONE_HELD });
    assert!(controller.is_pressed(Direction::Right));
    assert!(!controller.is_pressed(Direction::Forward));
}

#[test]
fn release_of_a_key_that_is_not_held_is_still_consumed() {
    let mut controller = CameraController::new();
    assert!(controller.process_events(&release(VirtualKeyCode::S)));
    assert_eq!(controller, NONE_HELD);
}

#[test]
fn repeated_press_changes_nothing_more() {
    let mut controller = CameraController::new();
    controller.process_events(&press(VirtualKeyCode::Left));
    let once = controller;
    assert!(controller.process_events(&press(VirtualKeyCode::Left)));
    assert_eq!(controller, once);
}

#[test]
fn other_keys_are_not_consumed() {
    let held = CameraController { is_forward_pressed: true, is_left_pressed: true, ..NONE_HELD };
    let mut controller = held;
    assert!(!controller.process_events(&press(VirtualKeyCode::Escape)));
    assert!(!controller.process_events(&press(VirtualKeyCode::Other)));
    assert!(!controller.process_events(&release(VirtualKeyCode::Other)));
    assert_eq!(controller, held);
}

#[test]
fn key_without_a_name_is_not_consumed() {
    let held = CameraController { is_backward_pressed: true, ..NONE_HELD };
    let mut controller = held;
    let event = WindowEvent::KeyboardInput {
        input: KeyboardInput { state: ElementState::Pressed, virtual_keycode: None },
    };
    assert!(!controller.process_events(&event));
    assert_eq!(controller, held);
}

#[test]
fn events_that_are_no_key_are_not_consumed() {
    let held = CameraController { is_right_pressed: true, ..NONE_HELD };
    let mut controller = held;
    assert!(!controller.process_events(&WindowEvent::CloseRequested));
    assert!(!controller.process_events(&WindowEvent::Resized(PhysicalSize {
        width: 10,
        height: 20
    })));
    assert!(!controller.process_events(&WindowEvent::ScaleFactorChanged {
        new_inner_size: PhysicalSize { width: 10, height: 20 }
    }));
    assert!(!controller.process_events(&WindowEvent::Other));
    assert_eq!(controller, held);
}

#[test]
fn keys_of_different_directions_commute() {
    let mut one = CameraController::new();
    one.process_events(&press(VirtualKeyCode::W));
    one.process_events(&press(VirtualKeyCode::D));
    let mut other = CameraController::new();
    other.process_events(&press(VirtualKeyCode::D));
    other.process_events(&press(VirtualKeyCode::W));
    assert_eq!(one, other);
}

#[test]
fn forward_moves_only_from_beyond_reach() {
    let mut controller = CameraController::new();
    controller.process_events(&press(VirtualKeyCode::W));
    assert_eq!(
        controller.update_camera(true),
        Motion { advance: true, retreat: false, strafe_right: false, strafe_left: false }
    );
    assert_eq!(
        controller.update_camera(false),
        Motion { advance: false, retreat: false, strafe_right: false, strafe_left: false }
    );
}

#[test]
fn forward_key_stays_held_over_many_frames() {
    let mut controller = CameraController::new();
    controller.process_events(&press(VirtualKeyCode::Up));
    for _ in 0..10 {
        assert!(controller.update_camera(true).advance);
    }
    for _ in 0..10 {
        assert!(!controller.update_camera(false).advance);
    }
    assert!(controller.is_pressed(Direction::Forward));
}

#[test]
fn backward_and_sideways_do_not_depend_on_reach() {
    let mut controller = CameraController::new();
    controller.process_events(&press(VirtualKeyCode::S));
    controller.process_events(&press(VirtualKeyCode::A));
    controller.process_events(&press(VirtualKeyCode::D));
    let expected =
        Motion { advance: false, retreat: true, strafe_right: true, strafe_left: true };
    assert_eq!(controller.update_camera(true), expected);
    assert_eq!(controller.update_camera(false), expected);
}

#[test]
fn forward_and_right_in_one_frame() {
    let mut controller = CameraController::new();
    controller.process_events(&press(VirtualKeyCode::W));
    controller.process_events(&press(VirtualKeyCode::D));
    assert_eq!(
        controller.update_camera(true),
        Motion { advance: true, retreat: false, strafe_right: true, strafe_left: false }
    );
}

#[test]
fn no_key_no_motion() {
    let controller = CameraController::new();
    let still = Motion { advance: false, retreat: false, strafe_right: false, strafe_left: false };
    assert_eq!(controller.update_camera(true), still);
    assert_eq!(controller.update_camera(false), still);
}
