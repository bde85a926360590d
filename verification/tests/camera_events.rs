use kajiya_kay_demo::camera::{initial_front, Camera, CameraBuilder, CameraMovement};
use kajiya_kay_demo::camera_events::{
    CameraHandler, CursorRequest, InputEvent, InputSnapshot, Key, PRIMARY_BUTTON,
};
use kajiya_kay_demo::vector::Vec3;

const SECOND: u64 = 1_000_000_000;
const DEGREE: i64 = 1_000_000;

fn idle() -> InputSnapshot {
    InputSnapshot {
        captured: false,
        forward: false,
        backward: false,
        left: false,
        right: false,
        descend: false,
        ascend: false,
        dx: 0,
        dy: 0,
    }
}

fn captured_handler() -> CameraHandler {
    let mut handler = CameraHandler::new();
    handler.handle_event(InputEvent::CursorEntered);
    let request = handler.handle_event(InputEvent::PointerButtonChanged(PRIMARY_BUTTON, true));
    assert_eq!(request, CursorRequest::Capture);
    handler
}

#[test]
fn new_handler_is_idle() {
    let mut handler = CameraHandler::new();
    assert!(!handler.is_captured());
    assert_eq!(handler.drain_and_reset(), idle());
}

#[test]
fn keys_set_their_flags_while_held() {
    let mut handler = CameraHandler::new();
    assert_eq!(handler.handle_event(InputEvent::KeyChanged(Key::W, true)), CursorRequest::Unchanged);
    assert_eq!(handler.drain_and_reset(), InputSnapshot { forward: true, ..idle() });
    handler.handle_event(InputEvent::KeyChanged(Key::S, true));
    assert_eq!(handler.drain_and_reset(), InputSnapshot { forward: true, backward: true, ..idle() });
    handler.handle_event(InputEvent::KeyChanged(Key::W, false));
    assert_eq!(handler.drain_and_reset(), InputSnapshot { backward: true, ..idle() });
    handler.handle_event(InputEvent::KeyChanged(Key::S, false));
    handler.handle_event(InputEvent::KeyChanged(Key::A, true));
    assert_eq!(handler.drain_and_reset(), InputSnapshot { left: true, ..idle() });
    handler.handle_event(InputEvent::KeyChanged(Key::A, false));
    handler.handle_event(InputEvent::KeyChanged(Key::D, true));
    assert_eq!(handler.drain_and_reset(), InputSnapshot { right: true, ..idle() });
    handler.handle_event(InputEvent::KeyChanged(Key::D, false));
    handler.handle_event(InputEvent::KeyChanged(Key::LShift, true));
    assert_eq!(handler.drain_and_reset(), InputSnapshot { descend: true, ..idle() });
    handler.handle_event(InputEvent::KeyChanged(Key::LShift, false));
    handler.handle_event(InputEvent::KeyChanged(Key::Space, true));
    assert_eq!(handler.drain_and_reset(), InputSnapshot { ascend: true, ..idle() });
    handler.handle_event(InputEvent::KeyChanged(Key::Space, false));
    assert_eq!(handler.drain_and_reset(), idle());
}

#[test]
fn unrecognized_keys_are_ignored() {
    let mut handler = CameraHandler::new();
    assert_eq!(
        handler.handle_event(InputEvent::KeyChanged(Key::Other, true)),
        CursorRequest::Unchanged
    );
    assert_eq!(
        handler.handle_event(InputEvent::KeyChanged(Key::Other, false)),
        CursorRequest::Unchanged
    );
    assert_eq!(handler.drain_and_reset(), idle());
}

#[test]
fn pointer_travel_adds_up_until_it_is_drained() {
    let mut handler = CameraHandler::new();
    handler.handle_event(InputEvent::PointerMoved(3_000_000, -1_000_000));
    handler.handle_event(InputEvent::PointerMoved(500_000, -250_000));
    handler.handle_event(InputEvent::PointerMoved(-1_500_000, 4_000_000));
    assert_eq!(handler.drain_and_reset(), InputSnapshot { dx: 2_000_000, dy: 2_750_000, ..idle() });
    assert_eq!(handler.drain_and_reset(), idle());
}

#[test]
fn pointer_travel_saturates() {
    let mut handler = CameraHandler::new();
    handler.handle_event(InputEvent::PointerMoved(i64::MAX, i64::MIN));
    handler.handle_event(InputEvent::PointerMoved(1, -1));
    assert_eq!(handler.drain_and_reset(), InputSnapshot { dx: i64::MAX, dy: i64::MIN, ..idle() });
}

#[test]
fn draining_keeps_the_flags() {
    let mut handler = captured_handler();
    handler.handle_event(InputEvent::KeyChanged(Key::W, true));
    handler.handle_event(InputEvent::PointerMoved(1, 2));
    let first = handler.drain_and_reset();
    assert_eq!(first, InputSnapshot { captured: true, forward: true, dx: 1, dy: 2, ..idle() });
    let second = handler.drain_and_reset();
    assert_eq!(second, InputSnapshot { captured: true, forward: true, ..idle() });
}

#[test]
fn primary_button_inside_the_window_captures() {
    let mut handler = CameraHandler::new();
    assert_eq!(handler.handle_event(InputEvent::CursorEntered), CursorRequest::Unchanged);
    assert!(!handler.is_captured());
    assert_eq!(
        handler.handle_event(InputEvent::PointerButtonChanged(PRIMARY_BUTTON, true)),
        CursorRequest::Capture
    );
    assert!(handler.is_captured());
}

#[test]
fn primary_button_outside_the_window_does_not_capture() {
    let mut handler = CameraHandler::new();
    assert_eq!(
        handler.handle_event(InputEvent::PointerButtonChanged(PRIMARY_BUTTON, true)),
        CursorRequest::Unchanged
    );
    assert!(!handler.is_captured());
    handler.handle_event(InputEvent::CursorEntered);
    handler.handle_event(InputEvent::CursorLeft);
    assert_eq!(
        handler.handle_event(InputEvent::PointerButtonChanged(PRIMARY_BUTTON, true)),
        CursorRequest::Unchanged
    );
    assert!(!handler.is_captured());
}

#[test]
fn only_the_primary_button_going_down_captures() {
    let mut handler = CameraHandler::new();
    handler.handle_event(InputEvent::CursorEntered);
    for button in [0, 2, 3, u32::MAX] {
        assert_eq!(
            handler.handle_event(InputEvent::PointerButtonChanged(button, true)),
            CursorRequest::Unchanged
        );
    }
    assert_eq!(
        handler.handle_event(InputEvent::PointerButtonChanged(PRIMARY_BUTTON, false)),
        CursorRequest::Unchanged
    );
    assert!(!handler.is_captured());
}

#[test]
fn capturing_twice_asks_once() {
    let mut handler = captured_handler();
    assert_eq!(
        handler.handle_event(InputEvent::PointerButtonChanged(PRIMARY_BUTTON, true)),
        CursorRequest::Unchanged
    );
    assert!(handler.is_captured());
}

#[test]
fn release_request_frees_a_captured_cursor() {
    let mut handler = captured_handler();
    assert_eq!(
        handler.handle_event(InputEvent::CursorCaptureReleaseRequested),
        CursorRequest::Release
    );
    assert!(!handler.is_captured());
    assert_eq!(
        handler.handle_event(InputEvent::CursorCaptureReleaseRequested),
        CursorRequest::Unchanged
    );
    assert!(!handler.is_captured());
}

#[test]
fn escape_going_down_frees_a_captured_cursor() {
    let mut handler = captured_handler();
    assert_eq!(
        handler.handle_event(InputEvent::KeyChanged(Key::Escape, false)),
        CursorRequest::Unchanged
    );
    assert!(handler.is_captured());
    assert_eq!(
        handler.handle_event(InputEvent::KeyChanged(Key::Escape, true)),
        CursorRequest::Release
    );
    assert!(!handler.is_captured());
    assert_eq!(
        handler.handle_event(InputEvent::KeyChanged(Key::Escape, true)),
        CursorRequest::Unchanged
    );
}

#[test]
fn entering_and_leaving_do_not_change_capture() {
    let mut handler = captured_handler();
    assert_eq!(handler.handle_event(InputEvent::CursorLeft), CursorRequest::Unchanged);
    assert!(handler.is_captured());
    assert_eq!(handler.handle_event(InputEvent::CursorEntered), CursorRequest::Unchanged);
    assert!(handler.is_captured());
    handler.handle_event(InputEvent::CursorCaptureReleaseRequested);
    assert_eq!(handler.handle_event(InputEvent::CursorLeft), CursorRequest::Unchanged);
    assert_eq!(handler.handle_event(InputEvent::CursorEntered), CursorRequest::Unchanged);
    assert!(!handler.is_captured());
}

#[test]
fn other_events_do_not_change_capture() {
    let mut handler = captured_handler();
    for event in [
        InputEvent::KeyChanged(Key::W, true),
        InputEvent::KeyChanged(Key::Other, true),
        InputEvent::PointerMoved(5, 5),
        InputEvent::PointerButtonChanged(PRIMARY_BUTTON, false),
        InputEvent::PointerButtonChanged(3, true),
    ] {
        assert_eq!(handler.handle_event(event), CursorRequest::Unchanged);
        assert!(handler.is_captured());
    }
}

#[test]
fn a_refused_capture_is_taken_back() {
    let mut handler = captured_handler();
    handler.handle_event(InputEvent::KeyChanged(Key::W, true));
    handler.capture_failed();
    assert!(!handler.is_captured());
    let mut camera = Camera::new();
    assert!(!handler.update_camera(&mut camera, SECOND));
    assert_eq!(camera.get_camera_pos(), Vec3::new(0, 0, 3_000_000));
    // the user can try again
    assert_eq!(
        handler.handle_event(InputEvent::PointerButtonChanged(PRIMARY_BUTTON, true)),
        CursorRequest::Capture
    );
}

#[test]
fn intents_are_empty_while_released() {
    let snapshot = InputSnapshot {
        captured: false,
        forward: true,
        backward: true,
        left: true,
        right: true,
        descend: true,
        ascend: true,
        dx: 5,
        dy: -5,
    };
    assert_eq!(snapshot.intents(), vec![]);
}

#[test]
fn intents_come_in_a_fixed_order() {
    let snapshot = InputSnapshot {
        captured: true,
        forward: true,
        backward: true,
        left: true,
        right: true,
        descend: true,
        ascend: true,
        dx: 5,
        dy: -5,
    };
    assert_eq!(
        snapshot.intents(),
        vec![
            CameraMovement::Forward,
            CameraMovement::Backward,
            CameraMovement::Left,
            CameraMovement::Right,
            CameraMovement::Down,
            CameraMovement::Up,
            CameraMovement::Rotate(5, -5),
        ]
    );
}

#[test]
fn intents_skip_what_is_not_held() {
    let captured = InputSnapshot { captured: true, ..idle() };
    assert_eq!(captured.intents(), vec![]);
    assert_eq!(
        InputSnapshot { left: true, ascend: true, ..captured }.intents(),
        vec![CameraMovement::Left, CameraMovement::Up]
    );
    assert_eq!(
        InputSnapshot { dx: 0, dy: 1, ..captured }.intents(),
        vec![CameraMovement::Rotate(0, 1)]
    );
    assert_eq!(
        InputSnapshot { dx: -1, dy: 0, ..captured }.intents(),
        vec![CameraMovement::Rotate(-1, 0)]
    );
    assert_eq!(
        InputSnapshot { backward: true, descend: true, ..captured }.intents(),
        vec![CameraMovement::Backward, CameraMovement::Down]
    );
}

#[test]
fn released_cursor_keeps_the_camera_still() {
    let mut handler = CameraHandler::new();
    for key in [Key::W, Key::S, Key::A, Key::D, Key::LShift, Key::Space] {
        handler.handle_event(InputEvent::KeyChanged(key, true));
    }
    handler.handle_event(InputEvent::KeyChanged(Key::S, false));
    handler.handle_event(InputEvent::PointerMoved(10_000_000, 10_000_000));
    let mut camera = Camera::new();
    assert!(!handler.update_camera(&mut camera, SECOND));
    assert_eq!(camera.get_camera_pos(), Vec3::new(0, 0, 3_000_000));
    assert_eq!(camera.pitch(), 0);
    assert_eq!(camera.yaw(), 90 * DEGREE);
    assert_eq!(camera.front(), Vec3::new(0, 0, -1_000_000));
}

#[test]
fn a_tick_consumes_pointer_travel_even_while_released() {
    let mut handler = CameraHandler::new();
    handler.handle_event(InputEvent::PointerMoved(10_000_000, 10_000_000));
    let mut camera = Camera::new();
    assert!(!handler.update_camera(&mut camera, SECOND));
    assert_eq!(handler.drain_and_reset(), idle());
}

#[test]
fn captured_forward_for_a_second_moves_along_front() {
    let mut handler = captured_handler();
    handler.handle_event(InputEvent::KeyChanged(Key::W, true));
    let mut camera = Camera::new();
    let turned = handler.update_camera(&mut camera, SECOND);
    assert!(!turned);
    assert_eq!(camera.get_camera_pos(), Vec3::new(0, 0, 500_000));
    assert_eq!(camera.yaw(), 90 * DEGREE);
    assert_eq!(camera.pitch(), 0);
}

#[test]
fn captured_pointer_travel_rotates_once() {
    let mut handler = captured_handler();
    handler.handle_event(InputEvent::PointerMoved(10_000_000, 0));
    let mut camera = Camera::new();
    assert!(handler.update_camera(&mut camera, SECOND / 10));
    assert_eq!(camera.yaw(), 50 * DEGREE);
    assert_eq!(camera.pitch(), 0);
    // the travel was consumed
    assert!(!handler.update_camera(&mut camera, SECOND / 10));
    assert_eq!(camera.yaw(), 50 * DEGREE);
}

#[test]
fn held_controls_compose() {
    let mut handler = captured_handler();
    handler.handle_event(InputEvent::KeyChanged(Key::W, true));
    handler.handle_event(InputEvent::KeyChanged(Key::A, true));
    handler.handle_event(InputEvent::KeyChanged(Key::Space, true));
    let mut camera = CameraBuilder::default().move_speed(1_000_000).build(initial_front()).unwrap();
    handler.update_camera(&mut camera, SECOND);
    assert_eq!(camera.get_camera_pos(), Vec3::new(-1_000_000, 1_000_000, 2_000_000));
    // the keys are still held at the next tick
    handler.update_camera(&mut camera, SECOND);
    assert_eq!(camera.get_camera_pos(), Vec3::new(-2_000_000, 2_000_000, 1_000_000));
    handler.handle_event(InputEvent::KeyChanged(Key::A, false));
    handler.update_camera(&mut camera, SECOND);
    assert_eq!(camera.get_camera_pos(), Vec3::new(-2_000_000, 3_000_000, 0));
}

#[test]
fn opposite_controls_cancel() {
    let mut handler = captured_handler();
    for key in [Key::W, Key::S, Key::A, Key::D, Key::LShift, Key::Space] {
        handler.handle_event(InputEvent::KeyChanged(key, true));
    }
    let mut camera = Camera::new();
    handler.update_camera(&mut camera, SECOND / 60);
    assert_eq!(camera.get_camera_pos(), Vec3::new(0, 0, 3_000_000));
}

#[test]
fn a_tick_of_no_time_moves_nothing() {
    let mut handler = captured_handler();
    for key in [Key::W, Key::A, Key::Space] {
        handler.handle_event(InputEvent::KeyChanged(key, true));
    }
    handler.handle_event(InputEvent::PointerMoved(10_000_000, 10_000_000));
    let mut camera = Camera::new();
    assert!(handler.update_camera(&mut camera, 0));
    assert_eq!(camera.get_camera_pos(), Vec3::new(0, 0, 3_000_000));
    assert_eq!(camera.pitch(), 0);
    assert_eq!(camera.yaw(), 90 * DEGREE);
}

#[test]
fn releasing_stops_the_camera() {
    let mut handler = captured_handler();
    handler.handle_event(InputEvent::KeyChanged(Key::W, true));
    let mut camera = Camera::new();
    handler.update_camera(&mut camera, SECOND);
    assert_eq!(camera.get_camera_pos(), Vec3::new(0, 0, 500_000));
    handler.handle_event(InputEvent::KeyChanged(Key::Escape, true));
    handler.update_camera(&mut camera, SECOND);
    assert_eq!(camera.get_camera_pos(), Vec3::new(0, 0, 500_000));
}
