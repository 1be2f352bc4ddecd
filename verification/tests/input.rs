use vkbase::input::{camera_motion, EventController, InputEvent, KeyHeap, SIMULTANEOUS_KEY_COUNT};
use vkbase::utils::frame::FrameAction;

#[test]
fn key_press_and_release() {
    let mut heap = KeyHeap::new();
    assert!(!heap.is_key_pressed(10));
    heap.key_press(10);
    heap.key_press(20);
    assert!(heap.is_key_pressed(10));
    assert!(heap.is_key_pressed(20));
    heap.key_release(10);
    assert!(!heap.is_key_pressed(10));
    assert!(heap.is_key_pressed(20));
    // releasing a key that is not held changes nothing.
    heap.key_release(99);
    assert!(heap.is_key_pressed(20));
}

#[test]
fn key_pressed_twice_is_held_once() {
    let mut heap = KeyHeap::default();
    heap.key_press(7);
    heap.key_press(7);
    heap.key_release(7);
    assert!(!heap.is_key_pressed(7));
}

#[test]
fn press_then_release_restores_the_held_keys() {
    let mut heap = KeyHeap::new();
    heap.key_press(1);
    heap.key_press(2);
    heap.key_press(3);
    heap.key_release(1);
    assert!(heap.is_key_pressed(2) && heap.is_key_pressed(3) && !heap.is_key_pressed(1));
}

#[test]
fn full_key_buffer_ignores_new_keys() {
    let mut heap = KeyHeap::new();
    for code in 0..SIMULTANEOUS_KEY_COUNT as u32 {
        heap.key_press(code);
    }
    heap.key_press(100);
    assert!(!heap.is_key_pressed(100));
    for code in 0..SIMULTANEOUS_KEY_COUNT as u32 {
        assert!(heap.is_key_pressed(code));
    }
    // once a key goes up, there is room again.
    heap.key_release(0);
    heap.key_press(100);
    assert!(heap.is_key_pressed(100));
    assert!(!heap.is_key_pressed(0));
}

#[test]
fn controller_records_events() {
    let mut controller = EventController::default();
    assert_eq!(controller.current_action(), FrameAction::Rendering);
    assert!(!controller.is_key_active());
    assert!(!controller.is_cursor_active());

    controller.record_event(InputEvent::KeyPressed(5));
    assert!(controller.is_key_active());
    assert!(controller.key.is_key_pressed(5));

    controller.record_event(InputEvent::MouseMotion);
    assert!(controller.is_cursor_active());

    controller.record_event(InputEvent::Resized);
    assert_eq!(controller.current_action(), FrameAction::Rendering);

    controller.record_event(InputEvent::KeyReleased(5));
    assert!(!controller.key.is_key_pressed(5));
    // a release does not clear the key toggle of this frame.
    assert!(controller.is_key_active());

    controller.record_event(InputEvent::CloseRequested);
    assert_eq!(controller.current_action(), FrameAction::Terminal);

    controller.tick_frame();
    assert!(!controller.is_key_active());
    assert!(!controller.is_cursor_active());
    assert_eq!(controller.current_action(), FrameAction::Rendering);
}

#[test]
fn held_key_survives_frame_tick() {
    let mut controller = EventController::default();
    controller.record_event(InputEvent::KeyPressed(42));
    controller.tick_frame();
    assert!(controller.key.is_key_pressed(42));
    controller.record_event(InputEvent::Other);
    assert!(!controller.is_key_active());
}

#[test]
fn camera_motion_from_keys() {
    let mut heap = KeyHeap::new();
    assert_eq!(camera_motion(&heap, 1, 2, 3, 4), (0, 0));
    heap.key_press(2);
    heap.key_press(4);
    assert_eq!(camera_motion(&heap, 1, 2, 3, 4), (-1, 1));
    heap.key_press(1);
    heap.key_press(3);
    assert_eq!(camera_motion(&heap, 1, 2, 3, 4), (1, -1));
}
