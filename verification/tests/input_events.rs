use android_event_loop::event::{
    DeviceId, ElementState, Event, KeyEvent, KeyEventExtra, KeyMapChar, Location, Touch, TouchPhase,
    WindowEvent, WindowId,
};
use android_event_loop::input::{
    is_valid_input, plan_input_event, report_key, report_touch, InputEvent, InputPlan, InputStatus,
    KeyAction, KeyInput, MotionAction, MotionEvent, Pointer, KEYCODE_VOLUME_DOWN,
    KEYCODE_VOLUME_MUTE, KEYCODE_VOLUME_UP,
};

fn pointer(pointer_id: i32) -> Pointer {
    Pointer {
        pointer_id,
        location: Location { x_bits: 1.5f32.to_bits(), y_bits: 2.5f32.to_bits() },
    }
}

fn motion(action: MotionAction, pointer_index: usize) -> MotionEvent {
    MotionEvent { action, pointer_index, pointers: vec![pointer(4), pointer(9), pointer(2)] }
}

fn touches(action: MotionAction, pointer_index: usize) -> (TouchPhase, Vec<i32>) {
    let event = InputEvent::Motion(motion(action, pointer_index));
    match plan_input_event(event, true) {
        InputPlan::Touches { motion, phase, next, end } => (
            phase,
            motion.pointers[next..end].iter().map(|pointer| pointer.pointer_id).collect(),
        ),
        other => panic!("not a touch: {:?}", other),
    }
}

fn key(keycode: u32) -> InputEvent {
    InputEvent::Key(KeyInput { keycode, action: KeyAction::Down, repeat_count: 0 })
}

#[test]
fn one_pointer_goes_down_or_up() {
    assert_eq!(touches(MotionAction::Down, 0), (TouchPhase::Started, vec![4]));
    assert_eq!(touches(MotionAction::PointerDown, 2), (TouchPhase::Started, vec![2]));
    assert_eq!(touches(MotionAction::Up, 0), (TouchPhase::Ended, vec![4]));
    assert_eq!(touches(MotionAction::PointerUp, 1), (TouchPhase::Ended, vec![9]));
}

#[test]
fn all_pointers_move_or_are_cancelled() {
    assert_eq!(touches(MotionAction::Move, 1), (TouchPhase::Moved, vec![4, 9, 2]));
    assert_eq!(touches(MotionAction::Cancel, 7), (TouchPhase::Cancelled, vec![4, 9, 2]));
}

#[test]
fn other_motions_and_events_are_swallowed() {
    let other = InputEvent::Motion(motion(MotionAction::Other, 0));
    assert_eq!(plan_input_event(other, true), InputPlan::Answer(InputStatus::Handled));
    assert_eq!(plan_input_event(InputEvent::Other, true), InputPlan::Answer(InputStatus::Handled));
}

#[test]
fn motion_has_to_name_a_pointer_that_exists() {
    assert!(is_valid_input(&InputEvent::Motion(motion(MotionAction::Down, 2))));
    assert!(!is_valid_input(&InputEvent::Motion(motion(MotionAction::Down, 3))));
    assert!(!is_valid_input(&InputEvent::Motion(motion(MotionAction::PointerUp, 3))));
    assert!(is_valid_input(&InputEvent::Motion(motion(MotionAction::Move, 3))));
    assert!(is_valid_input(&InputEvent::Motion(motion(MotionAction::Other, 3))));
    assert!(is_valid_input(&InputEvent::Other));
}

#[test]
fn volume_keys_are_left_to_the_system() {
    for keycode in [KEYCODE_VOLUME_UP, KEYCODE_VOLUME_DOWN, KEYCODE_VOLUME_MUTE] {
        assert_eq!(
            plan_input_event(key(keycode), true),
            InputPlan::Answer(InputStatus::Unhandled)
        );
    }
    assert_eq!((KEYCODE_VOLUME_UP, KEYCODE_VOLUME_DOWN, KEYCODE_VOLUME_MUTE), (24, 25, 164));
}

#[test]
fn volume_keys_can_be_kept_from_the_system() {
    for keycode in [KEYCODE_VOLUME_UP, KEYCODE_VOLUME_DOWN, KEYCODE_VOLUME_MUTE] {
        assert_eq!(plan_input_event(key(keycode), false), InputPlan::Answer(InputStatus::Handled));
    }
}

#[test]
fn other_keys_are_dispatched() {
    for keycode in [0, 23, 26, 29, 163, 165] {
        assert!(matches!(plan_input_event(key(keycode), true), InputPlan::Key(_)));
    }
}

#[test]
fn touch_in_full() {
    let event: Event<()> = report_touch(TouchPhase::Moved, pointer(3));
    assert_eq!(
        event,
        Event::WindowEvent {
            window_id: WindowId,
            event: WindowEvent::Touch(Touch {
                device_id: DeviceId,
                phase: TouchPhase::Moved,
                location: Location { x_bits: 1.5f32.to_bits(), y_bits: 2.5f32.to_bits() },
                id: 3,
                force: None,
            }),
        }
    );
}

#[test]
fn negative_pointer_ids_wrap_around() {
    let id_of = |pointer_id: i32| match report_touch::<()>(TouchPhase::Ended, pointer(pointer_id)) {
        Event::WindowEvent { event: WindowEvent::Touch(touch), .. } => touch.id,
        other => panic!("not a touch: {:?}", other),
    };
    assert_eq!(id_of(i32::MAX), 2147483647);
    assert_eq!(id_of(-1), u64::MAX);
    assert_eq!(id_of(i32::MIN), 18446744071562067968);
}

fn reported(action: KeyAction, repeat_count: i32) -> KeyEvent {
    let input = KeyInput { keycode: 29, action, repeat_count };
    match report_key::<()>(input, Some(KeyMapChar::Unicode('a'))) {
        Event::WindowEvent {
            window_id: WindowId,
            event: WindowEvent::KeyboardInput { device_id: DeviceId, event, is_synthetic },
        } => {
            assert!(!is_synthetic);
            event
        }
        other => panic!("not a key: {:?}", other),
    }
}

#[test]
fn key_in_full() {
    assert_eq!(
        reported(KeyAction::Down, 0),
        KeyEvent {
            state: ElementState::Pressed,
            keycode: 29,
            key_char: Some(KeyMapChar::Unicode('a')),
            repeat: false,
            text: None,
            platform_specific: KeyEventExtra {},
        }
    );
}

#[test]
fn key_state_and_repetition() {
    assert_eq!(reported(KeyAction::Up, 0).state, ElementState::Released);
    assert_eq!(reported(KeyAction::Multiple, 0).state, ElementState::Released);
    assert!(reported(KeyAction::Down, 1).repeat);
    assert!(!reported(KeyAction::Down, -1).repeat);
}
