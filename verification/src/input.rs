//! Input events of the system, and what each of them means to the application.

use vstd::prelude::*;

use crate::event::{
    DeviceId, ElementState, Event, KeyEvent, KeyEventExtra, KeyMapChar, Location, Touch, TouchPhase,
    WindowEvent, WindowId,
};

verus! {

/// Key code of the key that raises the volume.
pub const KEYCODE_VOLUME_UP: u32 = 24;

/// Key code of the key that lowers the volume.
pub const KEYCODE_VOLUME_DOWN: u32 = 25;

/// Key code of the key that mutes the speaker.
pub const KEYCODE_VOLUME_MUTE: u32 = 164;

/// What a motion event reports.
#[derive(Clone, Copy, Debug, PartialEq, Eq, Hash, Structural)]
pub enum MotionAction {
    Down,
    Up,
    Move,
    Cancel,
    PointerDown,
    PointerUp,
    /// Mouse and hover actions, which are not dispatched.
    Other,
}

/// One pointer of a motion event.
#[derive(Clone, Copy, Debug, PartialEq, Eq, Hash, Structural)]
pub struct Pointer {
    pub pointer_id: i32,
    pub location: Location,
}

/// A motion of one or more pointers.
#[derive(Clone, Debug, PartialEq, Eq)]
pub struct MotionEvent {
    pub action: MotionAction,
    /// The pointer that went down or up.
    pub pointer_index: usize,
    pub pointers: Vec<Pointer>,
}

/// What a key did.
#[derive(Clone, Copy, Debug, PartialEq, Eq, Hash, Structural)]
pub enum KeyAction {
    Down,
    Up,
    /// Several presses in a row, and actions of later versions of the system.
    Multiple,
}

/// A key of a keyboard or of the device.
#[derive(Clone, Copy, Debug, PartialEq, Eq, Hash, Structural)]
pub struct KeyInput {
    pub keycode: u32,
    pub action: KeyAction,
    pub repeat_count: i32,
}

/// One input event of the system.
#[derive(Clone, Debug, PartialEq, Eq)]
pub enum InputEvent {
    Motion(MotionEvent),
    Key(KeyInput),
    /// Text input state, and events of later versions of the system.
    Other,
}

/// Whether the system shall fall back to its own handling of an input event.
#[derive(Clone, Copy, Debug, PartialEq, Eq, Hash, Structural)]
pub enum InputStatus {
    Handled,
    Unhandled,
}

/// What there is to do for an input event.
#[derive(Clone, Debug, PartialEq, Eq)]
pub enum InputPlan {
    /// Dispatch one touch for each of the pointers from `next` up to `end`.
    Touches { motion: MotionEvent, phase: TouchPhase, next: usize, end: usize },
    /// Translate the key and dispatch it.
    Key(KeyInput),
    /// Dispatch nothing and give this answer.
    Answer(InputStatus),
}

/// The touch phase that a motion stands for, if it is a touch at all.
pub open spec fn phase_of(action: MotionAction) -> Option<TouchPhase> {
    match action {
        MotionAction::Down | MotionAction::PointerDown => Some(TouchPhase::Started),
        MotionAction::Up | MotionAction::PointerUp => Some(TouchPhase::Ended),
        MotionAction::Move => Some(TouchPhase::Moved),
        MotionAction::Cancel => Some(TouchPhase::Cancelled),
        MotionAction::Other => None,
    }
}

/// Whether a motion of this phase concerns one pointer only, not all of them.
pub open spec fn single_pointer(phase: TouchPhase) -> bool {
    phase is Started || phase is Ended
}

/// The motion names a pointer that exists, where it names one.
pub open spec fn valid_motion(motion: MotionEvent) -> bool {
    phase_of(motion.action) matches Some(phase) ==> single_pointer(phase) ==> motion.pointer_index
        < motion.pointers@.len()
}

/// See [`valid_motion`]; other input events are always valid.
pub open spec fn valid_input(event: InputEvent) -> bool {
    event matches InputEvent::Motion(motion) ==> valid_motion(motion)
}

/// The pointers that a motion reports a touch of, in the order of the touches:
/// the one that went down or up, else all of them.
pub open spec fn touched_pointers(motion: MotionEvent) -> Seq<Pointer> {
    match phase_of(motion.action) {
        Some(phase) => if single_pointer(phase) {
            seq![motion.pointers@[motion.pointer_index as int]]
        } else {
            motion.pointers@
        },
        None => Seq::empty(),
    }
}

/// A pointer id read as an unsigned number of twice its width: negative ids
/// wrap around.
pub open spec fn wrapped_id(pointer_id: i32) -> int {
    if pointer_id >= 0 {
        pointer_id as int
    } else {
        pointer_id + 0x1_0000_0000_0000_0000
    }
}

/// The event that reports what `pointer` does.
pub open spec fn touch_event<T>(phase: TouchPhase, pointer: Pointer) -> Event<T> {
    Event::WindowEvent {
        window_id: WindowId,
        event: WindowEvent::Touch(
            Touch {
                device_id: DeviceId,
                phase,
                location: pointer.location,
                id: wrapped_id(pointer.pointer_id) as u64,
                force: None,
            },
        ),
    }
}

/// The keys that change the volume.
pub open spec fn is_volume_key(keycode: u32) -> bool {
    keycode == KEYCODE_VOLUME_UP || keycode == KEYCODE_VOLUME_DOWN || keycode
        == KEYCODE_VOLUME_MUTE
}

/// The event that reports `key`, of which the character map made `key_char`.
pub open spec fn key_event<T>(key: KeyInput, key_char: Option<KeyMapChar>) -> Event<T> {
    Event::WindowEvent {
        window_id: WindowId,
        event: WindowEvent::KeyboardInput {
            device_id: DeviceId,
            event: KeyEvent {
                state: if key.action is Down {
                    ElementState::Pressed
                } else {
                    ElementState::Released
                },
                keycode: key.keycode,
                key_char,
                repeat: key.repeat_count > 0,
                text: None,
                platform_specific: KeyEventExtra {  },
            },
            is_synthetic: false,
        },
    }
}

/// The answer to an input event: only volume keys are ever left to the system,
/// and only where the application does not want to keep them from it.
pub open spec fn input_status(event: InputEvent, ignore_volume_keys: bool) -> InputStatus {
    match event {
        InputEvent::Key(key) if is_volume_key(key.keycode) && ignore_volume_keys =>
            InputStatus::Unhandled,
        _ => InputStatus::Handled,
    }
}

/// What there is to do for `event`.
pub open spec fn plan_for(event: InputEvent, ignore_volume_keys: bool) -> InputPlan {
    match event {
        InputEvent::Motion(motion) => match phase_of(motion.action) {
            Some(phase) => if single_pointer(phase) {
                InputPlan::Touches {
                    motion,
                    phase,
                    next: motion.pointer_index,
                    end: (motion.pointer_index + 1) as usize,
                }
            } else {
                InputPlan::Touches { motion, phase, next: 0, end: motion.pointers.len() }
            },
            None => InputPlan::Answer(InputStatus::Handled),
        },
        InputEvent::Key(key) => if is_volume_key(key.keycode) {
            InputPlan::Answer(input_status(event, ignore_volume_keys))
        } else {
            InputPlan::Key(key)
        },
        InputEvent::Other => InputPlan::Answer(InputStatus::Handled),
    }
}

/// The touches that a plan still has to dispatch.
pub open spec fn planned_pointers(plan: InputPlan) -> Seq<Pointer> {
    match plan {
        InputPlan::Touches { motion, next, end, .. } => motion.pointers@.subrange(
            next as int,
            end as int,
        ),
        _ => Seq::empty(),
    }
}

fn touch_phase(action: MotionAction) -> (phase: Option<TouchPhase>)
    ensures
        phase == phase_of(action),
        phase == Some(TouchPhase::Started) <==> action is Down || action is PointerDown,
        phase == Some(TouchPhase::Ended) <==> action is Up || action is PointerUp,
        phase == Some(TouchPhase::Moved) <==> action is Move,
        phase == Some(TouchPhase::Cancelled) <==> action is Cancel,
{
    match action {
        MotionAction::Down | MotionAction::PointerDown => Some(TouchPhase::Started),
        MotionAction::Up | MotionAction::PointerUp => Some(TouchPhase::Ended),
        MotionAction::Move => Some(TouchPhase::Moved),
        MotionAction::Cancel => Some(TouchPhase::Cancelled),
        MotionAction::Other => None,
    }
}

/// See [`valid_input`].
pub fn is_valid_input(event: &InputEvent) -> (valid: bool)
    ensures
        valid == valid_input(*event),
        !valid <==> (*event matches InputEvent::Motion(motion) && motion.pointer_index
            >= motion.pointers@.len() && (motion.action is Down || motion.action is Up
            || motion.action is PointerDown || motion.action is PointerUp)),
{
    match event {
        InputEvent::Motion(motion) => match touch_phase(motion.action) {
            Some(TouchPhase::Started) | Some(TouchPhase::Ended) => motion.pointer_index
                < motion.pointers.len(),
            _ => true,
        },
        _ => true,
    }
}

/// Decides what an input event means: which touches it stands for, whether it
/// is a key to dispatch, and what the system is answered. Keys related to
/// volume are never dispatched.
pub fn plan_input_event(event: InputEvent, ignore_volume_keys: bool) -> (plan: InputPlan)
    requires
        valid_input(event),
    ensures
        plan == plan_for(event, ignore_volume_keys),
        event matches InputEvent::Motion(motion) ==> planned_pointers(plan) == touched_pointers(
            motion,
        ),
        plan is Key <==> (event matches InputEvent::Key(key) && !is_volume_key(key.keycode)),
        plan matches InputPlan::Answer(status) ==> status == input_status(
            event,
            ignore_volume_keys,
        ),
        !(plan is Answer) ==> input_status(event, ignore_volume_keys) is Handled,
{
    match event {
        InputEvent::Motion(motion) => match touch_phase(motion.action) {
            Some(phase) => {
                let (next, end): (usize, usize) = match phase {
                    TouchPhase::Started | TouchPhase::Ended => (
                        motion.pointer_index,
                        motion.pointer_index + 1,
                    ),
                    TouchPhase::Moved | TouchPhase::Cancelled => (0, motion.pointers.len()),
                };
                proof {
                    assert(motion.pointers@.subrange(next as int, end as int) =~= touched_pointers(
                        motion,
                    ));
                }
                InputPlan::Touches { motion, phase, next, end }
            },
            None => InputPlan::Answer(InputStatus::Handled),
        },
        InputEvent::Key(key) => {
            if key.keycode == KEYCODE_VOLUME_UP || key.keycode == KEYCODE_VOLUME_DOWN
                || key.keycode == KEYCODE_VOLUME_MUTE {
                if ignore_volume_keys {
                    InputPlan::Answer(InputStatus::Unhandled)
                } else {
                    InputPlan::Answer(InputStatus::Handled)
                }
            } else {
                InputPlan::Key(key)
            }
        },
        InputEvent::Other => InputPlan::Answer(InputStatus::Handled),
    }
}

fn unsigned_id(pointer_id: i32) -> (id: u64)
    ensures
        id == wrapped_id(pointer_id),
{
    assert(pointer_id >= 0 ==> (pointer_id as u64) == pointer_id) by (bit_vector);
    assert(pointer_id < 0 ==> (pointer_id as u64) == pointer_id + 0x1_0000_0000_0000_0000)
        by (bit_vector);
    #[verifier::truncate]
    let id: u64 = pointer_id as u64;
    id
}

/// See [`touch_event`].
pub fn report_touch<T>(phase: TouchPhase, pointer: Pointer) -> (event: Event<T>)
    ensures
        event == touch_event::<T>(phase, pointer),
        event matches Event::WindowEvent { event: WindowEvent::Touch(touch), .. } && {
            &&& touch.phase == phase
            &&& touch.location == pointer.location
            &&& pointer.pointer_id >= 0 ==> touch.id == pointer.pointer_id
            &&& pointer.pointer_id < 0 ==> touch.id == pointer.pointer_id
                + 0x1_0000_0000_0000_0000
            &&& touch.force is None
        },
{
    Event::WindowEvent {
        window_id: WindowId,
        event: WindowEvent::Touch(
            Touch {
                device_id: DeviceId,
                phase,
                location: pointer.location,
                id: unsigned_id(pointer.pointer_id),
                force: None,
            },
        ),
    }
}

/// See [`key_event`].
pub fn report_key<T>(key: KeyInput, key_char: Option<KeyMapChar>) -> (event: Event<T>)
    ensures
        event == key_event::<T>(key, key_char),
        event matches Event::WindowEvent {
            event: WindowEvent::KeyboardInput { event: reported, is_synthetic, .. },
            ..
        } && {
            &&& reported.state is Pressed <==> key.action is Down
            &&& reported.keycode == key.keycode
            &&& reported.key_char == key_char
            &&& reported.repeat <==> key.repeat_count > 0
            &&& reported.text is None
            &&& !is_synthetic
        },
{
    let state = match key.action {
        KeyAction::Down => ElementState::Pressed,
        KeyAction::Up => ElementState::Released,
        KeyAction::Multiple => ElementState::Released,
    };
    Event::WindowEvent {
        window_id: WindowId,
        event: WindowEvent::KeyboardInput {
            device_id: DeviceId,
            event: KeyEvent {
                state,
                keycode: key.keycode,
                key_char,
                repeat: key.repeat_count > 0,
                text: None,
                platform_specific: KeyEventExtra {  },
            },
            is_synthetic: false,
        },
    }
}

/// A finger that goes down starts a touch and one that is lifted ends it, be it
/// the only one or not; a motion moves touches, and only a cancelled one cancels
/// them; nothing else is a touch.
pub proof fn law_phase_is_that_of_the_motion(action: MotionAction)
    ensures
        phase_of(action) == Some(TouchPhase::Started) <==> action is Down || action is PointerDown,
        phase_of(action) == Some(TouchPhase::Ended) <==> action is Up || action is PointerUp,
        phase_of(action) == Some(TouchPhase::Moved) <==> action is Move,
        phase_of(action) == Some(TouchPhase::Cancelled) <==> action is Cancel,
        phase_of(action) is None <==> action is Other,
{
}

/// The first and the last motion of a finger concern that finger alone: the one
/// that the motion names. All other touches concern every finger, in the order in
/// which the motion lists them.
pub proof fn law_motion_is_about_its_pointers(motion: MotionEvent)
    ensures
        motion.action is Down || motion.action is Up || motion.action is PointerDown
            || motion.action is PointerUp ==> touched_pointers(motion).len() == 1
            && touched_pointers(motion)[0] == motion.pointers@[motion.pointer_index as int],
        motion.action is Move || motion.action is Cancel ==> touched_pointers(motion)
            == motion.pointers@,
        motion.action is Other ==> touched_pointers(motion).len() == 0,
{
}

/// An input event is refused only where it names a pointer that it does not have.
pub proof fn law_only_missing_pointers_are_refused(event: InputEvent)
    ensures
        !valid_input(event) <==> (event matches InputEvent::Motion(motion) && motion.pointer_index
            >= motion.pointers@.len() && (motion.action is Down || motion.action is Up
            || motion.action is PointerDown || motion.action is PointerUp)),
{
}

/// A touch is reported as it is: in the phase that was asked for, where the pointer
/// is, and under the pointer's own number; negative numbers are read modulo the
/// range of the unsigned one. Of its force nothing is known.
pub proof fn law_touch_is_that_of_the_pointer<T>(phase: TouchPhase, pointer: Pointer)
    ensures
        touch_event::<T>(phase, pointer) matches Event::WindowEvent {
            event: WindowEvent::Touch(touch),
            ..
        } && {
            &&& touch.phase == phase
            &&& touch.location == pointer.location
            &&& pointer.pointer_id >= 0 ==> touch.id == pointer.pointer_id
            &&& pointer.pointer_id < 0 ==> touch.id == pointer.pointer_id
                + 0x1_0000_0000_0000_0000
            &&& touch.force is None
        },
{
}

/// Different reports are of different touches: phase, place and finger can all be
/// told from the event.
pub proof fn law_touches_are_told_apart<T>(
    phase: TouchPhase,
    pointer: Pointer,
    other_phase: TouchPhase,
    other: Pointer,
)
    requires
        touch_event::<T>(phase, pointer) == touch_event::<T>(other_phase, other),
    ensures
        phase == other_phase,
        pointer == other,
{
}

/// A key is reported as pressed exactly while it goes down, however often it is
/// repeated, and as repeated exactly when it is; with the code that it has and
/// the character that was found for it. It is never synthetic and has no text of
/// its own.
pub proof fn law_key_report_is_that_of_the_key<T>(key: KeyInput, key_char: Option<KeyMapChar>)
    ensures
        key_event::<T>(key, key_char) matches Event::WindowEvent {
            event: WindowEvent::KeyboardInput { event: reported, is_synthetic, .. },
            ..
        } && {
            &&& reported.state is Pressed <==> key.action is Down
            &&& reported.keycode == key.keycode
            &&& reported.key_char == key_char
            &&& reported.repeat <==> key.repeat_count > 0
            &&& reported.text is None
            &&& !is_synthetic
        },
{
}

/// The state of a key does not depend on how often it was repeated, nor the
/// repetition on the state.
pub proof fn law_state_and_repetition_are_apart<T>(
    key: KeyInput,
    other: KeyInput,
    key_char: Option<KeyMapChar>,
)
    ensures
        ({
            let a = key_event::<T>(key, key_char)->WindowEvent_event->KeyboardInput_event;
            let b = key_event::<T>(other, key_char)->WindowEvent_event->KeyboardInput_event;
            &&& key.action == other.action ==> a.state == b.state
            &&& key.repeat_count == other.repeat_count ==> a.repeat == b.repeat
        }),
{
}

/// The volume keys are those that raise, lower and mute the volume.
pub proof fn law_volume_keys_are_these_three(keycode: u32)
    ensures
        is_volume_key(keycode) <==> keycode == 24 || keycode == 25 || keycode == 164,
{
}

/// The system is left an input event only if it is a volume key and volume keys
/// are left to it.
pub proof fn law_only_volume_keys_are_left(event: InputEvent, ignore_volume_keys: bool)
    ensures
        input_status(event, ignore_volume_keys) is Unhandled <==> ignore_volume_keys && (
        event matches InputEvent::Key(key) && (key.keycode == 24 || key.keycode == 25
            || key.keycode == 164)),
{
}

/// What is planned for an input event dispatches what the event is about and no
/// more: each touched pointer once, in the phase of the motion, or a key that is
/// no volume key; everything else is only answered, and only a volume key that is
/// left to the system is answered as not handled.
pub proof fn law_plan_is_that_of_the_event(event: InputEvent, ignore_volume_keys: bool)
    requires
        valid_input(event),
    ensures
        match event {
            InputEvent::Motion(motion) => if motion.action is Other {
                plan_for(event, ignore_volume_keys) == InputPlan::Answer(InputStatus::Handled)
            } else {
                plan_for(event, ignore_volume_keys) matches InputPlan::Touches {
                    motion: planned,
                    phase,
                    next,
                    end,
                } && {
                    &&& planned == motion
                    &&& phase is Started <==> motion.action is Down || motion.action is PointerDown
                    &&& phase is Ended <==> motion.action is Up || motion.action is PointerUp
                    &&& phase is Moved <==> motion.action is Move
                    &&& motion.action is Move || motion.action is Cancel ==> next == 0 && end
                        == motion.pointers@.len()
                    &&& !(motion.action is Move || motion.action is Cancel) ==> next
                        == motion.pointer_index && end == motion.pointer_index + 1
                }
            },
            InputEvent::Key(key) => if key.keycode == 24 || key.keycode == 25 || key.keycode == 164 {
                plan_for(event, ignore_volume_keys) == InputPlan::Answer(
                    if ignore_volume_keys {
                        InputStatus::Unhandled
                    } else {
                        InputStatus::Handled
                    },
                )
            } else {
                plan_for(event, ignore_volume_keys) == InputPlan::Key(key)
            },
            InputEvent::Other => plan_for(event, ignore_volume_keys) == InputPlan::Answer(
                InputStatus::Handled,
            ),
        },
{
}

} // verus!
