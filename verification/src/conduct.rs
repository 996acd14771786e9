//! How the loop conducts itself, told by what it is given and what it then asks
//! for.

use vstd::prelude::*;

use crate::dpi::{NativeWindow, PhysicalSize, ScaleFactor};
use crate::event::{
    ControlFlow, ElementState, Event, EventLoopError, KeyMapChar, PumpStatus, StartCause, TouchPhase,
    WindowEvent,
};
use crate::input::{InputEvent, InputStatus, KeyInput, MotionEvent};
use crate::laws;
use crate::machine;
use crate::machine::{
    Action, Frame, LoopState, MainEvent, Mode, Origin, Phase, PollEvent, Reply, Stage,
};
use crate::time::{Duration, Instant};
use crate::trace;

verus! {

/// `step`, carried on with the time `now` where it asks for the time.
pub open spec fn with_clock<T>(step: (LoopState, Action<T>), now: Instant) -> (
    LoopState,
    Action<T>,
) {
    if step.1 is QueryTime {
        machine::next(step.0, Reply::Time(now))
    } else {
        step
    }
}

/// `begun` is the beginning of an iteration of the loop `s`, which is in a poll
/// that began at `start`, at the time `now`: the handler is told why the loop goes
/// on, with the control flow that it left; the command that the iteration is to
/// see to is `main_event`; and a redraw is pending if `pending_redraw`.
pub open spec fn begins<T>(
    begun: (LoopState, Action<T>),
    s: LoopState,
    start: Instant,
    now: Instant,
    main_event: Option<MainEvent>,
    pending_redraw: bool,
) -> bool {
    &&& begun.1 matches Action::Dispatch { event: Event::NewEvents(cause), control_flow }
    &&& control_flow == s.control_flow
    &&& match s.control_flow {
        ControlFlow::Poll => cause is Poll,
        ControlFlow::Wait => cause matches StartCause::WaitCancelled {
            start: since,
            requested_resume,
        } && since == start && requested_resume is None,
        ControlFlow::WaitUntil(deadline) => if now.nanos < deadline.nanos {
            cause matches StartCause::WaitCancelled { start: since, requested_resume } && since
                == start && requested_resume == Some(deadline)
        } else {
            cause matches StartCause::ResumeTimeReached { start: since, requested_resume }
                && since == start && requested_resume == deadline
        },
        ControlFlow::ExitWithCode(_) => false,
    }
    &&& begun.0.phase matches Phase::Iterating { frame, stage }
    &&& stage matches Stage::NewEvents { main_event: seen_to }
    &&& seen_to == main_event
    &&& frame.origin == (Origin::Poll { start })
    &&& frame.control_flow == s.control_flow
    &&& frame.pending_redraw == pending_redraw
    &&& !frame.resized
    &&& begun.0.running == s.running
    &&& begun.0.loop_running
}

/// Whatever a poll brings besides a wake up leads to an iteration, whatever the
/// handler left as control flow; only for a deadline is the clock read first. The
/// iteration sees to the very command that the poll brought, and to none where it
/// brought none.
pub proof fn law_poll_event_leads_to_iteration<T>(
    s: LoopState,
    start: Instant,
    event: PollEvent,
    now: Instant,
)
    requires
        machine::wf(s),
        s.phase == (Phase::Polling { start }),
        !(s.control_flow is ExitWithCode),
        !(event is Wake),
    ensures
        ({
            let brought = machine::next(s, Reply::<T>::PollEvent(event));
            &&& machine::accepts(s, Reply::<T>::PollEvent(event))
            &&& brought.1 is QueryTime <==> s.control_flow is WaitUntil
            &&& brought.1 is QueryTime ==> machine::accepts(brought.0, Reply::<T>::Time(now))
            &&& begins(
                with_clock(brought, now),
                s,
                start,
                now,
                match event {
                    PollEvent::Main(command) => Some(command),
                    _ => None,
                },
                s.pending_redraw,
            )
        }),
{
}

/// A wake up of a running activity that has a redraw or a user event pending leads
/// to an iteration, which sees to no command; every other wake up leads back to
/// the poll. The redraw flag is read in any case, and a user event looked for only
/// where that decides.
pub proof fn law_wake_up_leads_to_iteration<T>(
    s: LoopState,
    start: Instant,
    raised: bool,
    incoming: bool,
    now: Instant,
)
    requires
        machine::wf(s),
        s.phase == (Phase::Polling { start }),
        !(s.control_flow is ExitWithCode),
    ensures
        ({
            let woken = machine::next(s, Reply::<T>::PollEvent(PollEvent::Wake));
            let read = machine::next(woken.0, Reply::<T>::RedrawFlag(raised));
            let looked = machine::next(read.0, Reply::<T>::Incoming(incoming));
            let owed = s.pending_redraw || raised;
            &&& machine::accepts(s, Reply::<T>::PollEvent(PollEvent::Wake))
            &&& woken.1 is TakeRedrawFlag
            &&& machine::accepts(woken.0, Reply::<T>::RedrawFlag(raised))
            &&& if !s.running {
                returns_to_poll(read, s, start, owed)
            } else if owed {
                begins(with_clock(read, now), s, start, now, None, true)
            } else {
                &&& read.1 is LookForUserEvent
                &&& machine::accepts(read.0, Reply::<T>::Incoming(incoming))
                &&& if incoming {
                    begins(with_clock(looked, now), s, start, now, None, false)
                } else {
                    returns_to_poll(looked, s, start, false)
                }
            }
        }),
{
}

/// `step` leads the loop `s` back into its poll, with nothing changed but perhaps
/// that a redraw is pending.
pub open spec fn returns_to_poll<T>(
    step: (LoopState, Action<T>),
    s: LoopState,
    start: Instant,
    pending_redraw: bool,
) -> bool {
    &&& step.1 is PollHandled
    &&& step.0.phase == (Phase::Polling { start })
    &&& step.0.pending_redraw == pending_redraw
    &&& step.0.control_flow == s.control_flow
    &&& step.0.cause == s.cause
    &&& step.0.running == s.running
    &&& step.0.loop_running == s.loop_running
    &&& step.0.combining_accent == s.combining_accent
}

/// Each command of the system that an iteration sees to has the effect that it is
/// meant to have: the window comes or goes, the focus is noted, the density is
/// read, a resize or a redraw is noted, the activity runs or pauses. Whatever has
/// no event of its own leads straight to the input.
pub proof fn law_commands_take_effect<T>(
    s: LoopState,
    frame: Frame,
    command: Option<MainEvent>,
    returned: ControlFlow,
)
    requires
        s.phase == (Phase::Iterating { frame, stage: Stage::NewEvents { main_event: command } }),
    ensures
        ({
            let (s2, action) = machine::next(s, Reply::<T>::Handled(returned));
            &&& match command {
                Some(MainEvent::InitWindow) => action matches Action::Dispatch { event, .. }
                    && event is Resumed,
                Some(MainEvent::TerminateWindow) => action matches Action::Dispatch { event, .. }
                    && event is Suspended,
                Some(MainEvent::GainedFocus) => action == Action::<T>::StoreFocus(true),
                Some(MainEvent::LostFocus) => action == Action::<T>::StoreFocus(false),
                Some(MainEvent::ConfigChanged) => action is QueryDensity,
                _ => action is OpenInput,
            }
            &&& s2.running == (s.running && command != Some(MainEvent::Pause) || command == Some(
                MainEvent::Resume,
            ))
            &&& s2.phase matches Phase::Iterating { frame: frame2, .. }
            &&& frame2.resized == (frame.resized || command == Some(MainEvent::WindowResized))
            &&& frame2.pending_redraw == (frame.pending_redraw || command == Some(
                MainEvent::RedrawNeeded,
            ))
            &&& frame2.origin == frame.origin
        }),
{
}

/// The handler is told of the focus that was noted, and of no other.
pub proof fn law_noted_focus_is_told<T>(s: LoopState, reply: Reply<T>, focused: bool)
    requires
        machine::accepts(s, reply),
        machine::next(s, reply).1 == Action::<T>::StoreFocus(focused),
    ensures
        ({
            let noted = machine::next(s, reply).0;
            &&& machine::accepts(noted, Reply::<T>::Done)
            &&& machine::next(noted, Reply::<T>::Done).1 matches Action::Dispatch {
                event: Event::WindowEvent { event: WindowEvent::Focused(told), .. },
                ..
            }
            &&& told == focused
        }),
{
}

/// `size` is the size of `window`, or empty where there is none.
pub open spec fn is_size_of(size: PhysicalSize, window: Option<NativeWindow>) -> bool {
    match window {
        Some(window) => {
            &&& size.width == if window.width >= 0 {
                window.width as int
            } else {
                window.width + 0x1_0000_0000
            }
            &&& size.height == if window.height >= 0 {
                window.height as int
            } else {
                window.height + 0x1_0000_0000
            }
        },
        None => size.width == 0 && size.height == 0,
    }
}

/// `scale` is the scale of a screen of this density, which is taken to be the
/// usual one where it is not known.
pub open spec fn is_scale_of(scale: ScaleFactor, density: Option<u32>) -> bool {
    scale.dpi == match density {
        Some(dpi) => dpi,
        None => 160,
    }
}

/// After a change of the configuration the density is read twice. Where both
/// readings stand for one scale, the handler is told that scale, together with
/// the size of the window, and else nothing.
pub proof fn law_configuration_is_told<T>(
    s: LoopState,
    frame: Frame,
    returned: ControlFlow,
    first: Option<u32>,
    second: Option<u32>,
    window: Option<NativeWindow>,
)
    requires
        s.phase == (Phase::Iterating {
            frame,
            stage: Stage::NewEvents { main_event: Some(MainEvent::ConfigChanged) },
        }),
    ensures
        ({
            let asked = machine::next(s, Reply::<T>::Handled(returned));
            let again = machine::next(asked.0, Reply::<T>::Density(first));
            let read = machine::next(again.0, Reply::<T>::Density(second));
            let told = machine::next(read.0, Reply::<T>::NativeWindow(window));
            let same = first == second || (first is None && second == Some(160u32)) || (second
                is None && first == Some(160u32));
            &&& asked.1 is QueryDensity
            &&& machine::accepts(asked.0, Reply::<T>::Density(first))
            &&& again.1 is QueryDensity
            &&& machine::accepts(again.0, Reply::<T>::Density(second))
            &&& if same {
                &&& read.1 is QueryNativeWindow
                &&& machine::accepts(read.0, Reply::<T>::NativeWindow(window))
                &&& told.1 matches Action::Dispatch {
                    event: Event::WindowEvent {
                        event: WindowEvent::ScaleFactorChanged { scale_factor, new_inner_size },
                        ..
                    },
                    ..
                }
                &&& is_scale_of(scale_factor, second)
                &&& is_size_of(new_inner_size, window)
            } else {
                read.1 is OpenInput
            }
        }),
{
}

/// Once the user events are used up, a running activity that was resized is told
/// its size; then the redraw flag is read. An activity that is paused gets neither.
pub proof fn law_resize_is_told<T>(s: LoopState, frame: Frame, window: Option<NativeWindow>)
    requires
        s.phase == (Phase::Iterating { frame, stage: Stage::ReadingUserEvents }),
    ensures
        ({
            let drained = machine::next(s, Reply::<T>::UserEvent(None));
            let told = machine::next(drained.0, Reply::<T>::NativeWindow(window));
            if !s.running {
                drained.1 matches Action::Dispatch { event: Event::AboutToWait, .. }
            } else if frame.resized {
                &&& drained.1 is QueryNativeWindow
                &&& machine::accepts(drained.0, Reply::<T>::NativeWindow(window))
                &&& told.1 matches Action::Dispatch {
                    event: Event::WindowEvent { event: WindowEvent::Resized(size), .. },
                    ..
                }
                &&& is_size_of(size, window)
            } else {
                drained.1 is TakeRedrawFlag
            }
        }),
{
}

/// What an iteration has noted of a resize stays noted to its end, and only the
/// system's command makes it note one; nor does it forget what it was started by.
pub proof fn law_resize_stays_noted<T>(s: LoopState, reply: Reply<T>, frame: Frame, stage: Stage)
    requires
        machine::accepts(s, reply),
        s.phase == (Phase::Iterating { frame, stage }),
    ensures
        machine::next(s, reply).0.phase matches Phase::Iterating { frame: frame2, .. } ==> {
            &&& frame2.origin == frame.origin
            &&& frame2.resized == (frame.resized || stage == (Stage::NewEvents {
                main_event: Some(MainEvent::WindowResized),
            }))
        },
{
}

/// At the end of an iteration of a running activity, a redraw that is pending or
/// was requested is dispatched, and else the last event of the iteration.
pub proof fn law_pending_redraw_is_dispatched<T>(s: LoopState, frame: Frame, raised: bool)
    requires
        s.phase == (Phase::Iterating { frame, stage: Stage::RedrawFlag }),
    ensures
        frame.pending_redraw || raised ==> (machine::next(
            s,
            Reply::<T>::RedrawFlag(raised),
        ).1 matches Action::Dispatch {
            event: Event::WindowEvent { event: WindowEvent::RedrawRequested, .. },
            ..
        }),
        !frame.pending_redraw && !raised ==> (machine::next(
            s,
            Reply::<T>::RedrawFlag(raised),
        ).1 matches Action::Dispatch { event: Event::AboutToWait, .. }),
{
}

/// What the handler has asked for last is what the loop goes by: each answer
/// counts, but none after an exit was requested; nothing else changes it; and it
/// is what the handler is handed with each event.
pub proof fn law_control_flow_is_the_handlers<T>(s: LoopState, reply: Reply<T>)
    requires
        machine::wf(s),
        machine::accepts(s, reply),
    ensures
        ({
            let (s2, action) = machine::next(s, reply);
            &&& laws::requested(s2) == (match reply {
                Reply::Handled(returned) if !(laws::requested(s) is ExitWithCode) => returned,
                _ => laws::requested(s),
            })
            &&& action matches Action::Dispatch { control_flow, .. } ==> control_flow
                == laws::requested(s2)
        }),
{
}

/// Nothing changes unasked: the settings of the loop and who drives it never do;
/// it counts as running until the handler is told that it ends; and why it goes on
/// is what the handler was last told.
pub proof fn law_nothing_else_changes<T>(s: LoopState, reply: Reply<T>)
    requires
        machine::wf(s),
        machine::accepts(s, reply),
    ensures
        ({
            let (s2, action) = machine::next(s, reply);
            &&& s2.ignore_volume_keys == s.ignore_volume_keys
            &&& s2.mode == s.mode
            &&& s2.loop_running == (s.loop_running && !(action matches Action::Dispatch {
                event: Event::LoopExiting,
                ..
            }))
            &&& s2.cause == (match action {
                Action::Dispatch { event: Event::NewEvents(cause), .. } => cause,
                _ => s.cause,
            })
        }),
{
}

/// What follows an event, once the handler has had it: the command's event is
/// followed by the input, a key by the answer to the system, a user event by the
/// next one, a resize by the redraw flag, a redraw by the last event of the
/// iteration.
pub proof fn law_events_are_followed_up<T>(s: LoopState, reply: Reply<T>, returned: ControlFlow)
    requires
        machine::wf(s),
        machine::accepts(s, reply),
    ensures
        ({
            let (told, action) = machine::next(s, reply);
            let then = machine::next(told, Reply::<T>::Handled(returned)).1;
            action matches Action::Dispatch { event, .. } ==> {
                &&& machine::accepts(told, Reply::<T>::Handled(returned))
                &&& match event {
                    Event::Resumed | Event::Suspended => then is OpenInput,
                    Event::UserEvent(_) => then is ReceiveUserEvent,
                    Event::WindowEvent { event, .. } => match event {
                        WindowEvent::Focused(_) | WindowEvent::ScaleFactorChanged {
                            ..
                        } => then is OpenInput,
                        WindowEvent::KeyboardInput { .. } => then == Action::<T>::AnswerInput(
                            InputStatus::Handled,
                        ),
                        WindowEvent::Resized(_) => then is TakeRedrawFlag,
                        WindowEvent::RedrawRequested => then matches Action::Dispatch {
                            event: Event::AboutToWait,
                            ..
                        },
                        WindowEvent::Touch(_) => then is Dispatch || then == Action::<
                            T,
                        >::AnswerInput(InputStatus::Handled),
                    },
                    _ => true,
                }
            }
        }),
{
}

/// The input is read to its end, then the user events: a queue that cannot be
/// opened counts as empty, and each event that was read is answered before the
/// next one is read.
pub proof fn law_input_is_read_to_its_end<T>(s: LoopState, reply: Reply<T>)
    requires
        machine::wf(s),
        machine::accepts(s, reply),
    ensures
        ({
            let action = machine::next(s, reply).1;
            match reply {
                Reply::InputOpened(opened) => if opened {
                    action is ReadInput
                } else {
                    action is ReceiveUserEvent
                },
                Reply::Input(None) => action is ReceiveUserEvent,
                Reply::Input(Some(InputEvent::Other)) => action == Action::<T>::AnswerInput(
                    InputStatus::Handled,
                ),
                Reply::Input(Some(InputEvent::Motion(motion))) => motion.action is Other
                    ==> action == Action::<T>::AnswerInput(InputStatus::Handled),
                Reply::Input(Some(InputEvent::Key(key))) => if key.keycode == 24 || key.keycode
                    == 25 || key.keycode == 164 {
                    action == Action::<T>::AnswerInput(
                        if s.ignore_volume_keys {
                            InputStatus::Unhandled
                        } else {
                            InputStatus::Handled
                        },
                    )
                } else {
                    action == (Action::<T>::MapKey {
                        key,
                        combining_accent: s.combining_accent,
                    })
                },
                _ => true,
            }
        }),
        machine::next(s, reply).1 is AnswerInput ==> {
            let answered = machine::next(s, reply).0;
            &&& machine::accepts(answered, Reply::<T>::Done)
            &&& machine::next(answered, Reply::<T>::Done).1 is ReadInput
        },
{
}

/// A key that is no volume key reaches the handler as it is: pressed exactly while
/// it goes down, repeated exactly when it is, with its code and with the character
/// that the character map gave for it. What the map leaves as dead key is kept.
pub proof fn law_key_reaches_handler<T>(
    s: LoopState,
    frame: Frame,
    key: KeyInput,
    key_char: Option<KeyMapChar>,
    combining_accent: Option<char>,
)
    requires
        s.phase == (Phase::Iterating { frame, stage: Stage::ReadingInput }),
        key.keycode != 24 && key.keycode != 25 && key.keycode != 164,
    ensures
        ({
            let asked = machine::next(s, Reply::<T>::Input(Some(InputEvent::Key(key))));
            let mapped = Reply::<T>::KeyMapped { key_char, combining_accent };
            let told = machine::next(asked.0, mapped);
            &&& machine::accepts(asked.0, mapped)
            &&& told.0.combining_accent == combining_accent
            &&& told.1 matches Action::Dispatch {
                event: Event::WindowEvent {
                    event: WindowEvent::KeyboardInput { event: reported, is_synthetic, .. },
                    ..
                },
                ..
            }
            &&& reported.state == if key.action is Down {
                ElementState::Pressed
            } else {
                ElementState::Released
            }
            &&& reported.keycode == key.keycode
            &&& reported.key_char == key_char
            &&& reported.repeat <==> key.repeat_count > 0
            &&& reported.text is None
            &&& !is_synthetic
        }),
{
}

/// `action` tells the handler that the pointer at `index` of `motion` is in
/// `phase`.
pub open spec fn tells_touch<T>(
    action: Action<T>,
    motion: MotionEvent,
    phase: TouchPhase,
    index: int,
) -> bool {
    let pointer = motion.pointers@[index];
    &&& action matches Action::Dispatch {
        event: Event::WindowEvent { event: WindowEvent::Touch(touch), .. },
        ..
    }
    &&& touch.phase == phase
    &&& touch.location == pointer.location
    &&& touch.id == if pointer.pointer_id >= 0 {
        pointer.pointer_id as int
    } else {
        pointer.pointer_id + 0x1_0000_0000_0000_0000
    }
    &&& touch.force is None
}

/// A finger that is put down or lifted is reported once, as the touch of that very
/// finger that starts or ends, and then the system is answered.
pub proof fn law_finger_down_or_up_is_told<T>(
    s: LoopState,
    frame: Frame,
    motion: MotionEvent,
    returned: ControlFlow,
)
    requires
        s.phase == (Phase::Iterating { frame, stage: Stage::ReadingInput }),
        motion.action is Down || motion.action is PointerDown || motion.action is Up
            || motion.action is PointerUp,
        motion.pointer_index < motion.pointers@.len(),
    ensures
        ({
            let told = machine::next(s, Reply::<T>::Input(Some(InputEvent::Motion(motion))));
            let phase = if motion.action is Down || motion.action is PointerDown {
                TouchPhase::Started
            } else {
                TouchPhase::Ended
            };
            &&& tells_touch(told.1, motion, phase, motion.pointer_index as int)
            &&& machine::accepts(told.0, Reply::<T>::Handled(returned))
            &&& machine::next(told.0, Reply::<T>::Handled(returned)).1 == Action::<
                T,
            >::AnswerInput(InputStatus::Handled)
        }),
{
}

/// The loop after it read `motion` and the handler left each of `returned` for
/// what it was told.
pub open spec fn after_touches<T>(
    s: LoopState,
    motion: MotionEvent,
    returned: Seq<ControlFlow>,
) -> (LoopState, Action<T>)
    decreases returned.len(),
{
    if returned.len() == 0 {
        machine::next(s, Reply::<T>::Input(Some(InputEvent::Motion(motion))))
    } else {
        machine::next(
            after_touches::<T>(s, motion, returned.drop_last()).0,
            Reply::<T>::Handled(returned.last()),
        )
    }
}

/// Fingers that move, or whose touches are cancelled, are reported one after the
/// other, each once and in the order of the motion; after the last one the system
/// is answered.
pub proof fn law_every_moving_finger_is_told<T>(
    s: LoopState,
    frame: Frame,
    motion: MotionEvent,
    returned: Seq<ControlFlow>,
)
    requires
        s.phase == (Phase::Iterating { frame, stage: Stage::ReadingInput }),
        motion.action is Move || motion.action is Cancel,
        returned.len() <= motion.pointers@.len(),
    ensures
        ({
            let (told, action) = after_touches::<T>(s, motion, returned);
            let phase = if motion.action is Move {
                TouchPhase::Moved
            } else {
                TouchPhase::Cancelled
            };
            if returned.len() < motion.pointers@.len() {
                &&& tells_touch(action, motion, phase, returned.len() as int)
                &&& told.phase matches Phase::Iterating { frame: frame2, stage }
                &&& stage == (Stage::Touching {
                    motion,
                    phase,
                    next: (returned.len() + 1) as usize,
                    end: motion.pointers@.len() as usize,
                })
            } else {
                action == Action::<T>::AnswerInput(InputStatus::Handled)
            }
        }),
    decreases returned.len(),
{
    if returned.len() > 0 {
        law_every_moving_finger_is_told::<T>(s, frame, motion, returned.drop_last());
    }
}

/// `limit` is how long a poll that begins at `start` may last: not at all where
/// there is work; else as long as both the handler's control flow and the caller,
/// who allows `timeout`, allow, and no shorter.
pub open spec fn is_limit(
    limit: Option<Duration>,
    work: bool,
    control_flow: ControlFlow,
    start: Instant,
    timeout: Option<Duration>,
) -> bool {
    if work || control_flow is Poll {
        limit matches Some(span) && span.nanos == 0
    } else {
        match control_flow {
            ControlFlow::WaitUntil(deadline) => {
                let rest = if deadline.nanos > start.nanos {
                    deadline.nanos - start.nanos
                } else {
                    0
                };
                limit matches Some(span) && span.nanos == (match timeout {
                    Some(allowed) if allowed.nanos < rest => allowed.nanos as int,
                    _ => rest,
                })
            },
            _ => limit == timeout,
        }
    }
}

/// How long the looper is polled: a running activity with a redraw or a user event
/// pending does not block, and all others sleep for exactly as long as the handler
/// and the caller allow.
pub proof fn law_poll_lasts_as_long_as_allowed<T>(
    s: LoopState,
    reply: Reply<T>,
    limit: Option<Duration>,
)
    requires
        machine::wf(s),
        machine::accepts(s, reply),
        machine::next(s, reply).1 == (Action::<T>::Poll { timeout: limit }),
    ensures
        ({
            let polling = machine::next(s, reply).0;
            let work = if s.phase is PollIncoming {
                reply == Reply::<T>::Incoming(true)
            } else {
                polling.running && polling.pending_redraw
            };
            match s.phase {
                Phase::PollFlag { timeout, start } | Phase::PollIncoming { timeout, start } => {
                    &&& is_limit(limit, work, s.control_flow, start, timeout)
                    &&& polling.phase == (Phase::Polling { start })
                },
                _ => false,
            }
        }),
{
    if let Phase::PollFlag { timeout, start } = s.phase {
        if let ControlFlow::WaitUntil(deadline) = s.control_flow {
            assert(0 <= crate::time::span_between(deadline, start) <= u128::MAX);
        }
    }
    if let Phase::PollIncoming { timeout, start } = s.phase {
        if let ControlFlow::WaitUntil(deadline) = s.control_flow {
            assert(0 <= crate::time::span_between(deadline, start) <= u128::MAX);
        }
    }
}

/// The way to a poll: the clock is read, then the redraw flag, then, by a running
/// activity without a redraw pending, the queue of user events is looked at, and
/// then the looper is polled. A redraw request that is found is kept.
pub proof fn law_way_to_a_poll<T>(
    s: LoopState,
    timeout: Option<Duration>,
    start: Instant,
    raised: bool,
    incoming: bool,
)
    requires
        machine::wf(s),
        s.phase == (Phase::PollClock { timeout }),
    ensures
        ({
            let timed = machine::next(s, Reply::<T>::Time(start));
            let read = machine::next(timed.0, Reply::<T>::RedrawFlag(raised));
            let looked = machine::next(read.0, Reply::<T>::Incoming(incoming));
            let owed = s.pending_redraw || raised;
            &&& timed.1 is TakeRedrawFlag
            &&& machine::accepts(timed.0, Reply::<T>::RedrawFlag(raised))
            &&& read.0.pending_redraw == owed
            &&& if s.running && !owed {
                &&& read.1 is LookForUserEvent
                &&& machine::accepts(read.0, Reply::<T>::Incoming(incoming))
                &&& looked.1 matches Action::Poll { timeout: limit }
                &&& is_limit(limit, incoming, s.control_flow, start, timeout)
                &&& looked.0.phase == (Phase::Polling { start })
                &&& looked.0.pending_redraw == owed
            } else {
                &&& read.1 matches Action::Poll { timeout: limit }
                &&& is_limit(limit, s.running && owed, s.control_flow, start, timeout)
                &&& read.0.phase == (Phase::Polling { start })
            }
        }),
{
    if let ControlFlow::WaitUntil(deadline) = s.control_flow {
        assert(0 <= crate::time::span_between(deadline, start) <= u128::MAX);
    }
}

/// The loop is on its way to a poll for which the caller allows `timeout`, or on
/// its way to its end.
spec fn heads_for_poll(s: LoopState, timeout: Option<Duration>) -> bool {
    match s.phase {
        Phase::Iterating { frame, .. } => frame.origin == (Origin::Start { timeout }),
        Phase::PollClock { timeout: allowed } => allowed == timeout,
        Phase::PollFlag { timeout: allowed, .. } => allowed == timeout,
        Phase::PollIncoming { timeout: allowed, .. } => allowed == timeout && s.running
            && !s.pending_redraw,
        Phase::Exiting { .. } | Phase::Idle => true,
        _ => false,
    }
}

proof fn lemma_heads_for_poll_step<T>(s: LoopState, reply: Reply<T>, timeout: Option<Duration>)
    requires
        machine::wf(s),
        machine::accepts(s, reply),
        heads_for_poll(s, timeout),
    ensures
        machine::next(s, reply).1 is Poll || heads_for_poll(machine::next(s, reply).0, timeout),
{
}

proof fn lemma_begin_pump_stands<T>(s: LoopState, mode: Mode, timeout: Option<Duration>)
    requires
        machine::wf(s),
        s.phase is Idle,
    ensures
        ({
            let begin = machine::begin_pump::<T>(machine::in_mode(s, mode), timeout);
            &&& machine::wf(begin.0)
            &&& machine::waits_for(begin.0, begin.1)
            &&& heads_for_poll(begin.0, timeout)
        }),
{
}

proof fn lemma_heads_for_poll<T>(
    s: LoopState,
    mode: Mode,
    timeout: Option<Duration>,
    replies: Seq<Reply<T>>,
)
    requires
        machine::wf(s),
        s.phase is Idle,
        trace::accepted(machine::begin_pump::<T>(machine::in_mode(s, mode), timeout), replies),
        forall|i: int|
            0 <= i <= replies.len() ==> !(trace::after(
                machine::begin_pump::<T>(machine::in_mode(s, mode), timeout),
                #[trigger] replies.take(i),
            ).1 is Poll),
    ensures
        heads_for_poll(
            trace::after(
                machine::begin_pump::<T>(machine::in_mode(s, mode), timeout),
                replies,
            ).0,
            timeout,
        ),
    decreases replies.len(),
{
    let begin = machine::begin_pump::<T>(machine::in_mode(s, mode), timeout);
    lemma_begin_pump_stands::<T>(s, mode, timeout);
    if replies.len() > 0 {
        let before = replies.drop_last();
        assert forall|i: int| 0 <= i <= before.len() implies !(trace::after(
            begin,
            #[trigger] before.take(i),
        ).1 is Poll) by {
            assert(before.take(i) =~= replies.take(i));
        }
        lemma_heads_for_poll(s, mode, timeout, before);
        laws::law_runs_keep_validity(begin, before);
        lemma_heads_for_poll_step(trace::after(begin, before).0, replies.last(), timeout);
        assert(replies.take(replies.len() as int) =~= replies);
    }
}

/// The poll of a pump keeps to the time that the caller of the pump allows, be it
/// the first pump, which starts the loop, or a later one, and whatever happens on
/// the way to the poll: it lasts no longer than that, and as long as that where
/// neither work nor the handler's control flow says otherwise.
pub proof fn law_pump_keeps_to_its_timeout<T>(
    s: LoopState,
    mode: Mode,
    timeout: Option<Duration>,
    replies: Seq<Reply<T>>,
    limit: Option<Duration>,
)
    requires
        machine::wf(s),
        s.phase is Idle,
        replies.len() > 0,
        trace::accepted(machine::begin_pump::<T>(machine::in_mode(s, mode), timeout), replies),
        forall|i: int|
            0 <= i < replies.len() ==> !(trace::after(
                machine::begin_pump::<T>(machine::in_mode(s, mode), timeout),
                #[trigger] replies.take(i),
            ).1 is Poll),
        trace::after(
            machine::begin_pump::<T>(machine::in_mode(s, mode), timeout),
            replies,
        ).1 == (Action::<T>::Poll { timeout: limit }),
    ensures
        ({
            let polling = trace::after(
                machine::begin_pump::<T>(machine::in_mode(s, mode), timeout),
                replies,
            ).0;
            let work = polling.running && (polling.pending_redraw || replies.last() == Reply::<
                T,
            >::Incoming(true));
            &&& polling.phase matches Phase::Polling { start }
            &&& is_limit(limit, work, polling.control_flow, start, timeout)
            &&& timeout matches Some(allowed) ==> (limit matches Some(span) && span.nanos
                <= allowed.nanos)
        }),
{
    let begin = machine::begin_pump::<T>(machine::in_mode(s, mode), timeout);
    let before = replies.drop_last();
    lemma_begin_pump_stands::<T>(s, mode, timeout);
    assert forall|i: int| 0 <= i <= before.len() implies !(trace::after(
        begin,
        #[trigger] before.take(i),
    ).1 is Poll) by {
        assert(before.take(i) =~= replies.take(i));
    }
    lemma_heads_for_poll(s, mode, timeout, before);
    laws::law_runs_keep_validity(begin, before);
    let s1 = trace::after(begin, before).0;
    law_poll_lasts_as_long_as_allowed(s1, replies.last(), limit);
    law_control_flow_is_the_handlers(s1, replies.last());
}

/// The loop is at no point of a run at which a caller's timeout counts.
spec fn has_no_timeout(s: LoopState) -> bool {
    match s.phase {
        Phase::Iterating { frame, .. } => frame.origin == (Origin::Start { timeout: None })
            || frame.origin is Poll,
        Phase::PollClock { timeout } => timeout is None,
        Phase::PollFlag { timeout, .. } => timeout is None,
        Phase::PollIncoming { timeout, .. } => timeout is None && s.running && !s.pending_redraw,
        _ => true,
    }
}

proof fn lemma_no_timeout_step<T>(s: LoopState, reply: Reply<T>)
    requires
        machine::wf(s),
        machine::accepts(s, reply),
        s.mode is Run,
        has_no_timeout(s),
    ensures
        has_no_timeout(machine::next(s, reply).0),
        machine::next(s, reply).0.mode is Run,
{
}

proof fn lemma_no_timeout<T>(s: LoopState, replies: Seq<Reply<T>>)
    requires
        machine::wf(s),
        s.phase is Idle,
        trace::accepted(machine::begin_pump::<T>(machine::in_mode(s, Mode::Run), None), replies),
    ensures
        ({
            let last = trace::after(
                machine::begin_pump::<T>(machine::in_mode(s, Mode::Run), None),
                replies,
            ).0;
            has_no_timeout(last) && last.mode is Run
        }),
    decreases replies.len(),
{
    let begin = machine::begin_pump::<T>(machine::in_mode(s, Mode::Run), None);
    lemma_begin_pump_stands::<T>(s, Mode::Run, None);
    if replies.len() > 0 {
        lemma_no_timeout(s, replies.drop_last());
        laws::law_runs_keep_validity(begin, replies.drop_last());
        lemma_no_timeout_step(trace::after(begin, replies.drop_last()).0, replies.last());
    }
}

/// In a run, which has no caller to say otherwise, every poll lasts exactly as
/// long as the handler's control flow allows while there is no work.
pub proof fn law_run_sleeps_as_the_handler_says<T>(
    s: LoopState,
    replies: Seq<Reply<T>>,
    limit: Option<Duration>,
)
    requires
        machine::wf(s),
        s.phase is Idle,
        replies.len() > 0,
        trace::accepted(machine::begin_pump::<T>(machine::in_mode(s, Mode::Run), None), replies),
        trace::after(
            machine::begin_pump::<T>(machine::in_mode(s, Mode::Run), None),
            replies,
        ).1 == (Action::<T>::Poll { timeout: limit }),
    ensures
        ({
            let polling = trace::after(
                machine::begin_pump::<T>(machine::in_mode(s, Mode::Run), None),
                replies,
            ).0;
            let work = polling.running && (polling.pending_redraw || replies.last() == Reply::<
                T,
            >::Incoming(true));
            &&& polling.phase matches Phase::Polling { start }
            &&& is_limit(limit, work, polling.control_flow, start, None)
        }),
{
    let begin = machine::begin_pump::<T>(machine::in_mode(s, Mode::Run), None);
    let before = replies.drop_last();
    lemma_begin_pump_stands::<T>(s, Mode::Run, None);
    lemma_no_timeout(s, before);
    laws::law_runs_keep_validity(begin, before);
    let s1 = trace::after(begin, before).0;
    law_poll_lasts_as_long_as_allowed(s1, replies.last(), limit);
    law_control_flow_is_the_handlers(s1, replies.last());
}

/// How a pump begins. A loop that is not running is started: the handler is told
/// so, with a control flow of its own to set out from, and nothing that an earlier
/// run left is owed to it. A loop that is running goes on as it is.
pub proof fn law_pump_begins<T>(s: LoopState, mode: Mode, timeout: Option<Duration>)
    requires
        machine::wf(s),
        s.phase is Idle,
    ensures
        ({
            let (begun, action) = machine::begin_pump::<T>(machine::in_mode(s, mode), timeout);
            &&& begun.mode == mode
            &&& begun.loop_running
            &&& begun.running == s.running
            &&& begun.ignore_volume_keys == s.ignore_volume_keys
            &&& begun.combining_accent == s.combining_accent
            &&& if s.loop_running {
                &&& action is QueryTime
                &&& begun.phase == (Phase::PollClock { timeout })
                &&& begun.pending_redraw == s.pending_redraw
                &&& begun.control_flow == s.control_flow
                &&& begun.cause == s.cause
            } else {
                &&& action matches Action::Dispatch { event: Event::NewEvents(cause), control_flow }
                &&& cause is Init
                &&& control_flow is Poll
                &&& begun.cause is Init
                &&& begun.phase matches Phase::Iterating { frame, stage }
                &&& stage matches Stage::NewEvents { main_event }
                &&& main_event is None
                &&& frame.origin == (Origin::Start { timeout })
                &&& frame.control_flow is Poll
                &&& !frame.pending_redraw
                &&& !frame.resized
            }
        }),
{
}

/// A new loop has not started, its activity does not run yet, and nothing is owed
/// to anybody.
pub proof fn law_new_loop_is_at_rest(ignore_volume_keys: bool)
    ensures
        ({
            let s = machine::initial(ignore_volume_keys);
            &&& s.phase is Idle
            &&& !s.loop_running
            &&& !s.running
            &&& !s.pending_redraw
            &&& s.control_flow is Poll
            &&& s.cause is Init
            &&& s.combining_accent is None
            &&& s.ignore_volume_keys == ignore_volume_keys
        }),
{
}

/// How an iteration ends: one that a poll led to returns to that poll; the first
/// one of the loop goes on to the poll of its pump, or to the end of the loop
/// where the handler asked for it. What the handler asked for, and whether a redraw
/// is still pending, is kept.
pub proof fn law_iteration_ends<T>(s: LoopState, frame: Frame, returned: ControlFlow)
    requires
        s.phase == (Phase::Iterating { frame, stage: Stage::AboutToWait }),
    ensures
        ({
            let (ended, action) = machine::next(s, Reply::<T>::Handled(returned));
            let wanted = if frame.control_flow is ExitWithCode {
                frame.control_flow
            } else {
                returned
            };
            &&& ended.control_flow == wanted
            &&& ended.pending_redraw == frame.pending_redraw
            &&& match frame.origin {
                Origin::Poll { start } => action is PollHandled && ended.phase == (Phase::Polling {
                    start,
                }),
                Origin::Start { timeout } => if wanted is ExitWithCode {
                    action matches Action::Dispatch { event: Event::LoopExiting, .. }
                } else {
                    action is QueryTime && ended.phase == (Phase::PollClock { timeout })
                },
            }
        }),
{
}

/// How a poll ends: with the end of the loop where the handler asked for it, and
/// else with the end of the pump, or in a run with the next poll.
pub proof fn law_poll_ends<T>(s: LoopState)
    requires
        machine::wf(s),
        s.phase is Polling,
    ensures
        ({
            let (ended, action) = machine::next(s, Reply::<T>::PollReturned);
            &&& machine::accepts(s, Reply::<T>::PollReturned)
            &&& ended.pending_redraw == s.pending_redraw
            &&& match s.control_flow {
                ControlFlow::ExitWithCode(code) => {
                    &&& action matches Action::Dispatch { event: Event::LoopExiting, .. }
                    &&& ended.phase == (Phase::Exiting { code })
                },
                _ => match s.mode {
                    Mode::Pump => {
                        &&& action == Action::<T>::PumpFinished(PumpStatus::Continue)
                        &&& ended.phase is Idle
                    },
                    Mode::Run => {
                        &&& action is QueryTime
                        &&& ended.phase == (Phase::PollClock { timeout: None })
                    },
                },
            }
        }),
{
}

/// How the loop ends, once the handler has been told: a pump reports the code, and
/// a run success where the code is zero and else a failure with the code.
pub proof fn law_loop_ends<T>(s: LoopState, code: i32, returned: ControlFlow)
    requires
        machine::wf(s),
        s.phase == (Phase::Exiting { code }),
    ensures
        ({
            let (ended, action) = machine::next(s, Reply::<T>::Handled(returned));
            &&& machine::accepts(s, Reply::<T>::Handled(returned))
            &&& ended.phase is Idle
            &&& !ended.loop_running
            &&& match s.mode {
                Mode::Pump => action == Action::<T>::PumpFinished(PumpStatus::Exit(code)),
                Mode::Run => action matches Action::RunFinished(res) && if code == 0 {
                    res is Ok
                } else {
                    res matches Err(error) && error == EventLoopError::ExitFailure(code)
                },
            }
        }),
{
}

/// When the poll began that the loop is on its way into, in, or on its way out of.
pub open spec fn poll_start(s: LoopState) -> Option<Instant> {
    match s.phase {
        Phase::PollFlag { start, .. } => Some(start),
        Phase::PollIncoming { start, .. } => Some(start),
        Phase::Polling { start } => Some(start),
        Phase::WakeFlag { start } => Some(start),
        Phase::WakeIncoming { start } => Some(start),
        Phase::ResumeClock { start, .. } => Some(start),
        Phase::Iterating { frame, .. } => match frame.origin {
            Origin::Poll { start } => Some(start),
            Origin::Start { .. } => None,
        },
        _ => None,
    }
}

/// A poll begins when the clock is read for it, and the loop remembers that time
/// until the poll is over; whatever the handler is told of a wait, it is told that
/// the wait began then.
pub proof fn law_start_of_poll_is_remembered<T>(s: LoopState, reply: Reply<T>)
    requires
        machine::wf(s),
        machine::accepts(s, reply),
    ensures
        ({
            let (s2, action) = machine::next(s, reply);
            &&& s.phase is PollClock ==> (reply matches Reply::Time(now) && poll_start(s2) == Some(
                now,
            ))
            &&& poll_start(s) is Some && !(reply is PollReturned) ==> poll_start(s2) == poll_start(s)
            &&& action matches Action::Dispatch { event: Event::NewEvents(cause), .. } ==> (
            match cause {
                StartCause::WaitCancelled { start, .. } => poll_start(s2) == Some(start),
                StartCause::ResumeTimeReached { start, .. } => poll_start(s2) == Some(start),
                _ => true,
            })
        }),
{
}

/// A pump polls once: after its poll has begun, nothing leads to another one.
pub proof fn law_pump_polls_once<T>(s: LoopState, reply: Reply<T>)
    requires
        machine::wf(s),
        machine::accepts(s, reply),
        s.mode is Pump,
        s.phase is Polling || s.phase is WakeFlag || s.phase is WakeIncoming || s.phase is ResumeClock
            || s.phase is Exiting || (s.phase is Iterating && s.phase->frame.origin is Poll),
    ensures
        ({
            let (s2, action) = machine::next(s, reply);
            &&& !(action is Poll)
            &&& s2.phase is Polling || s2.phase is WakeFlag || s2.phase is WakeIncoming
                || s2.phase is ResumeClock || s2.phase is Exiting || s2.phase is Idle || (s2.phase
                is Iterating && s2.phase->frame.origin is Poll)
        }),
{
}

/// Whatever an action asks for may come: the loop accepts any answer of the handler
/// to an event, any density, any window or none, any time, whatever the poll
/// brings unless an exit was requested, and any input but one that names a pointer
/// that it does not have.
pub proof fn law_answers_are_accepted<T>(s: LoopState, reply: Reply<T>, answer: Reply<T>)
    requires
        machine::wf(s),
        machine::accepts(s, reply),
    ensures
        ({
            let (s2, action) = machine::next(s, reply);
            machine::accepts(s2, answer) <==> match (action, answer) {
                (Action::Dispatch { .. }, Reply::Handled(_)) => true,
                (Action::StoreFocus(_), Reply::Done) => true,
                (Action::AnswerInput(_), Reply::Done) => true,
                (Action::QueryDensity, Reply::Density(_)) => true,
                (Action::QueryNativeWindow, Reply::NativeWindow(_)) => true,
                (Action::OpenInput, Reply::InputOpened(_)) => true,
                (Action::ReadInput, Reply::Input(None)) => true,
                (Action::ReadInput, Reply::Input(Some(InputEvent::Motion(motion)))) =>
                    motion.pointer_index < motion.pointers@.len() || motion.action is Move
                        || motion.action is Cancel || motion.action is Other,
                (Action::ReadInput, Reply::Input(Some(_))) => true,
                (Action::MapKey { .. }, Reply::KeyMapped { .. }) => true,
                (Action::ReceiveUserEvent, Reply::UserEvent(_)) => true,
                (Action::TakeRedrawFlag, Reply::RedrawFlag(_)) => true,
                (Action::LookForUserEvent, Reply::Incoming(_)) => true,
                (Action::QueryTime, Reply::Time(_)) => true,
                (Action::Poll { .. }, Reply::PollReturned) => true,
                (Action::Poll { .. }, Reply::PollEvent(_)) => !(s2.control_flow is ExitWithCode),
                (Action::PollHandled, Reply::PollReturned) => true,
                (Action::PollHandled, Reply::PollEvent(_)) => !(s2.control_flow is ExitWithCode),
                _ => false,
            }
        }),
{
    machine::law_step_keeps_validity(s, reply);
    assert(machine::accepts(machine::next(s, reply).0, answer) <==> machine::answers(
        machine::next(s, reply).1,
        answer,
    ) && machine::admissible(machine::next(s, reply).0, answer));
}

} // verus!
