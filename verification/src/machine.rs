//! The loop as a state machine.
//!
//! [`LoopState`] never does outside work itself. Each step ends with an
//! [`Action`], the one thing that has to be done next, and is resumed with the
//! [`Reply`] that came of it.

use vstd::prelude::*;

use crate::dpi::{scale_factor, window_size, NativeWindow, ScaleFactor};
use crate::event::{
    sticky_exit, ControlFlow, Event, EventLoopError, KeyMapChar, PumpStatus, StartCause, TouchPhase,
    WindowEvent, WindowId,
};
use crate::input::{
    is_valid_input, plan_input_event, report_key, report_touch, InputEvent, InputPlan, InputStatus, KeyInput,
    MotionEvent,
};
use crate::time::{min_timeout, Duration, Instant};
use crate::{dpi, event, input, time};

verus! {

/// A command of the system to the application's main thread.
#[derive(Clone, Copy, Debug, PartialEq, Eq, Structural)]
pub enum MainEvent {
    InitWindow,
    TerminateWindow,
    WindowResized,
    RedrawNeeded,
    ContentRectChanged,
    GainedFocus,
    LostFocus,
    ConfigChanged,
    LowMemory,
    Start,
    Resume,
    SaveState,
    Pause,
    Stop,
    Destroy,
    InsetsChanged,
    /// Input is available, and commands of later versions of the system.
    Other,
}

/// What ended a poll of the system's looper.
#[derive(Clone, Copy, Debug, PartialEq, Eq, Structural)]
pub enum PollEvent {
    Wake,
    Timeout,
    Main(MainEvent),
    /// Events of later versions of the system.
    Other,
}

/// Who drives the loop.
#[derive(Clone, Copy, Debug, PartialEq, Eq, Structural)]
pub enum Mode {
    /// The application, one pump at a time.
    Pump,
    /// The loop itself, until it exits.
    Run,
}

/// What an iteration of the loop was started by.
#[derive(Clone, Copy, Debug, PartialEq, Eq)]
pub enum Origin {
    /// The start of the loop, in a pump with this timeout.
    Start { timeout: Option<Duration> },
    /// Something that a poll brought; the poll began at `start`.
    Poll { start: Instant },
}

/// What an iteration of the loop has gathered so far.
#[derive(Clone, Copy, Debug, PartialEq, Eq)]
pub struct Frame {
    pub origin: Origin,
    pub control_flow: ControlFlow,
    pub pending_redraw: bool,
    pub resized: bool,
}

/// What an iteration of the loop is waiting for.
#[derive(Debug, PartialEq, Eq)]
pub enum Stage {
    /// The handler, which got the first event of the iteration.
    NewEvents { main_event: Option<MainEvent> },
    /// The focus of the window to be noted.
    StoringFocus { focused: bool },
    /// The density of the screen as it was.
    OldDensity,
    /// The density of the screen as it is.
    NewDensity { old_scale: ScaleFactor },
    /// The size of the window, to report it with the new density.
    ConfigSize { scale: ScaleFactor },
    /// The handler, which got the event that stands for a command.
    MainEvent,
    /// The queue of input events to be opened.
    OpeningInput,
    /// The next input event.
    ReadingInput,
    /// The handler, which got a touch; more may follow.
    Touching { motion: MotionEvent, phase: TouchPhase, next: usize, end: usize },
    /// The character map, which was asked about a key.
    MappingKey { key: KeyInput },
    /// The handler, which got a key.
    Key,
    /// The system to take the answer to an input event.
    AnsweringInput,
    /// The next user event.
    ReadingUserEvents,
    /// The handler, which got a user event.
    UserEvent,
    /// The size of the window, which was resized.
    ResizedSize,
    /// The handler, which got the new size.
    Resized,
    /// The redraw flag.
    RedrawFlag,
    /// The handler, which was asked to redraw.
    Redraw,
    /// The handler, which got the last event of the iteration.
    AboutToWait,
}

/// Where the loop stands.
#[derive(Debug, PartialEq, Eq)]
pub enum Phase {
    /// Between two pumps.
    Idle,
    /// In an iteration.
    Iterating { frame: Frame, stage: Stage },
    /// Before a poll: waiting for the time.
    PollClock { timeout: Option<Duration> },
    /// Before a poll: waiting for the redraw flag.
    PollFlag { timeout: Option<Duration>, start: Instant },
    /// Before a poll: waiting to hear whether a user event is there.
    PollIncoming { timeout: Option<Duration>, start: Instant },
    /// In a poll.
    Polling { start: Instant },
    /// Woken up: waiting for the redraw flag.
    WakeFlag { start: Instant },
    /// Woken up: waiting to hear whether a user event is there.
    WakeIncoming { start: Instant },
    /// About to start an iteration: waiting for the time.
    ResumeClock { start: Instant, deadline: Instant, main_event: Option<MainEvent> },
    /// The handler was told that the loop ends.
    Exiting { code: i32 },
}

/// The one thing that has to be done next.
#[derive(Debug, PartialEq, Eq)]
pub enum Action<T> {
    /// Call the handler with this event and a copy of this control flow;
    /// reply with what it left there ([`Reply::Handled`]).
    Dispatch { event: Event<T>, control_flow: ControlFlow },
    /// Note whether the window has the focus ([`Reply::Done`]).
    StoreFocus(bool),
    /// Read the density of the screen ([`Reply::Density`]).
    QueryDensity,
    /// Read the size of the native window ([`Reply::NativeWindow`]).
    QueryNativeWindow,
    /// Open the queue of input events ([`Reply::InputOpened`]).
    OpenInput,
    /// Read the next input event ([`Reply::Input`]).
    ReadInput,
    /// Look a key up in the character map ([`Reply::KeyMapped`]).
    MapKey { key: KeyInput, combining_accent: Option<char> },
    /// Answer the input event that was read last ([`Reply::Done`]).
    AnswerInput(InputStatus),
    /// Take the next user event ([`Reply::UserEvent`]).
    ReceiveUserEvent,
    /// Read and lower the redraw flag ([`Reply::RedrawFlag`]).
    TakeRedrawFlag,
    /// Find out whether a user event is there ([`Reply::Incoming`]).
    LookForUserEvent,
    /// Read the clock ([`Reply::Time`]).
    QueryTime,
    /// Poll the system's looper, for no longer than `timeout`
    /// ([`Reply::PollEvent`] for each event, then [`Reply::PollReturned`]).
    Poll { timeout: Option<Duration> },
    /// Return to the looper from the event that it brought (replies as for
    /// [`Action::Poll`]).
    PollHandled,
    /// The pump has ended. There is no reply.
    PumpFinished(PumpStatus),
    /// The run has ended. There is no reply.
    RunFinished(Result<(), EventLoopError>),
}

/// What came of an [`Action`].
#[derive(Debug, PartialEq, Eq)]
pub enum Reply<T> {
    Handled(ControlFlow),
    Done,
    Density(Option<u32>),
    NativeWindow(Option<NativeWindow>),
    InputOpened(bool),
    Input(Option<InputEvent>),
    KeyMapped { key_char: Option<KeyMapChar>, combining_accent: Option<char> },
    UserEvent(Option<T>),
    RedrawFlag(bool),
    Incoming(bool),
    Time(Instant),
    PollEvent(PollEvent),
    PollReturned,
}

/// The loop between two pieces of outside work.
#[derive(Debug, PartialEq, Eq)]
pub struct LoopState {
    /// The handler has been told that the loop starts, and not yet that it ends.
    pub loop_running: bool,
    /// The activity is resumed, not paused.
    pub running: bool,
    pub pending_redraw: bool,
    pub control_flow: ControlFlow,
    pub cause: StartCause,
    pub ignore_volume_keys: bool,
    /// The dead key that waits for the key that it combines with.
    pub combining_accent: Option<char>,
    pub mode: Mode,
    pub phase: Phase,
}

/// The control flow asks for the end of the loop.
pub open spec fn exits(control_flow: ControlFlow) -> bool {
    control_flow is ExitWithCode
}

/// `s` at `stage` of the iteration `frame`.
pub open spec fn at(s: LoopState, frame: Frame, stage: Stage) -> LoopState {
    LoopState { phase: Phase::Iterating { frame, stage }, ..s }
}

/// The handler is called with `event`; the loop waits for it at `stage`.
pub open spec fn dispatch<T>(s: LoopState, frame: Frame, stage: Stage, event: Event<T>) -> (
    LoopState,
    Action<T>,
) {
    (at(s, frame, stage), Action::Dispatch { event, control_flow: frame.control_flow })
}

/// An event of the window.
pub open spec fn window_event<T>(event: WindowEvent) -> Event<T> {
    Event::WindowEvent { window_id: WindowId, event }
}

/// An iteration begins, with [`Event::NewEvents`].
pub open spec fn begin_iteration<T>(
    s: LoopState,
    main_event: Option<MainEvent>,
    origin: Origin,
) -> (LoopState, Action<T>) {
    dispatch(
        s,
        Frame {
            origin,
            control_flow: s.control_flow,
            pending_redraw: s.pending_redraw,
            resized: false,
        },
        Stage::NewEvents { main_event },
        Event::NewEvents(s.cause),
    )
}

/// What a command of the system leads to.
pub open spec fn on_main_event<T>(s: LoopState, frame: Frame, main_event: Option<MainEvent>) -> (
    LoopState,
    Action<T>,
) {
    match main_event {
        Some(MainEvent::InitWindow) => dispatch(s, frame, Stage::MainEvent, Event::Resumed),
        Some(MainEvent::TerminateWindow) => dispatch(s, frame, Stage::MainEvent, Event::Suspended),
        Some(MainEvent::WindowResized) => open_input(s, Frame { resized: true, ..frame }),
        Some(MainEvent::RedrawNeeded) => open_input(s, Frame { pending_redraw: true, ..frame }),
        Some(MainEvent::GainedFocus) => (
            at(s, frame, Stage::StoringFocus { focused: true }),
            Action::StoreFocus(true),
        ),
        Some(MainEvent::LostFocus) => (
            at(s, frame, Stage::StoringFocus { focused: false }),
            Action::StoreFocus(false),
        ),
        Some(MainEvent::ConfigChanged) => (at(s, frame, Stage::OldDensity), Action::QueryDensity),
        Some(MainEvent::Resume) => open_input(LoopState { running: true, ..s }, frame),
        Some(MainEvent::Pause) => open_input(LoopState { running: false, ..s }, frame),
        _ => open_input(s, frame),
    }
}

/// The queue of input events is to be opened.
pub open spec fn open_input<T>(s: LoopState, frame: Frame) -> (LoopState, Action<T>) {
    (at(s, frame, Stage::OpeningInput), Action::OpenInput)
}

/// The next input event is to be read.
pub open spec fn read_input<T>(s: LoopState, frame: Frame) -> (LoopState, Action<T>) {
    (at(s, frame, Stage::ReadingInput), Action::ReadInput)
}

/// The system is answered about an input event.
pub open spec fn answer_input<T>(s: LoopState, frame: Frame, status: InputStatus) -> (
    LoopState,
    Action<T>,
) {
    (at(s, frame, Stage::AnsweringInput), Action::AnswerInput(status))
}

/// The touches of the pointers from `next` up to `end` are dispatched one
/// after the other; then the motion has been handled.
pub open spec fn next_touch<T>(
    s: LoopState,
    frame: Frame,
    motion: MotionEvent,
    phase: TouchPhase,
    next: usize,
    end: usize,
) -> (LoopState, Action<T>) {
    if next < end {
        dispatch(
            s,
            frame,
            Stage::Touching { motion, phase, next: (next + 1) as usize, end },
            input::touch_event(phase, motion.pointers@[next as int]),
        )
    } else {
        answer_input(s, frame, InputStatus::Handled)
    }
}

/// What an input event leads to.
pub open spec fn on_input<T>(s: LoopState, frame: Frame, event: InputEvent) -> (
    LoopState,
    Action<T>,
) {
    match input::plan_for(event, s.ignore_volume_keys) {
        InputPlan::Touches { motion, phase, next, end } => next_touch(
            s,
            frame,
            motion,
            phase,
            next,
            end,
        ),
        InputPlan::Key(key) => (
            at(s, frame, Stage::MappingKey { key }),
            Action::MapKey { key, combining_accent: s.combining_accent },
        ),
        InputPlan::Answer(status) => answer_input(s, frame, status),
    }
}

/// The next user event is to be taken.
pub open spec fn read_user_event<T>(s: LoopState, frame: Frame) -> (LoopState, Action<T>) {
    (at(s, frame, Stage::ReadingUserEvents), Action::ReceiveUserEvent)
}

/// The end of an iteration: while the activity is running, a resize is
/// reported and a pending redraw is carried out.
pub open spec fn on_events_drained<T>(s: LoopState, frame: Frame) -> (LoopState, Action<T>) {
    if !s.running {
        about_to_wait(s, frame)
    } else if frame.resized {
        (at(s, frame, Stage::ResizedSize), Action::QueryNativeWindow)
    } else {
        take_redraw_flag(s, frame)
    }
}

/// The redraw flag is to be read.
pub open spec fn take_redraw_flag<T>(s: LoopState, frame: Frame) -> (LoopState, Action<T>) {
    (at(s, frame, Stage::RedrawFlag), Action::TakeRedrawFlag)
}

/// A redraw that was asked for in any way is carried out, and then no longer
/// pending.
pub open spec fn on_redraw_flag<T>(s: LoopState, frame: Frame, raised: bool) -> (
    LoopState,
    Action<T>,
) {
    if frame.pending_redraw || raised {
        dispatch(
            s,
            Frame { pending_redraw: false, ..frame },
            Stage::Redraw,
            window_event(WindowEvent::RedrawRequested),
        )
    } else {
        about_to_wait(s, frame)
    }
}

/// The last event of an iteration.
pub open spec fn about_to_wait<T>(s: LoopState, frame: Frame) -> (LoopState, Action<T>) {
    dispatch(s, frame, Stage::AboutToWait, Event::AboutToWait)
}

/// An iteration is over; what it gathered is kept.
pub open spec fn end_iteration<T>(s: LoopState, frame: Frame) -> (LoopState, Action<T>) {
    let kept = LoopState {
        control_flow: frame.control_flow,
        pending_redraw: frame.pending_redraw,
        ..s
    };
    match frame.origin {
        Origin::Start { timeout } => poll_or_finish(kept, timeout),
        Origin::Poll { start } => (
            LoopState { phase: Phase::Polling { start }, ..kept },
            Action::PollHandled,
        ),
    }
}

/// A pump polls, unless the loop is to end.
pub open spec fn poll_or_finish<T>(s: LoopState, timeout: Option<Duration>) -> (
    LoopState,
    Action<T>,
) {
    if exits(s.control_flow) {
        finish(s)
    } else {
        (LoopState { phase: Phase::PollClock { timeout }, ..s }, Action::QueryTime)
    }
}

/// How long a poll that begins at `start` may last by the control flow alone.
pub open spec fn control_flow_timeout(control_flow: ControlFlow, start: Instant) -> Option<
    Duration,
> {
    match control_flow {
        ControlFlow::WaitUntil(deadline) => Some(
            Duration { nanos: time::span_between(deadline, start) as u128 },
        ),
        ControlFlow::Poll => Some(Duration { nanos: 0 }),
        _ => None,
    }
}

/// The looper is polled.
pub open spec fn poll<T>(s: LoopState, start: Instant, timeout: Option<Duration>) -> (
    LoopState,
    Action<T>,
) {
    (LoopState { phase: Phase::Polling { start }, ..s }, Action::Poll { timeout })
}

/// The looper is polled without blocking, since there is work to do.
pub open spec fn poll_at_once<T>(s: LoopState, start: Instant) -> (LoopState, Action<T>) {
    poll(s, start, Some(Duration { nanos: 0 }))
}

/// The looper is polled for as long as the control flow and the caller allow.
pub open spec fn poll_idle<T>(s: LoopState, start: Instant, timeout: Option<Duration>) -> (
    LoopState,
    Action<T>,
) {
    poll(s, start, time::least_timeout(control_flow_timeout(s.control_flow, start), timeout))
}

/// The looper is returned to; the loop does not iterate.
pub open spec fn ignore_wake<T>(s: LoopState, start: Instant) -> (LoopState, Action<T>) {
    (LoopState { phase: Phase::Polling { start }, ..s }, Action::PollHandled)
}

/// A poll that began at `start` leads to an iteration.
pub open spec fn iterate<T>(s: LoopState, start: Instant, main_event: Option<MainEvent>) -> (
    LoopState,
    Action<T>,
) {
    match s.control_flow {
        ControlFlow::WaitUntil(deadline) => (
            LoopState { phase: Phase::ResumeClock { start, deadline, main_event }, ..s },
            Action::QueryTime,
        ),
        ControlFlow::Wait => begin_iteration(
            LoopState { cause: StartCause::WaitCancelled { start, requested_resume: None }, ..s },
            main_event,
            Origin::Poll { start },
        ),
        _ => begin_iteration(
            LoopState { cause: StartCause::Poll, ..s },
            main_event,
            Origin::Poll { start },
        ),
    }
}

/// Why the loop goes on at `now` after a wait from `start` to at most `deadline`.
pub open spec fn cause_at(now: Instant, start: Instant, deadline: Instant) -> StartCause {
    if now.nanos < deadline.nanos {
        StartCause::WaitCancelled { start, requested_resume: Some(deadline) }
    } else {
        StartCause::ResumeTimeReached { start, requested_resume: deadline }
    }
}

/// A pump is over: the loop ends if that was asked for, else it goes on with
/// the next pump, which a run starts at once.
pub open spec fn finish<T>(s: LoopState) -> (LoopState, Action<T>) {
    match s.control_flow {
        ControlFlow::ExitWithCode(code) => (
            LoopState { loop_running: false, phase: Phase::Exiting { code }, ..s },
            Action::Dispatch { event: Event::LoopExiting, control_flow: s.control_flow },
        ),
        _ => match s.mode {
            Mode::Pump => (
                LoopState { phase: Phase::Idle, ..s },
                Action::PumpFinished(PumpStatus::Continue),
            ),
            Mode::Run => (
                LoopState { phase: Phase::PollClock { timeout: None }, ..s },
                Action::QueryTime,
            ),
        },
    }
}

/// What a run that ends with `code` returns.
pub open spec fn run_result(code: i32) -> Result<(), EventLoopError> {
    if code == 0 {
        Ok(())
    } else {
        Err(EventLoopError::ExitFailure(code))
    }
}

/// The loop has ended with `code`.
pub open spec fn exited<T>(s: LoopState, code: i32) -> (LoopState, Action<T>) {
    (
        LoopState { phase: Phase::Idle, ..s },
        match s.mode {
            Mode::Pump => Action::PumpFinished(PumpStatus::Exit(code)),
            Mode::Run => Action::RunFinished(run_result(code)),
        },
    )
}

/// The iteration `frame` after the handler left `returned`.
pub open spec fn after_handler(frame: Frame, returned: ControlFlow) -> Frame {
    Frame { control_flow: event::sticky(frame.control_flow, returned), ..frame }
}

/// What an iteration does with a reply.
pub open spec fn next_in_iteration<T>(s: LoopState, frame: Frame, stage: Stage, reply: Reply<T>) -> (
    LoopState,
    Action<T>,
) {
    match (stage, reply) {
        (Stage::NewEvents { main_event }, Reply::Handled(returned)) => on_main_event(
            s,
            after_handler(frame, returned),
            main_event,
        ),
        (Stage::StoringFocus { focused }, Reply::Done) => dispatch(
            s,
            frame,
            Stage::MainEvent,
            window_event(WindowEvent::Focused(focused)),
        ),
        (Stage::OldDensity, Reply::Density(density)) => (
            at(s, frame, Stage::NewDensity { old_scale: dpi::scale_of_density(density) }),
            Action::QueryDensity,
        ),
        (Stage::NewDensity { old_scale }, Reply::Density(density)) => if dpi::scale_of_density(density)
            == old_scale {
            (
                at(s, frame, Stage::ConfigSize { scale: dpi::scale_of_density(density) }),
                Action::QueryNativeWindow,
            )
        } else {
            open_input(s, frame)
        },
        (Stage::ConfigSize { scale }, Reply::NativeWindow(window)) => dispatch(
            s,
            frame,
            Stage::MainEvent,
            window_event(
                WindowEvent::ScaleFactorChanged {
                    scale_factor: scale,
                    new_inner_size: dpi::size_of_window(window),
                },
            ),
        ),
        (Stage::MainEvent, Reply::Handled(returned)) => open_input(
            s,
            after_handler(frame, returned),
        ),
        (Stage::OpeningInput, Reply::InputOpened(opened)) => if opened {
            read_input(s, frame)
        } else {
            read_user_event(s, frame)
        },
        (Stage::ReadingInput, Reply::Input(Some(event))) => on_input(s, frame, event),
        (Stage::ReadingInput, Reply::Input(None)) => read_user_event(s, frame),
        (Stage::Touching { motion, phase, next, end }, Reply::Handled(returned)) => next_touch(
            s,
            after_handler(frame, returned),
            motion,
            phase,
            next,
            end,
        ),
        (Stage::MappingKey { key }, Reply::KeyMapped { key_char, combining_accent }) => dispatch(
            LoopState { combining_accent, ..s },
            frame,
            Stage::Key,
            input::key_event(key, key_char),
        ),
        (Stage::Key, Reply::Handled(returned)) => answer_input(
            s,
            after_handler(frame, returned),
            InputStatus::Handled,
        ),
        (Stage::AnsweringInput, Reply::Done) => read_input(s, frame),
        (Stage::ReadingUserEvents, Reply::UserEvent(Some(event))) => dispatch(
            s,
            frame,
            Stage::UserEvent,
            Event::UserEvent(event),
        ),
        (Stage::ReadingUserEvents, Reply::UserEvent(None)) => on_events_drained(s, frame),
        (Stage::UserEvent, Reply::Handled(returned)) => read_user_event(
            s,
            after_handler(frame, returned),
        ),
        (Stage::ResizedSize, Reply::NativeWindow(window)) => dispatch(
            s,
            frame,
            Stage::Resized,
            window_event(WindowEvent::Resized(dpi::size_of_window(window))),
        ),
        (Stage::Resized, Reply::Handled(returned)) => take_redraw_flag(
            s,
            after_handler(frame, returned),
        ),
        (Stage::RedrawFlag, Reply::RedrawFlag(raised)) => on_redraw_flag(s, frame, raised),
        (Stage::Redraw, Reply::Handled(returned)) => about_to_wait(
            s,
            after_handler(frame, returned),
        ),
        (Stage::AboutToWait, Reply::Handled(returned)) => end_iteration(
            s,
            after_handler(frame, returned),
        ),
        _ => arbitrary(),
    }
}

/// What the loop does with a reply that it is waiting for (see [`accepts`]).
pub open spec fn next<T>(s: LoopState, reply: Reply<T>) -> (LoopState, Action<T>) {
    match (s.phase, reply) {
        (Phase::Iterating { frame, stage }, _) => next_in_iteration(s, frame, stage, reply),
        (Phase::PollClock { timeout }, Reply::Time(start)) => (
            LoopState { phase: Phase::PollFlag { timeout, start }, ..s },
            Action::TakeRedrawFlag,
        ),
        (Phase::PollFlag { timeout, start }, Reply::RedrawFlag(raised)) => {
            let kept = LoopState { pending_redraw: s.pending_redraw || raised, ..s };
            if !kept.running {
                poll_idle(kept, start, timeout)
            } else if kept.pending_redraw {
                poll_at_once(kept, start)
            } else {
                (
                    LoopState { phase: Phase::PollIncoming { timeout, start }, ..kept },
                    Action::LookForUserEvent,
                )
            }
        },
        (Phase::PollIncoming { timeout, start }, Reply::Incoming(incoming)) => if incoming {
            poll_at_once(s, start)
        } else {
            poll_idle(s, start, timeout)
        },
        (Phase::Polling { start }, Reply::PollEvent(event)) => match event {
            PollEvent::Wake => (
                LoopState { phase: Phase::WakeFlag { start }, ..s },
                Action::TakeRedrawFlag,
            ),
            PollEvent::Main(main_event) => iterate(s, start, Some(main_event)),
            PollEvent::Timeout | PollEvent::Other => iterate(s, start, None),
        },
        (Phase::Polling { start }, Reply::PollReturned) => finish(s),
        (Phase::WakeFlag { start }, Reply::RedrawFlag(raised)) => {
            let kept = LoopState { pending_redraw: s.pending_redraw || raised, ..s };
            if !kept.running {
                ignore_wake(kept, start)
            } else if kept.pending_redraw {
                iterate(kept, start, None)
            } else {
                (
                    LoopState { phase: Phase::WakeIncoming { start }, ..kept },
                    Action::LookForUserEvent,
                )
            }
        },
        (Phase::WakeIncoming { start }, Reply::Incoming(incoming)) => if incoming {
            iterate(s, start, None)
        } else {
            ignore_wake(s, start)
        },
        (Phase::ResumeClock { start, deadline, main_event }, Reply::Time(now)) => begin_iteration(
            LoopState { cause: cause_at(now, start, deadline), ..s },
            main_event,
            Origin::Poll { start },
        ),
        (Phase::Exiting { code }, Reply::Handled(_)) => exited(s, code),
        _ => arbitrary(),
    }
}

/// The stages at which an iteration waits for the handler.
pub open spec fn awaits_handler(stage: Stage) -> bool {
    match stage {
        Stage::NewEvents { .. } | Stage::MainEvent | Stage::Touching { .. } | Stage::Key
        | Stage::UserEvent | Stage::Resized | Stage::Redraw | Stage::AboutToWait => true,
        _ => false,
    }
}

/// The replies that an iteration is waiting for.
pub open spec fn accepts_in_iteration<T>(stage: Stage, reply: Reply<T>) -> bool {
    match reply {
        Reply::Handled(_) => awaits_handler(stage),
        Reply::Done => stage is StoringFocus || stage is AnsweringInput,
        Reply::Density(_) => stage is OldDensity || stage is NewDensity,
        Reply::NativeWindow(_) => stage is ConfigSize || stage is ResizedSize,
        Reply::InputOpened(_) => stage is OpeningInput,
        Reply::Input(event) => stage is ReadingInput && (event matches Some(event) ==> input::valid_input(
            event,
        )),
        Reply::KeyMapped { .. } => stage is MappingKey,
        Reply::UserEvent(_) => stage is ReadingUserEvents,
        Reply::RedrawFlag(_) => stage is RedrawFlag,
        _ => false,
    }
}

/// The replies that the loop is waiting for: those to the action that it ended
/// its last step with. While the handler has asked for the end of the loop, the
/// looper brings no further event.
pub open spec fn accepts<T>(s: LoopState, reply: Reply<T>) -> bool {
    match s.phase {
        Phase::Idle => false,
        Phase::Iterating { frame, stage } => accepts_in_iteration(stage, reply),
        Phase::PollClock { .. } | Phase::ResumeClock { .. } => reply is Time,
        Phase::PollFlag { .. } | Phase::WakeFlag { .. } => reply is RedrawFlag,
        Phase::PollIncoming { .. } | Phase::WakeIncoming { .. } => reply is Incoming,
        Phase::Polling { .. } => reply is PollReturned || (reply is PollEvent && !exits(
            s.control_flow,
        )),
        Phase::Exiting { .. } => reply is Handled,
    }
}

/// `reply` is of the kind that `action` asks for.
pub open spec fn answers<T>(action: Action<T>, reply: Reply<T>) -> bool {
    match action {
        Action::Dispatch { .. } => reply is Handled,
        Action::StoreFocus(_) | Action::AnswerInput(_) => reply is Done,
        Action::QueryDensity => reply is Density,
        Action::QueryNativeWindow => reply is NativeWindow,
        Action::OpenInput => reply is InputOpened,
        Action::ReadInput => reply is Input,
        Action::MapKey { .. } => reply is KeyMapped,
        Action::ReceiveUserEvent => reply is UserEvent,
        Action::TakeRedrawFlag => reply is RedrawFlag,
        Action::LookForUserEvent => reply is Incoming,
        Action::QueryTime => reply is Time,
        Action::Poll { .. } | Action::PollHandled => reply is PollEvent || reply is PollReturned,
        Action::PumpFinished(_) | Action::RunFinished(_) => false,
    }
}

/// What a reply has to meet besides being of the right kind.
pub open spec fn admissible<T>(s: LoopState, reply: Reply<T>) -> bool {
    match reply {
        Reply::Input(Some(event)) => input::valid_input(event),
        Reply::PollEvent(_) => !exits(s.control_flow),
        _ => true,
    }
}

/// The loop is waiting for the replies to `action` and for no others.
pub open spec fn waits_for<T>(s: LoopState, action: Action<T>) -> bool {
    forall|reply: Reply<T>| #[trigger]
        accepts(s, reply) <==> answers(action, reply) && admissible(s, reply)
}

/// The stages at which the size of the window and redraws are seen to.
pub open spec fn draws(stage: Stage) -> bool {
    stage is ResizedSize || stage is Resized || stage is RedrawFlag || stage is Redraw
}

/// What holds of every state of the loop.
pub open spec fn wf(s: LoopState) -> bool {
    match s.phase {
        Phase::Idle => s.loop_running ==> !exits(s.control_flow),
        Phase::Iterating { frame, stage } => {
            &&& s.loop_running
            &&& stage matches Stage::Touching { motion, phase, next, end } ==> next <= end
                <= motion.pointers@.len()
            &&& draws(stage) ==> s.running
            &&& stage is Redraw || (stage is AboutToWait && s.running) ==> !frame.pending_redraw
        },
        Phase::PollClock { .. } | Phase::PollFlag { .. } | Phase::PollIncoming {
            ..
        } | Phase::WakeFlag { .. } | Phase::WakeIncoming { .. } => s.loop_running && !exits(
            s.control_flow,
        ),
        Phase::ResumeClock { deadline, .. } => s.loop_running && s.control_flow
            == ControlFlow::WaitUntil(deadline),
        Phase::Polling { .. } => s.loop_running,
        Phase::Exiting { code } => !s.loop_running && s.control_flow == ControlFlow::ExitWithCode(
            code,
        ),
    }
}

/// A loop that has not been started yet.
pub open spec fn initial(ignore_volume_keys: bool) -> LoopState {
    LoopState {
        loop_running: false,
        running: false,
        pending_redraw: false,
        control_flow: ControlFlow::Poll,
        cause: StartCause::Init,
        ignore_volume_keys,
        combining_accent: None,
        mode: Mode::Pump,
        phase: Phase::Idle,
    }
}

/// `s`, driven in `mode` from now on.
pub open spec fn in_mode(s: LoopState, mode: Mode) -> LoopState {
    LoopState { mode, ..s }
}

/// A pump begins. A loop that is not running is started first: whatever an
/// earlier run left behind is reset, so that each run begins alike.
pub open spec fn begin_pump<T>(s: LoopState, timeout: Option<Duration>) -> (LoopState, Action<T>) {
    if s.loop_running {
        poll_or_finish(s, timeout)
    } else {
        begin_iteration(
            LoopState {
                loop_running: true,
                pending_redraw: false,
                cause: StartCause::Init,
                control_flow: ControlFlow::Poll,
                ..s
            },
            None,
            Origin::Start { timeout },
        )
    }
}

proof fn lemma_next_in_iteration_stands<T>(
    s: LoopState,
    frame: Frame,
    stage: Stage,
    reply: Reply<T>,
)
    requires
        wf(s),
        s.phase == (Phase::Iterating { frame, stage }),
        accepts_in_iteration(stage, reply),
    ensures
        wf(next_in_iteration(s, frame, stage, reply).0),
        waits_for(
            next_in_iteration(s, frame, stage, reply).0,
            next_in_iteration(s, frame, stage, reply).1,
        ),
{
}

/// A step leads from a valid state to a valid state, in which the loop waits
/// for the replies to the action of the step and for no others.
pub proof fn law_step_keeps_validity<T>(s: LoopState, reply: Reply<T>)
    requires
        wf(s),
        accepts(s, reply),
    ensures
        wf(next(s, reply).0),
        waits_for(next(s, reply).0, next(s, reply).1),
{
    if let Phase::Iterating { frame, stage } = s.phase {
        lemma_next_in_iteration_stands(s, frame, stage, reply);
    }
}

impl Stage {
    fn accepts<T>(&self, reply: &Reply<T>) -> (accepted: bool)
        ensures
            accepted == accepts_in_iteration(*self, *reply),
    {
        match (self, reply) {
            (Stage::NewEvents { .. }, Reply::Handled(_)) => true,
            (Stage::StoringFocus { .. }, Reply::Done) => true,
            (Stage::OldDensity, Reply::Density(_)) => true,
            (Stage::NewDensity { .. }, Reply::Density(_)) => true,
            (Stage::ConfigSize { .. }, Reply::NativeWindow(_)) => true,
            (Stage::MainEvent, Reply::Handled(_)) => true,
            (Stage::OpeningInput, Reply::InputOpened(_)) => true,
            (Stage::ReadingInput, Reply::Input(None)) => true,
            (Stage::ReadingInput, Reply::Input(Some(event))) => is_valid_input(event),
            (Stage::Touching { .. }, Reply::Handled(_)) => true,
            (Stage::MappingKey { .. }, Reply::KeyMapped { .. }) => true,
            (Stage::Key, Reply::Handled(_)) => true,
            (Stage::AnsweringInput, Reply::Done) => true,
            (Stage::ReadingUserEvents, Reply::UserEvent(_)) => true,
            (Stage::UserEvent, Reply::Handled(_)) => true,
            (Stage::ResizedSize, Reply::NativeWindow(_)) => true,
            (Stage::Resized, Reply::Handled(_)) => true,
            (Stage::RedrawFlag, Reply::RedrawFlag(_)) => true,
            (Stage::Redraw, Reply::Handled(_)) => true,
            (Stage::AboutToWait, Reply::Handled(_)) => true,
            _ => false,
        }
    }
}

impl LoopState {
    /// See [`initial`].
    pub fn new(ignore_volume_keys: bool) -> (s: Self)
        ensures
            s == initial(ignore_volume_keys),
            wf(s),
            s.phase is Idle && !s.loop_running && !s.running && !s.pending_redraw,
            s.ignore_volume_keys == ignore_volume_keys,
            s.combining_accent is None,
    {
        LoopState {
            loop_running: false,
            running: false,
            pending_redraw: false,
            control_flow: ControlFlow::default(),
            cause: StartCause::Init,
            ignore_volume_keys,
            combining_accent: None,
            mode: Mode::Pump,
            phase: Phase::Idle,
        }
    }

    fn enter(&mut self, frame: Frame, stage: Stage)
        ensures
            *final(self) == at(*old(self), frame, stage),
    {
        self.phase = Phase::Iterating { frame, stage };
    }

    fn dispatch<T>(&mut self, frame: Frame, stage: Stage, event: Event<T>) -> (action: Action<T>)
        ensures
            (*final(self), action) == dispatch(*old(self), frame, stage, event),
    {
        self.enter(frame, stage);
        Action::Dispatch { event, control_flow: frame.control_flow }
    }

    fn begin_iteration<T>(&mut self, main_event: Option<MainEvent>, origin: Origin) -> (action:
        Action<T>)
        ensures
            (*final(self), action) == begin_iteration::<T>(*old(self), main_event, origin),
    {
        let frame = Frame {
            origin,
            control_flow: self.control_flow,
            pending_redraw: self.pending_redraw,
            resized: false,
        };
        let cause = self.cause;
        self.dispatch(frame, Stage::NewEvents { main_event }, Event::NewEvents(cause))
    }

    fn handle_main_event<T>(&mut self, frame: Frame, main_event: Option<MainEvent>) -> (action:
        Action<T>)
        ensures
            (*final(self), action) == on_main_event::<T>(*old(self), frame, main_event),
    {
        let mut frame = frame;
        match main_event {
            Some(MainEvent::InitWindow) => {
                return self.dispatch(frame, Stage::MainEvent, Event::Resumed);
            },
            Some(MainEvent::TerminateWindow) => {
                return self.dispatch(frame, Stage::MainEvent, Event::Suspended);
            },
            Some(MainEvent::WindowResized) => {
                frame.resized = true;
            },
            Some(MainEvent::RedrawNeeded) => {
                frame.pending_redraw = true;
            },
            Some(MainEvent::GainedFocus) => {
                self.enter(frame, Stage::StoringFocus { focused: true });
                return Action::StoreFocus(true);
            },
            Some(MainEvent::LostFocus) => {
                self.enter(frame, Stage::StoringFocus { focused: false });
                return Action::StoreFocus(false);
            },
            Some(MainEvent::ConfigChanged) => {
                self.enter(frame, Stage::OldDensity);
                return Action::QueryDensity;
            },
            Some(MainEvent::Resume) => {
                self.running = true;
            },
            Some(MainEvent::Pause) => {
                self.running = false;
            },
            _ => {},
        }
        self.open_input(frame)
    }

    fn open_input<T>(&mut self, frame: Frame) -> (action: Action<T>)
        ensures
            (*final(self), action) == open_input::<T>(*old(self), frame),
    {
        self.enter(frame, Stage::OpeningInput);
        Action::OpenInput
    }

    fn read_input<T>(&mut self, frame: Frame) -> (action: Action<T>)
        ensures
            (*final(self), action) == read_input::<T>(*old(self), frame),
    {
        self.enter(frame, Stage::ReadingInput);
        Action::ReadInput
    }

    fn answer_input<T>(&mut self, frame: Frame, status: InputStatus) -> (action: Action<T>)
        ensures
            (*final(self), action) == answer_input::<T>(*old(self), frame, status),
    {
        self.enter(frame, Stage::AnsweringInput);
        Action::AnswerInput(status)
    }

    fn next_touch<T>(
        &mut self,
        frame: Frame,
        motion: MotionEvent,
        phase: TouchPhase,
        next: usize,
        end: usize,
    ) -> (action: Action<T>)
        requires
            end <= motion.pointers@.len(),
        ensures
            (*final(self), action) == next_touch::<T>(*old(self), frame, motion, phase, next, end),
    {
        if next < end {
            let event = report_touch(phase, motion.pointers[next]);
            self.dispatch(frame, Stage::Touching { motion, phase, next: next + 1, end }, event)
        } else {
            self.answer_input(frame, InputStatus::Handled)
        }
    }

    fn handle_input_event<T>(&mut self, frame: Frame, event: InputEvent) -> (action: Action<T>)
        requires
            input::valid_input(event),
        ensures
            (*final(self), action) == on_input::<T>(*old(self), frame, event),
    {
        match plan_input_event(event, self.ignore_volume_keys) {
            InputPlan::Touches { motion, phase, next, end } => self.next_touch(
                frame,
                motion,
                phase,
                next,
                end,
            ),
            InputPlan::Key(key) => {
                let combining_accent = self.combining_accent;
                self.enter(frame, Stage::MappingKey { key });
                Action::MapKey { key, combining_accent }
            },
            InputPlan::Answer(status) => self.answer_input(frame, status),
        }
    }

    fn read_user_event<T>(&mut self, frame: Frame) -> (action: Action<T>)
        ensures
            (*final(self), action) == read_user_event::<T>(*old(self), frame),
    {
        self.enter(frame, Stage::ReadingUserEvents);
        Action::ReceiveUserEvent
    }

    fn events_drained<T>(&mut self, frame: Frame) -> (action: Action<T>)
        ensures
            (*final(self), action) == on_events_drained::<T>(*old(self), frame),
    {
        if self.running {
            if frame.resized {
                self.enter(frame, Stage::ResizedSize);
                Action::QueryNativeWindow
            } else {
                self.take_redraw_flag(frame)
            }
        } else {
            self.about_to_wait(frame)
        }
    }

    fn take_redraw_flag<T>(&mut self, frame: Frame) -> (action: Action<T>)
        ensures
            (*final(self), action) == take_redraw_flag::<T>(*old(self), frame),
    {
        self.enter(frame, Stage::RedrawFlag);
        Action::TakeRedrawFlag
    }

    fn redraw_flag_taken<T>(&mut self, frame: Frame, raised: bool) -> (action: Action<T>)
        ensures
            (*final(self), action) == on_redraw_flag::<T>(*old(self), frame, raised),
    {
        if frame.pending_redraw || raised {
            let frame = Frame { pending_redraw: false, ..frame };
            let event = Event::WindowEvent {
                window_id: WindowId,
                event: WindowEvent::RedrawRequested,
            };
            self.dispatch(frame, Stage::Redraw, event)
        } else {
            self.about_to_wait(frame)
        }
    }

    fn about_to_wait<T>(&mut self, frame: Frame) -> (action: Action<T>)
        ensures
            (*final(self), action) == about_to_wait::<T>(*old(self), frame),
    {
        self.dispatch(frame, Stage::AboutToWait, Event::AboutToWait)
    }

    fn end_iteration<T>(&mut self, frame: Frame) -> (action: Action<T>)
        ensures
            (*final(self), action) == end_iteration::<T>(*old(self), frame),
    {
        self.control_flow = frame.control_flow;
        self.pending_redraw = frame.pending_redraw;
        match frame.origin {
            Origin::Start { timeout } => self.poll_or_finish(timeout),
            Origin::Poll { start } => {
                self.phase = Phase::Polling { start };
                Action::PollHandled
            },
        }
    }

    fn poll_or_finish<T>(&mut self, timeout: Option<Duration>) -> (action: Action<T>)
        ensures
            (*final(self), action) == poll_or_finish::<T>(*old(self), timeout),
    {
        match self.control_flow {
            ControlFlow::ExitWithCode(_) => self.finish(),
            _ => {
                self.phase = Phase::PollClock { timeout };
                Action::QueryTime
            },
        }
    }

    fn poll<T>(&mut self, start: Instant, timeout: Option<Duration>) -> (action: Action<T>)
        ensures
            (*final(self), action) == poll::<T>(*old(self), start, timeout),
    {
        self.phase = Phase::Polling { start };
        Action::Poll { timeout }
    }

    fn poll_idle<T>(&mut self, start: Instant, timeout: Option<Duration>) -> (action: Action<T>)
        ensures
            (*final(self), action) == poll_idle::<T>(*old(self), start, timeout),
    {
        let control_flow_timeout = match self.control_flow {
            ControlFlow::Wait => None,
            ControlFlow::Poll => Some(Duration::zero()),
            ControlFlow::WaitUntil(deadline) => Some(deadline.saturating_duration_since(start)),
            ControlFlow::ExitWithCode(_) => None,
        };
        self.poll(start, min_timeout(control_flow_timeout, timeout))
    }

    fn iterate<T>(&mut self, start: Instant, main_event: Option<MainEvent>) -> (action: Action<T>)
        ensures
            (*final(self), action) == iterate::<T>(*old(self), start, main_event),
    {
        match self.control_flow {
            ControlFlow::WaitUntil(deadline) => {
                self.phase = Phase::ResumeClock { start, deadline, main_event };
                return Action::QueryTime;
            },
            ControlFlow::Wait => {
                self.cause = StartCause::WaitCancelled { start, requested_resume: None };
            },
            _ => {
                self.cause = StartCause::Poll;
            },
        }
        self.begin_iteration(main_event, Origin::Poll { start })
    }

    fn finish<T>(&mut self) -> (action: Action<T>)
        ensures
            (*final(self), action) == finish::<T>(*old(self)),
    {
        match self.control_flow {
            ControlFlow::ExitWithCode(code) => {
                self.loop_running = false;
                self.phase = Phase::Exiting { code };
                Action::Dispatch { event: Event::LoopExiting, control_flow: self.control_flow }
            },
            _ => match self.mode {
                Mode::Pump => {
                    self.phase = Phase::Idle;
                    Action::PumpFinished(PumpStatus::Continue)
                },
                Mode::Run => {
                    self.phase = Phase::PollClock { timeout: None };
                    Action::QueryTime
                },
            },
        }
    }

    fn exited<T>(&mut self, code: i32) -> (action: Action<T>)
        ensures
            (*final(self), action) == exited::<T>(*old(self), code),
    {
        self.phase = Phase::Idle;
        match self.mode {
            Mode::Pump => Action::PumpFinished(PumpStatus::Exit(code)),
            Mode::Run => if code == 0 {
                Action::RunFinished(Ok(()))
            } else {
                Action::RunFinished(Err(EventLoopError::ExitFailure(code)))
            },
        }
    }

    fn resume_iteration<T>(&mut self, frame: Frame, stage: Stage, reply: Reply<T>) -> (action:
        Action<T>)
        requires
            accepts_in_iteration(stage, reply),
            stage matches Stage::Touching { motion, phase, next, end } ==> end
                <= motion.pointers@.len(),
        ensures
            (*final(self), action) == next_in_iteration(*old(self), frame, stage, reply),
    {
        let mut frame = frame;
        if let Reply::Handled(returned) = reply {
            frame.control_flow = sticky_exit(frame.control_flow, returned);
        }
        match (stage, reply) {
            (Stage::NewEvents { main_event }, _) => self.handle_main_event(frame, main_event),
            (Stage::StoringFocus { focused }, _) => {
                let event = Event::WindowEvent {
                    window_id: WindowId,
                    event: WindowEvent::Focused(focused),
                };
                self.dispatch(frame, Stage::MainEvent, event)
            },
            (Stage::OldDensity, Reply::Density(density)) => {
                self.enter(frame, Stage::NewDensity { old_scale: scale_factor(density) });
                Action::QueryDensity
            },
            (Stage::NewDensity { old_scale }, Reply::Density(density)) => {
                let scale = scale_factor(density);
                if scale == old_scale {
                    self.enter(frame, Stage::ConfigSize { scale });
                    Action::QueryNativeWindow
                } else {
                    self.open_input(frame)
                }
            },
            (Stage::ConfigSize { scale }, Reply::NativeWindow(window)) => {
                let event = Event::WindowEvent {
                    window_id: WindowId,
                    event: WindowEvent::ScaleFactorChanged {
                        scale_factor: scale,
                        new_inner_size: window_size(window),
                    },
                };
                self.dispatch(frame, Stage::MainEvent, event)
            },
            (Stage::MainEvent, _) => self.open_input(frame),
            (Stage::OpeningInput, Reply::InputOpened(opened)) => if opened {
                self.read_input(frame)
            } else {
                self.read_user_event(frame)
            },
            (Stage::ReadingInput, Reply::Input(Some(event))) => self.handle_input_event(
                frame,
                event,
            ),
            (Stage::ReadingInput, _) => self.read_user_event(frame),
            (Stage::Touching { motion, phase, next, end }, _) => self.next_touch(
                frame,
                motion,
                phase,
                next,
                end,
            ),
            (Stage::MappingKey { key }, Reply::KeyMapped { key_char, combining_accent }) => {
                self.combining_accent = combining_accent;
                let event = report_key(key, key_char);
                self.dispatch(frame, Stage::Key, event)
            },
            (Stage::Key, _) => self.answer_input(frame, InputStatus::Handled),
            (Stage::AnsweringInput, _) => self.read_input(frame),
            (Stage::ReadingUserEvents, Reply::UserEvent(Some(event))) => self.dispatch(
                frame,
                Stage::UserEvent,
                Event::UserEvent(event),
            ),
            (Stage::ReadingUserEvents, _) => self.events_drained(frame),
            (Stage::UserEvent, _) => self.read_user_event(frame),
            (Stage::ResizedSize, Reply::NativeWindow(window)) => {
                let event = Event::WindowEvent {
                    window_id: WindowId,
                    event: WindowEvent::Resized(window_size(window)),
                };
                self.dispatch(frame, Stage::Resized, event)
            },
            (Stage::Resized, _) => self.take_redraw_flag(frame),
            (Stage::RedrawFlag, Reply::RedrawFlag(raised)) => self.redraw_flag_taken(frame, raised),
            (Stage::Redraw, _) => self.about_to_wait(frame),
            (Stage::AboutToWait, _) => self.end_iteration(frame),
            _ => vstd::pervasive::unreached(),
        }
    }

    /// Whether `reply` is one that the loop is waiting for (see [`accepts`]).
    pub fn accepts<T>(&self, reply: &Reply<T>) -> (accepted: bool)
        ensures
            accepted == accepts(*self, *reply),
    {
        match &self.phase {
            Phase::Idle => false,
            Phase::Iterating { stage, .. } => stage.accepts(reply),
            Phase::PollClock { .. } | Phase::ResumeClock { .. } => matches!(reply, Reply::Time(_)),
            Phase::PollFlag { .. } | Phase::WakeFlag { .. } => matches!(
                reply,
                Reply::RedrawFlag(_)
            ),
            Phase::PollIncoming { .. } | Phase::WakeIncoming { .. } => matches!(
                reply,
                Reply::Incoming(_)
            ),
            Phase::Polling { .. } => match reply {
                Reply::PollReturned => true,
                Reply::PollEvent(_) => !matches!(self.control_flow, ControlFlow::ExitWithCode(_)),
                _ => false,
            },
            Phase::Exiting { .. } => matches!(reply, Reply::Handled(_)),
        }
    }

    /// Goes on with the reply to the last action, up to the next one.
    pub fn resume<T>(&mut self, reply: Reply<T>) -> (action: Action<T>)
        requires
            wf(*old(self)),
            accepts(*old(self), reply),
        ensures
            (*final(self), action) == next(*old(self), reply),
            wf(*final(self)),
            waits_for(*final(self), action),
    {
        proof {
            law_step_keeps_validity(*self, reply);
        }
        self.step(reply)
    }

    fn step<T>(&mut self, reply: Reply<T>) -> (action: Action<T>)
        requires
            wf(*old(self)),
            accepts(*old(self), reply),
        ensures
            (*final(self), action) == next(*old(self), reply),
    {
        let mut phase = Phase::Idle;
        core::mem::swap(&mut phase, &mut self.phase);
        match (phase, reply) {
            (Phase::Iterating { frame, stage }, reply) => self.resume_iteration(
                frame,
                stage,
                reply,
            ),
            (Phase::PollClock { timeout }, Reply::Time(start)) => {
                self.phase = Phase::PollFlag { timeout, start };
                Action::TakeRedrawFlag
            },
            (Phase::PollFlag { timeout, start }, Reply::RedrawFlag(raised)) => {
                self.pending_redraw = self.pending_redraw || raised;
                if self.running && self.pending_redraw {
                    self.poll(start, Some(Duration::zero()))
                } else if self.running {
                    self.phase = Phase::PollIncoming { timeout, start };
                    Action::LookForUserEvent
                } else {
                    self.poll_idle(start, timeout)
                }
            },
            (Phase::PollIncoming { timeout, start }, Reply::Incoming(incoming)) => if incoming {
                self.poll(start, Some(Duration::zero()))
            } else {
                self.poll_idle(start, timeout)
            },
            (Phase::Polling { start }, Reply::PollEvent(PollEvent::Wake)) => {
                self.phase = Phase::WakeFlag { start };
                Action::TakeRedrawFlag
            },
            (Phase::Polling { start }, Reply::PollEvent(PollEvent::Main(main_event))) =>
                self.iterate(start, Some(main_event)),
            (Phase::Polling { start }, Reply::PollEvent(_)) => self.iterate(start, None),
            (Phase::Polling { start }, Reply::PollReturned) => self.finish(),
            (Phase::WakeFlag { start }, Reply::RedrawFlag(raised)) => {
                self.pending_redraw = self.pending_redraw || raised;
                if !self.running {
                    self.phase = Phase::Polling { start };
                    Action::PollHandled
                } else if self.pending_redraw {
                    self.iterate(start, None)
                } else {
                    self.phase = Phase::WakeIncoming { start };
                    Action::LookForUserEvent
                }
            },
            (Phase::WakeIncoming { start }, Reply::Incoming(incoming)) => if incoming {
                self.iterate(start, None)
            } else {
                self.phase = Phase::Polling { start };
                Action::PollHandled
            },
            (Phase::ResumeClock { start, deadline, main_event }, Reply::Time(now)) => {
                self.cause = if now.is_before(deadline) {
                    StartCause::WaitCancelled { start, requested_resume: Some(deadline) }
                } else {
                    StartCause::ResumeTimeReached { start, requested_resume: deadline }
                };
                self.begin_iteration(main_event, Origin::Poll { start })
            },
            (Phase::Exiting { code }, Reply::Handled(_)) => self.exited(code),
            _ => vstd::pervasive::unreached(),
        }
    }

    /// Begins a pump that polls for no longer than `timeout`.
    pub fn pump_events<T>(&mut self, timeout: Option<Duration>) -> (action: Action<T>)
        requires
            wf(*old(self)),
            old(self).phase is Idle,
        ensures
            (*final(self), action) == begin_pump::<T>(
                in_mode(*old(self), Mode::Pump),
                timeout,
            ),
            wf(*final(self)),
            waits_for(*final(self), action),
            final(self).mode is Pump,
            final(self).loop_running,
            old(self).loop_running ==> action is QueryTime && final(self).phase == (
            Phase::PollClock { timeout }),
            !old(self).loop_running ==> (action matches Action::Dispatch {
                event: Event::NewEvents(cause),
                control_flow,
            } && cause is Init && control_flow is Poll),
    {
        self.mode = Mode::Pump;
        self.begin_pump(timeout)
    }

    fn begin_pump<T>(&mut self, timeout: Option<Duration>) -> (action: Action<T>)
        requires
            wf(*old(self)),
            old(self).phase is Idle,
        ensures
            (*final(self), action) == begin_pump::<T>(*old(self), timeout),
            wf(*final(self)),
            waits_for(*final(self), action),
    {
        if self.loop_running {
            return self.poll_or_finish(timeout);
        }
        self.loop_running = true;
        self.pending_redraw = false;
        self.cause = StartCause::Init;
        self.control_flow = ControlFlow::Poll;
        self.begin_iteration(None, Origin::Start { timeout })
    }

    /// Begins a run that goes on until the loop exits, unless the loop is
    /// running already.
    pub fn run_ondemand<T>(&mut self) -> (res: Result<Action<T>, EventLoopError>)
        requires
            wf(*old(self)),
            old(self).phase is Idle,
        ensures
            old(self).loop_running ==> *final(self) == *old(self) && res == Err::<
                Action<T>,
                EventLoopError,
            >(EventLoopError::AlreadyRunning),
            !old(self).loop_running ==> (res matches Ok(action) && (*final(self), action)
                == begin_pump::<T>(in_mode(*old(self), Mode::Run), None) && waits_for(
                *final(self),
                action,
            )),
            wf(*final(self)),
            !old(self).loop_running ==> final(self).mode is Run && final(self).loop_running && (
            res matches Ok(action) && (action matches Action::Dispatch {
                event: Event::NewEvents(cause),
                control_flow,
            } && cause is Init && control_flow is Poll)),
    {
        if self.loop_running {
            return Err(EventLoopError::AlreadyRunning);
        }
        self.mode = Mode::Run;
        Ok(self.begin_pump(None))
    }
}

} // verus!
