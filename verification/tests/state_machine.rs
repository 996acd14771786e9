use android_event_loop::dpi::{NativeWindow, PhysicalSize, ScaleFactor};
use android_event_loop::event::{
    sticky_exit, sticky_exit_callback, ControlFlow, Event, EventLoopError, KeyMapChar, Location,
    PumpStatus, StartCause, TouchPhase, WindowEvent, WindowId,
};
use android_event_loop::input::{
    report_key, report_touch, InputEvent, InputStatus, KeyAction, KeyInput, MotionAction,
    MotionEvent, Pointer,
};
use android_event_loop::machine::{Action, LoopState, MainEvent, PollEvent, Reply};
use android_event_loop::time::{Duration, Instant};

type Act = Action<u8>;

fn at(nanos: i128) -> Instant {
    Instant { nanos }
}

fn dispatch(event: Event<u8>, control_flow: ControlFlow) -> Act {
    Action::Dispatch { event, control_flow }
}

fn window_event(event: WindowEvent) -> Event<u8> {
    Event::WindowEvent { window_id: WindowId, event }
}

/// Resumes with each reply in turn and compares the action that follows.
fn play(state: &mut LoopState, steps: Vec<(Reply<u8>, Act)>) {
    for (reply, expected) in steps {
        assert!(state.accepts(&reply), "{:?} in {:?}", reply, state);
        assert_eq!(state.resume(reply), expected);
    }
}

/// An iteration after its first event, with no command, input or user event.
fn quiet(control_flow: ControlFlow) -> Vec<(Reply<u8>, Act)> {
    vec![
        (Reply::Handled(control_flow), Action::OpenInput),
        (Reply::InputOpened(true), Action::ReadInput),
        (Reply::Input(None), Action::ReceiveUserEvent),
        (Reply::UserEvent(None), dispatch(Event::AboutToWait, control_flow)),
    ]
}

/// A loop in its first poll, which began at 100, with the given control flow.
fn polling(control_flow: ControlFlow) -> LoopState {
    let mut state = LoopState::new(true);
    assert_eq!(
        state.pump_events::<u8>(None),
        dispatch(Event::NewEvents(StartCause::Init), ControlFlow::Poll)
    );
    play(&mut state, quiet(control_flow));
    play(
        &mut state,
        vec![
            (Reply::Handled(control_flow), Action::QueryTime),
            (Reply::Time(at(100)), Action::TakeRedrawFlag),
        ],
    );
    let poll = state.resume(Reply::<u8>::RedrawFlag(false));
    assert!(matches!(poll, Action::Poll { .. }));
    state
}

/// A resumed activity, in the poll that brought the command.
fn resumed(control_flow: ControlFlow) -> LoopState {
    let mut state = polling(ControlFlow::Wait);
    let start = StartCause::WaitCancelled { start: at(100), requested_resume: None };
    play(
        &mut state,
        vec![
            (
                Reply::PollEvent(PollEvent::Main(MainEvent::Resume)),
                dispatch(Event::NewEvents(start), ControlFlow::Wait),
            ),
            (Reply::Handled(control_flow), Action::OpenInput),
            (Reply::InputOpened(false), Action::ReceiveUserEvent),
            (Reply::UserEvent(None), Action::TakeRedrawFlag),
            (Reply::RedrawFlag(false), dispatch(Event::AboutToWait, control_flow)),
            (Reply::Handled(control_flow), Action::PollHandled),
        ],
    );
    assert!(state.running);
    state
}

/// The iteration that `main_event` leads to in a resumed activity, up to the
/// reply to its first event.
fn commanded(main_event: MainEvent) -> (LoopState, Act) {
    let mut state = resumed(ControlFlow::Poll);
    assert_eq!(
        state.resume(Reply::PollEvent(PollEvent::Main(main_event))),
        dispatch(Event::NewEvents(StartCause::Poll), ControlFlow::Poll)
    );
    let action = state.resume(Reply::Handled(ControlFlow::Poll));
    (state, action)
}

#[test]
fn first_pump_starts_the_loop() {
    let mut state = LoopState::new(true);
    assert!(!state.loop_running);
    assert_eq!(
        state.pump_events::<u8>(None),
        dispatch(Event::NewEvents(StartCause::Init), ControlFlow::Poll)
    );
    assert!(state.loop_running);
    play(&mut state, quiet(ControlFlow::Wait));
    play(
        &mut state,
        vec![
            (Reply::Handled(ControlFlow::Wait), Action::QueryTime),
            (Reply::Time(at(5)), Action::TakeRedrawFlag),
            (Reply::RedrawFlag(false), Action::Poll { timeout: None }),
            (Reply::PollReturned, Action::PumpFinished(PumpStatus::Continue)),
        ],
    );
    assert!(state.loop_running);
}

#[test]
fn later_pumps_go_straight_to_the_poll() {
    let mut state = polling(ControlFlow::Wait);
    play(
        &mut state,
        vec![(Reply::PollReturned, Action::PumpFinished(PumpStatus::Continue))],
    );
    assert_eq!(state.pump_events::<u8>(None), Action::QueryTime);
}

#[test]
fn exit_in_the_first_iteration_skips_the_poll() {
    let mut state = LoopState::new(true);
    state.pump_events::<u8>(None);
    let exit = ControlFlow::ExitWithCode(3);
    play(&mut state, quiet(exit));
    play(
        &mut state,
        vec![
            (Reply::Handled(ControlFlow::Poll), dispatch(Event::LoopExiting, exit)),
            (
                Reply::Handled(ControlFlow::Poll),
                Action::PumpFinished(PumpStatus::Exit(3)),
            ),
        ],
    );
    assert!(!state.loop_running);
}

#[test]
fn first_exit_code_stands() {
    assert_eq!(
        sticky_exit(ControlFlow::ExitWithCode(1), ControlFlow::ExitWithCode(2)),
        ControlFlow::ExitWithCode(1)
    );
    assert_eq!(
        sticky_exit(ControlFlow::ExitWithCode(1), ControlFlow::Wait),
        ControlFlow::ExitWithCode(1)
    );
    assert_eq!(
        sticky_exit(ControlFlow::Wait, ControlFlow::ExitWithCode(2)),
        ControlFlow::ExitWithCode(2)
    );
    assert_eq!(sticky_exit(ControlFlow::Poll, ControlFlow::Wait), ControlFlow::Wait);
}

#[test]
fn handler_writes_the_control_flow() {
    let mut control_flow = ControlFlow::Poll;
    let mut seen = vec![];
    let mut handler = |event: Event<u8>, target: &u16, control_flow: &mut ControlFlow| {
        seen.push((event, *target, *control_flow));
        *control_flow = ControlFlow::ExitWithCode(9);
    };
    sticky_exit_callback(Event::Resumed, &77, &mut control_flow, &mut handler);
    assert_eq!(control_flow, ControlFlow::ExitWithCode(9));
    assert_eq!(seen, vec![(Event::Resumed, 77, ControlFlow::Poll)]);
}

#[test]
fn handler_cannot_take_an_exit_back() {
    let mut control_flow = ControlFlow::ExitWithCode(4);
    let mut seen = vec![];
    let mut handler = |event: Event<u8>, _: &(), control_flow: &mut ControlFlow| {
        seen.push((event, *control_flow));
        *control_flow = ControlFlow::Poll;
    };
    sticky_exit_callback(Event::UserEvent(1), &(), &mut control_flow, &mut handler);
    assert_eq!(control_flow, ControlFlow::ExitWithCode(4));
    assert_eq!(seen, vec![(Event::UserEvent(1), ControlFlow::ExitWithCode(4))]);
}

#[test]
fn exit_stays_requested_through_an_iteration() {
    let mut state = resumed(ControlFlow::Poll);
    let exit = ControlFlow::ExitWithCode(7);
    play(
        &mut state,
        vec![
            (
                Reply::PollEvent(PollEvent::Timeout),
                dispatch(Event::NewEvents(StartCause::Poll), ControlFlow::Poll),
            ),
            (Reply::Handled(exit), Action::OpenInput),
            (Reply::InputOpened(false), Action::ReceiveUserEvent),
            (Reply::UserEvent(Some(1)), dispatch(Event::UserEvent(1), exit)),
            (Reply::Handled(ControlFlow::Wait), Action::ReceiveUserEvent),
            (Reply::UserEvent(None), Action::TakeRedrawFlag),
            (Reply::RedrawFlag(true), dispatch(window_event(WindowEvent::RedrawRequested), exit)),
            (
                Reply::Handled(ControlFlow::ExitWithCode(8)),
                dispatch(Event::AboutToWait, exit),
            ),
            (Reply::Handled(ControlFlow::Poll), Action::PollHandled),
        ],
    );
    assert!(!state.accepts(&Reply::<u8>::PollEvent(PollEvent::Timeout)));
    play(
        &mut state,
        vec![
            (Reply::PollReturned, dispatch(Event::LoopExiting, exit)),
            (Reply::Handled(ControlFlow::Poll), Action::PumpFinished(PumpStatus::Exit(7))),
        ],
    );
}

#[test]
fn restarted_loop_begins_alike() {
    let mut state = resumed(ControlFlow::WaitUntil(at(1000)));
    state.pending_redraw = true;
    play(
        &mut state,
        vec![(Reply::PollEvent(PollEvent::Timeout), Action::QueryTime)],
    );
    state.resume(Reply::<u8>::Time(at(2000)));
    let exit = ControlFlow::ExitWithCode(0);
    play(
        &mut state,
        vec![
            (Reply::Handled(exit), Action::OpenInput),
            (Reply::InputOpened(false), Action::ReceiveUserEvent),
            (Reply::UserEvent(None), Action::TakeRedrawFlag),
            (Reply::RedrawFlag(false), dispatch(window_event(WindowEvent::RedrawRequested), exit)),
            (Reply::Handled(exit), dispatch(Event::AboutToWait, exit)),
            (Reply::Handled(exit), Action::PollHandled),
            (Reply::PollReturned, dispatch(Event::LoopExiting, exit)),
            (Reply::Handled(exit), Action::PumpFinished(PumpStatus::Exit(0))),
        ],
    );
    assert_eq!(
        state.pump_events::<u8>(None),
        dispatch(Event::NewEvents(StartCause::Init), ControlFlow::Poll)
    );
    assert!(!state.pending_redraw);
}

#[test]
fn run_goes_on_until_the_exit() {
    let mut state = LoopState::new(true);
    assert_eq!(
        state.run_ondemand::<u8>(),
        Ok(dispatch(Event::NewEvents(StartCause::Init), ControlFlow::Poll))
    );
    play(&mut state, quiet(ControlFlow::Wait));
    let poll = |state: &mut LoopState| {
        play(
            state,
            vec![
                (Reply::Time(at(1)), Action::TakeRedrawFlag),
                (Reply::RedrawFlag(false), Action::Poll { timeout: None }),
            ],
        );
    };
    play(&mut state, vec![(Reply::Handled(ControlFlow::Wait), Action::QueryTime)]);
    poll(&mut state);
    play(&mut state, vec![(Reply::PollReturned, Action::QueryTime)]);
    poll(&mut state);
    let start = StartCause::WaitCancelled { start: at(1), requested_resume: None };
    play(
        &mut state,
        vec![(
            Reply::PollEvent(PollEvent::Timeout),
            dispatch(Event::NewEvents(start), ControlFlow::Wait),
        )],
    );
    let exit = ControlFlow::ExitWithCode(0);
    play(&mut state, quiet(exit));
    play(
        &mut state,
        vec![
            (Reply::Handled(exit), Action::PollHandled),
            (Reply::PollReturned, dispatch(Event::LoopExiting, exit)),
            (Reply::Handled(exit), Action::RunFinished(Ok(()))),
        ],
    );
}

#[test]
fn failed_run_reports_its_code() {
    let mut state = LoopState::new(true);
    state.run_ondemand::<u8>().unwrap();
    let exit = ControlFlow::ExitWithCode(-2);
    play(&mut state, quiet(exit));
    play(
        &mut state,
        vec![
            (Reply::Handled(exit), dispatch(Event::LoopExiting, exit)),
            (
                Reply::Handled(exit),
                Action::RunFinished(Err(EventLoopError::ExitFailure(-2))),
            ),
        ],
    );
    assert!(state.run_ondemand::<u8>().is_ok());
}

#[test]
fn running_loop_cannot_be_run_again() {
    let mut state = polling(ControlFlow::Wait);
    play(
        &mut state,
        vec![(Reply::PollReturned, Action::PumpFinished(PumpStatus::Continue))],
    );
    assert_eq!(state.run_ondemand::<u8>(), Err(EventLoopError::AlreadyRunning));
    assert_eq!(state.pump_events::<u8>(None), Action::QueryTime);
}

/// The timeout of a poll that begins at 100.
fn poll_timeout(
    running: bool,
    control_flow: ControlFlow,
    timeout: Option<u128>,
    raised: bool,
    incoming: bool,
) -> Option<u128> {
    let mut state = if running { resumed(control_flow) } else { polling(control_flow) };
    play(
        &mut state,
        vec![(Reply::PollReturned, Action::PumpFinished(PumpStatus::Continue))],
    );
    let timeout = timeout.map(|nanos| Duration { nanos });
    assert_eq!(state.pump_events::<u8>(timeout), Action::QueryTime);
    assert_eq!(state.resume(Reply::<u8>::Time(at(100))), Action::TakeRedrawFlag);
    let mut action = state.resume(Reply::<u8>::RedrawFlag(raised));
    if action == Action::LookForUserEvent {
        assert!(running && !raised);
        action = state.resume(Reply::Incoming(incoming));
    }
    match action {
        Action::Poll { timeout } => timeout.map(|timeout| timeout.nanos),
        other => panic!("not a poll: {:?}", other),
    }
}

#[test]
fn poll_without_work_lasts_as_long_as_allowed() {
    let until = ControlFlow::WaitUntil(at(150));
    for running in [false, true] {
        assert_eq!(poll_timeout(running, ControlFlow::Wait, None, false, false), None);
        assert_eq!(poll_timeout(running, ControlFlow::Wait, Some(9), false, false), Some(9));
        assert_eq!(poll_timeout(running, ControlFlow::Poll, None, false, false), Some(0));
        assert_eq!(poll_timeout(running, until, None, false, false), Some(50));
        assert_eq!(poll_timeout(running, until, Some(20), false, false), Some(20));
        assert_eq!(poll_timeout(running, until, Some(80), false, false), Some(50));
        let past = ControlFlow::WaitUntil(at(40));
        assert_eq!(poll_timeout(running, past, None, false, false), Some(0));
    }
}

#[test]
fn poll_with_work_does_not_block() {
    assert_eq!(poll_timeout(true, ControlFlow::Wait, None, true, false), Some(0));
    assert_eq!(poll_timeout(true, ControlFlow::Wait, Some(9), false, true), Some(0));
}

#[test]
fn paused_activity_has_no_work_to_do() {
    assert_eq!(poll_timeout(false, ControlFlow::Wait, None, true, true), None);
    assert_eq!(poll_timeout(false, ControlFlow::Wait, Some(9), true, true), Some(9));
}

#[test]
fn wake_without_a_reason_is_ignored() {
    let mut state = resumed(ControlFlow::Wait);
    play(
        &mut state,
        vec![
            (Reply::PollEvent(PollEvent::Wake), Action::TakeRedrawFlag),
            (Reply::RedrawFlag(false), Action::LookForUserEvent),
            (Reply::Incoming(false), Action::PollHandled),
            (Reply::PollReturned, Action::PumpFinished(PumpStatus::Continue)),
        ],
    );
}

#[test]
fn wake_of_a_paused_activity_is_ignored_but_keeps_the_redraw() {
    let mut state = polling(ControlFlow::Wait);
    play(
        &mut state,
        vec![
            (Reply::PollEvent(PollEvent::Wake), Action::TakeRedrawFlag),
            (Reply::RedrawFlag(true), Action::PollHandled),
        ],
    );
    assert!(state.pending_redraw);
}

#[test]
fn wake_for_a_user_event_or_a_redraw_leads_to_an_iteration() {
    let start = StartCause::WaitCancelled { start: at(100), requested_resume: None };
    let mut state = resumed(ControlFlow::Wait);
    play(
        &mut state,
        vec![
            (Reply::PollEvent(PollEvent::Wake), Action::TakeRedrawFlag),
            (Reply::RedrawFlag(false), Action::LookForUserEvent),
            (Reply::Incoming(true), dispatch(Event::NewEvents(start), ControlFlow::Wait)),
        ],
    );
    let mut state = resumed(ControlFlow::Wait);
    play(
        &mut state,
        vec![
            (Reply::PollEvent(PollEvent::Wake), Action::TakeRedrawFlag),
            (Reply::RedrawFlag(true), dispatch(Event::NewEvents(start), ControlFlow::Wait)),
        ],
    );
}

#[test]
fn cause_after_a_wait_with_a_deadline() {
    let until = ControlFlow::WaitUntil(at(500));
    for (now, cause) in [
        (
            499,
            StartCause::WaitCancelled { start: at(100), requested_resume: Some(at(500)) },
        ),
        (500, StartCause::ResumeTimeReached { start: at(100), requested_resume: at(500) }),
        (501, StartCause::ResumeTimeReached { start: at(100), requested_resume: at(500) }),
    ] {
        let mut state = resumed(until);
        play(
            &mut state,
            vec![
                (Reply::PollEvent(PollEvent::Other), Action::QueryTime),
                (Reply::Time(at(now)), dispatch(Event::NewEvents(cause), until)),
            ],
        );
    }
}

#[test]
fn window_comes_and_goes() {
    let (mut state, action) = commanded(MainEvent::InitWindow);
    assert_eq!(action, dispatch(Event::Resumed, ControlFlow::Poll));
    play(&mut state, vec![(Reply::Handled(ControlFlow::Poll), Action::OpenInput)]);
    let (mut state, action) = commanded(MainEvent::TerminateWindow);
    assert_eq!(action, dispatch(Event::Suspended, ControlFlow::Poll));
    play(&mut state, vec![(Reply::Handled(ControlFlow::Poll), Action::OpenInput)]);
}

#[test]
fn focus_is_noted_and_then_told() {
    for (command, focused) in [(MainEvent::GainedFocus, true), (MainEvent::LostFocus, false)] {
        let (mut state, action) = commanded(command);
        assert_eq!(action, Action::StoreFocus(focused));
        play(
            &mut state,
            vec![
                (
                    Reply::Done,
                    dispatch(window_event(WindowEvent::Focused(focused)), ControlFlow::Poll),
                ),
                (Reply::Handled(ControlFlow::Poll), Action::OpenInput),
            ],
        );
    }
}

#[test]
fn unchanged_density_is_reported() {
    let (mut state, action) = commanded(MainEvent::ConfigChanged);
    assert_eq!(action, Action::QueryDensity);
    play(
        &mut state,
        vec![
            (Reply::Density(None), Action::QueryDensity),
            (Reply::Density(Some(160)), Action::QueryNativeWindow),
            (
                Reply::NativeWindow(Some(NativeWindow { width: 3, height: 4 })),
                dispatch(
                    window_event(WindowEvent::ScaleFactorChanged {
                        scale_factor: ScaleFactor { dpi: 160 },
                        new_inner_size: PhysicalSize { width: 3, height: 4 },
                    }),
                    ControlFlow::Poll,
                ),
            ),
            (Reply::Handled(ControlFlow::Poll), Action::OpenInput),
        ],
    );
}

#[test]
fn differing_densities_are_not_reported() {
    let (mut state, action) = commanded(MainEvent::ConfigChanged);
    assert_eq!(action, Action::QueryDensity);
    play(
        &mut state,
        vec![
            (Reply::Density(Some(160)), Action::QueryDensity),
            (Reply::Density(Some(320)), Action::OpenInput),
        ],
    );
}

#[test]
fn commands_without_an_event() {
    for command in [
        MainEvent::ContentRectChanged,
        MainEvent::LowMemory,
        MainEvent::Start,
        MainEvent::SaveState,
        MainEvent::Stop,
        MainEvent::Destroy,
        MainEvent::InsetsChanged,
        MainEvent::Other,
    ] {
        let (state, action) = commanded(command);
        assert_eq!(action, Action::OpenInput);
        assert!(state.running);
    }
}

#[test]
fn pause_stops_redraws_until_the_next_resume() {
    let (mut state, action) = commanded(MainEvent::Pause);
    assert_eq!(action, Action::OpenInput);
    assert!(!state.running);
    play(
        &mut state,
        vec![
            (Reply::InputOpened(false), Action::ReceiveUserEvent),
            (Reply::UserEvent(None), dispatch(Event::AboutToWait, ControlFlow::Poll)),
            (Reply::Handled(ControlFlow::Poll), Action::PollHandled),
        ],
    );
    play(
        &mut state,
        vec![
            (
                Reply::PollEvent(PollEvent::Main(MainEvent::RedrawNeeded)),
                dispatch(Event::NewEvents(StartCause::Poll), ControlFlow::Poll),
            ),
            (Reply::Handled(ControlFlow::Poll), Action::OpenInput),
            (Reply::InputOpened(false), Action::ReceiveUserEvent),
            (Reply::UserEvent(None), dispatch(Event::AboutToWait, ControlFlow::Poll)),
            (Reply::Handled(ControlFlow::Poll), Action::PollHandled),
        ],
    );
    assert!(state.pending_redraw);
    play(
        &mut state,
        vec![
            (
                Reply::PollEvent(PollEvent::Main(MainEvent::Resume)),
                dispatch(Event::NewEvents(StartCause::Poll), ControlFlow::Poll),
            ),
            (Reply::Handled(ControlFlow::Poll), Action::OpenInput),
            (Reply::InputOpened(false), Action::ReceiveUserEvent),
            (Reply::UserEvent(None), Action::TakeRedrawFlag),
            (
                Reply::RedrawFlag(false),
                dispatch(window_event(WindowEvent::RedrawRequested), ControlFlow::Poll),
            ),
            (
                Reply::Handled(ControlFlow::Poll),
                dispatch(Event::AboutToWait, ControlFlow::Poll),
            ),
            (Reply::Handled(ControlFlow::Poll), Action::PollHandled),
        ],
    );
    assert!(!state.pending_redraw);
}

#[test]
fn resize_is_reported_before_the_redraw() {
    let (mut state, action) = commanded(MainEvent::WindowResized);
    assert_eq!(action, Action::OpenInput);
    play(
        &mut state,
        vec![
            (Reply::InputOpened(false), Action::ReceiveUserEvent),
            (Reply::UserEvent(None), Action::QueryNativeWindow),
            (
                Reply::NativeWindow(Some(NativeWindow { width: 8, height: 9 })),
                dispatch(
                    window_event(WindowEvent::Resized(PhysicalSize { width: 8, height: 9 })),
                    ControlFlow::Poll,
                ),
            ),
            (Reply::Handled(ControlFlow::Poll), Action::TakeRedrawFlag),
            (
                Reply::RedrawFlag(true),
                dispatch(window_event(WindowEvent::RedrawRequested), ControlFlow::Poll),
            ),
            (
                Reply::Handled(ControlFlow::Poll),
                dispatch(Event::AboutToWait, ControlFlow::Poll),
            ),
        ],
    );
}

#[test]
fn resize_of_a_paused_activity_is_dropped() {
    let mut state = polling(ControlFlow::Poll);
    play(
        &mut state,
        vec![
            (
                Reply::PollEvent(PollEvent::Main(MainEvent::WindowResized)),
                dispatch(Event::NewEvents(StartCause::Poll), ControlFlow::Poll),
            ),
            (Reply::Handled(ControlFlow::Poll), Action::OpenInput),
            (Reply::InputOpened(false), Action::ReceiveUserEvent),
            (Reply::UserEvent(None), dispatch(Event::AboutToWait, ControlFlow::Poll)),
        ],
    );
}

#[test]
fn vanished_window_is_reported_as_empty() {
    let (mut state, _) = commanded(MainEvent::WindowResized);
    play(
        &mut state,
        vec![
            (Reply::InputOpened(true), Action::ReadInput),
            (Reply::Input(None), Action::ReceiveUserEvent),
            (Reply::UserEvent(None), Action::QueryNativeWindow),
            (
                Reply::NativeWindow(None),
                dispatch(
                    window_event(WindowEvent::Resized(PhysicalSize { width: 0, height: 0 })),
                    ControlFlow::Poll,
                ),
            ),
        ],
    );
}

#[test]
fn touches_keys_and_user_events_in_order() {
    let finger = |pointer_id: i32| Pointer {
        pointer_id,
        location: Location { x_bits: 10 * pointer_id as u32, y_bits: 0 },
    };
    let motion = MotionEvent {
        action: MotionAction::Move,
        pointer_index: 0,
        pointers: vec![finger(1), finger(2)],
    };
    let key = KeyInput { keycode: 30, action: KeyAction::Up, repeat_count: 2 };
    let volume = KeyInput { keycode: 24, action: KeyAction::Down, repeat_count: 0 };
    let accent = KeyInput { keycode: 31, action: KeyAction::Down, repeat_count: 0 };
    let poll = ControlFlow::Poll;
    let (mut state, _) = commanded(MainEvent::Other);
    play(
        &mut state,
        vec![
            (Reply::InputOpened(true), Action::ReadInput),
            (
                Reply::Input(Some(InputEvent::Motion(motion))),
                dispatch(report_touch(TouchPhase::Moved, finger(1)), poll),
            ),
            (
                Reply::Handled(poll),
                dispatch(report_touch(TouchPhase::Moved, finger(2)), poll),
            ),
            (Reply::Handled(poll), Action::AnswerInput(InputStatus::Handled)),
            (Reply::Done, Action::ReadInput),
            (
                Reply::Input(Some(InputEvent::Key(accent))),
                Action::MapKey { key: accent, combining_accent: None },
            ),
            (
                Reply::KeyMapped {
                    key_char: Some(KeyMapChar::CombiningAccent('^')),
                    combining_accent: Some('^'),
                },
                dispatch(report_key(accent, Some(KeyMapChar::CombiningAccent('^'))), poll),
            ),
            (Reply::Handled(poll), Action::AnswerInput(InputStatus::Handled)),
            (Reply::Done, Action::ReadInput),
            (
                Reply::Input(Some(InputEvent::Key(volume))),
                Action::AnswerInput(InputStatus::Unhandled),
            ),
            (Reply::Done, Action::ReadInput),
            (
                Reply::Input(Some(InputEvent::Key(key))),
                Action::MapKey { key, combining_accent: Some('^') },
            ),
            (
                Reply::KeyMapped {
                    key_char: Some(KeyMapChar::Unicode('\u{ea}')),
                    combining_accent: None,
                },
                dispatch(report_key(key, Some(KeyMapChar::Unicode('\u{ea}'))), poll),
            ),
            (Reply::Handled(poll), Action::AnswerInput(InputStatus::Handled)),
            (Reply::Done, Action::ReadInput),
            (
                Reply::Input(Some(InputEvent::Other)),
                Action::AnswerInput(InputStatus::Handled),
            ),
            (Reply::Done, Action::ReadInput),
            (Reply::Input(None), Action::ReceiveUserEvent),
            (Reply::UserEvent(Some(5)), dispatch(Event::UserEvent(5), poll)),
            (Reply::Handled(poll), Action::ReceiveUserEvent),
            (Reply::UserEvent(Some(6)), dispatch(Event::UserEvent(6), poll)),
            (Reply::Handled(poll), Action::ReceiveUserEvent),
            (Reply::UserEvent(None), Action::TakeRedrawFlag),
            (Reply::RedrawFlag(false), dispatch(Event::AboutToWait, poll)),
        ],
    );
    assert_eq!(state.combining_accent, None);
}

#[test]
fn motion_without_pointers_is_answered_at_once() {
    let motion = MotionEvent { action: MotionAction::Cancel, pointer_index: 0, pointers: vec![] };
    let (mut state, _) = commanded(MainEvent::Other);
    play(
        &mut state,
        vec![
            (Reply::InputOpened(true), Action::ReadInput),
            (
                Reply::Input(Some(InputEvent::Motion(motion))),
                Action::AnswerInput(InputStatus::Handled),
            ),
        ],
    );
}

#[test]
fn only_the_awaited_replies_are_accepted() {
    let mut state = LoopState::new(true);
    assert!(!state.accepts(&Reply::<u8>::Handled(ControlFlow::Poll)));
    state.pump_events::<u8>(None);
    assert!(state.accepts(&Reply::<u8>::Handled(ControlFlow::Poll)));
    assert!(!state.accepts(&Reply::<u8>::Done));
    assert!(!state.accepts(&Reply::<u8>::UserEvent(None)));
    play(
        &mut state,
        vec![
            (Reply::Handled(ControlFlow::Poll), Action::OpenInput),
            (Reply::InputOpened(true), Action::ReadInput),
        ],
    );
    let broken = MotionEvent { action: MotionAction::Down, pointer_index: 0, pointers: vec![] };
    assert!(!state.accepts(&Reply::<u8>::Input(Some(InputEvent::Motion(broken)))));
    assert!(state.accepts(&Reply::<u8>::Input(Some(InputEvent::Other))));
}
