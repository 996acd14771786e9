use android_event_loop::event::{
    ControlFlow, Event, EventLoopError, PumpStatus, StartCause, WindowEvent, WindowId,
};
use android_event_loop::event_loop::{EventLoop, PlatformSpecificEventLoopAttributes};
use android_event_loop::machine::{Action, MainEvent, PollEvent, Reply};
use android_event_loop::queue::EventLoopClosed;
use android_event_loop::time::{Duration, Instant};
use android_event_loop::window::{PlatformSpecificWindowBuilderAttributes, Window};

/// A system without input, in which each poll brings the next of `polls`.
struct System {
    polls: Vec<PollEvent>,
    timeouts: Vec<Option<Duration>>,
    events: Vec<Event<&'static str>>,
    exit_after: usize,
}

fn event_loop() -> EventLoop<&'static str, ()> {
    EventLoop::new(&PlatformSpecificEventLoopAttributes {
        android_app: Some(()),
        ignore_volume_keys: true,
    })
    .unwrap()
}

fn system(polls: Vec<PollEvent>) -> System {
    System { polls, timeouts: vec![], events: vec![], exit_after: usize::MAX }
}

impl System {
    /// Does what the loop asks for until it is done.
    fn drive(
        &mut self,
        event_loop: &mut EventLoop<&'static str, ()>,
        first: Action<&'static str>,
    ) -> Action<&'static str> {
        let mut action = first;
        loop {
            let reply = match action {
                Action::Dispatch { event, .. } => {
                    self.events.push(event);
                    Reply::Handled(if self.events.len() >= self.exit_after {
                        ControlFlow::ExitWithCode(5)
                    } else {
                        ControlFlow::Wait
                    })
                }
                Action::OpenInput => Reply::InputOpened(false),
                Action::QueryTime => Reply::Time(Instant { nanos: 0 }),
                Action::Poll { timeout } => {
                    self.timeouts.push(timeout);
                    if self.polls.is_empty() {
                        Reply::PollReturned
                    } else {
                        Reply::PollEvent(self.polls.remove(0))
                    }
                }
                Action::PollHandled => Reply::PollReturned,
                Action::PumpFinished(_) | Action::RunFinished(_) => return action,
                other => panic!("unexpected: {:?}", other),
            };
            assert!(event_loop.accepts(&reply));
            action = event_loop.resume(reply);
        }
    }

    fn pump(&mut self, event_loop: &mut EventLoop<&'static str, ()>) -> PumpStatus {
        assert!(event_loop.is_idle());
        let first = event_loop.pump_events(None);
        assert!(!event_loop.is_idle());
        match self.drive(event_loop, first) {
            Action::PumpFinished(status) => status,
            other => panic!("not the end of a pump: {:?}", other),
        }
    }
}

fn woken() -> Event<&'static str> {
    Event::NewEvents(StartCause::WaitCancelled {
        start: Instant { nanos: 0 },
        requested_resume: None,
    })
}

fn redraw() -> Event<&'static str> {
    Event::WindowEvent { window_id: WindowId, event: WindowEvent::RedrawRequested }
}

#[test]
fn events_sent_before_the_start_reach_the_first_iteration() {
    let mut event_loop = event_loop();
    let proxy = event_loop.create_proxy();
    assert_eq!(proxy.send_event("a"), Ok(()));
    assert_eq!(proxy.clone().send_event("b"), Ok(()));
    let mut system = system(vec![]);
    assert_eq!(system.pump(&mut event_loop), PumpStatus::Continue);
    assert_eq!(
        system.events,
        vec![
            Event::NewEvents(StartCause::Init),
            Event::UserEvent("a"),
            Event::UserEvent("b"),
            Event::AboutToWait,
        ]
    );
}

#[test]
fn waiting_event_keeps_a_running_loop_from_blocking() {
    let mut event_loop = event_loop();
    let mut system = system(vec![PollEvent::Main(MainEvent::Resume), PollEvent::Wake]);
    system.pump(&mut event_loop);
    event_loop.create_proxy().send_event("ping").unwrap();
    system.events.clear();
    system.pump(&mut event_loop);
    assert_eq!(system.timeouts, vec![None, Some(Duration { nanos: 0 })]);
    assert_eq!(system.events, vec![woken(), Event::UserEvent("ping"), Event::AboutToWait]);
}

#[test]
fn event_held_back_comes_before_later_ones() {
    let mut event_loop = event_loop();
    let proxy = event_loop.create_proxy();
    let mut system = system(vec![PollEvent::Main(MainEvent::Resume)]);
    system.pump(&mut event_loop);
    proxy.send_event("first").unwrap();
    system.events.clear();
    system.pump(&mut event_loop);
    assert_eq!(system.events, vec![]);
    proxy.send_event("second").unwrap();
    system.polls.push(PollEvent::Wake);
    system.pump(&mut event_loop);
    assert_eq!(
        system.events,
        vec![
            woken(),
            Event::UserEvent("first"),
            Event::UserEvent("second"),
            Event::AboutToWait,
        ]
    );
}

#[test]
fn ignored_wake_leaves_events_pending() {
    let mut event_loop = event_loop();
    let mut system = system(vec![]);
    system.pump(&mut event_loop);
    event_loop.create_proxy().send_event("kept").unwrap();
    system.events.clear();
    system.polls.push(PollEvent::Wake);
    system.pump(&mut event_loop);
    assert_eq!(system.events, vec![]);
    system.polls.push(PollEvent::Timeout);
    system.pump(&mut event_loop);
    assert_eq!(system.events, vec![woken(), Event::UserEvent("kept"), Event::AboutToWait]);
}

#[test]
fn requested_redraw_is_carried_out_once() {
    let mut event_loop = event_loop();
    let attributes = PlatformSpecificWindowBuilderAttributes::default();
    let window = Window::new(event_loop.window_target(), (), attributes).unwrap();
    let mut system =
        system(vec![PollEvent::Main(MainEvent::Resume), PollEvent::Wake, PollEvent::Wake]);
    system.pump(&mut event_loop);
    assert!(window.request_redraw());
    assert!(!window.request_redraw());
    system.events.clear();
    system.pump(&mut event_loop);
    assert_eq!(system.events, vec![woken(), redraw(), Event::AboutToWait]);
    system.events.clear();
    system.pump(&mut event_loop);
    assert_eq!(system.events, vec![]);
    assert_eq!(system.timeouts, vec![None, Some(Duration { nanos: 0 }), None]);
    assert!(window.request_redraw());
}

#[test]
fn redraw_requested_while_paused_waits_for_the_resume() {
    let mut event_loop = event_loop();
    let attributes = PlatformSpecificWindowBuilderAttributes::default();
    let window = Window::new(event_loop.window_target(), (), attributes).unwrap();
    let mut system = system(vec![PollEvent::Wake, PollEvent::Main(MainEvent::Resume)]);
    system.pump(&mut event_loop);
    assert!(window.request_redraw());
    system.events.clear();
    system.pump(&mut event_loop);
    assert_eq!(system.events, vec![woken(), redraw(), Event::AboutToWait]);
    assert_eq!(system.timeouts, vec![None, None]);
}

#[test]
fn run_ends_with_the_code_of_the_handler() {
    let mut event_loop = event_loop();
    let mut system = system(vec![]);
    system.exit_after = 1;
    let first = event_loop.run_ondemand().unwrap();
    let last = system.drive(&mut event_loop, first);
    assert_eq!(last, Action::RunFinished(Err(EventLoopError::ExitFailure(5))));
    assert_eq!(
        system.events,
        vec![Event::NewEvents(StartCause::Init), Event::AboutToWait, Event::LoopExiting]
    );
    assert!(event_loop.is_idle());
    assert!(event_loop.run_ondemand().is_ok());
}

#[test]
fn start_comes_first_and_end_last_over_several_pumps() {
    let mut event_loop = event_loop();
    let mut system = system(vec![]);
    assert_eq!(system.pump(&mut event_loop), PumpStatus::Continue);
    system.polls.push(PollEvent::Timeout);
    assert_eq!(system.pump(&mut event_loop), PumpStatus::Continue);
    system.exit_after = 5;
    system.polls.push(PollEvent::Timeout);
    assert_eq!(system.pump(&mut event_loop), PumpStatus::Exit(5));
    let starts = |event: &&Event<&str>| **event == Event::NewEvents(StartCause::Init);
    assert_eq!(system.events.iter().filter(starts).count(), 1);
    assert_eq!(system.events.first(), Some(&Event::NewEvents(StartCause::Init)));
    let ends = |event: &&Event<&str>| **event == Event::LoopExiting;
    assert_eq!(system.events.iter().filter(ends).count(), 1);
    assert_eq!(system.events.last(), Some(&Event::LoopExiting));
}

#[test]
fn loop_given_away_runs_once() {
    let mut system = system(vec![PollEvent::Timeout]);
    system.exit_after = 3;
    let (mut event_loop, first) = event_loop().run();
    let last = system.drive(&mut event_loop, first.unwrap());
    assert_eq!(last, Action::RunFinished(Err(EventLoopError::ExitFailure(5))));
    assert_eq!(
        system.events,
        vec![
            Event::NewEvents(StartCause::Init),
            Event::AboutToWait,
            woken(),
            Event::AboutToWait,
            Event::LoopExiting,
        ]
    );
}

#[test]
fn pumped_loop_refuses_to_run() {
    let mut event_loop = event_loop();
    let mut system = system(vec![]);
    system.pump(&mut event_loop);
    assert_eq!(event_loop.run_ondemand(), Err(EventLoopError::AlreadyRunning));
    let (_, refused) = event_loop.run();
    assert_eq!(refused, Err(EventLoopError::AlreadyRunning));
}

#[test]
fn proxy_outlives_the_loop() {
    let event_loop = event_loop();
    let proxy = event_loop.create_proxy();
    drop(event_loop);
    assert_eq!(proxy.send_event("late"), Err(EventLoopClosed("late")));
}
