//! What holds of every run of the loop.

use vstd::prelude::*;

use crate::dpi;
use crate::event;
use crate::event::{ControlFlow, Event, PumpStatus, StartCause, WindowEvent};
use crate::input;
use crate::input::{InputEvent, InputStatus, KeyInput, MotionEvent};
use crate::machine;
use crate::machine::{
    Action, Frame, LoopState, MainEvent, Mode, Origin, Phase, PollEvent, Reply, Stage,
};
use crate::time;
use crate::time::{Duration, Instant};
use crate::trace;

verus! {

/// The place that an event has in an iteration.
pub open spec fn place<T>(event: Event<T>) -> int {
    match event {
        Event::NewEvents(_) => 0,
        Event::Resumed | Event::Suspended => 1,
        Event::WindowEvent { event, .. } => match event {
            WindowEvent::Focused(_) | WindowEvent::ScaleFactorChanged { .. } => 1,
            WindowEvent::Touch(_) | WindowEvent::KeyboardInput { .. } => 2,
            WindowEvent::Resized(_) => 4,
            WindowEvent::RedrawRequested => 5,
        },
        Event::UserEvent(_) => 3,
        Event::AboutToWait => 6,
        Event::LoopExiting => 7,
    }
}

/// The events of an iteration come in a fixed order: first why it takes place,
/// then at most one event for the command of the system, the input events, the
/// user events, at most one resize, at most one redraw, and last the notice
/// that there is nothing left.
pub open spec fn in_order<T>(events: Seq<Event<T>>) -> bool {
    forall|i: int, j: int|
        0 <= i < j < events.len() ==> {
            &&& place(#[trigger] events[i]) <= place(#[trigger] events[j])
            &&& place(events[i]) == place(events[j]) ==> place(events[i]) == 2 || place(events[i])
                == 3
        }
}

/// The last place that an event dispatched up to `stage` can have.
spec fn reached(stage: Stage) -> int {
    match stage {
        Stage::NewEvents { .. } | Stage::StoringFocus { .. } | Stage::OldDensity
        | Stage::NewDensity { .. } | Stage::ConfigSize { .. } => 0,
        Stage::MainEvent | Stage::OpeningInput => 1,
        Stage::ReadingInput | Stage::Touching { .. } | Stage::MappingKey { .. } | Stage::Key
        | Stage::AnsweringInput => 2,
        Stage::ReadingUserEvents | Stage::UserEvent | Stage::ResizedSize => 3,
        Stage::Resized | Stage::RedrawFlag => 4,
        Stage::Redraw => 5,
        Stage::AboutToWait => 6,
    }
}

proof fn lemma_step_in_place<T>(s: LoopState, frame: Frame, stage: Stage, reply: Reply<T>)
    requires
        machine::accepts_in_iteration(stage, reply),
    ensures
        ({
            let (s2, action) = machine::next_in_iteration(s, frame, stage, reply);
            s2.phase matches Phase::Iterating { frame: frame2, stage: stage2 } ==> {
                &&& reached(stage) <= reached(stage2)
                &&& action matches Action::Dispatch { event, .. } ==> {
                    &&& place(event) == reached(stage2)
                    &&& reached(stage) < reached(stage2) || place(event) == 2 || place(event) == 3
                }
                &&& stage2 is AboutToWait ==> action matches Action::Dispatch {
                    event: Event::AboutToWait,
                    ..
                }
            }
        }),
        !(machine::next_in_iteration(s, frame, stage, reply).0.phase is Iterating) ==> stage
            is AboutToWait,
{
}

proof fn lemma_iteration_in_order<T>(
    s: LoopState,
    main_event: Option<MainEvent>,
    origin: Origin,
    replies: Seq<Reply<T>>,
)
    requires
        trace::accepted(machine::begin_iteration::<T>(s, main_event, origin), replies),
        trace::stays_in_iteration(machine::begin_iteration::<T>(s, main_event, origin), replies),
    ensures
        ({
            let begin = machine::begin_iteration::<T>(s, main_event, origin);
            let events = trace::dispatched(begin, replies);
            let stage = trace::after(begin, replies).0.phase->Iterating_stage;
            &&& in_order(events)
            &&& events.len() > 0
            &&& events[0] == Event::<T>::NewEvents(s.cause)
            &&& forall|i: int|
                0 <= i < events.len() ==> place(#[trigger] events[i]) <= reached(stage)
            &&& stage is AboutToWait ==> events.last() is AboutToWait
        }),
    decreases replies.len(),
{
    let begin = machine::begin_iteration::<T>(s, main_event, origin);
    if replies.len() > 0 {
        let before = replies.drop_last();
        lemma_iteration_in_order(s, main_event, origin, before);
        let (s1, action1) = trace::after(begin, before);
        lemma_step_in_place(
            s1,
            s1.phase->Iterating_frame,
            s1.phase->Iterating_stage,
            replies.last(),
        );
        let earlier = trace::dispatched(begin, before);
        let events = trace::dispatched(begin, replies);
        assert(events == earlier + trace::event_of(trace::after(begin, replies).1));
        assert forall|i: int| 0 <= i < earlier.len() implies events[i] == earlier[i] by {}
    }
}

/// In every iteration of the loop, in whatever state it begins and whatever is
/// replied to it, the events that the handler gets come in order (see
/// [`in_order`]), the first one says why the iteration takes place, and when the
/// iteration is over, the last one was [`Event::AboutToWait`].
pub proof fn law_iteration_in_order<T>(
    s: LoopState,
    main_event: Option<MainEvent>,
    origin: Origin,
    replies: Seq<Reply<T>>,
)
    requires
        trace::accepted(machine::begin_iteration::<T>(s, main_event, origin), replies),
        trace::stays_in_iteration(machine::begin_iteration::<T>(s, main_event, origin), replies),
    ensures
        ({
            let begin = machine::begin_iteration::<T>(s, main_event, origin);
            let events = trace::dispatched(begin, replies);
            &&& in_order(events)
            &&& events.len() > 0
            &&& events[0] == Event::<T>::NewEvents(s.cause)
            &&& forall|last: Reply<T>|
                (#[trigger] machine::accepts(trace::after(begin, replies).0, last) && !(
                machine::next(trace::after(begin, replies).0, last).0.phase is Iterating))
                    ==> events.last() is AboutToWait
        }),
{
    lemma_iteration_in_order(s, main_event, origin, replies);
    let begin = machine::begin_iteration::<T>(s, main_event, origin);
    let s1 = trace::after(begin, replies).0;
    let events = trace::dispatched(begin, replies);
    assert forall|last: Reply<T>|
        (#[trigger] machine::accepts(s1, last) && !(machine::next(s1, last).0.phase
            is Iterating)) implies events.last() is AboutToWait by {
        lemma_step_in_place(s1, s1.phase->Iterating_frame, s1.phase->Iterating_stage, last);
    }
}

/// Every state that a run leads to is valid (see [`machine::wf`]), and the
/// action that it comes with is the one that the loop waits for.
pub proof fn law_runs_keep_validity<T>(begin: (LoopState, Action<T>), replies: Seq<Reply<T>>)
    requires
        machine::wf(begin.0),
        machine::waits_for(begin.0, begin.1),
        trace::accepted(begin, replies),
    ensures
        machine::wf(trace::after(begin, replies).0),
        machine::waits_for(trace::after(begin, replies).0, trace::after(begin, replies).1),
    decreases replies.len(),
{
    if replies.len() > 0 {
        law_runs_keep_validity(begin, replies.drop_last());
        machine::law_step_keeps_validity(
            trace::after(begin, replies.drop_last()).0,
            replies.last(),
        );
    }
}

/// A step hands a user event to the handler exactly when it is resumed with that
/// event.
pub proof fn law_user_event_goes_to_handler<T>(s: LoopState, reply: Reply<T>)
    requires
        machine::accepts(s, reply),
    ensures
        reply matches Reply::UserEvent(Some(event)) ==> (machine::next(
            s,
            reply,
        ).1 matches Action::Dispatch { event: Event::UserEvent(dispatched), .. } && dispatched
            == event),
        machine::next(s, reply).1 matches Action::Dispatch {
            event: Event::UserEvent(dispatched),
            ..
        } ==> reply == Reply::UserEvent(Some(dispatched)),
{
}

/// In every run the handler gets exactly the user events that were taken out of
/// the queue, each once and in the order in which they came.
pub proof fn law_user_events_pass_through<T>(
    begin: (LoopState, Action<T>),
    replies: Seq<Reply<T>>,
)
    requires
        trace::accepted(begin, replies),
        !(begin.1 matches Action::Dispatch { event: Event::UserEvent(_), .. }),
    ensures
        trace::dispatched_user_events(trace::dispatched(begin, replies)) == trace::user_events(
            replies,
        ),
    decreases replies.len(),
{
    let events = trace::dispatched(begin, replies);
    if replies.len() > 0 {
        let before = replies.drop_last();
        law_user_events_pass_through(begin, before);
        law_user_event_goes_to_handler(trace::after(begin, before).0, replies.last());
        let earlier = trace::dispatched(begin, before);
        let added = trace::event_of(trace::after(begin, replies).1);
        assert(events == earlier + added);
        if added.len() > 0 {
            assert((earlier + added).drop_last() =~= earlier);
            assert((earlier + added).last() == added[0]);
        } else {
            assert(earlier + added =~= earlier);
        }
    } else {
        reveal_with_fuel(trace::dispatched_user_events, 2);
    }
}

/// What the handler has last asked the loop to do.
pub open spec fn requested(s: LoopState) -> ControlFlow {
    match s.phase {
        Phase::Iterating { frame, .. } => frame.control_flow,
        _ => s.control_flow,
    }
}

proof fn lemma_exit_step<T>(s: LoopState, reply: Reply<T>, code: i32)
    requires
        machine::wf(s),
        machine::accepts(s, reply),
        requested(s) == ControlFlow::ExitWithCode(code),
    ensures
        requested(machine::next(s, reply).0) == ControlFlow::ExitWithCode(code),
        machine::next(s, reply).0.phase is Idle ==> !machine::next(s, reply).0.loop_running
            && machine::next(s, reply).1 == machine::exited::<T>(
            machine::next(s, reply).0,
            code,
        ).1,
{
}

/// Once the handler has asked for an exit, the loop holds on to the code to the
/// end of the run, whatever the handler asks for later, and when the run ends,
/// it ends with that code.
pub proof fn law_exit_stays_requested<T>(
    begin: (LoopState, Action<T>),
    replies: Seq<Reply<T>>,
    code: i32,
)
    requires
        machine::wf(begin.0),
        machine::waits_for(begin.0, begin.1),
        !(begin.0.phase is Idle),
        requested(begin.0) == ControlFlow::ExitWithCode(code),
        trace::accepted(begin, replies),
    ensures
        requested(trace::after(begin, replies).0) == ControlFlow::ExitWithCode(code),
        trace::after(begin, replies).0.phase is Idle ==> {
            &&& !trace::after(begin, replies).0.loop_running
            &&& trace::after(begin, replies).1 == machine::exited::<T>(
                trace::after(begin, replies).0,
                code,
            ).1
        },
    decreases replies.len(),
{
    if replies.len() > 0 {
        let before = replies.drop_last();
        law_exit_stays_requested(begin, before, code);
        law_runs_keep_validity(begin, before);
        lemma_exit_step(trace::after(begin, before).0, replies.last(), code);
    }
}

/// A loop that is to exit does not poll again: neither the looper nor anything
/// that is read ahead of a poll is asked for once an exit was requested, not even
/// when the very first iteration requests it. The loop goes on only to
/// [`Event::LoopExiting`].
pub proof fn law_exiting_loop_does_not_poll<T>(s: LoopState, reply: Reply<T>)
    requires
        machine::wf(s),
        machine::accepts(s, reply),
        requested(machine::next(s, reply).0) is ExitWithCode,
    ensures
        !(machine::next(s, reply).1 is Poll),
        !(machine::next(s, reply).1 is QueryTime),
        s.phase is Polling || (s.phase is Iterating && s.phase->frame.origin is Start && !(
        machine::next(s, reply).0.phase is Iterating)) ==> (machine::next(
            s,
            reply,
        ).1 matches Action::Dispatch { event: Event::LoopExiting, .. }),
{
}

/// What a pump or a run that ended with `code` reports: the code to a pump; to
/// a run success where the code is zero, and else a failure with the code.
pub proof fn law_exit_code_is_reported<T>(s: LoopState, code: i32)
    ensures
        s.mode is Pump ==> machine::exited::<T>(s, code).1 == Action::<T>::PumpFinished(
            PumpStatus::Exit(code),
        ),
        s.mode is Run && code == 0 ==> machine::exited::<T>(s, code).1 == Action::<
            T,
        >::RunFinished(Ok(())),
        s.mode is Run && code != 0 ==> machine::exited::<T>(s, code).1 == Action::<
            T,
        >::RunFinished(Err(event::EventLoopError::ExitFailure(code))),
{
}

/// A run ends only by an exit: the loop comes to rest in no other way.
pub proof fn law_run_ends_only_by_exit<T>(s: LoopState, reply: Reply<T>)
    requires
        machine::wf(s),
        machine::accepts(s, reply),
        s.mode is Run,
    ensures
        machine::next(s, reply).0.mode is Run,
        machine::next(s, reply).0.phase is Idle <==> s.phase is Exiting,
        machine::next(s, reply).0.phase is Idle <==> machine::next(s, reply).1 is RunFinished,
        !(machine::next(s, reply).1 is PumpFinished),
{
}

/// [`Event::LoopExiting`] is the last event of a run: it comes only when an exit
/// was requested, the loop no longer counts as running then, and whatever the
/// handler leaves, nothing follows but the end with that code.
pub proof fn law_loop_exiting_is_last<T>(s: LoopState, reply: Reply<T>, returned: ControlFlow)
    requires
        machine::wf(s),
        machine::accepts(s, reply),
        machine::next(s, reply).1 matches Action::Dispatch { event: Event::LoopExiting, .. },
    ensures
        ({
            let ending = machine::next(s, reply).0;
            &&& ending.control_flow matches ControlFlow::ExitWithCode(code)
            &&& !ending.loop_running
            &&& ending.phase == (Phase::Exiting { code })
            &&& machine::accepts(ending, Reply::<T>::Handled(returned))
            &&& machine::next(ending, Reply::<T>::Handled(returned)) == machine::exited::<T>(
                ending,
                code,
            )
        }),
{
}

/// The first exit code that the handler asks for in `replies`, if it does.
pub open spec fn first_exit<T>(replies: Seq<Reply<T>>) -> Option<i32>
    decreases replies.len(),
{
    if replies.len() == 0 {
        None
    } else {
        match (first_exit(replies.drop_last()), replies.last()) {
            (Some(code), _) => Some(code),
            (None, Reply::Handled(ControlFlow::ExitWithCode(code))) => Some(code),
            _ => None,
        }
    }
}

/// `events` are those of a run so far: none of them but perhaps the first says
/// that the loop starts, and none but perhaps the last that it ends.
pub open spec fn of_one_run<T>(events: Seq<Event<T>>) -> bool {
    &&& forall|i: int|
        0 < i < events.len() ==> #[trigger] events[i] != Event::<T>::NewEvents(StartCause::Init)
    &&& forall|i: int|
        0 <= i < events.len() - 1 ==> !(#[trigger] events[i] is LoopExiting)
}

proof fn lemma_run_step<T>(s: LoopState, reply: Reply<T>)
    requires
        machine::wf(s),
        machine::accepts(s, reply),
    ensures
        ({
            let (s2, action) = machine::next(s, reply);
            &&& s2.mode == s.mode
            &&& !(action matches Action::Dispatch {
                event: Event::NewEvents(StartCause::Init),
                ..
            })
            &&& s2.phase is Exiting <==> (action matches Action::Dispatch {
                event: Event::LoopExiting,
                ..
            })
            &&& s.phase is Exiting ==> s2.phase is Idle && trace::event_of(action) == Seq::<
                Event<T>,
            >::empty()
            &&& requested(s2) == (match reply {
                Reply::Handled(returned) => event::sticky(requested(s), returned),
                _ => requested(s),
            })
        }),
{
}

proof fn lemma_end_step<T>(s: LoopState, reply: Reply<T>)
    requires
        machine::wf(s),
        machine::accepts(s, reply),
        machine::next(s, reply).0.phase is Idle,
    ensures
        ({
            let (s2, action) = machine::next(s, reply);
            if s.phase is Exiting {
                &&& requested(s2) matches ControlFlow::ExitWithCode(code)
                &&& action == machine::exited::<T>(s2, code).1
            } else {
                &&& !machine::exits(requested(s2))
                &&& s.mode is Pump
                &&& action == Action::<T>::PumpFinished(PumpStatus::Continue)
                &&& trace::event_of(action) == Seq::<Event<T>>::empty()
            }
        }),
{
}

proof fn lemma_run<T>(begin: (LoopState, Action<T>), replies: Seq<Reply<T>>)
    requires
        machine::wf(begin.0),
        machine::waits_for(begin.0, begin.1),
        !(begin.0.phase is Idle || begin.0.phase is Exiting),
        !machine::exits(requested(begin.0)),
        trace::event_of(begin.1).len() > 0 ==> !(trace::event_of(begin.1)[0] is LoopExiting),
        trace::accepted(begin, replies),
    ensures
        ({
            let events = trace::dispatched(begin, replies);
            let (s, action) = trace::after(begin, replies);
            &&& trace::event_of(begin.1).is_prefix_of(events)
            &&& forall|i: int|
                trace::event_of(begin.1).len() <= i < events.len() ==> #[trigger] events[i]
                    != Event::<T>::NewEvents(StartCause::Init)
            &&& forall|i: int|
                0 <= i < events.len() && (#[trigger] events[i] is LoopExiting) ==> i
                    == events.len() - 1 && (s.phase is Exiting || s.phase is Idle)
            &&& s.phase is Exiting ==> events.len() > 0 && events.last() is LoopExiting
            &&& s.mode == begin.0.mode
            &&& match first_exit(replies) {
                Some(code) => requested(s) == ControlFlow::ExitWithCode(code),
                None => !machine::exits(requested(s)),
            }
            &&& s.phase is Idle ==> match first_exit(replies) {
                Some(code) => events.len() > 0 && events.last() is LoopExiting && action
                    == machine::exited::<T>(s, code).1,
                None => s.mode is Pump && action == Action::<T>::PumpFinished(
                    PumpStatus::Continue,
                ),
            }
        }),
    decreases replies.len(),
{
    if replies.len() > 0 {
        let before = replies.drop_last();
        lemma_run(begin, before);
        law_runs_keep_validity(begin, before);
        let s1 = trace::after(begin, before).0;
        lemma_run_step(s1, replies.last());
        if machine::next(s1, replies.last()).0.phase is Idle {
            lemma_end_step(s1, replies.last());
        }
        let earlier = trace::dispatched(begin, before);
        let added = trace::event_of(trace::after(begin, replies).1);
        let events = trace::dispatched(begin, replies);
        assert(events == earlier + added);
        assert forall|i: int| 0 <= i < earlier.len() implies events[i] == earlier[i] by {}
    }
}

/// A run from its start on, in whatever mode the loop is driven: the handler's
/// first event says that the loop starts, and no later one does; the event that
/// says that the loop ends comes at most once, and nothing comes after it; and
/// the run ends with the first exit code that the handler asked for, right after
/// that event. A pump that ends without an exit says so, and none was asked for.
pub proof fn law_run_from_start_to_end<T>(
    s: LoopState,
    mode: Mode,
    timeout: Option<Duration>,
    replies: Seq<Reply<T>>,
)
    requires
        machine::wf(s),
        s.phase is Idle,
        !s.loop_running,
        trace::accepted(machine::begin_pump::<T>(machine::in_mode(s, mode), timeout), replies),
    ensures
        ({
            let begin = machine::begin_pump::<T>(machine::in_mode(s, mode), timeout);
            let events = trace::dispatched(begin, replies);
            let (last, action) = trace::after(begin, replies);
            &&& events.len() > 0
            &&& events[0] == Event::<T>::NewEvents(StartCause::Init)
            &&& of_one_run(events)
            &&& events.last() is LoopExiting ==> last.phase is Exiting || last.phase is Idle
            &&& last.phase is Idle ==> match first_exit(replies) {
                Some(code) => events.last() is LoopExiting && action == (match mode {
                    Mode::Pump => Action::<T>::PumpFinished(PumpStatus::Exit(code)),
                    Mode::Run => Action::<T>::RunFinished(machine::run_result(code)),
                }),
                None => mode is Pump && action == Action::<T>::PumpFinished(PumpStatus::Continue),
            }
        }),
{
    let begin = machine::begin_pump::<T>(machine::in_mode(s, mode), timeout);
    lemma_run(begin, replies);
    let first = trace::event_of(begin.1);
    let events = trace::dispatched(begin, replies);
    assert(first.len() == 1);
    assert(events[0] == first[0]);
}

/// A later pump of a loop that is running: no event says that the loop starts,
/// the event that says that it ends comes at most once and last, and the pump
/// ends with the first exit code that the handler asked for in it, right after
/// that event, or without an exit when none was asked for.
pub proof fn law_later_pump_to_its_end<T>(
    s: LoopState,
    timeout: Option<Duration>,
    replies: Seq<Reply<T>>,
)
    requires
        machine::wf(s),
        s.phase is Idle,
        s.loop_running,
        trace::accepted(
            machine::begin_pump::<T>(machine::in_mode(s, Mode::Pump), timeout),
            replies,
        ),
    ensures
        ({
            let begin = machine::begin_pump::<T>(machine::in_mode(s, Mode::Pump), timeout);
            let events = trace::dispatched(begin, replies);
            let (last, action) = trace::after(begin, replies);
            &&& !events.contains(Event::<T>::NewEvents(StartCause::Init))
            &&& of_one_run(events)
            &&& last.phase is Idle ==> match first_exit(replies) {
                Some(code) => events.len() > 0 && events.last() is LoopExiting && action
                    == Action::<T>::PumpFinished(PumpStatus::Exit(code)),
                None => action == Action::<T>::PumpFinished(PumpStatus::Continue),
            }
        }),
{
    let begin = machine::begin_pump::<T>(machine::in_mode(s, Mode::Pump), timeout);
    lemma_run(begin, replies);
}

/// Every run of the loop begins alike: what an earlier run left of the control
/// flow, of a pending redraw and of the cause has no effect.
pub proof fn law_runs_begin_alike<T>(a: LoopState, b: LoopState, timeout: Option<Duration>)
    requires
        !a.loop_running,
        !b.loop_running,
        a.running == b.running,
        a.ignore_volume_keys == b.ignore_volume_keys,
        a.combining_accent == b.combining_accent,
        a.mode == b.mode,
    ensures
        machine::begin_pump::<T>(a, timeout) == machine::begin_pump::<T>(b, timeout),
        machine::begin_pump::<T>(a, timeout).1 == (Action::Dispatch {
            event: Event::<T>::NewEvents(StartCause::Init),
            control_flow: ControlFlow::Poll,
        }),
{
}

/// The replies on the way to a poll: the time, the redraw flag and, where the
/// loop asks for it, whether a user event is there.
pub open spec fn poll_replies<T>(
    s: LoopState,
    start: Instant,
    raised: bool,
    incoming: bool,
) -> Seq<Reply<T>> {
    if s.running && !s.pending_redraw && !raised {
        seq![Reply::Time(start), Reply::RedrawFlag(raised), Reply::Incoming(incoming)]
    } else {
        seq![Reply::Time(start), Reply::RedrawFlag(raised)]
    }
}

/// The timeout of a poll: none at all when a running activity has work to do,
/// which is a pending redraw or a user event, else what the control flow and
/// the caller allow.
pub open spec fn poll_timeout(
    s: LoopState,
    timeout: Option<Duration>,
    start: Instant,
    raised: bool,
    incoming: bool,
) -> Option<Duration> {
    if s.running && (s.pending_redraw || raised || incoming) {
        Some(Duration { nanos: 0 })
    } else {
        time::least_timeout(machine::control_flow_timeout(s.control_flow, start), timeout)
    }
}

proof fn lemma_after_step<T>(
    begin: (LoopState, Action<T>),
    replies: Seq<Reply<T>>,
    reply: Reply<T>,
)
    ensures
        trace::after(begin, replies.push(reply)) == machine::next(
            trace::after(begin, replies).0,
            reply,
        ),
        trace::accepted(begin, replies.push(reply)) <==> trace::accepted(begin, replies)
            && machine::accepts(trace::after(begin, replies).0, reply),
        trace::dispatched(begin, replies.push(reply)) == trace::dispatched(begin, replies)
            + trace::event_of(machine::next(trace::after(begin, replies).0, reply).1),
{
    assert(replies.push(reply).drop_last() =~= replies);
}

/// If there is already work to do, the loop does not block on the next poll;
/// and a poll never lasts longer than the caller allows or than the point in
/// time that the handler asked for.
pub proof fn law_poll_timeout<T>(
    s: LoopState,
    action: Action<T>,
    timeout: Option<Duration>,
    start: Instant,
    raised: bool,
    incoming: bool,
)
    requires
        machine::wf(s),
        s.phase == (Phase::PollClock { timeout }),
    ensures
        ({
            let replies = poll_replies::<T>(s, start, raised, incoming);
            let limit = poll_timeout(s, timeout, start, raised, incoming);
            &&& trace::accepted((s, action), replies)
            &&& trace::after((s, action), replies).1 == (Action::<T>::Poll { timeout: limit })
            &&& trace::after((s, action), replies).0.phase == (Phase::Polling { start })
            &&& s.running && (s.pending_redraw || raised || incoming) ==> limit == Some(
                Duration { nanos: 0 },
            )
            &&& forall|nanos: nat|
                #[trigger] time::timeout_admits(limit, nanos) ==> time::timeout_admits(
                    timeout,
                    nanos,
                )
            &&& s.control_flow matches ControlFlow::WaitUntil(deadline) ==> forall|nanos: nat|
                #[trigger] time::timeout_admits(limit, nanos) ==> nanos <= time::span_between(
                    deadline,
                    start,
                )
            &&& s.control_flow is Poll ==> limit == Some(Duration { nanos: 0 })
            &&& s.control_flow is Wait && timeout is None && !(s.running && (s.pending_redraw
                || raised || incoming)) ==> limit is None
        }),
{
    let begin = (s, action);
    let r0 = Seq::<Reply<T>>::empty();
    let r1 = r0.push(Reply::Time(start));
    let r2 = r1.push(Reply::RedrawFlag(raised));
    let r3 = r2.push(Reply::Incoming(incoming));
    lemma_after_step(begin, r0, Reply::Time(start));
    lemma_after_step(begin, r1, Reply::RedrawFlag(raised));
    lemma_after_step(begin, r2, Reply::Incoming(incoming));
    if s.running && !s.pending_redraw && !raised {
        assert(poll_replies::<T>(s, start, raised, incoming) =~= r3);
    } else {
        assert(poll_replies::<T>(s, start, raised, incoming) =~= r2);
    }
    if let ControlFlow::WaitUntil(deadline) = s.control_flow {
        assert(0 <= time::span_between(deadline, start) <= u128::MAX);
    }
}

/// The replies to a wake up, as far as the loop asks for them.
pub open spec fn wake_replies<T>(s: LoopState, raised: bool, incoming: bool) -> Seq<Reply<T>> {
    if s.running && !s.pending_redraw && !raised {
        seq![
            Reply::PollEvent(PollEvent::Wake),
            Reply::RedrawFlag(raised),
            Reply::Incoming(incoming),
        ]
    } else {
        seq![Reply::PollEvent(PollEvent::Wake), Reply::RedrawFlag(raised)]
    }
}

/// A wake up without a reason is ignored, and so is every wake up while the
/// activity is paused: the handler gets nothing, and of the loop only a redraw
/// request is kept for later. Every other wake up leads to an iteration.
pub proof fn law_spurious_wakes_are_ignored<T>(
    s: LoopState,
    start: Instant,
    raised: bool,
    incoming: bool,
)
    requires
        machine::wf(s),
        s.phase == (Phase::Polling { start }),
        !machine::exits(s.control_flow),
    ensures
        ({
            let begin = (s, Action::<T>::PollHandled);
            let replies = wake_replies::<T>(s, raised, incoming);
            let kept = LoopState { pending_redraw: s.pending_redraw || raised, ..s };
            &&& trace::accepted(begin, replies)
            &&& !s.running || !(s.pending_redraw || raised || incoming) ==> trace::after(
                begin,
                replies,
            ) == (kept, Action::<T>::PollHandled) && trace::dispatched(begin, replies)
                == Seq::<Event<T>>::empty()
            &&& s.running && (s.pending_redraw || raised || incoming) ==> trace::after(
                begin,
                replies,
            ) == machine::iterate::<T>(
                LoopState { phase: trace::after(begin, replies.drop_last()).0.phase, ..kept },
                start,
                None,
            )
        }),
{
    let begin = (s, Action::<T>::PollHandled);
    let r0 = Seq::<Reply<T>>::empty();
    let r1 = r0.push(Reply::PollEvent(PollEvent::Wake));
    let r2 = r1.push(Reply::RedrawFlag(raised));
    let r3 = r2.push(Reply::Incoming(incoming));
    lemma_after_step(begin, r0, Reply::PollEvent(PollEvent::Wake));
    lemma_after_step(begin, r1, Reply::RedrawFlag(raised));
    lemma_after_step(begin, r2, Reply::Incoming(incoming));
    assert(r3.drop_last() =~= r2);
    assert(r2.drop_last() =~= r1);
    if s.running && !s.pending_redraw && !raised {
        assert(wake_replies::<T>(s, raised, incoming) =~= r3);
    } else {
        assert(wake_replies::<T>(s, raised, incoming) =~= r2);
    }
    assert(trace::dispatched(begin, r0) =~= Seq::<Event<T>>::empty());
    assert(trace::dispatched(begin, r1) =~= Seq::<Event<T>>::empty());
}

/// A redraw has been asked for and not yet been carried out.
pub open spec fn redraw_owed(s: LoopState) -> bool {
    match s.phase {
        Phase::Iterating { frame, .. } => frame.pending_redraw,
        _ => s.pending_redraw,
    }
}

/// The system asks for a redraw by the command that this iteration is about to
/// see to.
pub open spec fn redraw_commanded(s: LoopState) -> bool {
    s.phase matches Phase::Iterating { stage: Stage::NewEvents { main_event }, .. } && main_event
        == Some(MainEvent::RedrawNeeded)
}

/// No redraw request is lost, and no redraw comes unasked: a request is owed
/// until the handler is told to redraw, which happens only while the activity is
/// running and a redraw was asked for, and which settles all requests at once.
pub proof fn law_redraw_requests_are_kept<T>(s: LoopState, reply: Reply<T>)
    requires
        machine::wf(s),
        machine::accepts(s, reply),
    ensures
        ({
            let (s2, action) = machine::next(s, reply);
            let asked = reply == Reply::<T>::RedrawFlag(true) || redraw_commanded(s);
            if action matches Action::Dispatch {
                event: Event::WindowEvent { event: WindowEvent::RedrawRequested, .. },
                ..
            } {
                s.running && (redraw_owed(s) || asked) && !redraw_owed(s2)
            } else {
                redraw_owed(s2) <==> redraw_owed(s) || asked
            }
        }),
{
}

/// Whether the activity is running is up to the system's commands alone.
pub proof fn law_running_follows_commands<T>(s: LoopState, reply: Reply<T>)
    requires
        machine::accepts(s, reply),
    ensures
        ({
            let s2 = machine::next(s, reply).0;
            match s.phase {
                Phase::Iterating { stage: Stage::NewEvents { main_event }, .. } => s2.running == (
                match main_event {
                    Some(MainEvent::Resume) => true,
                    Some(MainEvent::Pause) => false,
                    _ => s.running,
                }),
                _ => s2.running == s.running,
            }
        }),
{
}

/// While the activity is paused, neither a resize nor a redraw is dispatched.
pub proof fn law_paused_activity_is_not_drawn<T>(s: LoopState, reply: Reply<T>)
    requires
        machine::wf(s),
        machine::accepts(s, reply),
        !machine::next(s, reply).0.running,
    ensures
        !(machine::next(s, reply).1 matches Action::Dispatch {
            event: Event::WindowEvent { event: WindowEvent::RedrawRequested, .. },
            ..
        }),
        !(machine::next(s, reply).1 matches Action::Dispatch {
            event: Event::WindowEvent { event: WindowEvent::Resized(_), .. },
            ..
        }),
{
}

/// The dead key that the character map leaves behind for one key is what it is
/// handed with the next key; nothing else touches it.
pub proof fn law_dead_key_is_carried_over<T>(s: LoopState, reply: Reply<T>)
    requires
        machine::accepts(s, reply),
    ensures
        machine::next(s, reply).0.combining_accent == (match reply {
            Reply::KeyMapped { combining_accent, .. } => combining_accent,
            _ => s.combining_accent,
        }),
        machine::next(s, reply).1 matches Action::MapKey { combining_accent, .. }
            ==> combining_accent == s.combining_accent,
{
}

/// The focus is noted right before the handler is told of it, and never without
/// that.
pub proof fn law_focus_is_noted_first<T>(s: LoopState, reply: Reply<T>, focused: bool)
    requires
        machine::accepts(s, reply),
    ensures
        machine::next(s, reply).1 == Action::<T>::StoreFocus(focused) ==> {
            let noted = machine::next(s, reply).0;
            &&& machine::accepts(noted, Reply::<T>::Done)
            &&& machine::next(noted, Reply::<T>::Done).1 matches Action::Dispatch { event, .. }
            &&& event == machine::window_event::<T>(WindowEvent::Focused(focused))
        },
        machine::next(s, reply).1 matches Action::Dispatch {
            event: Event::WindowEvent { event: WindowEvent::Focused(told), .. },
            ..
        } ==> (s.phase matches Phase::Iterating { stage, .. } && stage == (Stage::StoringFocus {
            focused: told,
        })),
{
}

/// An iteration of a running activity leaves no redraw request behind.
pub proof fn law_running_activity_is_redrawn<T>(s: LoopState, reply: Reply<T>)
    requires
        machine::wf(s),
        machine::accepts(s, reply),
        s.running,
        s.phase is Iterating,
        !(machine::next(s, reply).0.phase is Iterating),
    ensures
        !redraw_owed(machine::next(s, reply).0),
{
}

/// A resize is reported at the end of the iteration in which the system gave
/// notice of it, if the activity is running then, with the size that the window
/// has by then.
pub proof fn law_resize_is_reported<T>(
    s: LoopState,
    frame: Frame,
    window: Option<dpi::NativeWindow>,
)
    requires
        s.phase == (Phase::Iterating { frame, stage: Stage::ReadingUserEvents }),
        frame.resized,
        s.running,
    ensures
        ({
            let (asking, query) = machine::next(s, Reply::<T>::UserEvent(None));
            &&& query == Action::<T>::QueryNativeWindow
            &&& machine::accepts(asking, Reply::<T>::NativeWindow(window))
            &&& machine::next(asking, Reply::<T>::NativeWindow(window)).1 matches Action::Dispatch {
                event,
                ..
            }
            &&& event == machine::window_event::<T>(
                WindowEvent::Resized(dpi::size_of_window(window)),
            )
        }),
{
}

/// What the handler has asked for after it left each of `returned` in turn.
pub open spec fn sticky_all(before: ControlFlow, returned: Seq<ControlFlow>) -> ControlFlow
    decreases returned.len(),
{
    if returned.len() == 0 {
        before
    } else {
        event::sticky(sticky_all(before, returned.drop_last()), returned.last())
    }
}

/// The replies to a motion event: the event itself, then what the handler left
/// for each touch.
pub open spec fn motion_replies<T>(motion: MotionEvent, returned: Seq<ControlFlow>) -> Seq<
    Reply<T>,
> {
    seq![Reply::Input(Some(InputEvent::Motion(motion)))] + Seq::new(
        returned.len(),
        |i: int| Reply::Handled(returned[i]),
    )
}

/// The touches of the first `count` pointers that a motion is about.
pub open spec fn touches<T>(motion: MotionEvent, count: nat) -> Seq<Event<T>> {
    Seq::new(
        count,
        |i: int|
            input::touch_event(
                input::phase_of(motion.action)->0,
                input::touched_pointers(motion)[i],
            ),
    )
}

proof fn lemma_touch_step<T>(
    s: LoopState,
    frame: Frame,
    motion: MotionEvent,
    phase: event::TouchPhase,
    next: usize,
    end: usize,
    returned: ControlFlow,
)
    requires
        next < end,
    ensures
        ({
            let told = machine::next_touch::<T>(s, frame, motion, phase, next, end);
            &&& trace::event_of(told.1) == seq![
                input::touch_event::<T>(phase, motion.pointers@[next as int]),
            ]
            &&& machine::accepts(told.0, Reply::<T>::Handled(returned))
            &&& machine::next(told.0, Reply::<T>::Handled(returned)) == machine::next_touch::<T>(
                s,
                machine::after_handler(frame, returned),
                motion,
                phase,
                (next + 1) as usize,
                end,
            )
        }),
{
}

proof fn lemma_motion<T>(
    s: LoopState,
    frame: Frame,
    motion: MotionEvent,
    returned: Seq<ControlFlow>,
    phase: event::TouchPhase,
    next: usize,
    end: usize,
)
    requires
        s.phase == (Phase::Iterating { frame, stage: Stage::ReadingInput }),
        input::valid_motion(motion),
        returned.len() <= end - next,
        input::plan_for(InputEvent::Motion(motion), s.ignore_volume_keys) == (
        input::InputPlan::Touches { motion, phase, next, end }),
        input::phase_of(motion.action) == Some(phase),
        end <= motion.pointers@.len(),
        input::touched_pointers(motion) == motion.pointers@.subrange(next as int, end as int),
    ensures
        ({
            let begin = (s, Action::<T>::ReadInput);
            let replies = motion_replies::<T>(motion, returned);
            let reached = (next + returned.len()) as usize;
            &&& trace::accepted(begin, replies)
            &&& trace::after(begin, replies) == machine::next_touch::<T>(
                s,
                Frame { control_flow: sticky_all(frame.control_flow, returned), ..frame },
                motion,
                phase,
                reached,
                end,
            )
            &&& trace::dispatched(begin, replies) == touches::<T>(motion, returned.len())
                + trace::event_of(trace::after(begin, replies).1)
        }),
    decreases returned.len(),
{
    let begin = (s, Action::<T>::ReadInput);
    if returned.len() == 0 {
        let first = Reply::<T>::Input(Some(InputEvent::Motion(motion)));
        let r0 = Seq::<Reply<T>>::empty();
        assert(motion_replies::<T>(motion, returned) =~= r0.push(first));
        lemma_after_step(begin, r0, first);
        assert(trace::dispatched(begin, r0) =~= touches::<T>(motion, 0));
    } else {
        let before = returned.drop_last();
        let last = Reply::<T>::Handled(returned.last());
        lemma_motion::<T>(s, frame, motion, before, phase, next, end);
        let earlier = motion_replies::<T>(motion, before);
        assert(motion_replies::<T>(motion, returned) =~= earlier.push(last));
        lemma_after_step(begin, earlier, last);
        lemma_touch_step::<T>(
            s,
            Frame { control_flow: sticky_all(frame.control_flow, before), ..frame },
            motion,
            phase,
            (next + before.len()) as usize,
            end,
            returned.last(),
        );
        assert(touches::<T>(motion, before.len()) + trace::event_of(
            trace::after(begin, earlier).1,
        ) =~= touches::<T>(motion, returned.len()));
    }
}

/// For a motion event the handler gets one touch for each pointer that the
/// motion is about, in order and nothing else, whatever it leaves in between;
/// then the system is told that the motion was handled.
pub proof fn law_motion_is_reported<T>(
    s: LoopState,
    frame: Frame,
    motion: MotionEvent,
    returned: Seq<ControlFlow>,
)
    requires
        s.phase == (Phase::Iterating { frame, stage: Stage::ReadingInput }),
        input::valid_motion(motion),
        returned.len() == input::touched_pointers(motion).len(),
    ensures
        ({
            let begin = (s, Action::<T>::ReadInput);
            let replies = motion_replies::<T>(motion, returned);
            &&& trace::accepted(begin, replies)
            &&& trace::dispatched(begin, replies) == touches::<T>(motion, returned.len())
            &&& trace::after(begin, replies) == machine::answer_input::<T>(
                s,
                Frame { control_flow: sticky_all(frame.control_flow, returned), ..frame },
                InputStatus::Handled,
            )
        }),
{
    let begin = (s, Action::<T>::ReadInput);
    let pointers = motion.pointers@;
    match input::phase_of(motion.action) {
        Some(phase) => {
            if input::single_pointer(phase) {
                assert(input::touched_pointers(motion) =~= pointers.subrange(
                    motion.pointer_index as int,
                    motion.pointer_index + 1,
                ));
                lemma_motion::<T>(
                    s,
                    frame,
                    motion,
                    returned,
                    phase,
                    motion.pointer_index,
                    (motion.pointer_index + 1) as usize,
                );
            } else {
                assert(input::touched_pointers(motion) =~= pointers.subrange(
                    0,
                    pointers.len() as int,
                ));
                lemma_motion::<T>(s, frame, motion, returned, phase, 0, motion.pointers.len());
            }
            assert(touches::<T>(motion, returned.len()) + Seq::<Event<T>>::empty() =~= touches::<T>(
                motion,
                returned.len(),
            ));
        },
        None => {
            let first = Reply::<T>::Input(Some(InputEvent::Motion(motion)));
            let r0 = Seq::<Reply<T>>::empty();
            assert(motion_replies::<T>(motion, returned) =~= r0.push(first));
            lemma_after_step(begin, r0, first);
            assert(trace::dispatched(begin, r0.push(first)) =~= touches::<T>(motion, 0));
        },
    }
}

/// A key that has nothing to do with the volume is looked up with the dead key
/// that is waiting, then dispatched once, and then the system is told that it
/// was handled.
pub proof fn law_key_is_reported<T>(
    s: LoopState,
    frame: Frame,
    key: KeyInput,
    key_char: Option<event::KeyMapChar>,
    combining_accent: Option<char>,
    returned: ControlFlow,
)
    requires
        s.phase == (Phase::Iterating { frame, stage: Stage::ReadingInput }),
        !input::is_volume_key(key.keycode),
    ensures
        ({
            let mapping = machine::next(s, Reply::<T>::Input(Some(InputEvent::Key(key))));
            let mapped = Reply::<T>::KeyMapped { key_char, combining_accent };
            let told = machine::next(mapping.0, mapped);
            let handled = Reply::<T>::Handled(returned);
            &&& mapping.1 == (Action::<T>::MapKey { key, combining_accent: s.combining_accent })
            &&& machine::accepts(mapping.0, mapped)
            &&& told.1 == (Action::Dispatch {
                event: input::key_event::<T>(key, key_char),
                control_flow: frame.control_flow,
            })
            &&& machine::accepts(told.0, handled)
            &&& machine::next(told.0, handled) == machine::answer_input::<T>(
                LoopState { combining_accent, ..s },
                machine::after_handler(frame, returned),
                InputStatus::Handled,
            )
        }),
{
}

/// The volume keys never reach the handler; they are left to the system exactly
/// where the application does not keep them from it.
pub proof fn law_volume_keys_are_kept_back<T>(s: LoopState, frame: Frame, key: KeyInput)
    requires
        s.phase == (Phase::Iterating { frame, stage: Stage::ReadingInput }),
        input::is_volume_key(key.keycode),
    ensures
        machine::next(s, Reply::<T>::Input(Some(InputEvent::Key(key)))) == machine::answer_input::<
            T,
        >(
            s,
            frame,
            if s.ignore_volume_keys {
                InputStatus::Unhandled
            } else {
                InputStatus::Handled
            },
        ),
{
}

/// Different pointers have different touch ids.
pub proof fn law_touch_ids_are_distinct(a: i32, b: i32)
    ensures
        input::wrapped_id(a) == input::wrapped_id(b) <==> a == b,
        0 <= input::wrapped_id(a) <= u64::MAX,
{
}

/// When the configuration has changed, the density is read twice; if both
/// readings agree on the scale factor, it is dispatched together with the size
/// of the window, and else nothing is.
pub proof fn law_configuration_change<T>(
    s: LoopState,
    frame: Frame,
    old_density: Option<u32>,
    new_density: Option<u32>,
    window: Option<dpi::NativeWindow>,
)
    requires
        s.phase == (Phase::Iterating { frame, stage: Stage::OldDensity }),
    ensures
        ({
            let scale = dpi::scale_of_density(new_density);
            let asked = machine::next(s, Reply::<T>::Density(old_density));
            let read = machine::next(asked.0, Reply::<T>::Density(new_density));
            &&& machine::accepts(asked.0, Reply::<T>::Density(new_density))
            &&& if scale == dpi::scale_of_density(old_density) {
                &&& read.1 == Action::<T>::QueryNativeWindow
                &&& machine::accepts(read.0, Reply::<T>::NativeWindow(window))
                &&& machine::next(read.0, Reply::<T>::NativeWindow(window)) == machine::dispatch::<
                    T,
                >(
                    s,
                    frame,
                    Stage::MainEvent,
                    machine::window_event(
                        WindowEvent::ScaleFactorChanged {
                            scale_factor: scale,
                            new_inner_size: dpi::size_of_window(window),
                        },
                    ),
                )
            } else {
                read == machine::open_input::<T>(s, frame)
            }
        }),
{
}

/// The cause of an iteration that follows a wait up to a deadline says that the
/// time has come exactly when the clock has reached the deadline.
pub proof fn law_resume_time_reached<T>(
    s: LoopState,
    start: Instant,
    deadline: Instant,
    main_event: Option<MainEvent>,
    now: Instant,
)
    requires
        s.phase == (Phase::ResumeClock { start, deadline, main_event }),
    ensures
        machine::next(s, Reply::<T>::Time(now)).1 matches Action::Dispatch { event, .. } && event
            == Event::<T>::NewEvents(machine::cause_at(now, start, deadline)),
        machine::cause_at(now, start, deadline) is ResumeTimeReached <==> now.nanos
            >= deadline.nanos,
{
}

} // verus!
