//! The event loop with what other threads share with it: the queue of user
//! events and the redraw flag.

use std::sync::atomic::{AtomicBool, Ordering};
use std::sync::mpsc;

use vstd::prelude::*;

use crate::event::{Event, EventLoopError};
use crate::flag::{FlagReader, RedrawRequester, SharedFlag};
use crate::laws;
use crate::machine;
use crate::machine::{Action, LoopState, Reply};
use crate::queue;
use crate::queue::{hold_back, EventLoopProxy, PeekableReceiver};
use crate::receiving;
use crate::time::Duration;
use crate::trace;
use crate::window::EventLoopWindowTarget;

verus! {

/// What the embedder sets before it makes a loop.
#[derive(Debug, Clone, PartialEq)]
pub struct PlatformSpecificEventLoopAttributes<A> {
    /// The handle to the application that the system passed to its entry point.
    pub android_app: Option<A>,
    /// Volume keys are left to the system.
    pub ignore_volume_keys: bool,
}

impl<A> Default for PlatformSpecificEventLoopAttributes<A> {
    fn default() -> (attributes: Self)
        ensures
            attributes.android_app is None,
            attributes.ignore_volume_keys,
    {
        PlatformSpecificEventLoopAttributes { android_app: None, ignore_volume_keys: true }
    }
}

/// The loop of an application that has a handle of type `A` and sends events of
/// type `T` to itself.
#[verifier::reject_recursive_types(T)]
pub struct EventLoop<T, A> {
    state: LoopState,
    window_target: EventLoopWindowTarget<T, A>,
    redraw_flag: FlagReader,
    user_events_sender: mpsc::Sender<T>,
    user_events_receiver: PeekableReceiver<T>,
}

/// The actions that the loop carries out itself, on its queue and its flag.
pub open spec fn own_action<T>(action: Action<T>) -> bool {
    action is ReceiveUserEvent || action is TakeRedrawFlag || action is LookForUserEvent
}

/// Each of `replies` answers an action that the loop carries out itself.
pub open spec fn own_replies<T>(begin: (LoopState, Action<T>), replies: Seq<Reply<T>>) -> bool
    decreases replies.len(),
{
    replies.len() > 0 ==> {
        let before = trace::after(begin, replies.drop_last()).1;
        own_replies(begin, replies.drop_last()) && own_action(before) && machine::answers(
            before,
            replies.last(),
        )
    }
}

/// `reply` tells what came of turning to the queue of user events.
pub open spec fn queue_reply<T>(reply: Reply<T>) -> bool {
    reply is UserEvent || reply is Incoming
}

/// The user event that an action hands to the handler, if it does.
pub open spec fn user_event_of<T>(action: Action<T>) -> Seq<T> {
    match action {
        Action::Dispatch { event: Event::UserEvent(event), .. } => seq![event],
        _ => Seq::empty(),
    }
}

/// How many more of the loop's own actions can follow in a row.
pub open spec fn own_actions_left(s: LoopState) -> nat {
    match s.phase {
        machine::Phase::PollFlag { .. } | machine::Phase::WakeFlag { .. } => 2,
        machine::Phase::PollIncoming { .. } | machine::Phase::WakeIncoming { .. } => 1,
        machine::Phase::Iterating { frame, stage } => if stage is ReadingUserEvents {
            2
        } else if stage is RedrawFlag {
            1
        } else {
            0
        },
        _ => 0,
    }
}

/// The loop waits for the redraw flag, past the user events of its iteration.
spec fn past_user_events(s: LoopState) -> bool {
    s.phase matches machine::Phase::Iterating { stage, .. } && stage is RedrawFlag
}

proof fn lemma_queue_is_behind<T>(s: LoopState, action: Action<T>, reply: Reply<T>)
    requires
        machine::waits_for(s, action),
        own_action(action),
        machine::answers(action, reply),
    ensures
        past_user_events(s) ==> !queue_reply(reply),
        own_action(machine::next(s, reply).1) && (queue_reply(reply) || past_user_events(s))
            ==> past_user_events(machine::next(s, reply).0),
{
    assert(machine::accepts(s, reply));
}

proof fn lemma_nothing_left<T>(s: LoopState, action: Action<T>)
    requires
        machine::waits_for(s, action),
        !own_action(action),
    ensures
        own_actions_left(s) == 0,
{
    assert(!machine::accepts(s, Reply::<T>::RedrawFlag(true)));
    assert(!machine::accepts(s, Reply::<T>::Incoming(true)));
    assert(!machine::accepts(s, Reply::<T>::UserEvent(None)));
}

/// The replies that the loop finds for itself are replies that it is waiting
/// for, so that whatever holds of all runs holds of what it does on its own.
pub proof fn law_own_replies_are_accepted<T>(
    begin: (LoopState, Action<T>),
    replies: Seq<Reply<T>>,
)
    requires
        machine::wf(begin.0),
        machine::waits_for(begin.0, begin.1),
        own_replies(begin, replies),
    ensures
        trace::accepted(begin, replies),
    decreases replies.len(),
{
    if replies.len() > 0 {
        let before = replies.drop_last();
        law_own_replies_are_accepted(begin, before);
        laws::law_runs_keep_validity(begin, before);
        assert(machine::admissible(trace::after(begin, before).0, replies.last()));
    }
}

proof fn lemma_own_step_goes_down<T>(s: LoopState, action: Action<T>, reply: Reply<T>)
    requires
        machine::waits_for(s, action),
        own_action(action),
        machine::answers(action, reply),
    ensures
        machine::accepts(s, reply),
        own_actions_left(machine::next(s, reply).0) < own_actions_left(s),
{
    assert(machine::accepts(s, reply));
}

proof fn lemma_own_replies_are_few<T>(begin: (LoopState, Action<T>), replies: Seq<Reply<T>>)
    requires
        machine::wf(begin.0),
        machine::waits_for(begin.0, begin.1),
        own_replies(begin, replies),
    ensures
        replies.len() + own_actions_left(trace::after(begin, replies).0) <= own_actions_left(
            begin.0,
        ),
    decreases replies.len(),
{
    if replies.len() > 0 {
        let earlier = replies.drop_last();
        lemma_own_replies_are_few(begin, earlier);
        law_own_replies_are_accepted(begin, earlier);
        laws::law_runs_keep_validity(begin, earlier);
        let (s, action) = trace::after(begin, earlier);
        lemma_own_step_goes_down(s, action, replies.last());
    }
}

/// The user events that `actions` hand to the handler, in order.
pub open spec fn handed<T>(actions: Seq<Action<T>>) -> Seq<T>
    decreases actions.len(),
{
    if actions.len() == 0 {
        Seq::empty()
    } else {
        handed(actions.drop_last()) + user_event_of(actions.last())
    }
}

proof fn lemma_delivered_is_handed<T, A>(loops: Seq<EventLoop<T, A>>, actions: Seq<Action<T>>)
    requires
        loops.len() == actions.len() + 1,
        loops[0].receiver().wf(),
        forall|i: int|
            0 <= i < actions.len() ==> loops[i + 1].hands_on(&loops[i], #[trigger] actions[i]),
    ensures
        loops.last().receiver().wf(),
        loops[0].receiver().received().is_prefix_of(loops.last().receiver().received()),
        loops.last().receiver().delivered() == loops[0].receiver().delivered() + handed(actions),
    decreases actions.len(),
{
    if actions.len() > 0 {
        let earlier = actions.drop_last();
        let before = loops.drop_last();
        assert forall|i: int| 0 <= i < earlier.len() implies before[i + 1].hands_on(
            &before[i],
            #[trigger] earlier[i],
        ) by {
            assert(earlier[i] == actions[i]);
        }
        lemma_delivered_is_handed(before, earlier);
        let n = actions.len() - 1;
        assert(loops[n + 1].hands_on(&loops[n], actions[n]));
        assert(loops.last().receiver().delivered() =~= loops[0].receiver().delivered() + handed(
            actions,
        ));
    } else {
        assert(loops.last().receiver().delivered() =~= loops[0].receiver().delivered() + handed(
            actions,
        ));
    }
}

/// However often the loop is resumed, the handler gets the user events in the
/// order in which they left the channel, each once, and first the one that was
/// held back: that one, followed by what has left the channel since, is what the
/// handler got, followed by what is held back now.
pub proof fn law_handler_gets_the_queue_in_order<T, A>(
    loops: Seq<EventLoop<T, A>>,
    actions: Seq<Action<T>>,
)
    requires
        loops.len() == actions.len() + 1,
        loops[0].receiver().wf(),
        forall|i: int|
            0 <= i < actions.len() ==> loops[i + 1].hands_on(&loops[i], #[trigger] actions[i]),
    ensures
        ({
            let first = loops[0].receiver();
            let last = loops.last().receiver();
            &&& last.wf()
            &&& first.received().is_prefix_of(last.received())
            &&& receiving::option_seq(first.peeked()) + last.received().skip(
                first.received().len() as int,
            ) == handed(actions) + receiving::option_seq(last.peeked())
        }),
{
    let first = loops[0].receiver();
    let last = loops.last().receiver();
    lemma_delivered_is_handed(loops, actions);
    assert(last.received() =~= first.received() + last.received().skip(
        first.received().len() as int,
    ));
    let left = first.delivered() + (receiving::option_seq(first.peeked()) + last.received().skip(
        first.received().len() as int,
    ));
    let right = first.delivered() + (handed(actions) + receiving::option_seq(last.peeked()));
    assert(left =~= last.received());
    assert(right =~= last.received());
    let rest = first.delivered().len() as int;
    assert(left.skip(rest) =~= receiving::option_seq(first.peeked()) + last.received().skip(
        first.received().len() as int,
    ));
    assert(right.skip(rest) =~= handed(actions) + receiving::option_seq(last.peeked()));
}

/// An event that is held back is not lost or overtaken: the next user event that
/// the handler gets is that one, and until then it stays held back.
pub proof fn law_held_back_event_is_next<T, A>(
    before: &EventLoop<T, A>,
    after: &EventLoop<T, A>,
    action: Action<T>,
    event: T,
)
    requires
        before.receiver().wf(),
        after.hands_on(before, action),
        before.receiver().peeked() == Some(event),
    ensures
        user_event_of(action) == Seq::<T>::empty() ==> after.receiver().peeked() == Some(event),
        user_event_of(action) != Seq::<T>::empty() ==> user_event_of(action) == seq![event],
{
    let index = before.receiver().delivered().len() as int;
    assert(before.receiver().received()[index] == event);
    assert(after.receiver().received()[index] == event);
}

/// Once the user events of an iteration are used up, none is left pending: none
/// is held back, and the channel, which was asked last, had none to give.
pub proof fn law_no_event_is_left_pending<T, A>(
    before: &EventLoop<T, A>,
    after: &EventLoop<T, A>,
    begin: (LoopState, Action<T>),
    action: Action<T>,
    replies: Seq<Reply<T>>,
)
    requires
        after.follows(before, begin, action, replies),
        replies.contains(Reply::UserEvent(None)),
    ensures
        after.receiver().peeked() is None,
        after.receiver().received() == after.receiver().delivered(),
        after.receiver().outcomes().len() == before.receiver().outcomes().len() + 1,
        after.receiver().outcomes().last() is Err,
{
    let i = replies.index_of(Reply::UserEvent(None));
    assert(after.found(before, replies[i]));
    assert(after.receiver().delivered() + receiving::option_seq(None)
        =~= after.receiver().delivered());
}

/// A wake up that is ignored leaves every pending user event pending, in order:
/// none is handed on, and what is held back stays held back. Nor does it change
/// why the loop goes on or what the handler asked for; only a redraw request is
/// kept for later.
pub proof fn law_ignored_wake_leaves_events_pending<T, A>(
    before: &EventLoop<T, A>,
    after: &EventLoop<T, A>,
    replies: Seq<Reply<T>>,
)
    requires
        before.wf(),
        machine::accepts(before.state(), Reply::<T>::PollEvent(machine::PollEvent::Wake)),
        after.follows(
            before,
            machine::next(before.state(), Reply::PollEvent(machine::PollEvent::Wake)),
            Action::PollHandled,
            replies,
        ),
    ensures
        after.receiver().peeked() == before.receiver().peeked(),
        after.receiver().delivered() == before.receiver().delivered(),
        after.receiver().received() == before.receiver().received(),
        after.state().cause == before.state().cause,
        after.state().control_flow == before.state().control_flow,
        after.state().running == before.state().running,
        replies.len() > 0 && replies[0] is RedrawFlag,
        after.state().pending_redraw == (before.state().pending_redraw || replies[0]
            == Reply::<T>::RedrawFlag(true)),
        after.looks() == before.looks().push(replies[0]->RedrawFlag_0),
{
    let wake = Reply::<T>::PollEvent(machine::PollEvent::Wake);
    let begin = machine::next(before.state(), wake);
    machine::law_step_keeps_validity(before.state(), wake);
    lemma_own_replies_are_few(begin, replies);
    reveal_with_fuel(own_replies, 3);
    reveal_with_fuel(trace::after, 3);
    reveal_with_fuel(trace::user_events, 3);
    reveal_with_fuel(trace::flag_looks, 3);
    assert(after.receiver().delivered() =~= before.receiver().delivered());
    if replies.len() == 2 {
        assert(after.found(before, replies[1]));
        receiving::lemma_values_push(
            before.receiver().outcomes(),
            after.receiver().outcomes().last(),
        );
        assert(before.receiver().received() + receiving::option_seq(None)
            =~= before.receiver().received());
    }
}

/// The loop sees to its queue and its flag itself, and to nothing else.
pub proof fn law_own_actions_are_these_three<T>(action: Action<T>)
    ensures
        own_action(action) <==> action is ReceiveUserEvent || action is TakeRedrawFlag || action
            is LookForUserEvent,
{
}

/// An action hands on a user event exactly when it dispatches one, and then that
/// one.
pub proof fn law_dispatched_user_event_is_handed_on<T>(action: Action<T>, event: T)
    ensures
        user_event_of(action) == seq![event] <==> (action matches Action::Dispatch {
            event: Event::UserEvent(dispatched),
            ..
        } && dispatched == event),
        user_event_of(action).len() == 0 <==> !(action matches Action::Dispatch {
            event: Event::UserEvent(_),
            ..
        }),
        user_event_of(action).len() <= 1,
{
    if let Action::Dispatch { event: Event::UserEvent(dispatched), .. } = action {
        assert(user_event_of(action)[0] == dispatched);
        assert(seq![event][0] == event);
    } else {
        assert(seq![event].len() == 1);
    }
}

/// What the loop tells itself is true: that the redraw flag was raised is what a
/// swap with `false` gave; that a user event is there, that one is held back now;
/// a user event is the one that was held back, and else what the channel gave;
/// and that there is none, that the channel gave none.
pub proof fn law_found_replies_are_true<T, A>(
    before: &EventLoop<T, A>,
    after: &EventLoop<T, A>,
    reply: Reply<T>,
)
    requires
        after.found(before, reply),
    ensures
        match reply {
            Reply::RedrawFlag(raised) => call_ensures(
                AtomicBool::swap,
                (&after.redraw_cell(), false, Ordering::AcqRel),
                raised,
            ),
            Reply::Incoming(incoming) => {
                &&& incoming <==> after.receiver().peeked() is Some
                &&& before.receiver().peeked() is Some ==> incoming && after.receiver().peeked()
                    == before.receiver().peeked()
                &&& before.receiver().peeked() is None ==> after.receiver().outcomes()
                    == before.receiver().outcomes().push(after.receiver().outcomes().last()) && (
                incoming <==> after.receiver().outcomes().last() is Ok)
            },
            Reply::UserEvent(event) => {
                &&& after.receiver().peeked() is None
                &&& before.receiver().peeked() is Some ==> event == before.receiver().peeked()
                    && after.receiver().outcomes() == before.receiver().outcomes()
                &&& before.receiver().peeked() is None ==> {
                    &&& after.receiver().outcomes() == before.receiver().outcomes().push(
                        after.receiver().outcomes().last(),
                    )
                    &&& after.receiver().outcomes().last() matches Ok(value) ==> event == Some(
                        value,
                    )
                    &&& after.receiver().outcomes().last() is Err ==> event is None
                }
            },
            _ => true,
        },
{
}

/// What the loop did on its own is on record: each look at the redraw flag with
/// what it found, and each user event that was handed on, in the order of the
/// replies; and the queue was turned to only for a user event.
pub proof fn law_own_work_is_on_record<T, A>(
    before: &EventLoop<T, A>,
    after: &EventLoop<T, A>,
    begin: (LoopState, Action<T>),
    action: Action<T>,
    replies: Seq<Reply<T>>,
)
    requires
        after.follows(before, begin, action, replies),
    ensures
        trace::after(begin, replies) == (after.state(), action),
        after.looks() == before.looks() + trace::flag_looks(replies),
        after.receiver().delivered() == before.receiver().delivered() + trace::user_events(replies),
        forall|i: int| 0 <= i < replies.len() ==> after.found(before, #[trigger] replies[i]),
        forall|i: int|
            0 <= i < replies.len() ==> (#[trigger] replies[i] is UserEvent || replies[i] is Incoming
                || replies[i] is RedrawFlag),
        replies.len() == 0 ==> after.looks() == before.looks() && after.receiver().delivered()
            == before.receiver().delivered() && after.receiver() == before.receiver(),
        replies.len() == 1 ==> match replies[0] {
            Reply::RedrawFlag(raised) => after.looks() == before.looks().push(raised)
                && after.receiver() == before.receiver(),
            Reply::UserEvent(Some(event)) => after.looks() == before.looks()
                && after.receiver().delivered() == before.receiver().delivered().push(event),
            _ => after.looks() == before.looks() && after.receiver().delivered()
                == before.receiver().delivered(),
        },
        (forall|i: int|
            0 <= i < replies.len() ==> !(#[trigger] replies[i] is UserEvent || replies[i]
                is Incoming)) ==> after.receiver() == before.receiver(),
{
    lemma_own_replies_are_own(begin, replies);
    reveal_with_fuel(trace::user_events, 2);
    reveal_with_fuel(trace::flag_looks, 2);
    if replies.len() == 0 {
        assert(after.looks() =~= before.looks());
        assert(after.receiver().delivered() =~= before.receiver().delivered());
    }
    if replies.len() == 1 {
        assert(replies.last() == replies[0]);
        assert(trace::user_events(replies.drop_last()) =~= Seq::<T>::empty());
        assert(trace::flag_looks(replies.drop_last()) =~= Seq::<bool>::empty());
        match replies[0] {
            Reply::RedrawFlag(raised) => {
                assert(after.looks() =~= before.looks().push(raised));
            },
            Reply::UserEvent(Some(event)) => {
                assert(after.looks() =~= before.looks());
                assert(after.receiver().delivered() =~= before.receiver().delivered().push(event));
            },
            _ => {
                assert(after.looks() =~= before.looks());
                assert(after.receiver().delivered() =~= before.receiver().delivered());
            },
        }
    }
}

proof fn lemma_own_replies_are_own<T>(begin: (LoopState, Action<T>), replies: Seq<Reply<T>>)
    requires
        own_replies(begin, replies),
    ensures
        forall|i: int|
            0 <= i < replies.len() ==> (#[trigger] replies[i] is UserEvent || replies[i] is Incoming
                || replies[i] is RedrawFlag),
    decreases replies.len(),
{
    if replies.len() > 0 {
        lemma_own_replies_are_own(begin, replies.drop_last());
        assert forall|i: int| 0 <= i < replies.len() implies (#[trigger] replies[i] is UserEvent
            || replies[i] is Incoming || replies[i] is RedrawFlag) by {
            if i < replies.len() - 1 {
                assert(replies[i] == replies.drop_last()[i]);
            }
        }
    }
}

impl<T, A> EventLoop<T, A> {
    /// The state of the loop.
    pub closed spec fn state(&self) -> LoopState {
        self.state
    }

    /// The atomic that redraw requests raise.
    pub closed spec fn redraw_cell(&self) -> AtomicBool {
        self.redraw_flag.cell()
    }

    /// What each look at the redraw flag found, oldest first.
    pub closed spec fn looks(&self) -> Seq<bool> {
        self.redraw_flag.looks()
    }

    /// The sending end of the queue of user events.
    pub closed spec fn sender(&self) -> mpsc::Sender<T> {
        self.user_events_sender
    }

    /// The receiving end of the queue of user events.
    pub closed spec fn receiver(&self) -> PeekableReceiver<T> {
        self.user_events_receiver
    }

    /// The target that the handler is called with.
    pub closed spec fn target(&self) -> EventLoopWindowTarget<T, A> {
        self.window_target
    }

    /// What holds of every loop.
    pub open spec fn sound(&self) -> bool {
        &&& machine::wf(self.state())
        &&& self.receiver().wf()
        &&& self.target().redraw_requester().cell() == self.redraw_cell()
    }

    /// What holds of every loop between two calls: it is not waiting for
    /// anything that it sees to itself.
    pub open spec fn wf(&self) -> bool {
        self.sound() && own_actions_left(self.state()) == 0
    }

    /// Everything but the state of the loop, the queue and the looks at the redraw
    /// flag is as in `other`.
    pub open spec fn same_ends(&self, other: &Self) -> bool {
        &&& self.redraw_cell() == other.redraw_cell()
        &&& self.sender() == other.sender()
        &&& self.target() == other.target()
        &&& self.receiver().receiver() == other.receiver().receiver()
    }

    /// `reply` is what this loop, which was `before` when it set out, found for
    /// itself: what came of taking the next event out of its queue, of looking
    /// for one, or of swapping the redraw flag.
    pub open spec fn found(&self, before: &Self, reply: Reply<T>) -> bool {
        match reply {
            Reply::UserEvent(event) => exists|res: Result<T, mpsc::TryRecvError>|
                #[trigger] queue::took(before.receiver(), self.receiver(), res) && event
                    == receiving::held(res),
            Reply::Incoming(incoming) => queue::looked(
                before.receiver(),
                self.receiver(),
                incoming,
            ),
            Reply::RedrawFlag(raised) => call_ensures(
                AtomicBool::swap,
                (&self.redraw_cell(), false, Ordering::AcqRel),
                raised,
            ),
            _ => true,
        }
    }

    /// `self` is the loop `before` after the machine went from `begin` by
    /// `replies`, all of which the loop found for itself. The user events among
    /// them have left the queue in this order; one that was only looked for is
    /// still held back; and neither the queue nor the redraw flag was touched for
    /// anything else.
    pub open spec fn follows(
        &self,
        before: &Self,
        begin: (LoopState, Action<T>),
        action: Action<T>,
        replies: Seq<Reply<T>>,
    ) -> bool {
        &&& own_replies(begin, replies)
        &&& trace::after(begin, replies) == (self.state(), action)
        &&& self.receiver().delivered() == before.receiver().delivered() + trace::user_events(
            replies,
        )
        &&& self.looks() == before.looks() + trace::flag_looks(replies)
        &&& forall|i: int|
            0 <= i < replies.len() ==> self.found(before, #[trigger] replies[i])
        &&& (forall|i: int| 0 <= i < replies.len() ==> !queue_reply(#[trigger] replies[i]))
            ==> self.receiver() == before.receiver()
    }

    /// `self` is the loop `before` after it came to `action`: the user event that
    /// `action` hands to the handler, if it does, is the only one that was handed
    /// on, and whatever had left the channel before is still on record.
    pub open spec fn hands_on(&self, before: &Self, action: Action<T>) -> bool {
        &&& self.receiver().wf()
        &&& self.receiver().delivered() == before.receiver().delivered() + user_event_of(action)
        &&& before.receiver().received().is_prefix_of(self.receiver().received())
    }

    /// `self` is the loop `before` after it was told to run and answered `res`:
    /// an error, and nothing has changed, if it was running already; else the
    /// first action of its first pump.
    pub open spec fn began_run(
        &self,
        before: &Self,
        res: Result<Action<T>, EventLoopError>,
    ) -> bool {
        if before.state().loop_running {
            self == before && res == Err::<Action<T>, EventLoopError>(
                EventLoopError::AlreadyRunning,
            )
        } else {
            &&& self.wf()
            &&& self.same_ends(before)
            &&& self.receiver() == before.receiver()
            &&& self.looks() == before.looks()
            &&& res matches Ok(action)
            &&& (self.state(), action) == machine::begin_pump::<T>(
                machine::in_mode(before.state(), machine::Mode::Run),
                None,
            )
            &&& !own_action(action)
            &&& machine::waits_for(self.state(), action)
        }
    }

    /// A loop of the application that `attributes` name. It is not running yet,
    /// in front of a new queue and a new flag.
    pub fn new(attributes: &PlatformSpecificEventLoopAttributes<A>) -> (res: Result<
        Self,
        EventLoopError,
    >)
        where A: Clone
        requires
            attributes.android_app is Some,
        ensures
            res matches Ok(event_loop) && {
                &&& event_loop.wf()
                &&& event_loop.state() == machine::initial(attributes.ignore_volume_keys)
                &&& vstd::pervasive::strictly_cloned(
                    attributes.android_app->0,
                    event_loop.target().app(),
                )
                &&& event_loop.receiver().outcomes() == Seq::<
                    Result<T, mpsc::TryRecvError>,
                >::empty()
                &&& event_loop.receiver().peeked() is None
                &&& event_loop.receiver().delivered() == Seq::<T>::empty()
                &&& call_ensures(
                    mpsc::channel::<T>,
                    (),
                    (event_loop.sender(), event_loop.receiver().receiver()),
                )
                &&& call_ensures(AtomicBool::new, (false,), event_loop.redraw_cell())
                &&& event_loop.looks() == Seq::<bool>::empty()
                &&& event_loop.target().redraw_requester().cell() == event_loop.redraw_cell()
                &&& !event_loop.state().loop_running && !event_loop.state().running
                &&& event_loop.state().ignore_volume_keys == attributes.ignore_volume_keys
            },
    {
        let (user_events_sender, user_events_receiver) = mpsc::channel();
        let android_app = match &attributes.android_app {
            Some(android_app) => android_app.clone(),
            None => vstd::pervasive::unreached(),
        };
        let redraw_flag = SharedFlag::new();
        let window_target = EventLoopWindowTarget::new(
            android_app,
            RedrawRequester::new(&redraw_flag),
        );
        Ok(
            EventLoop {
                state: LoopState::new(attributes.ignore_volume_keys),
                window_target,
                redraw_flag: FlagReader::new(redraw_flag),
                user_events_sender,
                user_events_receiver: PeekableReceiver::from_recv(user_events_receiver),
            },
        )
    }

    /// Carries out `action` if it is one of the loop's own.
    fn carry_out(&mut self, action: &Action<T>) -> (reply: Option<Reply<T>>)
        requires
            old(self).sound(),
        ensures
            final(self).sound(),
            final(self).same_ends(old(self)),
            final(self).state() == old(self).state(),
            reply is Some <==> own_action(*action),
            reply is None ==> *final(self) == *old(self),
            reply matches Some(reply) ==> machine::answers(*action, reply) && final(self).found(
                old(self),
                reply,
            ),
            final(self).receiver().delivered() == old(self).receiver().delivered() + (match reply {
                Some(Reply::UserEvent(event)) => receiving::option_seq(event),
                _ => Seq::empty(),
            }),
            old(self).receiver().received().is_prefix_of(final(self).receiver().received()),
            !(reply matches Some(reply) && queue_reply(reply)) ==> final(self).receiver() == old(
                self,
            ).receiver(),
            final(self).looks() == (match reply {
                Some(Reply::RedrawFlag(raised)) => old(self).looks().push(raised),
                _ => old(self).looks(),
            }),
    {
        match action {
            Action::ReceiveUserEvent => {
                let res = self.user_events_receiver.try_recv();
                proof {
                    queue::lemma_taking_keeps_record(old(self).receiver(), self.receiver(), res);
                    assert(queue::took(old(self).receiver(), self.receiver(), res));
                }
                Some(Reply::UserEvent(hold_back(res)))
            },
            Action::TakeRedrawFlag => Some(Reply::RedrawFlag(self.redraw_flag.look())),
            Action::LookForUserEvent => {
                let incoming = self.user_events_receiver.has_incoming();
                proof {
                    queue::lemma_looking_keeps_record(
                        old(self).receiver(),
                        self.receiver(),
                        incoming,
                    );
                }
                Some(Reply::Incoming(incoming))
            },
            _ => None,
        }
    }

    /// Carries out the loop's own actions, up to the first other one.
    fn settle(&mut self, first: Action<T>) -> (action: Action<T>)
        requires
            old(self).sound(),
            machine::waits_for(old(self).state(), first),
            user_event_of(first) == Seq::<T>::empty(),
        ensures
            final(self).wf(),
            final(self).hands_on(old(self), action),
            final(self).same_ends(old(self)),
            !own_action(action),
            machine::waits_for(final(self).state(), action),
            exists|replies: Seq<Reply<T>>|
                #[trigger] final(self).follows(
                    old(self),
                    (old(self).state(), first),
                    action,
                    replies,
                ),
            !own_action(first) ==> *final(self) == *old(self) && action == first,
    {
        let ghost begin = (self.state, first);
        let ghost mut replies: Seq<Reply<T>> = Seq::empty();
        let mut action = first;
        loop
            invariant
                self.sound(),
                self.same_ends(old(self)),
                machine::waits_for(self.state, action),
                begin == (old(self).state(), first),
                self.follows(old(self), begin, action, replies),
                !own_action(first) ==> *self == *old(self) && action == first,
                forall|i: int|
                    0 <= i < replies.len() && queue_reply(#[trigger] replies[i]) && own_action(
                        action,
                    ) ==> past_user_events(self.state),
                old(self).receiver().received().is_prefix_of(self.receiver().received()),
                trace::user_events(replies) == user_event_of(action),
            ensures
                !own_action(action),
            decreases own_actions_left(self.state),
        {
            let ghost before = *self;
            let reply = match self.carry_out(&action) {
                Some(reply) => reply,
                None => {
                    break;
                },
            };
            proof {
                assert(machine::accepts(self.state, reply));
                lemma_queue_is_behind(self.state, action, reply);
                assert(replies.push(reply).drop_last() =~= replies);
                assert forall|i: int| 0 <= i < replies.len() implies self.found(
                    old(self),
                    #[trigger] replies[i],
                ) by {
                    assert(before.found(old(self), replies[i]));
                }
                let earlier = replies;
                replies = replies.push(reply);
                assert forall|i: int| 0 <= i < replies.len() implies self.found(
                    old(self),
                    #[trigger] replies[i],
                ) by {
                    if i < earlier.len() {
                        assert(replies[i] == earlier[i]);
                    }
                }
                assert(self.receiver().delivered() =~= old(self).receiver().delivered()
                    + trace::user_events(replies));
                assert(self.looks() =~= old(self).looks() + trace::flag_looks(replies));
            }
            let ghost looked = *self;
            proof {
                laws::law_user_event_goes_to_handler(self.state, reply);
            }
            action = self.state.resume(reply);
            proof {
                assert(own_replies(begin, replies));
                assert forall|i: int| 0 <= i < replies.len() implies self.found(
                    old(self),
                    #[trigger] replies[i],
                ) by {
                    assert(looked.found(old(self), replies[i]));
                    assert(self.receiver() == looked.receiver());
                }
            }
        }
        proof {
            lemma_nothing_left(self.state, action);
        }
        action
    }

    /// Goes on with the reply to the last action, up to the next one. User
    /// events and redraw requests are seen to on the way.
    pub fn resume(&mut self, reply: Reply<T>) -> (action: Action<T>)
        requires
            old(self).wf(),
            machine::accepts(old(self).state(), reply),
        ensures
            final(self).wf(),
            final(self).same_ends(old(self)),
            final(self).hands_on(old(self), action),
            !own_action(action),
            !(action is ReceiveUserEvent || action is TakeRedrawFlag || action is LookForUserEvent),
            action matches Action::Dispatch { event: Event::UserEvent(event), .. }
                ==> final(self).receiver().delivered() == old(self).receiver().delivered().push(event),
            !(action matches Action::Dispatch { event: Event::UserEvent(_), .. })
                ==> final(self).receiver().delivered() == old(self).receiver().delivered(),
            old(self).receiver().received().is_prefix_of(final(self).receiver().received()),
            final(self).target().redraw_requester().cell() == final(self).redraw_cell(),
            final(self).redraw_cell() == old(self).redraw_cell(),
            final(self).target() == old(self).target(),
            final(self).sender() == old(self).sender(),
            final(self).receiver().receiver() == old(self).receiver().receiver(),
            machine::waits_for(final(self).state(), action),
            exists|replies: Seq<Reply<T>>|
                #[trigger] final(self).follows(
                    old(self),
                    machine::next(old(self).state(), reply),
                    action,
                    replies,
                ),
            !own_action(machine::next(old(self).state(), reply).1) ==> (
                final(self).state(),
                action,
            ) == machine::next(old(self).state(), reply) && final(self).receiver() == old(
                self,
            ).receiver() && final(self).looks() == old(self).looks(),
    {
        proof {
            laws::law_user_event_goes_to_handler(self.state, reply);
        }
        let first = self.state.resume(reply);
        let ghost begun = *self;
        let action = self.settle(first);
        proof {
            let replies = choose|replies: Seq<Reply<T>>|
                #[trigger] self.follows(&begun, (begun.state, first), action, replies);
            assert(self.follows(old(self), (begun.state, first), action, replies));
        }
        action
    }

    /// Whether `reply` is one that the loop is waiting for.
    pub fn accepts(&self, reply: &Reply<T>) -> (accepted: bool)
        ensures
            accepted == machine::accepts(self.state(), *reply),
    {
        self.state.accepts(reply)
    }

    /// Whether the loop is between two pumps.
    pub fn is_idle(&self) -> (idle: bool)
        ensures
            idle == self.state().phase is Idle,
    {
        matches!(self.state.phase, machine::Phase::Idle)
    }

    /// Begins a pump of the loop: starts it if it is not running, then polls
    /// once, for no longer than `timeout`. The pump ends with
    /// [`Action::PumpFinished`].
    pub fn pump_events(&mut self, timeout: Option<Duration>) -> (action: Action<T>)
        requires
            old(self).wf(),
            old(self).state().phase is Idle,
        ensures
            final(self).wf(),
            final(self).same_ends(old(self)),
            final(self).receiver() == old(self).receiver(),
            final(self).looks() == old(self).looks(),
            (final(self).state(), action) == machine::begin_pump::<T>(
                machine::in_mode(old(self).state(), machine::Mode::Pump),
                timeout,
            ),
            !own_action(action),
            machine::waits_for(final(self).state(), action),
            old(self).state().loop_running ==> action is QueryTime,
            !old(self).state().loop_running ==> (action matches Action::Dispatch {
                event: Event::NewEvents(cause),
                control_flow,
            } && cause is Init && control_flow is Poll),
    {
        self.state.pump_events(timeout)
    }

    /// Begins a run of the loop, which pumps until the loop exits and ends with
    /// [`Action::RunFinished`]. A loop that is running already is left alone.
    pub fn run_ondemand(&mut self) -> (res: Result<Action<T>, EventLoopError>)
        requires
            old(self).wf(),
            old(self).state().phase is Idle,
        ensures
            final(self).began_run(old(self), res),
            old(self).state().loop_running ==> *final(self) == *old(self) && (
            res matches Err(error) && error is AlreadyRunning),
            !old(self).state().loop_running ==> (res matches Ok(action) && (action matches Action::Dispatch {
                event: Event::NewEvents(cause),
                control_flow,
            } && cause is Init && control_flow is Poll)),
    {
        self.state.run_ondemand()
    }

    /// Begins the one run of a loop that is given away for it.
    pub fn run(self) -> (res: (Self, Result<Action<T>, EventLoopError>))
        requires
            self.wf(),
            self.state().phase is Idle,
        ensures
            res.0.began_run(&self, res.1),
            self.state().loop_running ==> res.0 == self && (res.1 matches Err(error) && error
                is AlreadyRunning),
            !self.state().loop_running ==> (res.1 matches Ok(action) && (action matches Action::Dispatch {
                event: Event::NewEvents(cause),
                control_flow,
            } && cause is Init && control_flow is Poll)),
    {
        let mut event_loop = self;
        let res = event_loop.run_ondemand();
        (event_loop, res)
    }

    /// The target that the handler is called with.
    pub fn window_target(&self) -> (target: &EventLoopWindowTarget<T, A>)
        ensures
            *target == self.target(),
    {
        &self.window_target
    }

    /// A proxy that sends events to this loop, through a clone of its sending end.
    pub fn create_proxy(&self) -> (proxy: EventLoopProxy<T>)
        ensures
            call_ensures(<mpsc::Sender<T> as Clone>::clone, (&self.sender(),), proxy.sender()),
    {
        EventLoopProxy::new(self.user_events_sender.clone())
    }
}

} // verus!
