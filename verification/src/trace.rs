//! Runs of the loop: a sequence of replies, and what comes of them.

use vstd::prelude::*;

use crate::event::Event;
use crate::machine;
use crate::machine::{Action, LoopState, Reply};

verus! {

/// Where the loop gets from `begin` by `replies`, in turn.
pub open spec fn after<T>(begin: (LoopState, Action<T>), replies: Seq<Reply<T>>) -> (
    LoopState,
    Action<T>,
)
    decreases replies.len(),
{
    if replies.len() == 0 {
        begin
    } else {
        machine::next(after(begin, replies.drop_last()).0, replies.last())
    }
}

/// The loop is waiting for each of `replies` when it comes.
pub open spec fn accepted<T>(begin: (LoopState, Action<T>), replies: Seq<Reply<T>>) -> bool
    decreases replies.len(),
{
    replies.len() > 0 ==> accepted(begin, replies.drop_last()) && machine::accepts(
        after(begin, replies.drop_last()).0,
        replies.last(),
    )
}

/// The event that an action hands to the handler, if it does.
pub open spec fn event_of<T>(action: Action<T>) -> Seq<Event<T>> {
    match action {
        Action::Dispatch { event, .. } => seq![event],
        _ => Seq::empty(),
    }
}

/// The events that the handler gets on the way, in order, the one that `begin`
/// hands out included.
pub open spec fn dispatched<T>(begin: (LoopState, Action<T>), replies: Seq<Reply<T>>) -> Seq<
    Event<T>,
>
    decreases replies.len(),
{
    if replies.len() == 0 {
        event_of(begin.1)
    } else {
        dispatched(begin, replies.drop_last()) + event_of(after(begin, replies).1)
    }
}

/// The user events among `replies`, in order.
pub open spec fn user_events<T>(replies: Seq<Reply<T>>) -> Seq<T>
    decreases replies.len(),
{
    if replies.len() == 0 {
        Seq::empty()
    } else {
        let before = user_events(replies.drop_last());
        match replies.last() {
            Reply::UserEvent(Some(event)) => before.push(event),
            _ => before,
        }
    }
}

/// What the looks at the redraw flag among `replies` found, in order.
pub open spec fn flag_looks<T>(replies: Seq<Reply<T>>) -> Seq<bool>
    decreases replies.len(),
{
    if replies.len() == 0 {
        Seq::empty()
    } else {
        let before = flag_looks(replies.drop_last());
        match replies.last() {
            Reply::RedrawFlag(raised) => before.push(raised),
            _ => before,
        }
    }
}

/// The user events among the events of the handler, in order.
pub open spec fn dispatched_user_events<T>(events: Seq<Event<T>>) -> Seq<T>
    decreases events.len(),
{
    if events.len() == 0 {
        Seq::empty()
    } else {
        let before = dispatched_user_events(events.drop_last());
        match events.last() {
            Event::UserEvent(event) => before.push(event),
            _ => before,
        }
    }
}

/// The loop does not leave the iteration that it is in at `begin`.
pub open spec fn stays_in_iteration<T>(
    begin: (LoopState, Action<T>),
    replies: Seq<Reply<T>>,
) -> bool
    decreases replies.len(),
{
    &&& after(begin, replies).0.phase is Iterating
    &&& replies.len() > 0 ==> stays_in_iteration(begin, replies.drop_last())
}

/// What is gathered from replies grows with each reply by what that reply holds: a
/// user event, what a look at the redraw flag found, or nothing.
pub proof fn law_replies_are_gathered<T>(replies: Seq<Reply<T>>, reply: Reply<T>)
    ensures
        user_events(Seq::<Reply<T>>::empty()).len() == 0,
        flag_looks(Seq::<Reply<T>>::empty()).len() == 0,
        user_events(replies.push(reply)) == (match reply {
            Reply::UserEvent(Some(event)) => user_events(replies).push(event),
            _ => user_events(replies),
        }),
        flag_looks(replies.push(reply)) == (match reply {
            Reply::RedrawFlag(raised) => flag_looks(replies).push(raised),
            _ => flag_looks(replies),
        }),
{
    assert(replies.push(reply).drop_last() =~= replies);
}

} // verus!
