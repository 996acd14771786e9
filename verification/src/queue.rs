//! The queue of user events: the receiving end can be asked whether an event
//! is there without losing that event.

use std::sync::mpsc;

use vstd::prelude::*;

use crate::receiving;
use crate::receiving::ReceivingEnd;

verus! {

/// [`mpsc::Sender`], carried as it is.
#[verifier::external_type_specification]
#[verifier::external_body]
#[verifier::reject_recursive_types(T)]
pub struct ExSender<T>(mpsc::Sender<T>);

/// `mpsc::channel` makes a channel and hands out its two ends. Of the ends
/// themselves nothing is claimed.
pub assume_specification<T>[ mpsc::channel::<T> ]() -> (ends: (mpsc::Sender<T>, mpsc::Receiver<T>));

/// `mpsc::Sender::clone` makes another sending end of the same channel. Of the
/// end itself nothing is claimed.
pub assume_specification<T>[ <mpsc::Sender<T> as Clone>::clone ](sender: &mpsc::Sender<T>) -> (other:
    mpsc::Sender<T>);

/// Puts `value` into the channel by `mpsc::Sender::send`, which fails only when
/// the receiving end is gone and then gives the value back. Whether it is gone
/// rests on the other threads.
#[verifier::external_body]
fn send_through<T>(sender: &mpsc::Sender<T>, value: T) -> (outcome: Result<(), T>)
    ensures
        outcome matches Err(unsent) ==> unsent == value,
{
    sender.send(value).map_err(|error| error.0)
}

/// The loop that an event was sent to is gone; here is the event.
#[derive(Clone, Copy, Debug, PartialEq, Eq, Hash)]
pub struct EventLoopClosed<T>(pub T);

/// Sends user events to the loop from any thread.
#[verifier::reject_recursive_types(T)]
pub struct EventLoopProxy<T> {
    user_events_sender: mpsc::Sender<T>,
}

/// What a send that came out like this is reported as.
pub open spec fn send_result<T>(outcome: Result<(), T>) -> Result<(), EventLoopClosed<T>> {
    match outcome {
        Ok(_) => Ok(()),
        Err(event) => Err(EventLoopClosed(event)),
    }
}

impl<T> EventLoopProxy<T> {
    /// The sending end that this proxy uses.
    pub closed spec fn sender(&self) -> mpsc::Sender<T> {
        self.user_events_sender
    }

    /// `outcome` may come of putting `event` into the channel.
    pub closed spec fn sends(&self, event: T, outcome: Result<(), T>) -> bool {
        call_ensures(send_through::<T>, (&self.user_events_sender, event), outcome)
    }

    /// A proxy that sends through `sender`.
    pub fn new(sender: mpsc::Sender<T>) -> (proxy: Self)
        ensures
            proxy.sender() == sender,
    {
        EventLoopProxy { user_events_sender: sender }
    }

    /// Puts `event` into the queue. On success the main loop has to be woken
    /// up; where the loop is gone, the event comes back.
    pub fn send_event(&self, event: T) -> (res: Result<(), EventLoopClosed<T>>)
        ensures
            exists|outcome: Result<(), T>|
                #[trigger] self.sends(event, outcome) && res == send_result(outcome) && (
                outcome is Ok ==> res is Ok) && (outcome matches Err(unsent) ==> res == Err::<
                    (),
                    EventLoopClosed<T>,
                >(EventLoopClosed(unsent))),
            res matches Err(closed) ==> closed.0 == event,
    {
        let outcome = send_through(&self.user_events_sender, event);
        assert(self.sends(event, outcome));
        match outcome {
            Ok(_) => Ok(()),
            Err(unsent) => Err(EventLoopClosed(unsent)),
        }
    }
}

impl<T> Clone for EventLoopProxy<T> {
    fn clone(&self) -> (other: Self)
        ensures
            call_ensures(
                <mpsc::Sender<T> as Clone>::clone,
                (&self.sender(),),
                other.sender(),
            ),
    {
        EventLoopProxy { user_events_sender: self.user_events_sender.clone() }
    }
}

/// A receiver of which the next value can be looked for ahead of time.
#[verifier::reject_recursive_types(T)]
pub struct PeekableReceiver<T> {
    recv: ReceivingEnd<T>,
    first: Option<T>,
    delivered: Ghost<Seq<T>>,
}

/// The channel was asked once between the records `before` and `after`.
pub open spec fn asked_once<T>(
    before: Seq<Result<T, mpsc::TryRecvError>>,
    after: Seq<Result<T, mpsc::TryRecvError>>,
) -> bool {
    after == before.push(after.last())
}

/// `after` is `before` once it was asked whether a value can be had and said
/// `incoming`. While a value is held back, the channel is not asked; else it is
/// asked once, and what it gives is held back.
pub open spec fn looked<T>(
    before: PeekableReceiver<T>,
    after: PeekableReceiver<T>,
    incoming: bool,
) -> bool {
    &&& after.wf()
    &&& incoming == after.peeked() is Some
    &&& after.receiver() == before.receiver()
    &&& after.delivered() == before.delivered()
    &&& before.peeked() is Some ==> after.peeked() == before.peeked() && after.outcomes()
        == before.outcomes()
    &&& before.peeked() is None ==> asked_once(before.outcomes(), after.outcomes())
        && after.peeked() == receiving::held(after.outcomes().last())
}

/// `after` is `before` once the next value was asked for and `res` came: the
/// value held back, without asking the channel, else what the channel gives when
/// it is asked once.
pub open spec fn took<T>(
    before: PeekableReceiver<T>,
    after: PeekableReceiver<T>,
    res: Result<T, mpsc::TryRecvError>,
) -> bool {
    &&& after.wf()
    &&& after.peeked() is None
    &&& after.receiver() == before.receiver()
    &&& before.peeked() matches Some(value) ==> res == Ok::<T, mpsc::TryRecvError>(value)
        && after.outcomes() == before.outcomes()
    &&& before.peeked() is None ==> after.outcomes() == before.outcomes().push(res)
    &&& after.delivered() == before.delivered() + receiving::option_seq(receiving::held(res))
}

/// What has left the channel stays on record when a value is looked for.
pub proof fn lemma_looking_keeps_record<T>(
    before: PeekableReceiver<T>,
    after: PeekableReceiver<T>,
    incoming: bool,
)
    requires
        looked(before, after, incoming),
    ensures
        before.received().is_prefix_of(after.received()),
{
    if before.peeked() is None {
        receiving::lemma_values_push(before.outcomes(), after.outcomes().last());
    }
}

/// What has left the channel stays on record when a value is asked for.
pub proof fn lemma_taking_keeps_record<T>(
    before: PeekableReceiver<T>,
    after: PeekableReceiver<T>,
    res: Result<T, mpsc::TryRecvError>,
)
    requires
        took(before, after, res),
    ensures
        before.received().is_prefix_of(after.received()),
{
    if before.peeked() is None {
        receiving::lemma_values_push(before.outcomes(), res);
    }
}

/// Looking for a value loses nothing: when one was found, the next request gets
/// that very value, ahead of everything that is still in the channel; and
/// looking again in between changes nothing.
pub proof fn law_found_value_comes_next<T>(
    before: PeekableReceiver<T>,
    found: PeekableReceiver<T>,
    again: PeekableReceiver<T>,
    after: PeekableReceiver<T>,
    incoming: bool,
    res: Result<T, mpsc::TryRecvError>,
)
    requires
        before.wf(),
        looked(before, found, true),
        looked(found, again, incoming),
        took(again, after, res),
    ensures
        incoming,
        res matches Ok(value) && {
            &&& found.peeked() == Some(value)
            &&& after.delivered() == before.delivered().push(value)
            &&& after.outcomes() == found.outcomes()
            &&& after.received() == after.delivered()
        },
{
    assert(before.delivered() + receiving::option_seq(receiving::held(res))
        =~= before.delivered().push(res->Ok_0));
    assert(after.delivered() + receiving::option_seq(after.peeked()) =~= after.delivered());
}

/// A request that fails changes nothing: no value was held back, none has left
/// the channel, and none was handed out.
pub proof fn law_failed_request_takes_nothing<T>(
    before: PeekableReceiver<T>,
    after: PeekableReceiver<T>,
    error: mpsc::TryRecvError,
)
    requires
        took(before, after, Err(error)),
    ensures
        before.peeked() is None,
        after.peeked() is None,
        after.received() == before.received(),
        after.delivered() == before.delivered(),
{
    receiving::lemma_values_push(before.outcomes(), Err(error));
    assert(before.received() + receiving::option_seq(None) =~= before.received());
    assert(before.delivered() + receiving::option_seq(None) =~= before.delivered());
}

/// What a look at the channel leaves to be held back.
pub fn hold_back<T>(outcome: Result<T, mpsc::TryRecvError>) -> (first: Option<T>)
    ensures
        first == receiving::held(outcome),
        outcome matches Ok(value) ==> first == Some(value),
        outcome is Err ==> first is None,
{
    match outcome {
        Ok(value) => Some(value),
        Err(_) => None,
    }
}

impl<T> PeekableReceiver<T> {
    /// The channel's own receiving end.
    pub closed spec fn receiver(&self) -> mpsc::Receiver<T> {
        self.recv.end()
    }

    /// What came of each time that the channel was asked, oldest first.
    pub closed spec fn outcomes(&self) -> Seq<Result<T, mpsc::TryRecvError>> {
        self.recv.outcomes()
    }

    /// The value that was taken out of the channel ahead of time.
    pub closed spec fn peeked(&self) -> Option<T> {
        self.first
    }

    /// Every value that has left the channel, oldest first.
    pub open spec fn received(&self) -> Seq<T> {
        receiving::values(self.outcomes())
    }

    /// Every value handed to a caller so far, oldest first.
    pub closed spec fn delivered(&self) -> Seq<T> {
        self.delivered@
    }

    /// Nothing is lost, doubled or reordered: what came out of the channel is
    /// what was handed out, followed by the value held back, if there is one.
    pub open spec fn wf(&self) -> bool {
        self.received() == self.delivered() + receiving::option_seq(self.peeked())
    }

    /// A peekable receiver in front of `recv`, holding nothing back.
    pub fn from_recv(recv: mpsc::Receiver<T>) -> (peekable: Self)
        ensures
            peekable.wf(),
            peekable.receiver() == recv,
            peekable.peeked() is None,
            peekable.outcomes() == Seq::<Result<T, mpsc::TryRecvError>>::empty(),
            peekable.delivered() == Seq::<T>::empty(),
    {
        PeekableReceiver {
            recv: ReceivingEnd::new(recv),
            first: None,
            delivered: Ghost(Seq::empty()),
        }
    }

    /// Whether a value can be had. A value that had to be taken out of the
    /// channel to find out is held back for the next [`Self::try_recv`]; while
    /// one is held back, the channel is not touched.
    pub fn has_incoming(&mut self) -> (incoming: bool)
        requires
            old(self).wf(),
        ensures
            looked(*old(self), *final(self), incoming),
            incoming == final(self).peeked() is Some,
            final(self).delivered() == old(self).delivered(),
            old(self).peeked() matches Some(value) ==> final(self).peeked() == Some(value)
                && final(self).outcomes() == old(self).outcomes(),
            old(self).peeked() is None ==> {
                &&& final(self).outcomes() == old(self).outcomes().push(
                    final(self).outcomes().last(),
                )
                &&& final(self).outcomes().last() matches Ok(value) ==> final(self).peeked()
                    == Some(value)
                &&& final(self).outcomes().last() is Err ==> final(self).peeked() is None
            },
    {
        if self.first.is_some() {
            return true;
        }
        let outcome = self.recv.try_recv();
        proof {
            receiving::lemma_values_push(old(self).outcomes(), outcome);
        }
        self.first = hold_back(outcome);
        self.first.is_some()
    }

    /// The next value: the one held back, else what the channel gives.
    pub fn try_recv(&mut self) -> (res: Result<T, mpsc::TryRecvError>)
        requires
            old(self).wf(),
        ensures
            took(*old(self), *final(self), res),
            final(self).peeked() is None,
            old(self).peeked() matches Some(value) ==> res == Ok::<T, mpsc::TryRecvError>(value)
                && final(self).outcomes() == old(self).outcomes(),
            old(self).peeked() is None ==> final(self).outcomes() == old(self).outcomes().push(res),
            res matches Ok(value) ==> final(self).delivered() == old(self).delivered().push(value),
            res is Err ==> final(self).delivered() == old(self).delivered(),
    {
        if let Some(first) = self.first.take() {
            proof {
                self.delivered@ = self.delivered@.push(first);
                assert(self.received() =~= self.delivered@ + receiving::option_seq(self.first));
            }
            return Ok(first);
        }
        let res = self.recv.try_recv();
        proof {
            receiving::lemma_values_push(old(self).outcomes(), res);
            self.delivered@ = self.delivered@ + receiving::option_seq(receiving::held(res));
            assert(self.received() =~= self.delivered@ + receiving::option_seq(self.first));
        }
        res
    }
}

/// A send is reported as it came out: as done where it was done, and else with the
/// event that could not be sent.
pub proof fn law_send_is_reported<T>(event: T)
    ensures
        send_result(Ok::<(), T>(())) == Ok::<(), EventLoopClosed<T>>(()),
        send_result(Err::<(), T>(event)) == Err::<(), EventLoopClosed<T>>(EventLoopClosed(event)),
{
}

/// A look leaves what was handed out as it is and loses nothing: a value that was
/// held back stays, and else the channel's next value, if it gives one, is held
/// back. A look finds a value exactly when one is held back after it.
pub proof fn law_look_only_holds_back<T>(
    before: PeekableReceiver<T>,
    after: PeekableReceiver<T>,
    incoming: bool,
)
    requires
        looked(before, after, incoming),
    ensures
        incoming <==> after.peeked() is Some,
        after.delivered() == before.delivered(),
        before.peeked() is Some ==> after.peeked() == before.peeked() && after.outcomes()
            == before.outcomes(),
        before.peeked() is None ==> after.outcomes().len() == before.outcomes().len() + 1
            && after.outcomes().drop_last() == before.outcomes() && (
        after.outcomes().last() matches Ok(value) ==> after.peeked() == Some(value)) && (
        after.outcomes().last() is Err ==> after.peeked() is None),
{
    assert(before.outcomes().push(after.outcomes().last()).drop_last() =~= before.outcomes());
}

/// A request hands out the value that was held back, and else what the channel
/// gives; what it hands out it no longer holds back, and nothing else is handed
/// out.
pub proof fn law_request_hands_out_the_next<T>(
    before: PeekableReceiver<T>,
    after: PeekableReceiver<T>,
    res: Result<T, mpsc::TryRecvError>,
)
    requires
        took(before, after, res),
    ensures
        after.peeked() is None,
        before.peeked() matches Some(value) ==> res == Ok::<T, mpsc::TryRecvError>(value)
            && after.outcomes() == before.outcomes(),
        before.peeked() is None ==> after.outcomes() == before.outcomes().push(res),
        res matches Ok(value) ==> after.delivered() == before.delivered().push(value),
        res is Err ==> after.delivered() == before.delivered(),
{
    if let Ok(value) = res {
        assert(before.delivered() + seq![value] =~= before.delivered().push(value));
    } else {
        assert(before.delivered() + Seq::<T>::empty() =~= before.delivered());
    }
}

} // verus!
