//! The receiving end of a channel, with a record of what came of asking it.

use std::sync::mpsc;

use vstd::prelude::*;

verus! {

/// [`mpsc::Receiver`], carried as it is.
#[verifier::external_type_specification]
#[verifier::external_body]
#[verifier::reject_recursive_types(T)]
pub struct ExReceiver<T>(mpsc::Receiver<T>);

/// [`mpsc::TryRecvError`], carried as it is.
#[verifier::external_type_specification]
#[verifier::external_body]
pub struct ExTryRecvError(mpsc::TryRecvError);

/// What came of asking a channel for its next value: the value, or none.
pub open spec fn held<T>(outcome: Result<T, mpsc::TryRecvError>) -> Option<T> {
    match outcome {
        Ok(value) => Some(value),
        Err(_) => None,
    }
}

/// The value of an option as a sequence of at most one element.
pub open spec fn option_seq<T>(value: Option<T>) -> Seq<T> {
    match value {
        Some(v) => seq![v],
        None => Seq::empty(),
    }
}

/// The values among `outcomes`, in order.
pub open spec fn values<T>(outcomes: Seq<Result<T, mpsc::TryRecvError>>) -> Seq<T>
    decreases outcomes.len(),
{
    if outcomes.len() == 0 {
        Seq::empty()
    } else {
        values(outcomes.drop_last()) + option_seq(held(outcomes.last()))
    }
}

/// One more outcome adds its value, if it has one.
pub proof fn lemma_values_push<T>(
    outcomes: Seq<Result<T, mpsc::TryRecvError>>,
    outcome: Result<T, mpsc::TryRecvError>,
)
    ensures
        values(outcomes.push(outcome)) == values(outcomes) + option_seq(held(outcome)),
{
    assert(outcomes.push(outcome).drop_last() =~= outcomes);
}

/// A receiving end. Nothing but [`Self::try_recv`] gets at the channel, and each
/// call of it is on record, so that no value leaves the channel unnoticed.
#[verifier::reject_recursive_types(T)]
pub struct ReceivingEnd<T> {
    recv: mpsc::Receiver<T>,
    outcomes: Ghost<Seq<Result<T, mpsc::TryRecvError>>>,
}

impl<T> ReceivingEnd<T> {
    /// The channel's own receiving end.
    pub closed spec fn end(&self) -> mpsc::Receiver<T> {
        self.recv
    }

    /// What came of each time that the channel was asked, oldest first.
    pub closed spec fn outcomes(&self) -> Seq<Result<T, mpsc::TryRecvError>> {
        self.outcomes@
    }

    /// The end `recv`, which has not been asked yet.
    pub fn new(recv: mpsc::Receiver<T>) -> (end: Self)
        ensures
            end.end() == recv,
            end.outcomes() == Seq::<Result<T, mpsc::TryRecvError>>::empty(),
    {
        ReceivingEnd { recv, outcomes: Ghost(Seq::empty()) }
    }

    /// Asks the channel once, by `mpsc::Receiver::try_recv`: the next waiting
    /// value leaves the channel, or the channel stays as it is and says that
    /// there is none. Whatever comes is what goes on record. Which of the two
    /// it is rests on what other threads have sent, so that is left open.
    #[verifier::external_body]
    pub(crate) fn try_recv(&mut self) -> (res: Result<T, mpsc::TryRecvError>)
        ensures
            final(self).end() == old(self).end(),
            final(self).outcomes() == old(self).outcomes().push(res),
    {
        self.recv.try_recv()
    }
}

/// What is held of an outcome is its value; a failure holds none.
pub proof fn law_value_is_held<T>(value: T, error: mpsc::TryRecvError)
    ensures
        held(Ok::<T, mpsc::TryRecvError>(value)) == Some(value),
        held(Err::<T, mpsc::TryRecvError>(error)) is None,
        option_seq(Some(value)) == seq![value],
        option_seq(None::<T>) == Seq::<T>::empty(),
{
}

/// The values among outcomes are all of them and no others, in their order: each
/// success adds its value at the end, and a failure adds nothing.
pub proof fn law_each_success_adds_its_value<T>(
    outcomes: Seq<Result<T, mpsc::TryRecvError>>,
    value: T,
    error: mpsc::TryRecvError,
)
    ensures
        values(Seq::<Result<T, mpsc::TryRecvError>>::empty()) == Seq::<T>::empty(),
        values(outcomes.push(Ok(value))) == values(outcomes).push(value),
        values(outcomes.push(Err(error))) == values(outcomes),
{
    lemma_values_push(outcomes, Ok(value));
    lemma_values_push(outcomes, Err(error));
    assert(values(outcomes) + seq![value] =~= values(outcomes).push(value));
    assert(values(outcomes) + Seq::<T>::empty() =~= values(outcomes));
}

} // verus!
