//! A flag that any thread may raise and that the main loop reads and lowers in
//! one atomic operation.

use std::sync::atomic::{AtomicBool, Ordering};
use std::sync::Arc;

use vstd::prelude::*;

verus! {

/// The raising end of a [`SharedFlag`].
pub struct SharedFlagSetter {
    flag: Arc<AtomicBool>,
}

/// The main loop's end of the flag. Used for queuing redraws from arbitrary
/// threads: how many times a redraw was requested does not matter, only whether
/// one was since the flag was last read.
pub struct SharedFlag {
    flag: Arc<AtomicBool>,
}

/// What raising a flag reports for the outcome of exchanging `false` for
/// `true`: whether the flag was lowered before.
pub open spec fn newly_raised(outcome: Result<bool, bool>) -> bool {
    outcome is Ok
}

/// Whether an exchange of `false` for `true` that came out like this changed
/// the flag.
pub fn raised_by(outcome: Result<bool, bool>) -> (changed: bool)
    ensures
        changed == newly_raised(outcome),
        changed == outcome is Ok,
{
    outcome.is_ok()
}

impl SharedFlagSetter {
    /// The atomic that this end shares.
    pub closed spec fn cell(&self) -> AtomicBool {
        *self.flag
    }

    /// `outcome` may come of an atomic exchange of `false` for `true` in the
    /// flag.
    pub open spec fn raises(&self, outcome: Result<bool, bool>) -> bool {
        call_ensures(
            AtomicBool::compare_exchange,
            (&self.cell(), false, true, Ordering::AcqRel, Ordering::Relaxed),
            outcome,
        )
    }

    /// Raises the flag by an atomic exchange of `false` for `true` and returns
    /// whether that succeeded, which is so when the flag was lowered before.
    pub fn set(&self) -> (changed: bool)
        ensures
            exists|outcome: Result<bool, bool>|
                #[trigger] self.raises(outcome) && changed == newly_raised(outcome),
            exists|outcome: Result<bool, bool>|
                #[trigger] call_ensures(
                    AtomicBool::compare_exchange,
                    (&self.cell(), false, true, Ordering::AcqRel, Ordering::Relaxed),
                    outcome,
                ) && changed == outcome is Ok,
    {
        let outcome = self.flag.compare_exchange(
            false,
            true,
            Ordering::AcqRel,
            Ordering::Relaxed,
        );
        assert(self.raises(outcome));
        raised_by(outcome)
    }
}

impl Clone for SharedFlagSetter {
    fn clone(&self) -> (other: Self)
        ensures
            other.cell() == self.cell(),
    {
        SharedFlagSetter { flag: self.flag.clone() }
    }
}

impl SharedFlag {
    /// The atomic that the ends of this flag share.
    pub closed spec fn cell(&self) -> AtomicBool {
        *self.flag
    }

    /// A flag around a new atomic, made with `false`.
    pub fn new() -> (flag: Self)
        ensures
            call_ensures(AtomicBool::new, (false,), flag.cell()),
    {
        SharedFlag { flag: Arc::new(AtomicBool::new(false)) }
    }

    /// A raising end of this very flag.
    pub fn setter(&self) -> (setter: SharedFlagSetter)
        ensures
            setter.cell() == self.cell(),
    {
        SharedFlagSetter { flag: self.flag.clone() }
    }

    /// Lowers the flag by an atomic swap with `false` and returns the value that
    /// the swap took out.
    pub fn get_and_reset(&self) -> (raised: bool)
        ensures
            call_ensures(AtomicBool::swap, (&self.cell(), false, Ordering::AcqRel), raised),
    {
        self.flag.swap(false, Ordering::AcqRel)
    }
}

/// The flag in the hands of the one that looks at it, with a record of the looks.
/// Nothing but [`Self::take`] looks at the flag, so that no request is taken off
/// it unnoticed.
pub struct FlagReader {
    flag: SharedFlag,
    looks: Ghost<Seq<bool>>,
}

impl FlagReader {
    /// The atomic that is looked at.
    pub closed spec fn cell(&self) -> AtomicBool {
        self.flag.cell()
    }

    /// What each look found, oldest first.
    pub closed spec fn looks(&self) -> Seq<bool> {
        self.looks@
    }

    /// A reader of `flag`, which has not looked yet.
    pub fn new(flag: SharedFlag) -> (reader: Self)
        ensures
            reader.cell() == flag.cell(),
            reader.looks() == Seq::<bool>::empty(),
    {
        FlagReader { flag, looks: Ghost(Seq::empty()) }
    }

    /// Looks at the flag, by [`SharedFlag::get_and_reset`]. What comes of it goes
    /// on record.
    pub fn look(&mut self) -> (raised: bool)
        ensures
            final(self).cell() == old(self).cell(),
            final(self).looks() == old(self).looks().push(raised),
            call_ensures(
                AtomicBool::swap,
                (&old(self).cell(), false, Ordering::AcqRel),
                raised,
            ),
    {
        let raised = self.flag.get_and_reset();
        proof {
            self.looks@ = self.looks@.push(raised);
        }
        raised
    }
}

/// Asks the main loop for a redraw from any thread.
pub struct RedrawRequester {
    flag: SharedFlagSetter,
}

impl RedrawRequester {
    /// The atomic that a request raises.
    pub closed spec fn cell(&self) -> AtomicBool {
        self.flag.cell()
    }

    /// `outcome` may come of an atomic exchange of `false` for `true` in the
    /// flag.
    pub open spec fn raises(&self, outcome: Result<bool, bool>) -> bool {
        call_ensures(
            AtomicBool::compare_exchange,
            (&self.cell(), false, true, Ordering::AcqRel, Ordering::Relaxed),
            outcome,
        )
    }

    /// A requester that raises `flag`.
    pub fn new(flag: &SharedFlag) -> (requester: Self)
        ensures
            requester.cell() == flag.cell(),
    {
        RedrawRequester { flag: flag.setter() }
    }

    /// Raises the flag and returns whether the main loop has to be woken up for
    /// it, which is so only when the exchange changed the flag's value.
    pub fn request_redraw(&self) -> (wake: bool)
        ensures
            exists|outcome: Result<bool, bool>|
                #[trigger] self.raises(outcome) && wake == newly_raised(outcome),
            exists|outcome: Result<bool, bool>|
                #[trigger] call_ensures(
                    AtomicBool::compare_exchange,
                    (&self.cell(), false, true, Ordering::AcqRel, Ordering::Relaxed),
                    outcome,
                ) && wake == outcome is Ok,
    {
        let changed = self.flag.set();
        proof {
            let outcome = choose|outcome: Result<bool, bool>|
                #[trigger] self.flag.raises(outcome) && changed == newly_raised(outcome);
            assert(self.raises(outcome));
        }
        changed
    }
}

impl Clone for RedrawRequester {
    fn clone(&self) -> (other: Self)
        ensures
            other.cell() == self.cell(),
    {
        RedrawRequester { flag: self.flag.clone() }
    }
}

/// One atomic operation on the flag.
pub enum FlagOperation {
    /// A redraw request, by [`SharedFlagSetter::set`].
    Raise,
    /// A look of the main loop, by [`SharedFlag::get_and_reset`].
    Lower,
}

/// The outcome of exchanging `false` for `true` in an atomic that holds `value`.
pub open spec fn exchanged(value: bool) -> Result<bool, bool> {
    if value {
        Err(true)
    } else {
        Ok(false)
    }
}

/// What a new flag holds after `history`, in the order in which the operations
/// took effect.
pub open spec fn value_after(history: Seq<FlagOperation>) -> bool {
    history.len() > 0 && history.last() is Raise
}

/// How many of the requests since the main loop last looked had to wake it.
pub open spec fn wakes_since_look(history: Seq<FlagOperation>) -> nat
    decreases history.len(),
{
    if history.len() == 0 || history.last() is Lower {
        0
    } else {
        wakes_since_look(history.drop_last()) + if newly_raised(
            exchanged(value_after(history.drop_last())),
        ) {
            1nat
        } else {
            0nat
        }
    }
}

/// However many requests come between two looks, exactly one of them exchanges
/// `false` for `true`, where the atomic holds what [`value_after`] says.
pub proof fn law_one_wake_between_looks(history: Seq<FlagOperation>)
    ensures
        wakes_since_look(history) == if value_after(history) {
            1nat
        } else {
            0nat
        },
    decreases history.len(),
{
    if history.len() > 0 {
        law_one_wake_between_looks(history.drop_last());
    }
}

/// One call on a flag, with what it returned.
pub enum FlagCall {
    /// A call of [`SharedFlagSetter::set`] on any setter.
    Raise(bool),
    /// A call of [`SharedFlag::get_and_reset`].
    Lower(bool),
}

/// What the atomic of a new flag holds after `history`: an exchange of `false`
/// for `true` leaves `true` behind, whether it succeeds or not, and a swap with
/// `false` leaves `false`.
pub open spec fn raised_after(history: Seq<FlagCall>) -> bool {
    history.len() > 0 && history.last() is Raise
}

/// Each call of `history`, in the order in which they took effect, returned what
/// comes of its atomic operation: an exchange succeeds exactly when the atomic
/// holds `false`, and a swap gives what the atomic holds.
pub open spec fn atomically(history: Seq<FlagCall>) -> bool
    decreases history.len(),
{
    history.len() > 0 ==> atomically(history.drop_last()) && match history.last() {
        FlagCall::Raise(changed) => changed == newly_raised(
            exchanged(raised_after(history.drop_last())),
        ),
        FlagCall::Lower(raised) => raised == raised_after(history.drop_last()),
    }
}

/// How many calls of `set` returned `true`.
pub open spec fn changes(history: Seq<FlagCall>) -> nat
    decreases history.len(),
{
    if history.len() == 0 {
        0
    } else {
        changes(history.drop_last()) + if history.last() == FlagCall::Raise(true) {
            1nat
        } else {
            0nat
        }
    }
}

/// How many calls of `get_and_reset` returned `true`.
pub open spec fn reports(history: Seq<FlagCall>) -> nat
    decreases history.len(),
{
    if history.len() == 0 {
        0
    } else {
        reports(history.drop_last()) + if history.last() == FlagCall::Lower(true) {
            1nat
        } else {
            0nat
        }
    }
}

/// The flag was raised in the first `end` calls of `history`, and not looked at
/// since.
pub open spec fn raised_since_look(history: Seq<FlagCall>, end: int) -> bool {
    exists|i: int|
        0 <= i < end && (#[trigger] history[i] is Raise) && forall|j: int|
            i < j < end ==> !(#[trigger] history[j] is Lower)
}

/// No request is lost and none is reported twice, in whatever order and from
/// whatever threads the calls come: the calls of `set` that changed the flag
/// outnumber the looks that found it raised by one if it is raised and by none
/// else, and a look finds it raised exactly when it was raised since the look
/// before, however many times.
pub proof fn law_every_request_is_reported_once(history: Seq<FlagCall>)
    requires
        atomically(history),
    ensures
        changes(history) - reports(history) == if raised_after(history) {
            1int
        } else {
            0int
        },
        raised_after(history) == raised_since_look(history, history.len() as int),
        forall|i: int|
            0 <= i < history.len() ==> (#[trigger] history[i] matches FlagCall::Lower(raised)
                ==> raised == raised_since_look(history, i)),
{
    lemma_changes_and_reports(history);
    lemma_raised_since_look(history, history.len() as int);
    assert(history.take(history.len() as int) =~= history);
    assert forall|i: int| 0 <= i < history.len() implies (
    #[trigger] history[i] matches FlagCall::Lower(raised) ==> raised == raised_since_look(
        history,
        i,
    )) by {
        lemma_look_finds_value(history, i);
        lemma_raised_since_look(history, i);
    }
}

proof fn lemma_changes_and_reports(history: Seq<FlagCall>)
    requires
        atomically(history),
    ensures
        changes(history) - reports(history) == if raised_after(history) {
            1int
        } else {
            0int
        },
    decreases history.len(),
{
    if history.len() > 0 {
        lemma_changes_and_reports(history.drop_last());
    }
}

proof fn lemma_look_finds_value(history: Seq<FlagCall>, i: int)
    requires
        atomically(history),
        0 <= i < history.len(),
    ensures
        history[i] matches FlagCall::Lower(raised) ==> raised == raised_after(history.take(i)),
    decreases history.len(),
{
    let earlier = history.drop_last();
    if i < earlier.len() {
        lemma_look_finds_value(earlier, i);
        assert(history.take(i) =~= earlier.take(i));
    } else {
        assert(history.take(i) =~= earlier);
    }
}

proof fn lemma_raised_since_look(history: Seq<FlagCall>, end: int)
    requires
        0 <= end <= history.len(),
    ensures
        raised_since_look(history, end) == raised_after(history.take(end)),
{
    if end > 0 && history[end - 1] is Raise {
        assert(history.take(end).last() is Raise);
    }
    if raised_since_look(history, end) {
        let i = choose|i: int|
            0 <= i < end && (#[trigger] history[i] is Raise) && forall|j: int|
                i < j < end ==> !(#[trigger] history[j] is Lower);
        assert(history[end - 1] is Raise);
    }
}

/// A flag counts as newly raised exactly when the exchange succeeded, and an
/// exchange of `false` for `true` succeeds exactly on `false`.
pub proof fn law_newly_raised_is_a_success(outcome: Result<bool, bool>, value: bool)
    ensures
        newly_raised(outcome) <==> outcome is Ok,
        newly_raised(exchanged(value)) <==> !value,
{
}

} // verus!
