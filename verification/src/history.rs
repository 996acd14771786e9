//! Histories of the queue: what was sent, looked for and asked for, and what
//! came of it.

use std::sync::mpsc;

use vstd::prelude::*;

use crate::queue;
use crate::queue::PeekableReceiver;
use crate::receiving;

verus! {

/// One thing that happens to a queue, with what came of it.
pub enum Operation<T> {
    /// A value is put into the channel.
    Send(T),
    /// A value is looked for, by [`PeekableReceiver::has_incoming`].
    Look(bool),
    /// The next value is asked for, by [`PeekableReceiver::try_recv`].
    Request(Result<T, mpsc::TryRecvError>),
}

/// The values that were sent, in order.
pub open spec fn sent<T>(history: Seq<Operation<T>>) -> Seq<T>
    decreases history.len(),
{
    if history.len() == 0 {
        Seq::empty()
    } else {
        sent(history.drop_last()) + match history.last() {
            Operation::Send(value) => seq![value],
            _ => Seq::empty(),
        }
    }
}

/// The values that requests returned, in order.
pub open spec fn handed_out<T>(history: Seq<Operation<T>>) -> Seq<T>
    decreases history.len(),
{
    if history.len() == 0 {
        Seq::empty()
    } else {
        handed_out(history.drop_last()) + match history.last() {
            Operation::Request(res) => receiving::option_seq(receiving::held(res)),
            _ => Seq::empty(),
        }
    }
}

/// The value of `values` at `index`, where there is one.
pub open spec fn nth<T>(values: Seq<T>, index: nat) -> Option<T> {
    if index < values.len() {
        Some(values[index as int])
    } else {
        None
    }
}

/// The oldest value that was sent and not yet handed out.
pub open spec fn oldest_pending<T>(history: Seq<Operation<T>>) -> Option<T> {
    nth(sent(history), handed_out(history).len())
}

/// Where the channel was asked between `before` and `after`, it gave the oldest
/// of the values `sent` that had not left it, and none only when there was none.
pub open spec fn channel_in_order<T>(
    before: PeekableReceiver<T>,
    after: PeekableReceiver<T>,
    sent: Seq<T>,
) -> bool {
    queue::asked_once(before.outcomes(), after.outcomes()) ==> receiving::held(
        after.outcomes().last(),
    ) == nth(sent, before.received().len())
}

/// `operation` leads from `before` to `after`, after the values `sent` were sent.
pub open spec fn leads<T>(
    before: PeekableReceiver<T>,
    operation: Operation<T>,
    after: PeekableReceiver<T>,
    sent: Seq<T>,
) -> bool {
    match operation {
        Operation::Send(_) => after == before,
        Operation::Look(incoming) => queue::looked(before, after, incoming) && channel_in_order(
            before,
            after,
            sent,
        ),
        Operation::Request(res) => queue::took(before, after, res) && channel_in_order(
            before,
            after,
            sent,
        ),
    }
}

/// `history` happened to a new receiver, which went through `states`.
pub open spec fn happened<T>(states: Seq<PeekableReceiver<T>>, history: Seq<Operation<T>>) -> bool
    decreases history.len(),
{
    &&& states.len() == history.len() + 1
    &&& if history.len() == 0 {
        &&& states[0].wf()
        &&& states[0].peeked() is None
        &&& states[0].delivered() == Seq::<T>::empty()
    } else {
        &&& happened(states.drop_last(), history.drop_last())
        &&& leads(
            states[states.len() - 2],
            history.last(),
            states.last(),
            sent(history.drop_last()),
        )
    }
}

/// Each operation of `history` came out as it does with a plain queue: a request
/// returned the oldest pending value, if there was one, and a look told whether
/// there was one.
pub open spec fn as_of_a_queue<T>(history: Seq<Operation<T>>) -> bool
    decreases history.len(),
{
    history.len() > 0 ==> as_of_a_queue(history.drop_last()) && match history.last() {
        Operation::Send(_) => true,
        Operation::Look(incoming) => incoming == oldest_pending(history.drop_last()) is Some,
        Operation::Request(res) => receiving::held(res) == oldest_pending(history.drop_last()),
    }
}

/// `history` without its looks.
pub open spec fn without_looks<T>(history: Seq<Operation<T>>) -> Seq<Operation<T>>
    decreases history.len(),
{
    if history.len() == 0 {
        Seq::empty()
    } else {
        let before = without_looks(history.drop_last());
        if history.last() is Look {
            before
        } else {
            before.push(history.last())
        }
    }
}

/// The same values were sent, the same looks and requests made, in the same
/// order; what came of them may differ.
pub open spec fn same_operations<T>(a: Seq<Operation<T>>, b: Seq<Operation<T>>) -> bool
    decreases a.len(),
{
    &&& a.len() == b.len()
    &&& a.len() > 0 ==> same_operations(a.drop_last(), b.drop_last()) && match (
        a.last(),
        b.last(),
    ) {
        (Operation::Send(x), Operation::Send(y)) => x == y,
        (Operation::Look(_), Operation::Look(_)) => true,
        (Operation::Request(_), Operation::Request(_)) => true,
        _ => false,
    }
}

/// Over any history of sends, looks and requests, what was handed out and the
/// value held back are all that has left the channel; the values handed out are
/// the first ones sent, each once and in the order of sending; and every look and
/// every request comes out as it does with a plain queue, so that a request right
/// after a look that found a value returns one.
pub proof fn law_history_is_of_a_queue<T>(
    states: Seq<PeekableReceiver<T>>,
    history: Seq<Operation<T>>,
)
    requires
        happened(states, history),
    ensures
        states.last().wf(),
        states.last().delivered() == handed_out(history),
        states.last().received().is_prefix_of(sent(history)),
        handed_out(history).is_prefix_of(sent(history)),
        as_of_a_queue(history),
    decreases history.len(),
{
    let after = states.last();
    if history.len() > 0 {
        let earlier = history.drop_last();
        law_history_is_of_a_queue(states.drop_last(), earlier);
        let before = states[states.len() - 2];
        assert(before == states.drop_last().last());
        match history.last() {
            Operation::Send(_) => {
                assert(after.delivered() =~= handed_out(history));
            },
            Operation::Look(incoming) => {
                assert(sent(history) =~= sent(earlier));
                assert(after.delivered() =~= handed_out(history));
                if before.peeked() is None {
                    receiving::lemma_values_push(before.outcomes(), after.outcomes().last());
                    assert(before.received() =~= before.delivered());
                } else {
                    assert(before.received().last() == before.peeked()->0);
                }
            },
            Operation::Request(res) => {
                assert(sent(history) =~= sent(earlier));
                if before.peeked() is None {
                    receiving::lemma_values_push(before.outcomes(), res);
                    assert(before.received() =~= before.delivered());
                } else {
                    assert(before.received().last() == before.peeked()->0);
                }
            },
        }
        assert(after.received() == after.delivered() + receiving::option_seq(after.peeked()));
    }
}

/// Looks are of no consequence: without them, a history keeps what was sent and
/// handed out, and every request still comes out as it does with a plain queue.
pub proof fn law_looks_are_of_no_consequence<T>(history: Seq<Operation<T>>)
    requires
        as_of_a_queue(history),
    ensures
        as_of_a_queue(without_looks(history)),
        sent(without_looks(history)) == sent(history),
        handed_out(without_looks(history)) == handed_out(history),
    decreases history.len(),
{
    if history.len() > 0 {
        let before = without_looks(history.drop_last());
        law_looks_are_of_no_consequence(history.drop_last());
        if history.last() is Look {
            assert(sent(history) =~= sent(history.drop_last()));
            assert(handed_out(history) =~= handed_out(history.drop_last()));
        } else {
            assert(before.push(history.last()).drop_last() =~= before);
        }
    }
}

/// What was sent and when it was asked for determine what comes of it: two
/// histories with the same operations hand out the same values.
pub proof fn law_answers_are_determined<T>(a: Seq<Operation<T>>, b: Seq<Operation<T>>)
    requires
        as_of_a_queue(a),
        as_of_a_queue(b),
        same_operations(a, b),
    ensures
        sent(a) == sent(b),
        handed_out(a) == handed_out(b),
        a.len() > 0 ==> (match (a.last(), b.last()) {
            (Operation::Look(x), Operation::Look(y)) => x == y,
            (Operation::Request(x), Operation::Request(y)) => receiving::held(x)
                == receiving::held(y),
            _ => true,
        }),
    decreases a.len(),
{
    if a.len() > 0 {
        law_answers_are_determined(a.drop_last(), b.drop_last());
    }
}

} // verus!
