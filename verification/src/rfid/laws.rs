//! What holds of a streaming call for all that its client may send.

use vstd::prelude::*;
use super::status::{Code, StatusView};
use super::{
    replies_of, step_of, stopped, turn_of, ClientActions, Input, Locked, Received, Reply,
};

verus! {

/// The client acknowledged, and the read under the lock succeeded.
pub open spec fn answered(input: Input) -> bool {
    &&& input.received matches Some(Ok(Some(msg)))
    &&& msg.action == ClientActions::Ack
    &&& input.locked matches Some(Ok(_))
}

/// The reply sent for an input that was answered: what the read gave.
pub open spec fn answer(input: Input) -> Reply {
    Ok(input.locked->0->Ok_0@)
}

/// The client sent a message with the action `action`.
pub open spec fn asked(input: Input, action: ClientActions) -> bool {
    input.received matches Some(Ok(Some(msg))) && msg.action == action
}

/// As long as the client acknowledges and the reads succeed, every
/// acknowledgment is answered with exactly one reply, in the order of the
/// reads: nothing is dropped, doubled or moved.
pub proof fn lemma_one_reply_per_acknowledgment(inputs: Seq<Input>)
    requires
        forall|i: int| 0 <= i < inputs.len() ==> answered(#[trigger] inputs[i]),
    ensures
        replies_of(inputs) == Seq::new(inputs.len(), |i: int| answer(inputs[i])),
    decreases inputs.len(),
{
    if inputs.len() > 0 {
        let front = inputs.drop_last();
        assert forall|i: int| 0 <= i < front.len() implies answered(#[trigger] front[i]) by {
            assert(front[i] == inputs[i]);
        }
        lemma_one_reply_per_acknowledgment(front);
        assert(answered(inputs.last()));
        assert(replies_of(inputs) =~= Seq::new(inputs.len(), |i: int| answer(inputs[i])));
    } else {
        assert(replies_of(inputs) =~= Seq::new(inputs.len(), |i: int| answer(inputs[i])));
    }
}

/// Acknowledgments that are all answered, and then whatever ends the call
/// with a status: the replies are the answers in order, then that status
/// once.
pub proof fn lemma_answers_then_status(inputs: Seq<Input>)
    requires
        inputs.len() > 0,
        forall|i: int| 0 <= i < inputs.len() - 1 ==> answered(#[trigger] inputs[i]),
        turn_of(inputs.last().received) is Stop,
    ensures
        replies_of(inputs) == Seq::new(
            inputs.len(),
            |i: int|
                if i < inputs.len() - 1 {
                    answer(inputs[i])
                } else {
                    Err(turn_of(inputs.last().received)->Stop_0)
                },
        ),
{
    let front = inputs.drop_last();
    assert forall|i: int| 0 <= i < front.len() implies answered(#[trigger] front[i]) by {
        assert(front[i] == inputs[i]);
    }
    lemma_one_reply_per_acknowledgment(front);
    assert(replies_of(inputs) =~= Seq::new(
        inputs.len(),
        |i: int|
            if i < inputs.len() - 1 {
                answer(inputs[i])
            } else {
                Err(turn_of(inputs.last().received)->Stop_0)
            },
    ));
}

/// Any number of acknowledgments and then a cancellation: the call sends
/// one reply for each acknowledgment, in the order of the reads, and then
/// the one status of the cancellation, with which it ends.
pub proof fn lemma_acknowledged_then_cancelled(inputs: Seq<Input>)
    requires
        inputs.len() > 0,
        forall|i: int| 0 <= i < inputs.len() - 1 ==> answered(#[trigger] inputs[i]),
        asked(inputs.last(), ClientActions::Cancel),
    ensures
        replies_of(inputs).len() == inputs.len(),
        forall|i: int|
            0 <= i < inputs.len() - 1 ==> replies_of(inputs)[i] == answer(#[trigger] inputs[i]),
        replies_of(inputs).last() == Err::<Seq<char>, StatusView>(
            StatusView { code: Code::Cancelled, message: "Cancelled by user"@ },
        ),
        step_of(inputs.last().received, inputs.last().locked).last,
{
    lemma_answers_then_status(inputs);
}

/// An unknown action, after any number of answered acknowledgments, ends
/// the call with the status of an invalid argument, whatever the reader
/// would have given.
pub proof fn lemma_unknown_action_ends_the_call(inputs: Seq<Input>)
    requires
        inputs.len() > 0,
        forall|i: int| 0 <= i < inputs.len() - 1 ==> answered(#[trigger] inputs[i]),
        asked(inputs.last(), ClientActions::Unknown),
    ensures
        replies_of(inputs).len() == inputs.len(),
        forall|i: int|
            0 <= i < inputs.len() - 1 ==> replies_of(inputs)[i] == answer(#[trigger] inputs[i]),
        replies_of(inputs).last() == Err::<Seq<char>, StatusView>(
            StatusView { code: Code::InvalidArgument, message: "Unknown user action"@ },
        ),
        step_of(inputs.last().received, inputs.last().locked).last,
{
    lemma_answers_then_status(inputs);
}

/// An unknown action ends the call at whatever point it comes, and nothing
/// of what the lock or the reader would give changes that.
pub proof fn lemma_unknown_action_stops(received: Received, locked: Locked)
    requires
        received matches Some(Ok(Some(msg))) && msg.action == ClientActions::Unknown,
    ensures
        step_of(received, locked) == stopped(
            StatusView { code: Code::InvalidArgument, message: "Unknown user action"@ },
        ),
{
}

} // verus!
