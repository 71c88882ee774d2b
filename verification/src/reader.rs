//! The decisions of the task that reads the input stream and fills the queue.
//!
//! The task itself blocks on the stream, so it runs outside this library. It
//! reports each read to `step` and does what `step` answers.

use vstd::prelude::*;

verus! {

/// What one blocking read of a single byte from the input stream came to.
#[derive(Clone, Copy, Debug, PartialEq, Eq, Structural)]
pub enum ReadOutcome {
    /// The stream delivered this byte.
    Byte(u8),
    /// The stream has ended.
    EndOfStream,
    /// The read failed.
    Failed,
}

/// Where the reading task stands.
#[derive(Clone, Copy, Debug, PartialEq, Eq, Structural)]
pub enum ReaderState {
    /// Reading, and forwarding what it reads.
    Running,
    /// Finished for good: a read found the stream ended or broken.
    Stopped,
}

/// The state that follows `state` on `outcome`, and the byte to enqueue, if
/// any. A running reader forwards every byte it reads, zero or not, and stops
/// on the first read that delivers none. A stopped reader stays stopped and
/// forwards nothing.
pub open spec fn transition(state: ReaderState, outcome: ReadOutcome) -> (
    ReaderState,
    Option<u8>,
) {
    match (state, outcome) {
        (ReaderState::Running, ReadOutcome::Byte(byte)) => (ReaderState::Running, Some(byte)),
        _ => (ReaderState::Stopped, None),
    }
}

/// The state of a reader that started in `state` and then saw `outcomes`, one
/// read after the other.
pub open spec fn state_after(state: ReaderState, outcomes: Seq<ReadOutcome>) -> ReaderState
    decreases outcomes.len(),
{
    if outcomes.len() == 0 {
        state
    } else {
        transition(state_after(state, outcomes.drop_last()), outcomes.last()).0
    }
}

/// The bytes that such a reader enqueued on the way, oldest first.
pub open spec fn forwarded(state: ReaderState, outcomes: Seq<ReadOutcome>) -> Seq<u8>
    decreases outcomes.len(),
{
    if outcomes.len() == 0 {
        Seq::empty()
    } else {
        let earlier = forwarded(state, outcomes.drop_last());
        match transition(state_after(state, outcomes.drop_last()), outcomes.last()).1 {
            Some(byte) => earlier.push(byte),
            None => earlier,
        }
    }
}

/// The reads of a stream that delivers `bytes` one by one.
pub open spec fn delivering(bytes: Seq<u8>) -> Seq<ReadOutcome> {
    bytes.map_values(|byte: u8| ReadOutcome::Byte(byte))
}

/// Decides what the reading task does after one read: which state it is in
/// from now on, and which byte, if any, it appends to the queue.
pub fn step(state: ReaderState, outcome: ReadOutcome) -> (decision: (ReaderState, Option<u8>))
    ensures
        decision == transition(state, outcome),
{
    match state {
        ReaderState::Running => match outcome {
            ReadOutcome::Byte(byte) => (ReaderState::Running, Some(byte)),
            ReadOutcome::EndOfStream => (ReaderState::Stopped, None),
            ReadOutcome::Failed => (ReaderState::Stopped, None),
        },
        ReaderState::Stopped => (ReaderState::Stopped, None),
    }
}

/// A stopped reader never runs again and never enqueues anything, whatever it
/// is told of further reads.
pub proof fn lemma_stopped_is_final(outcomes: Seq<ReadOutcome>)
    ensures
        state_after(ReaderState::Stopped, outcomes) == ReaderState::Stopped,
        forwarded(ReaderState::Stopped, outcomes) == Seq::<u8>::empty(),
    decreases outcomes.len(),
{
    if outcomes.len() > 0 {
        lemma_stopped_is_final(outcomes.drop_last());
    }
}

/// While the stream delivers bytes the reader keeps running and enqueues each
/// of them, in the order read and with nothing dropped.
pub proof fn lemma_forwards_what_is_delivered(bytes: Seq<u8>)
    ensures
        state_after(ReaderState::Running, delivering(bytes)) == ReaderState::Running,
        forwarded(ReaderState::Running, delivering(bytes)) == bytes,
    decreases bytes.len(),
{
    if bytes.len() > 0 {
        lemma_forwards_what_is_delivered(bytes.drop_last());
        assert(delivering(bytes).drop_last() == delivering(bytes.drop_last()));
    }
}

/// What a reader does after `earlier` reads depends on them only through the
/// state they left it in.
proof fn lemma_run_in_two_parts(
    state: ReaderState,
    earlier: Seq<ReadOutcome>,
    later: Seq<ReadOutcome>,
)
    ensures
        state_after(state, earlier + later) == state_after(state_after(state, earlier), later),
        forwarded(state, earlier + later) == forwarded(state, earlier) + forwarded(
            state_after(state, earlier),
            later,
        ),
    decreases later.len(),
{
    if later.len() > 0 {
        lemma_run_in_two_parts(state, earlier, later.drop_last());
        assert((earlier + later).drop_last() == earlier + later.drop_last());
    }
}

/// A reader stops on the first read that delivers no byte. Of a stream that
/// delivers `bytes` and then goes on with `rest`, where `rest` is empty or
/// begins with the end of the stream or a failed read, it enqueues exactly
/// `bytes`: each of them, in the order read, and nothing that `rest` holds.
/// It is still running if and only if `rest` is empty.
pub proof fn lemma_forwards_up_to_first_failure(bytes: Seq<u8>, rest: Seq<ReadOutcome>)
    requires
        rest.len() > 0 ==> !(rest[0] is Byte),
    ensures
        forwarded(ReaderState::Running, delivering(bytes) + rest) == bytes,
        state_after(ReaderState::Running, delivering(bytes) + rest) == if rest.len() == 0 {
            ReaderState::Running
        } else {
            ReaderState::Stopped
        },
{
    lemma_forwards_what_is_delivered(bytes);
    if rest.len() > 0 {
        let failure = seq![rest[0]];
        let later = rest.skip(1);
        assert(forwarded(ReaderState::Running, failure.drop_last()) == Seq::<u8>::empty());
        lemma_stopped_is_final(later);
        lemma_run_in_two_parts(ReaderState::Running, failure, later);
        assert(failure + later == rest);
        lemma_run_in_two_parts(ReaderState::Running, delivering(bytes), rest);
    }
}

} // verus!
