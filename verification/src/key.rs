//! The rule that decides which dequeued bytes count as keystrokes, and what
//! follows from it for a run of polls.

use vstd::prelude::*;

verus! {

/// What one poll hands to the caller, given what the queue gave up: the same,
/// except that a zero byte counts as no byte at all.
pub open spec fn accepted(received: Option<u8>) -> Option<u8> {
    if received == Some(0u8) {
        None
    } else {
        received
    }
}

/// The bytes that a run of polls took off the queue, oldest first. Each entry
/// of `received` is what one poll found: a byte, or an empty queue.
pub open spec fn taken(received: Seq<Option<u8>>) -> Seq<u8> {
    received.filter_map(|found: Option<u8>| found)
}

/// The keys that the same run of polls handed to the caller, oldest first.
pub open spec fn yielded(received: Seq<Option<u8>>) -> Seq<u8> {
    received.filter_map(|found: Option<u8>| accepted(found))
}

/// The non-zero bytes of `bytes`, in the order in which they stand there.
pub open spec fn nonzero(bytes: Seq<u8>) -> Seq<u8> {
    bytes.filter(|byte: u8| byte != 0)
}

/// Applies the zero-byte filter to the outcome of one dequeue attempt.
pub fn accept(received: Option<u8>) -> (key: Option<u8>)
    ensures
        key == accepted(received),
{
    match received {
        Some(byte) if byte != 0 => Some(byte),
        _ => None,
    }
}

/// Over any run of polls, the keys handed out are exactly the non-zero bytes
/// among those taken off the queue, in the order in which they were taken.
/// Polls that found the queue empty, and polls that took a zero byte, add
/// nothing.
pub proof fn lemma_yielded_is_nonzero_of_taken(received: Seq<Option<u8>>)
    ensures
        yielded(received) == nonzero(taken(received)),
    decreases received.len(),
{
    reveal(Seq::filter);
    if received.len() > 0 {
        lemma_yielded_is_nonzero_of_taken(received.drop_last());
        if let Some(byte) = received.last() {
            let earlier = taken(received.drop_last());
            assert((earlier + seq![byte]).drop_last() == earlier);
        }
    }
}

/// No key that a run of polls hands out is zero.
pub proof fn lemma_yielded_never_zero(received: Seq<Option<u8>>, i: int)
    requires
        0 <= i < yielded(received).len(),
    ensures
        yielded(received)[i] != 0,
{
    lemma_yielded_is_nonzero_of_taken(received);
    taken(received).lemma_filter_pred(|byte: u8| byte != 0, i);
}

/// When every poll of a run found a byte, so that `written` is what the run
/// took off the queue one by one, the keys handed out are the non-zero bytes
/// of `written` in the order written.
pub proof fn lemma_drained_in_order(written: Seq<u8>)
    ensures
        yielded(written.map_values(|byte: u8| Some(byte))) == nonzero(written),
{
    let received = written.map_values(|byte: u8| Some(byte));
    lemma_taken_of_all_found(written);
    lemma_yielded_is_nonzero_of_taken(received);
}

/// A run of polls in which each found a byte took exactly those bytes.
proof fn lemma_taken_of_all_found(written: Seq<u8>)
    ensures
        taken(written.map_values(|byte: u8| Some(byte))) == written,
    decreases written.len(),
{
    let received = written.map_values(|byte: u8| Some(byte));
    if written.len() > 0 {
        lemma_taken_of_all_found(written.drop_last());
        assert(received.drop_last() == written.drop_last().map_values(|byte: u8| Some(byte)));
    }
}

} // verus!
