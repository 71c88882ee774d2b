//! The reader and the poller taken together.

use crate::key::{lemma_yielded_is_nonzero_of_taken, nonzero, taken, yielded};
use crate::reader::{delivering, forwarded, lemma_forwards_up_to_first_failure, ReadOutcome, ReaderState};
use vstd::prelude::*;

verus! {

/// Let the input stream deliver `written`, and after that nothing yet
/// (`rest` is empty) or its end or a failure (`rest` begins with one of the
/// two). Let the polls of `received` take off the queue, first in first out,
/// everything that the reader put there. Then the keys handed out are exactly
/// the non-zero bytes of `written`, in the order in which they were written.
pub proof fn lemma_keys_are_nonzero_bytes_in_order(
    written: Seq<u8>,
    rest: Seq<ReadOutcome>,
    received: Seq<Option<u8>>,
)
    requires
        rest.len() > 0 ==> !(rest[0] is Byte),
        taken(received) == forwarded(ReaderState::Running, delivering(written) + rest),
    ensures
        yielded(received) == nonzero(written),
{
    lemma_forwards_up_to_first_failure(written, rest);
    lemma_yielded_is_nonzero_of_taken(received);
}

} // verus!
