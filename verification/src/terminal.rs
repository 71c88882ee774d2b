//! The consuming end of the keystroke queue.

use crate::key::accept;
use std::sync::mpsc::{Receiver, TryRecvError};
use vstd::prelude::*;

verus! {

/// `std::sync::mpsc::Receiver`, the consuming end of a channel. Nothing of
/// what it holds is visible to the verifier: another thread fills it.
#[verifier::external_type_specification]
#[verifier::external_body]
#[verifier::reject_recursive_types(T)]
pub struct ExReceiver<T>(Receiver<T>);

/// `std::sync::mpsc::TryRecvError`, the reason why a receive attempt gave no
/// value: the channel is empty for now, or its sender is gone.
#[verifier::external_type_specification]
#[verifier::external_body]
pub struct ExTryRecvError(TryRecvError);

/// `Receiver::try_recv` takes the oldest pending value off the channel, or
/// reports that there is none, and returns at once either way. Which of the
/// two happens depends on what the sending thread has done so far, so nothing
/// is claimed of the outcome.
pub assume_specification<T>[ Receiver::<T>::try_recv ](channel: &Receiver<T>) -> (outcome:
    Result<T, TryRecvError>)
;

/// A terminal whose keystrokes are polled rather than waited for. It owns the
/// consuming end of the queue that a reader of the input stream fills.
pub struct TTYTerminal {
    channel: Receiver<u8>,
}

impl TTYTerminal {
    /// The queue end that this terminal polls.
    pub closed spec fn source(&self) -> Receiver<u8> {
        self.channel
    }

    /// A terminal that polls `channel`.
    #[must_use]
    pub fn new(channel: Receiver<u8>) -> (terminal: TTYTerminal)
        ensures
            terminal.source() == channel,
    {
        TTYTerminal { channel }
    }

    /// Takes the oldest pending byte off the queue, if there is one, and hands
    /// it out unless it is zero. Never waits: with nothing pending, or with
    /// the sender gone, the answer is `None`. A zero byte is taken off the
    /// queue like any other and then dropped, so that call answers `None` too.
    ///
    /// What comes back is `accept` of what the queue gave up; the queue itself
    /// is filled by another thread, so the contract speaks of every outcome.
    pub fn get_input(&mut self) -> (key: Option<u8>)
        ensures
            key matches Some(byte) ==> byte != 0,
            final(self).source() == old(self).source(),
    {
        accept(self.channel.try_recv().ok())
    }
}

} // verus!
