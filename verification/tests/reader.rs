use std::sync::mpsc::channel;
use tty_terminal::reader::{step, ReadOutcome, ReaderState};
use tty_terminal::TTYTerminal;

fn run(outcomes: &[ReadOutcome]) -> (ReaderState, Vec<u8>) {
    let mut state = ReaderState::Running;
    let mut enqueued: Vec<u8> = Vec::new();
    for outcome in outcomes {
        let (next, enqueue) = step(state, *outcome);
        state = next;
        if let Some(byte) = enqueue {
            enqueued.push(byte);
        }
    }
    (state, enqueued)
}

#[test]
fn running_reader_forwards_a_byte() {
    assert_eq!(
        step(ReaderState::Running, ReadOutcome::Byte(0x41)),
        (ReaderState::Running, Some(0x41))
    );
}

#[test]
fn running_reader_forwards_the_zero_byte_too() {
    assert_eq!(
        step(ReaderState::Running, ReadOutcome::Byte(0)),
        (ReaderState::Running, Some(0))
    );
}

#[test]
fn running_reader_stops_at_end_of_stream() {
    assert_eq!(
        step(ReaderState::Running, ReadOutcome::EndOfStream),
        (ReaderState::Stopped, None)
    );
}

#[test]
fn running_reader_stops_on_a_failed_read() {
    assert_eq!(
        step(ReaderState::Running, ReadOutcome::Failed),
        (ReaderState::Stopped, None)
    );
}

#[test]
fn stopped_reader_stays_stopped() {
    for outcome in [
        ReadOutcome::Byte(0x41),
        ReadOutcome::Byte(0),
        ReadOutcome::EndOfStream,
        ReadOutcome::Failed,
    ] {
        assert_eq!(
            step(ReaderState::Stopped, outcome),
            (ReaderState::Stopped, None)
        );
    }
}

#[test]
fn reader_forwards_everything_up_to_the_end_of_the_stream() {
    let (state, enqueued) = run(&[
        ReadOutcome::Byte(0x41),
        ReadOutcome::Byte(0x00),
        ReadOutcome::Byte(0x42),
        ReadOutcome::EndOfStream,
    ]);
    assert_eq!(state, ReaderState::Stopped);
    assert_eq!(enqueued, vec![0x41u8, 0x00, 0x42]);
}

#[test]
fn reader_forwards_nothing_after_a_failure() {
    let (state, enqueued) = run(&[
        ReadOutcome::Byte(0x31),
        ReadOutcome::Failed,
        ReadOutcome::Byte(0x32),
        ReadOutcome::Byte(0x33),
    ]);
    assert_eq!(state, ReaderState::Stopped);
    assert_eq!(enqueued, vec![0x31u8]);
}

#[test]
fn reader_of_a_stream_that_is_closed_at_once_forwards_nothing() {
    let (state, enqueued) = run(&[ReadOutcome::EndOfStream]);
    assert_eq!(state, ReaderState::Stopped);
    assert!(enqueued.is_empty());
}

#[test]
fn reader_that_has_seen_only_bytes_is_still_running() {
    let (state, enqueued) = run(&[ReadOutcome::Byte(0x31), ReadOutcome::Byte(0x32)]);
    assert_eq!(state, ReaderState::Running);
    assert_eq!(enqueued, vec![0x31u8, 0x32]);
}

#[test]
fn reader_and_terminal_together_deliver_the_nonzero_bytes_in_order() {
    let stream = [
        ReadOutcome::Byte(0x41),
        ReadOutcome::Byte(0x00),
        ReadOutcome::Byte(0x42),
        ReadOutcome::EndOfStream,
        ReadOutcome::Byte(0x43),
    ];
    let (tx, rx) = channel::<u8>();
    let mut state = ReaderState::Running;
    for outcome in stream {
        let (next, enqueue) = step(state, outcome);
        state = next;
        if let Some(byte) = enqueue {
            tx.send(byte).unwrap();
        }
    }
    drop(tx);
    let mut terminal = TTYTerminal::new(rx);
    let mut yielded: Vec<u8> = Vec::new();
    for _ in 0..stream.len() {
        if let Some(key) = terminal.get_input() {
            yielded.push(key);
        }
    }
    assert_eq!(yielded, vec![0x41u8, 0x42]);
    assert_eq!(terminal.get_input(), None);
}
