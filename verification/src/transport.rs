//! Decision logic of the transport bridge.
//!
//! The bridge turns a blocking byte-input stream into a source with
//! non-blocking lookahead.  A dedicated reader loop blocks on the input
//! stream and forwards each byte, or the I/O failure it hit, through an
//! ordered single-consumer channel; the consumer side blocks on the
//! channel to read and polls it without waiting to peek.  The loop, the
//! stream and the channel live with the surrounding process; the
//! functions here are the two decisions those loops make, verified for
//! every event that can arrive.
//!
//! Note that a peek which finds a byte consumes it from the channel: the
//! channel has no undo, so peek is consuming, not lookahead-preserving.

use vstd::prelude::*;

verus! {

/// What the reader loop does with the outcome of one blocking read of a
/// single byte.
#[derive(Debug, PartialEq)]
pub enum ReaderAction<E> {
    /// The stream reported end-of-data: the loop terminates.
    Stop,
    /// The byte, or the failure, is forwarded to the consumer in order.
    Forward(Result<u8, E>),
}

/// The reader loop's decision for one read outcome: end-of-data (a read
/// of zero bytes) stops the loop, a successful read forwards the byte
/// just stored in the one-byte buffer, and a failure forwards the error.
pub fn reader_step<E>(outcome: Result<usize, E>, byte: u8) -> (r: ReaderAction<E>)
    ensures
        r == (match outcome {
            Ok(0usize) => ReaderAction::<E>::Stop,
            Ok(_) => ReaderAction::<E>::Forward(Ok(byte)),
            Err(e) => ReaderAction::<E>::Forward(Err(e)),
        }),
{
    match outcome {
        Ok(0) => ReaderAction::Stop,
        Ok(_) => ReaderAction::Forward(Ok(byte)),
        Err(e) => ReaderAction::Forward(Err(e)),
    }
}

/// The consumer's non-blocking peek, decided from what a poll of the
/// channel produced: nothing ready is not an error but an empty peek, a
/// forwarded byte is handed out, and a forwarded I/O failure surfaces as
/// the connection error.
pub fn peek_outcome<E>(polled: Option<Result<u8, E>>) -> (r: Result<Option<u8>, E>)
    ensures
        r == (match polled {
            None => Ok::<Option<u8>, E>(None),
            Some(Ok(b)) => Ok(Some(b)),
            Some(Err(e)) => Err(e),
        }),
{
    match polled {
        None => Ok(None),
        Some(Ok(b)) => Ok(Some(b)),
        Some(Err(e)) => Err(e),
    }
}

} // verus!
