//! Reading a host stream: what to ask for, and what to make of the answer.

use vstd::prelude::*;

verus! {

/// What a blocking read of a host stream ends in.
#[derive(Debug)]
pub enum StreamOutcome {
    /// The stream handed out these bytes.
    Chunk(Vec<u8>),
    /// The stream has come to its end.
    Closed,
    /// The last operation on the stream failed, for this reason.
    Failed(String),
}

/// Why a read gave no bytes.
#[derive(Debug)]
pub enum ReadError {
    /// The stream handed out more bytes than were asked for.
    TooManyBytes,
    /// The last operation on the stream failed, for this reason.
    Failed(String),
}

/// What a read answers: the number of bytes that went into the buffer, or
/// why there are none.
pub open spec fn delivery(room: nat, outcome: StreamOutcome) -> Result<nat, ReadError> {
    match outcome {
        StreamOutcome::Chunk(chunk) => if chunk@.len() > room {
            Err(ReadError::TooManyBytes)
        } else {
            Ok(chunk@.len())
        },
        StreamOutcome::Closed => Ok(0),
        StreamOutcome::Failed(reason) => Err(ReadError::Failed(reason)),
    }
}

/// What the buffer holds after a read: the bytes of a chunk that fits, in
/// front of what the buffer held behind them; else what it held.
pub open spec fn filled(buffer: Seq<u8>, outcome: StreamOutcome) -> Seq<u8> {
    match outcome {
        StreamOutcome::Chunk(chunk) => if chunk@.len() > buffer.len() {
            buffer
        } else {
            chunk@ + buffer.skip(chunk@.len() as int)
        },
        _ => buffer,
    }
}

/// The reading side of a host stream: it decides how many bytes to ask
/// for, and what to make of what the stream hands out.
#[derive(Debug)]
pub struct InputStreamReader {}

impl InputStreamReader {
    /// How many bytes to ask the stream for, to fill a buffer with room for
    /// `room` bytes.
    pub fn request(room: usize) -> (n: u64)
        ensures
            n == room,
    {
        room as u64
    }

    /// Puts what the stream handed out into the buffer. A chunk goes to the
    /// front of the buffer and its length is answered; one that is longer
    /// than the buffer is an error. A closed stream answers no bytes. A
    /// failure of the stream is passed on.
    pub fn deliver(buffer: &mut [u8], outcome: StreamOutcome) -> (r: Result<usize, ReadError>)
        ensures
            final(buffer)@ == filled(old(buffer)@, outcome),
            match r {
                Ok(n) => delivery(old(buffer)@.len(), outcome) == Ok::<nat, ReadError>(n as nat),
                Err(e) => delivery(old(buffer)@.len(), outcome) == Err::<nat, ReadError>(e),
            },
    {
        match outcome {
            StreamOutcome::Chunk(chunk) => {
                let n = chunk.len();
                if n > buffer.len() {
                    return Err(ReadError::TooManyBytes);
                }
                let mut i: usize = 0;
                while i < n
                    invariant
                        i <= n == chunk@.len() <= buffer@.len(),
                        buffer@.len() == old(buffer)@.len(),
                        buffer@ == chunk@.take(i as int) + old(buffer)@.skip(i as int),
                    decreases n - i,
                {
                    buffer[i] = chunk[i];
                    i += 1;
                }
                Ok(n)
            },
            StreamOutcome::Closed => Ok(0),
            StreamOutcome::Failed(reason) => Err(ReadError::Failed(reason)),
        }
    }
}

} // verus!
