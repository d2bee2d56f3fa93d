use vstd::prelude::*;

use crate::bridge::fill_buffer;
use crate::error::{Error, IoErrorKind, Result};

verus! {

/// What the task that feeds the asynchronous sink does with a message from
/// the blocking worker.
#[derive(Clone, Copy, Debug, PartialEq, Eq, Structural)]
pub enum SinkAction {
    /// Flush the sink: the worker flushed its writer.
    Flush,
    /// Write the message's bytes to the sink.
    Write,
}

/// The empty message asks for a flush; any other message carries bytes to
/// write.
pub fn sink_action(message: &[u8]) -> (r: SinkAction)
    ensures
        r == SinkAction::Flush <==> message@.len() == 0,
{
    if message.len() == 0 {
        SinkAction::Flush
    } else {
        SinkAction::Write
    }
}

/// Whether the task that reads the asynchronous source goes on after one
/// read: it stops at the end of the source (a read of 0 bytes) and when the
/// worker no longer takes chunks.
pub fn source_pump_continues(read: usize, delivered: bool) -> (r: bool)
    ensures
        r == (read != 0 && delivered),
{
    read != 0 && delivered
}

/// Hand the worker's read callback the next chunk from the source: the
/// chunk is copied into the front of the buffer and its length returned. A
/// closed channel is the end of input, 0 bytes with the buffer unchanged.
pub fn deliver_chunk(buffer: &mut [u8], chunk: Option<Vec<u8>>) -> (r: Result<usize>)
    ensures
        chunk is None ==> r == Ok::<usize, Error>(0) && final(buffer)@ == old(buffer)@,
        chunk is Some ==> (r is Ok <==> chunk->Some_0@.len() <= old(buffer)@.len()),
        chunk is Some && r is Ok ==> r->Ok_0 == chunk->Some_0@.len() && final(buffer)@.take(
            r->Ok_0 as int,
        ) == chunk->Some_0@,
        chunk is Some && r is Err ==> r->Err_0 == Error::Io(IoErrorKind::WriteZero),
{
    match chunk {
        None => Ok(0),
        Some(data) => {
            let r = fill_buffer(buffer, data.as_slice());
            proof {
                if r is Ok {
                    assert(buffer@.take(data@.len() as int) =~= data@);
                }
            }
            r
        },
    }
}

/// The error of a seek across the asynchronous boundary, which only pumps
/// bytes forward.
pub fn seek_unsupported() -> (e: Error)
    ensures
        e == Error::Io(IoErrorKind::Unsupported),
{
    Error::Io(IoErrorKind::Unsupported)
}

/// The outcome of an asynchronous operation from the outcome of the task
/// that pumped its source and the outcome of the blocking worker (which
/// failed itself, or returned the operation's result): a failure of the
/// pump comes first, then one of the worker.
pub open spec fn joined_outcome<T>(pump: Result<()>, work: Result<Result<T>>) -> Result<T> {
    match pump {
        Err(e) => Err(e),
        Ok(_) => match work {
            Err(e) => Err(e),
            Ok(r) => r,
        },
    }
}

/// The outcome of an asynchronous operation that pumps both its source and
/// its sink: the source pump's failure first, then the sink pump's, then
/// the worker's.
pub open spec fn joined_outcome_both<T>(
    source_pump: Result<()>,
    sink_pump: Result<()>,
    work: Result<Result<T>>,
) -> Result<T> {
    match source_pump {
        Err(e) => Err(e),
        Ok(_) => joined_outcome(sink_pump, work),
    }
}

/// Join an operation that pumps its source only.
pub fn join_read<T>(pump: Result<()>, work: Result<Result<T>>) -> (r: Result<T>)
    ensures
        r == joined_outcome(pump, work),
{
    match pump {
        Err(e) => Err(e),
        Ok(()) => match work {
            Err(e) => Err(e),
            Ok(r) => r,
        },
    }
}

/// Join an operation that pumps both its source and its sink.
pub fn join_read_write<T>(
    source_pump: Result<()>,
    sink_pump: Result<()>,
    work: Result<Result<T>>,
) -> (r: Result<T>)
    ensures
        r == joined_outcome_both(source_pump, sink_pump, work),
{
    match source_pump {
        Err(e) => Err(e),
        Ok(()) => join_read(sink_pump, work),
    }
}

/// When the pumps did their part, an asynchronous operation returns
/// exactly what the blocking operation returned, its errors included, so
/// both variants decode the same output and classify errors alike.
pub proof fn lemma_async_matches_blocking<T>(blocking: Result<T>)
    ensures
        joined_outcome(Ok(()), Ok(blocking)) == blocking,
        joined_outcome_both(Ok(()), Ok(()), Ok(blocking)) == blocking,
{
}

} // verus!
