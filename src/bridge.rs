use vstd::prelude::*;

use crate::error::{Error, IoErrorKind, Result};

verus! {

/// Size of the scratch buffer that the read callback fills.
pub const READER_BUFFER_SIZE: usize = 16384;

/// The engine's `whence` for an offset from the start of the source.
pub const SEEK_SET: i32 = 0;

/// The engine's `whence` for an offset from the current position.
pub const SEEK_CUR: i32 = 1;

/// The engine's `whence` for an offset from the end of the source.
pub const SEEK_END: i32 = 2;

/// A position to seek the source to.
#[derive(Clone, Copy, Debug, PartialEq, Eq, Structural)]
pub enum SeekTarget {
    /// This many bytes from the start.
    Start(u64),
    /// This many bytes from the current position.
    Current(i64),
    /// This many bytes from the end.
    End(i64),
}

/// The seek that the engine's `(offset, whence)` asks for, or `None` when
/// the request is invalid: an unknown `whence`, or a negative offset from
/// the start.
pub fn seek_target(offset: i64, whence: i32) -> (r: Option<SeekTarget>)
    ensures
        whence == SEEK_SET && offset >= 0 ==> r == Some(SeekTarget::Start(offset as u64)),
        whence == SEEK_SET && offset < 0 ==> r is None,
        whence == SEEK_CUR ==> r == Some(SeekTarget::Current(offset)),
        whence == SEEK_END ==> r == Some(SeekTarget::End(offset)),
        whence != SEEK_SET && whence != SEEK_CUR && whence != SEEK_END ==> r is None,
{
    if whence == SEEK_SET {
        if offset >= 0 {
            Some(SeekTarget::Start(offset as u64))
        } else {
            None
        }
    } else if whence == SEEK_CUR {
        Some(SeekTarget::Current(offset))
    } else if whence == SEEK_END {
        Some(SeekTarget::End(offset))
    } else {
        None
    }
}

/// What the seek callback returns to the engine: the new absolute position,
/// or -1 when the seek failed or the position does not fit.
pub fn seek_reply(position: Option<u64>) -> (r: i64)
    ensures
        position is Some && position->Some_0 <= i64::MAX ==> r == position->Some_0,
        !(position is Some && position->Some_0 <= i64::MAX) ==> r == -1,
{
    match position {
        Some(p) => if p <= i64::MAX as u64 {
            p as i64
        } else {
            -1
        },
        None => -1,
    }
}

/// What the read callback returns to the engine: the number of bytes placed
/// in the scratch buffer (0 at the end of input), or -1 when the read
/// failed.
pub fn read_reply(read: Option<usize>) -> (r: i64)
    requires
        read is Some ==> read->Some_0 <= READER_BUFFER_SIZE,
    ensures
        read is Some ==> r == read->Some_0,
        read is None ==> r == -1,
{
    match read {
        Some(n) => n as i64,
        None => -1,
    }
}

/// The error number the read callback reports to the engine for a failed
/// read: the operating-system code where there is one, else 0.
pub fn reported_errno(kind: IoErrorKind) -> (r: i32)
    ensures
        kind is Os ==> r == kind->Os_0,
        !(kind is Os) ==> r == 0,
{
    match kind {
        IoErrorKind::Os(code) => code,
        _ => 0,
    }
}

/// Copy a block of bytes into the front of the scratch buffer, returning how
/// many were copied; a block longer than the buffer is refused with
/// `WriteZero` and leaves the buffer unchanged.
pub fn fill_buffer(buffer: &mut [u8], data: &[u8]) -> (r: Result<usize>)
    ensures
        r is Ok <==> data@.len() <= old(buffer)@.len(),
        r is Ok ==> r->Ok_0 == data@.len() && final(buffer)@ == data@ + old(buffer)@.skip(
            data@.len() as int,
        ),
        r is Err ==> r->Err_0 == Error::Io(IoErrorKind::WriteZero) && final(buffer)@ == old(
            buffer,
        )@,
{
    if data.len() > buffer.len() {
        return Err(Error::Io(IoErrorKind::WriteZero));
    }
    let n = data.len();
    let mut i: usize = 0;
    while i < n
        invariant
            n == data@.len(),
            n <= buffer@.len(),
            buffer@.len() == old(buffer)@.len(),
            i <= n,
            forall|j: int| 0 <= j < i ==> buffer@[j] == data@[j],
            forall|j: int| n <= j < buffer@.len() ==> buffer@[j] == old(buffer)@[j],
        decreases n - i,
    {
        buffer[i] = data[i];
        i = i + 1;
    }
    proof {
        assert(buffer@ =~= data@ + old(buffer)@.skip(n as int));
    }
    Ok(n)
}

} // verus!
