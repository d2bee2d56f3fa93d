use vstd::prelude::*;
use vstd::utf8::{decode_utf8, valid_utf8};

verus! {

/// Status returned by an engine call that succeeded.
pub const ARCHIVE_OK: i32 = 0;

/// Status returned when the engine reached the end of the archive or entry.
pub const ARCHIVE_EOF: i32 = 1;

/// Status returned by an engine call that succeeded with a warning.
pub const ARCHIVE_WARN: i32 = -20;

/// Status returned when an engine operation failed but may be retried.
pub const ARCHIVE_RETRY: i32 = -10;

/// Status returned when the current operation failed.
pub const ARCHIVE_FAILED: i32 = -25;

/// Status returned when the engine can no longer be used.
pub const ARCHIVE_FATAL: i32 = -30;

/// Classification of an I/O error.
#[derive(Clone, Copy, Debug, PartialEq, Eq, Structural)]
pub enum IoErrorKind {
    /// The named item does not exist.
    NotFound,
    /// The data is not valid for the operation (such as an unsafe path).
    InvalidData,
    /// The operation is not supported in this mode.
    Unsupported,
    /// The other end of a channel or pipe was closed.
    BrokenPipe,
    /// The input ended before the operation could complete.
    UnexpectedEof,
    /// A write accepted fewer bytes than it was given.
    WriteZero,
    /// An error carrying an operating-system error code.
    Os(i32),
    /// Any other I/O failure.
    Other,
}

/// The errors of every operation of this crate.
#[derive(Debug)]
pub enum Error {
    /// The engine reported a failure, with its diagnostic text.
    Extraction(String),
    /// A failure of the byte source or sink, or one classified as I/O.
    Io(IoErrorKind),
    /// Bytes that are not valid for the active decoder.
    Utf,
    /// The engine could not allocate one of its handles.
    NullArchive,
    /// The engine reported a failure without any diagnostic.
    Unknown,
    /// The worker that ran the blocking operation panicked or was cancelled.
    Join,
}

pub type Result<T> = core::result::Result<T, Error>;

/// True for the statuses that count as success: OK, and WARN, whose entries
/// are still delivered normally.
pub open spec fn is_success_status(status: i32) -> bool {
    status == ARCHIVE_OK || status == ARCHIVE_WARN
}

/// Whether an engine status counts as success.
pub fn status_succeeded(status: i32) -> (r: bool)
    ensures
        r == is_success_status(status),
{
    status == ARCHIVE_OK || status == ARCHIVE_WARN
}

/// What the engine reports about its last failure: its error string, as
/// raw bytes, if it set one, and its error number (0 when unset).
pub struct Diagnostic {
    pub message: Option<Vec<u8>>,
    pub errno: i32,
}

/// The error string of a diagnostic, as bytes.
pub open spec fn reported_message(d: &Diagnostic) -> Option<Seq<u8>> {
    match d.message {
        Some(m) => Some(m@),
        None => None,
    }
}

/// The text that lossy UTF-8 conversion makes of the given bytes.
pub uninterp spec fn lossy_text(b: Seq<u8>) -> Seq<char>;

/// Relies on `String::from_utf8_lossy`: the text depends on the bytes alone,
/// and valid UTF-8 is decoded unchanged.
#[verifier::external_body]
fn text_of_bytes(b: &[u8]) -> (r: String)
    ensures
        r@ == lossy_text(b@),
        valid_utf8(b@) ==> r@ == decode_utf8(b@),
{
    String::from_utf8_lossy(b).into_owned()
}

/// True when `e` is the error that the diagnostic `(message, errno)`
/// stands for: the error string first, then the error number, and
/// `Unknown` when the engine reported neither.
pub open spec fn reports_error(message: Option<Seq<u8>>, errno: i32, e: Error) -> bool {
    match message {
        Some(m) => e is Extraction && e->Extraction_0@ == lossy_text(m),
        None => if errno != 0 {
            e == Error::Io(IoErrorKind::Os(errno))
        } else {
            e is Unknown
        },
    }
}

/// The error that the engine's report of a failure stands for.
pub fn error_from_diagnostic(d: Diagnostic) -> (e: Error)
    ensures
        reports_error(reported_message(&d), d.errno, e),
{
    match d.message {
        Some(m) => Error::Extraction(text_of_bytes(m.as_slice())),
        None => if d.errno != 0 {
            Error::Io(IoErrorKind::Os(d.errno))
        } else {
            Error::Unknown
        },
    }
}

/// The outcome of an engine call from its status: success for OK and WARN,
/// otherwise the error that the engine's diagnostic stands for.
pub fn archive_result(status: i32, d: Diagnostic) -> (r: Result<()>)
    ensures
        r is Ok <==> is_success_status(status),
        r is Err ==> reports_error(reported_message(&d), d.errno, r->Err_0),
{
    if status_succeeded(status) {
        Ok(())
    } else {
        Err(error_from_diagnostic(d))
    }
}

} // verus!
