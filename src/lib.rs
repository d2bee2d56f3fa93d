//! Streaming extraction, listing and iteration over archives and compressed
//! streams read by a native, callback-driven archive engine.
//!
//! This crate holds the decisions of that bridge, each with its contract:
//! how an entry path is made safe to write under a destination root, how
//! entry names are decoded, how the engine's status codes become errors, how
//! a session is configured and torn down, the entry iterator's state machine,
//! the replies of the read and seek callbacks, and the choices of the
//! asynchronous byte pumps. The code that calls the engine drives these
//! functions: it makes the call each one asks for and hands back the result.
pub mod bridge;
pub mod decode;
pub mod error;
pub mod iterator;
pub mod ops;
pub mod path;
pub mod pump;
pub mod session;

pub use bridge::{
    fill_buffer, read_reply, reported_errno, seek_reply, seek_target, SeekTarget,
    READER_BUFFER_SIZE, SEEK_CUR, SEEK_END, SEEK_SET,
};
pub use decode::decode_utf8;
pub use error::{
    archive_result, error_from_diagnostic, status_succeeded, Diagnostic, Error, IoErrorKind,
    Result, ARCHIVE_EOF, ARCHIVE_FAILED, ARCHIVE_FATAL, ARCHIVE_OK, ARCHIVE_RETRY, ARCHIVE_WARN,
};
pub use iterator::{
    ArchiveContents, BlockRead, EntryCursor, HeaderRead, IteratorState, Request, Stat, Step,
    S_IFDIR, S_IFLNK, S_IFMT, S_IFREG,
};
pub use ops::{
    classify_read, extract_step, find_step, EntryTargets, ExtractStep, FindStep, Listed, Listing,
    ReadStatus,
};
pub use path::{
    contains_parent_component, entry_destination, join_path, sanitize_destination_path, SEPARATOR,
};
pub use pump::{
    deliver_chunk, join_read, join_read_write, seek_unsupported, sink_action,
    source_pump_continues, SinkAction,
};
pub use session::{
    check_handles, finish_session, needs_writer, open_plan, teardown_plan, writer_flags, OpenStep,
    Ownership, SessionMode, TeardownStep, ARCHIVE_EXTRACT_ACL, ARCHIVE_EXTRACT_FFLAGS,
    ARCHIVE_EXTRACT_OWNER, ARCHIVE_EXTRACT_PERM, ARCHIVE_EXTRACT_TIME, ARCHIVE_EXTRACT_XATTR,
};
