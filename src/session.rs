use vstd::prelude::*;

use crate::error::{Error, Result};

verus! {

/// Determine the ownership behavior when unpacking the archive.
#[derive(Clone, Copy, Debug, PartialEq, Eq, Structural)]
pub enum Ownership {
    /// Preserve the ownership of the files when uncompressing the archive.
    Preserve,
    /// Ignore the ownership information of the files when uncompressing the
    /// archive.
    Ignore,
}

/// Disk-writer option: restore the owner of each file.
pub const ARCHIVE_EXTRACT_OWNER: i32 = 0x0001;

/// Disk-writer option: restore permissions.
pub const ARCHIVE_EXTRACT_PERM: i32 = 0x0002;

/// Disk-writer option: restore modification times.
pub const ARCHIVE_EXTRACT_TIME: i32 = 0x0004;

/// Disk-writer option: restore access control lists.
pub const ARCHIVE_EXTRACT_ACL: i32 = 0x0020;

/// Disk-writer option: restore file flags.
pub const ARCHIVE_EXTRACT_FFLAGS: i32 = 0x0040;

/// Disk-writer option: restore extended attributes.
pub const ARCHIVE_EXTRACT_XATTR: i32 = 0x0080;

/// The options every extraction asks of the disk writer: times, permissions,
/// ACLs, file flags and extended attributes.
pub open spec fn base_extract_flags() -> i32 {
    ARCHIVE_EXTRACT_TIME | ARCHIVE_EXTRACT_PERM | ARCHIVE_EXTRACT_ACL | ARCHIVE_EXTRACT_FFLAGS
        | ARCHIVE_EXTRACT_XATTR
}

/// The disk-writer options for an ownership policy: ownership is restored
/// only under `Preserve`.
pub open spec fn extract_flags(ownership: Ownership) -> i32 {
    match ownership {
        Ownership::Preserve => base_extract_flags() | ARCHIVE_EXTRACT_OWNER,
        Ownership::Ignore => base_extract_flags(),
    }
}

/// The options handed to the disk writer for the given ownership policy.
pub fn writer_flags(ownership: Ownership) -> (r: i32)
    ensures
        r == extract_flags(ownership),
{
    let flags = ARCHIVE_EXTRACT_TIME | ARCHIVE_EXTRACT_PERM | ARCHIVE_EXTRACT_ACL
        | ARCHIVE_EXTRACT_FFLAGS | ARCHIVE_EXTRACT_XATTR;
    match ownership {
        Ownership::Preserve => flags | ARCHIVE_EXTRACT_OWNER,
        Ownership::Ignore => flags,
    }
}

/// The two policies ask for the same options but for ownership, which only
/// `Preserve` asks for.
pub proof fn lemma_ownership_only_changes_owner_bit()
    ensures
        extract_flags(Ownership::Preserve) == extract_flags(Ownership::Ignore)
            | ARCHIVE_EXTRACT_OWNER,
        extract_flags(Ownership::Ignore) & ARCHIVE_EXTRACT_OWNER == 0,
        extract_flags(Ownership::Preserve) & ARCHIVE_EXTRACT_OWNER == ARCHIVE_EXTRACT_OWNER,
{
    assert(0x0004i32 | 0x0002i32 | 0x0020i32 | 0x0040i32 | 0x0080i32 == 0x00e6i32)
        by (bit_vector);
    assert(0x00e6i32 & 0x0001i32 == 0) by (bit_vector);
    assert((0x00e6i32 | 0x0001i32) & 0x0001i32 == 0x0001i32) by (bit_vector);
}

/// What one session reads, and where it writes.
#[derive(Clone, Copy, Debug, PartialEq, Eq, Structural)]
pub enum SessionMode {
    /// Decompress a single raw stream from a forward-only source.
    RawStream,
    /// Read archive containers of every supported format from a seekable
    /// source (listing, extracting one entry, iterating).
    AllFormats,
    /// Read archives and write their entries to disk under the given
    /// ownership policy.
    WriteToDisk(Ownership),
}

/// True when the mode reads archive containers, which may need random
/// access to the source.
pub open spec fn reads_containers(mode: SessionMode) -> bool {
    mode != SessionMode::RawStream
}

/// True when the mode owns a disk-writer handle.
pub open spec fn writes_to_disk(mode: SessionMode) -> bool {
    mode is WriteToDisk
}

/// One configuration call made on the engine while a session opens.
#[derive(Clone, Copy, Debug, PartialEq, Eq, Structural)]
pub enum OpenStep {
    /// Enable automatic detection of every compression filter.
    SupportFilterAll,
    /// Accept a raw, single-member stream.
    SupportFormatRaw,
    /// Register the seek callback, for sources with random access.
    SetSeekCallback,
    /// Configure the disk writer with these options.
    SetWriteOptions(i32),
    /// Let the disk writer look user and group names up.
    SetStandardLookup,
    /// Accept every archive container format.
    SupportFormatAll,
    /// Open the reader over the read callback.
    OpenReader,
}

/// The configuration calls that open a session in the given mode, in order.
pub open spec fn open_steps(mode: SessionMode) -> Seq<OpenStep> {
    match mode {
        SessionMode::RawStream => seq![
            OpenStep::SupportFilterAll,
            OpenStep::SupportFormatRaw,
            OpenStep::OpenReader,
        ],
        SessionMode::AllFormats => seq![
            OpenStep::SupportFilterAll,
            OpenStep::SupportFormatRaw,
            OpenStep::SetSeekCallback,
            OpenStep::SupportFormatAll,
            OpenStep::OpenReader,
        ],
        SessionMode::WriteToDisk(ownership) => seq![
            OpenStep::SupportFilterAll,
            OpenStep::SupportFormatRaw,
            OpenStep::SetSeekCallback,
            OpenStep::SetWriteOptions(extract_flags(ownership)),
            OpenStep::SetStandardLookup,
            OpenStep::SupportFormatAll,
            OpenStep::OpenReader,
        ],
    }
}

/// The configuration calls to make, in order, to open a session in `mode`.
/// The caller stops at the first call whose status is not a success.
pub fn open_plan(mode: SessionMode) -> (r: Vec<OpenStep>)
    ensures
        r@ == open_steps(mode),
{
    let mut steps: Vec<OpenStep> = Vec::new();
    steps.push(OpenStep::SupportFilterAll);
    steps.push(OpenStep::SupportFormatRaw);
    match mode {
        SessionMode::RawStream => {},
        SessionMode::AllFormats => {
            steps.push(OpenStep::SetSeekCallback);
            steps.push(OpenStep::SupportFormatAll);
        },
        SessionMode::WriteToDisk(ownership) => {
            steps.push(OpenStep::SetSeekCallback);
            steps.push(OpenStep::SetWriteOptions(writer_flags(ownership)));
            steps.push(OpenStep::SetStandardLookup);
            steps.push(OpenStep::SupportFormatAll);
        },
    }
    steps.push(OpenStep::OpenReader);
    proof {
        assert(steps@ =~= open_steps(mode));
    }
    steps
}

/// Every session enables filter detection first and opens the reader last;
/// the seek callback and the container formats are enabled exactly in the
/// modes that read containers, and the disk writer is configured exactly in
/// the extraction mode.
pub proof fn lemma_open_plan_shape(mode: SessionMode)
    ensures
        open_steps(mode)[0] == OpenStep::SupportFilterAll,
        open_steps(mode).last() == OpenStep::OpenReader,
        open_steps(mode).contains(OpenStep::SetSeekCallback) <==> reads_containers(mode),
        open_steps(mode).contains(OpenStep::SupportFormatAll) <==> reads_containers(mode),
        (exists|f: i32| #[trigger] open_steps(mode).contains(OpenStep::SetWriteOptions(f)))
            <==> writes_to_disk(mode),
        forall|o: Ownership|
            mode == SessionMode::WriteToDisk(o) ==> open_steps(mode).contains(
                OpenStep::SetWriteOptions(extract_flags(o)),
            ),
{
    let s = open_steps(mode);
    match mode {
        SessionMode::RawStream => {
            assert(!s.contains(OpenStep::SetSeekCallback));
            assert(!s.contains(OpenStep::SupportFormatAll));
            assert forall|f: i32| !#[trigger] s.contains(OpenStep::SetWriteOptions(f)) by {
                assert forall|k: int| 0 <= k < s.len() implies s[k] != OpenStep::SetWriteOptions(
                    f,
                ) by {}
            }
        },
        SessionMode::AllFormats => {
            assert(s[2] == OpenStep::SetSeekCallback);
            assert(s[3] == OpenStep::SupportFormatAll);
            assert forall|f: i32| !#[trigger] s.contains(OpenStep::SetWriteOptions(f)) by {
                assert forall|k: int| 0 <= k < s.len() implies s[k] != OpenStep::SetWriteOptions(
                    f,
                ) by {}
            }
        },
        SessionMode::WriteToDisk(o) => {
            assert(s[2] == OpenStep::SetSeekCallback);
            assert(s[5] == OpenStep::SupportFormatAll);
            assert(s[3] == OpenStep::SetWriteOptions(extract_flags(o)));
            assert(s.contains(OpenStep::SetWriteOptions(extract_flags(o))));
        },
    }
}

/// Whether a session in this mode allocates a disk-writer handle.
pub fn needs_writer(mode: SessionMode) -> (r: bool)
    ensures
        r == writes_to_disk(mode),
{
    match mode {
        SessionMode::WriteToDisk(_) => true,
        _ => false,
    }
}

/// Check the handles the engine allocated for a session: the reader always,
/// the disk writer only in the extraction mode.
pub fn check_handles(mode: SessionMode, reader_allocated: bool, writer_allocated: bool) -> (r:
    Result<()>)
    ensures
        r is Ok <==> (reader_allocated && (writes_to_disk(mode) ==> writer_allocated)),
        r is Err ==> r->Err_0 is NullArchive,
{
    if !reader_allocated || (needs_writer(mode) && !writer_allocated) {
        Err(Error::NullArchive)
    } else {
        Ok(())
    }
}

/// One release call made on the engine while a session closes.
#[derive(Clone, Copy, Debug, PartialEq, Eq, Structural)]
pub enum TeardownStep {
    CloseReader,
    FreeReader,
    CloseWriter,
    FreeWriter,
}

/// The release calls that close a session in the given mode: close, then
/// free, for the reader and, in the extraction mode, the disk writer; a
/// handle that was never allocated is not released.
pub open spec fn teardown_steps(
    mode: SessionMode,
    reader_allocated: bool,
    writer_allocated: bool,
) -> Seq<TeardownStep> {
    let reader = if reader_allocated {
        seq![TeardownStep::CloseReader, TeardownStep::FreeReader]
    } else {
        Seq::empty()
    };
    let writer = if writes_to_disk(mode) && writer_allocated {
        seq![TeardownStep::CloseWriter, TeardownStep::FreeWriter]
    } else {
        Seq::empty()
    };
    reader + writer
}

/// The release calls to make, all of them and in order, to close a session
/// in `mode`, whatever the outcome of its body.
pub fn teardown_plan(mode: SessionMode, reader_allocated: bool, writer_allocated: bool) -> (r: Vec<
    TeardownStep,
>)
    ensures
        r@ == teardown_steps(mode, reader_allocated, writer_allocated),
{
    let mut steps: Vec<TeardownStep> = Vec::new();
    if reader_allocated {
        steps.push(TeardownStep::CloseReader);
        steps.push(TeardownStep::FreeReader);
    }
    if needs_writer(mode) && writer_allocated {
        steps.push(TeardownStep::CloseWriter);
        steps.push(TeardownStep::FreeWriter);
    }
    proof {
        assert(steps@ =~= teardown_steps(mode, reader_allocated, writer_allocated));
    }
    steps
}

/// Each allocated handle is closed before it is freed, and released once.
pub proof fn lemma_teardown_releases_once(
    mode: SessionMode,
    reader_allocated: bool,
    writer_allocated: bool,
)
    ensures
        ({
            let s = teardown_steps(mode, reader_allocated, writer_allocated);
            &&& s.contains(TeardownStep::FreeReader) <==> reader_allocated
            &&& s.contains(TeardownStep::FreeWriter) <==> (writes_to_disk(mode)
                && writer_allocated)
            &&& forall|i: int, j: int|
                0 <= i < j < s.len() ==> #[trigger] s[i] != #[trigger] s[j]
            &&& forall|j: int|
                0 <= j < s.len() && #[trigger] s[j] == TeardownStep::FreeReader ==> j > 0 && s[j - 1]
                    == TeardownStep::CloseReader
            &&& forall|j: int|
                0 <= j < s.len() && #[trigger] s[j] == TeardownStep::FreeWriter ==> j > 0 && s[j - 1]
                    == TeardownStep::CloseWriter
        }),
{
    let s = teardown_steps(mode, reader_allocated, writer_allocated);
    let w = writes_to_disk(mode) && writer_allocated;
    if reader_allocated && w {
        assert(s =~= seq![
            TeardownStep::CloseReader,
            TeardownStep::FreeReader,
            TeardownStep::CloseWriter,
            TeardownStep::FreeWriter,
        ]);
        assert(s[1] == TeardownStep::FreeReader);
        assert(s[3] == TeardownStep::FreeWriter);
    } else if reader_allocated {
        assert(s =~= seq![TeardownStep::CloseReader, TeardownStep::FreeReader]);
        assert(s[1] == TeardownStep::FreeReader);
    } else if w {
        assert(s =~= seq![TeardownStep::CloseWriter, TeardownStep::FreeWriter]);
        assert(s[1] == TeardownStep::FreeWriter);
    } else {
        assert(s =~= Seq::<TeardownStep>::empty());
    }
}

/// True when `i` is the position of the first failure among `results`.
pub open spec fn is_first_failure(results: Seq<Result<()>>, i: int) -> bool {
    &&& 0 <= i < results.len()
    &&& results[i] is Err
    &&& forall|j: int| 0 <= j < i ==> results[j] is Ok
}

/// The outcome of a whole session from the outcome of its body and of its
/// release calls. A failure of the body wins; when the body succeeded, the
/// first failed release call is surfaced; otherwise the body's value is
/// returned.
pub fn finish_session<T>(body: Result<T>, releases: Vec<Result<()>>) -> (r: Result<T>)
    ensures
        body is Err ==> r == body,
        body is Ok && (forall|j: int| 0 <= j < releases@.len() ==> releases@[j] is Ok) ==> r
            == body,
        forall|i: int|
            body is Ok && is_first_failure(releases@, i) ==> r == Err::<T, Error>(
                releases@[i]->Err_0,
            ),
{
    if body.is_err() {
        return body;
    }
    let mut teardown = releases;
    let ghost all = teardown@;
    let mut i: usize = 0;
    while i < teardown.len()
        invariant
            teardown@ == all,
            all == releases@,
            body is Ok,
            i <= all.len(),
            forall|j: int| 0 <= j < i ==> all[j] is Ok,
        decreases all.len() - i,
    {
        if teardown[i].is_err() {
            let failed = teardown.remove(i);
            proof {
                assert forall|k: int| is_first_failure(all, k) implies k == i by {
                    if k < i {
                    } else if k > i {
                        assert(all[i as int] is Ok);
                    }
                }
            }
            return match failed {
                Ok(()) => body,
                Err(e) => Err(e),
            };
        }
        i = i + 1;
    }
    body
}

} // verus!
