use vstd::prelude::*;

use crate::error::{Error, Result};

verus! {

/// Mask of the file-type bits of a mode.
pub const S_IFMT: u32 = 0o170000;

/// File type of a regular file.
pub const S_IFREG: u32 = 0o100000;

/// File type of a directory.
pub const S_IFDIR: u32 = 0o040000;

/// File type of a symbolic link.
pub const S_IFLNK: u32 = 0o120000;

/// The file-status record of an archive entry.
#[derive(Clone, Copy, Debug, PartialEq, Eq, Structural)]
pub struct Stat {
    /// File type and permission bits.
    pub mode: u32,
    /// Size in bytes.
    pub size: i64,
    /// Owner's user id.
    pub uid: u32,
    /// Owner's group id.
    pub gid: u32,
    /// Modification time, in seconds since the epoch.
    pub mtime: i64,
}

impl Stat {
    /// The file-type bits of the mode.
    pub fn file_type(&self) -> (r: u32)
        ensures
            r == self.mode & S_IFMT,
    {
        self.mode & S_IFMT
    }

    /// Whether the entry is a regular file.
    pub fn is_file(&self) -> (r: bool)
        ensures
            r == (self.mode & S_IFMT == S_IFREG),
    {
        self.file_type() == S_IFREG
    }

    /// Whether the entry is a directory.
    pub fn is_dir(&self) -> (r: bool)
        ensures
            r == (self.mode & S_IFMT == S_IFDIR),
    {
        self.file_type() == S_IFDIR
    }
}

/// The contents of an archive, yielded in order from the beginning to the end
/// of the archive.
///
/// Each entry, file or directory, has a `StartOfEntry`, zero or more
/// `DataChunk`, and then a corresponding `EndOfEntry` to mark that the entry
/// has been read to completion.
#[derive(Debug)]
pub enum ArchiveContents {
    /// Marks the start of an entry, either a file or a directory.
    StartOfEntry(String, Stat),
    /// A chunk of uncompressed data from the entry. Entries may have zero or
    /// more chunks.
    DataChunk(Vec<u8>),
    /// Marks the end of the entry that was started by the previous
    /// `StartOfEntry`.
    EndOfEntry,
    /// A failure, after which nothing more is yielded.
    Error(Error),
}

/// What the engine gave when asked for the next entry header.
#[derive(Debug)]
pub enum HeaderRead {
    /// An entry, with what the decoder made of its raw name, and its status.
    Entry(Result<String>, Stat),
    /// The end of the archive.
    End,
    /// A failure of the engine.
    Failed(Error),
}

/// What the engine gave when asked for the next data block of an entry.
#[derive(Debug)]
pub enum BlockRead {
    /// A block of the entry's data.
    Chunk(Vec<u8>),
    /// The end of the entry.
    End,
    /// A failure of the engine.
    Failed(Error),
}

/// Where the iterator stands.
#[derive(Clone, Copy, Debug, PartialEq, Eq, Structural)]
pub enum IteratorState {
    /// No entry is open; the next call reads a header.
    Idle,
    /// An entry is open; the next call reads one of its data blocks.
    InEntry,
    /// The end of the archive was reached.
    Ended,
    /// A failure was yielded.
    Errored,
    /// The iterator was closed and its resources released.
    Closed,
}

/// The engine call that the iterator needs next.
#[derive(Clone, Copy, Debug, PartialEq, Eq, Structural)]
pub enum Request {
    /// Advance to the next entry header.
    ReadHeader,
    /// Read the next data block of the current entry.
    ReadBlock,
    /// Nothing more is read.
    Stop,
}

/// What one engine result makes the iterator do.
#[derive(Debug)]
pub enum Step {
    /// Yield this item.
    Emit(ArchiveContents),
    /// Yield nothing for this result and read again (a filtered-out entry).
    Skip,
    /// The sequence is over, with no final item.
    Finished,
}

/// The kind of an item the iterator yielded.
pub enum Event {
    Start,
    Chunk,
    End,
    Error,
}

/// Where a sequence of items stands in the nesting of entries.
pub enum Phase {
    /// Between entries.
    Between,
    /// Inside an entry.
    Inside,
    /// After a failure.
    Failed,
}

/// The phase after one more item, or `None` where the item may not follow:
/// an entry starts between entries, chunks and its end come inside it, and
/// a failure may come anywhere but is never followed by anything.
pub open spec fn next_phase(p: Phase, e: Event) -> Option<Phase> {
    match (p, e) {
        (Phase::Between, Event::Start) => Some(Phase::Inside),
        (Phase::Inside, Event::Chunk) => Some(Phase::Inside),
        (Phase::Inside, Event::End) => Some(Phase::Between),
        (Phase::Between, Event::Error) => Some(Phase::Failed),
        (Phase::Inside, Event::Error) => Some(Phase::Failed),
        _ => None,
    }
}

/// The phase after a sequence of items, or `None` when the sequence is not
/// a run of `Start Chunk* End` groups, possibly with the last group cut
/// short, possibly followed by a single failure.
pub open spec fn phase_after(events: Seq<Event>) -> Option<Phase>
    decreases events.len(),
{
    if events.len() == 0 {
        Some(Phase::Between)
    } else {
        match phase_after(events.drop_last()) {
            Some(p) => next_phase(p, events.last()),
            None => None,
        }
    }
}

/// The phase in which the iterator's state leaves the items yielded so far.
pub open spec fn phase_of(s: IteratorState) -> Phase {
    match s {
        IteratorState::InEntry => Phase::Inside,
        IteratorState::Errored => Phase::Failed,
        _ => Phase::Between,
    }
}

proof fn lemma_phase_after_push(events: Seq<Event>, e: Event)
    ensures
        phase_after(events.push(e)) == match phase_after(events) {
            Some(p) => next_phase(p, e),
            None => None,
        },
{
    assert(events.push(e).drop_last() =~= events);
}

/// The state machine of the entry iterator: it says which engine call comes
/// next, and turns each engine result into the item to yield.
pub struct EntryCursor {
    state: IteratorState,
    emitted: Ghost<Seq<Event>>,
}

impl View for EntryCursor {
    type V = IteratorState;

    closed spec fn view(&self) -> IteratorState {
        self.state
    }
}

impl EntryCursor {
    /// The kinds of the items yielded so far, in order.
    pub closed spec fn emitted(&self) -> Seq<Event> {
        self.emitted@
    }

    /// The items yielded so far are properly nested, and the state agrees
    /// with where they stand.
    pub open spec fn well_formed(&self) -> bool {
        &&& phase_after(self.emitted()) is Some
        &&& self@ != IteratorState::Closed ==> phase_after(self.emitted()) == Some(
            phase_of(self@),
        )
    }

    /// A cursor before the first header.
    pub fn new() -> (r: EntryCursor)
        ensures
            r@ == IteratorState::Idle,
            r.emitted() == Seq::<Event>::empty(),
            r.well_formed(),
    {
        EntryCursor { state: IteratorState::Idle, emitted: Ghost(Seq::empty()) }
    }

    /// The current state.
    pub fn state(&self) -> (r: IteratorState)
        ensures
            r == self@,
    {
        self.state
    }

    /// The engine call to make next: a header while no entry is open, a data
    /// block inside an entry, and nothing once the sequence is over.
    pub fn next_request(&self) -> (r: Request)
        ensures
            r == Request::ReadHeader <==> self@ == IteratorState::Idle,
            r == Request::ReadBlock <==> self@ == IteratorState::InEntry,
            r == Request::Stop <==> !(self@ == IteratorState::Idle || self@
                == IteratorState::InEntry),
    {
        match self.state {
            IteratorState::Idle => Request::ReadHeader,
            IteratorState::InEntry => Request::ReadBlock,
            _ => Request::Stop,
        }
    }

    /// Take the result of advancing to the next header. `keep` is the
    /// entry filter's verdict on the decoded name and status; it is not
    /// consulted for other results. A kept entry is yielded and opened; a
    /// rejected one is skipped silently; the end of the archive ends the
    /// sequence with no item; a failure, of the engine or of the decoder,
    /// is yielded and ends the sequence.
    pub fn on_header(&mut self, read: HeaderRead, keep: bool) -> (r: Step)
        requires
            old(self)@ == IteratorState::Idle,
            old(self).well_formed(),
        ensures
            final(self).well_formed(),
            match read {
                HeaderRead::Entry(Ok(name), stat) => if keep {
                    &&& final(self)@ == IteratorState::InEntry
                    &&& r == Step::Emit(ArchiveContents::StartOfEntry(name, stat))
                    &&& final(self).emitted() == old(self).emitted().push(Event::Start)
                } else {
                    &&& final(self)@ == IteratorState::Idle
                    &&& r is Skip
                    &&& final(self).emitted() == old(self).emitted()
                },
                HeaderRead::Entry(Err(e), _) => {
                    &&& final(self)@ == IteratorState::Errored
                    &&& r == Step::Emit(ArchiveContents::Error(e))
                    &&& final(self).emitted() == old(self).emitted().push(Event::Error)
                },
                HeaderRead::End => {
                    &&& final(self)@ == IteratorState::Ended
                    &&& r is Finished
                    &&& final(self).emitted() == old(self).emitted()
                },
                HeaderRead::Failed(e) => {
                    &&& final(self)@ == IteratorState::Errored
                    &&& r == Step::Emit(ArchiveContents::Error(e))
                    &&& final(self).emitted() == old(self).emitted().push(Event::Error)
                },
            },
    {
        proof {
            lemma_phase_after_push(self.emitted@, Event::Start);
            lemma_phase_after_push(self.emitted@, Event::Error);
        }
        match read {
            HeaderRead::Entry(Ok(name), stat) => {
                if keep {
                    self.state = IteratorState::InEntry;
                    self.emitted = Ghost(self.emitted@.push(Event::Start));
                    Step::Emit(ArchiveContents::StartOfEntry(name, stat))
                } else {
                    Step::Skip
                }
            },
            HeaderRead::Entry(Err(e), _) => {
                self.state = IteratorState::Errored;
                self.emitted = Ghost(self.emitted@.push(Event::Error));
                Step::Emit(ArchiveContents::Error(e))
            },
            HeaderRead::End => {
                self.state = IteratorState::Ended;
                Step::Finished
            },
            HeaderRead::Failed(e) => {
                self.state = IteratorState::Errored;
                self.emitted = Ghost(self.emitted@.push(Event::Error));
                Step::Emit(ArchiveContents::Error(e))
            },
        }
    }

    /// Take the result of reading the next data block of the open entry: a
    /// block is yielded; the end of the entry is yielded and closes it; a
    /// failure is yielded and ends the sequence.
    pub fn on_block(&mut self, read: BlockRead) -> (r: Step)
        requires
            old(self)@ == IteratorState::InEntry,
            old(self).well_formed(),
        ensures
            final(self).well_formed(),
            match read {
                BlockRead::Chunk(data) => {
                    &&& final(self)@ == IteratorState::InEntry
                    &&& r == Step::Emit(ArchiveContents::DataChunk(data))
                    &&& final(self).emitted() == old(self).emitted().push(Event::Chunk)
                },
                BlockRead::End => {
                    &&& final(self)@ == IteratorState::Idle
                    &&& r == Step::Emit(ArchiveContents::EndOfEntry)
                    &&& final(self).emitted() == old(self).emitted().push(Event::End)
                },
                BlockRead::Failed(e) => {
                    &&& final(self)@ == IteratorState::Errored
                    &&& r == Step::Emit(ArchiveContents::Error(e))
                    &&& final(self).emitted() == old(self).emitted().push(Event::Error)
                },
            },
    {
        proof {
            lemma_phase_after_push(self.emitted@, Event::Chunk);
            lemma_phase_after_push(self.emitted@, Event::End);
            lemma_phase_after_push(self.emitted@, Event::Error);
        }
        match read {
            BlockRead::Chunk(data) => {
                self.emitted = Ghost(self.emitted@.push(Event::Chunk));
                Step::Emit(ArchiveContents::DataChunk(data))
            },
            BlockRead::End => {
                self.state = IteratorState::Idle;
                self.emitted = Ghost(self.emitted@.push(Event::End));
                Step::Emit(ArchiveContents::EndOfEntry)
            },
            BlockRead::Failed(e) => {
                self.state = IteratorState::Errored;
                self.emitted = Ghost(self.emitted@.push(Event::Error));
                Step::Emit(ArchiveContents::Error(e))
            },
        }
    }

    /// Mark the iterator closed. Returns true exactly the first time, when
    /// the engine's resources must be released; later calls are no-ops.
    pub fn close(&mut self) -> (first: bool)
        requires
            old(self).well_formed(),
        ensures
            first == (old(self)@ != IteratorState::Closed),
            final(self)@ == IteratorState::Closed,
            final(self).emitted() == old(self).emitted(),
            final(self).well_formed(),
    {
        let first = match self.state {
            IteratorState::Closed => false,
            _ => true,
        };
        self.state = IteratorState::Closed;
        first
    }
}

/// Whatever engine results an iterator is fed, the items it yields are a
/// run of entries, each a `StartOfEntry`, its `DataChunk`s and an
/// `EndOfEntry`, the last possibly still open; a failure, if any, is the
/// last item; and an entry is open exactly while the state is `InEntry`.
pub proof fn lemma_contents_are_nested(c: &EntryCursor)
    requires
        c.well_formed(),
    ensures
        phase_after(c.emitted()) is Some,
        c@ == IteratorState::InEntry ==> phase_after(c.emitted()) == Some(Phase::Inside),
        c@ == IteratorState::Idle || c@ == IteratorState::Ended ==> phase_after(c.emitted())
            == Some(Phase::Between),
        forall|e: Event|
            phase_after(c.emitted()) == Some(Phase::Failed) ==> #[trigger] phase_after(
                c.emitted().push(e),
            ) is None,
{
    assert forall|e: Event|
        phase_after(c.emitted()) == Some(Phase::Failed) implies #[trigger] phase_after(
        c.emitted().push(e),
    ) is None by {
        lemma_phase_after_push(c.emitted(), e);
    }
}

} // verus!
