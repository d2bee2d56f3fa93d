use vstd::prelude::*;

use crate::error::{
    archive_result, is_success_status, reports_error, reported_message, Diagnostic, Error,
    IoErrorKind, Result, ARCHIVE_EOF,
};
use crate::iterator::HeaderRead;
use crate::path::{
    entry_destination, has_parent_component, joined, lemma_destination_stays_under_root, strip_root,
    SEPARATOR,
};

verus! {

/// How an engine read (of a header or of a data block) turned out.
#[derive(Debug)]
pub enum ReadStatus {
    /// The read delivered a header or a block (OK, or WARN).
    Delivered,
    /// The end of the archive or of the entry.
    End,
    /// The read failed.
    Failed(Error),
}

/// Classify the status of a header or data-block read: EOF ends, OK and WARN
/// deliver, and anything else fails with the error the engine reported.
pub fn classify_read(status: i32, d: Diagnostic) -> (r: ReadStatus)
    ensures
        status == ARCHIVE_EOF ==> r is End,
        is_success_status(status) ==> r is Delivered,
        status != ARCHIVE_EOF && !is_success_status(status) ==> r is Failed && reports_error(
            reported_message(&d),
            d.errno,
            r->Failed_0,
        ),
{
    if status == ARCHIVE_EOF {
        return ReadStatus::End;
    }
    match archive_result(status, d) {
        Ok(()) => ReadStatus::Delivered,
        Err(e) => ReadStatus::Failed(e),
    }
}

/// The names of an archive's entries, collected header by header.
pub struct Listing {
    names: Vec<String>,
}

/// What a listing does after one header.
pub enum Listed {
    /// Read the next header.
    More(Listing),
    /// The listing is over, with this outcome.
    Done(Result<Vec<String>>),
}

impl Listing {
    /// The names collected so far, in the order of the archive.
    pub closed spec fn names(&self) -> Seq<String> {
        self.names@
    }

    /// A listing before the first header.
    pub fn new() -> (r: Listing)
        ensures
            r.names() == Seq::<String>::empty(),
    {
        Listing { names: Vec::new() }
    }

    /// Take the next header: a decoded name is appended, in archive order;
    /// the end of the archive returns every name; a failure of the engine or
    /// of the decoder ends the listing with that error.
    pub fn on_header(self, read: HeaderRead) -> (r: Listed)
        ensures
            match read {
                HeaderRead::Entry(Ok(name), _) => r is More && r->More_0.names()
                    == self.names().push(name),
                HeaderRead::Entry(Err(e), _) => r == Listed::Done(Err(e)),
                HeaderRead::End => r is Done && r->Done_0 is Ok && r->Done_0->Ok_0@
                    == self.names(),
                HeaderRead::Failed(e) => r == Listed::Done(Err(e)),
            },
    {
        let mut names = self.names;
        match read {
            HeaderRead::Entry(Ok(name), _) => {
                names.push(name);
                Listed::More(Listing { names })
            },
            HeaderRead::Entry(Err(e), _) => Listed::Done(Err(e)),
            HeaderRead::End => Listed::Done(Ok(names)),
            HeaderRead::Failed(e) => Listed::Done(Err(e)),
        }
    }
}

/// What the search for one named entry does after a header.
#[derive(Debug)]
pub enum FindStep {
    /// This is the entry: copy its data.
    Found,
    /// Read the next header.
    Continue,
    /// The search failed.
    Failed(Error),
}

/// Take the next header while looking for the entry named `path`: the entry
/// whose decoded name equals `path` is found; reaching the end of the
/// archive fails with `NotFound`; a failure of the engine or of the decoder
/// ends the search with that error.
pub fn find_step(read: HeaderRead, path: &String) -> (r: FindStep)
    ensures
        match read {
            HeaderRead::Entry(Ok(name), _) => if name@ == path@ {
                r is Found
            } else {
                r is Continue
            },
            HeaderRead::Entry(Err(e), _) => r == FindStep::Failed(e),
            HeaderRead::End => r == FindStep::Failed(Error::Io(IoErrorKind::NotFound)),
            HeaderRead::Failed(e) => r == FindStep::Failed(e),
        },
{
    match read {
        HeaderRead::Entry(Ok(name), _) => {
            if name == *path {
                FindStep::Found
            } else {
                FindStep::Continue
            }
        },
        HeaderRead::Entry(Err(e), _) => FindStep::Failed(e),
        HeaderRead::End => FindStep::Failed(Error::Io(IoErrorKind::NotFound)),
        HeaderRead::Failed(e) => FindStep::Failed(e),
    }
}

/// Where an entry is written on disk.
#[derive(Debug)]
pub struct EntryTargets {
    /// The entry's own path.
    pub path: String,
    /// The path its hard link points to, for a hard-link entry.
    pub hardlink: Option<String>,
}

/// What extraction to a directory does after a header.
#[derive(Debug)]
pub enum ExtractStep {
    /// Write the entry to these paths, then read the next header.
    Write(EntryTargets),
    /// The extraction is over, with this outcome.
    Done(Result<()>),
}

/// True when `target`, a path under `dest`, is where the (decoded) entry
/// path `p` is written.
pub open spec fn writes_at(dest: Seq<char>, p: Seq<char>, target: Seq<char>) -> bool {
    !has_parent_component(strip_root(p)) && target == joined(dest, strip_root(p))
}

/// Take the next header while extracting under the directory `dest`.
/// `link` is what the decoder made of the entry's hard-link target, if it
/// has one. Both paths are sanitized before anything is written: an entry
/// whose name or link holds a `..` component fails the extraction with
/// `InvalidData`, and absolute paths are placed under `dest`. The end of the
/// archive completes the extraction; a failure of the engine or of the
/// decoder ends it with that error.
pub fn extract_step(dest: &str, read: HeaderRead, link: Option<Result<String>>) -> (r:
    ExtractStep)
    ensures
        match read {
            HeaderRead::End => r == ExtractStep::Done(Ok(())),
            HeaderRead::Failed(e) => r == ExtractStep::Done(Err(e)),
            HeaderRead::Entry(Err(e), _) => r == ExtractStep::Done(Err(e)),
            HeaderRead::Entry(Ok(name), _) => if has_parent_component(strip_root(name@)) {
                r == ExtractStep::Done(Err(Error::Io(IoErrorKind::InvalidData)))
            } else {
                match link {
                    None => r is Write && writes_at(dest@, name@, r->Write_0.path@)
                        && r->Write_0.hardlink is None,
                    Some(Err(e)) => r == ExtractStep::Done(Err(e)),
                    Some(Ok(l)) => if has_parent_component(strip_root(l@)) {
                        r == ExtractStep::Done(Err(Error::Io(IoErrorKind::InvalidData)))
                    } else {
                        &&& r is Write
                        &&& writes_at(dest@, name@, r->Write_0.path@)
                        &&& r->Write_0.hardlink is Some
                        &&& writes_at(dest@, l@, r->Write_0.hardlink->Some_0@)
                    },
                }
            },
        },
{
    match read {
        HeaderRead::End => ExtractStep::Done(Ok(())),
        HeaderRead::Failed(e) => ExtractStep::Done(Err(e)),
        HeaderRead::Entry(Err(e), _) => ExtractStep::Done(Err(e)),
        HeaderRead::Entry(Ok(name), _) => {
            let path = match entry_destination(dest, name.as_str()) {
                Ok(p) => p,
                Err(e) => {
                    return ExtractStep::Done(Err(e));
                },
            };
            match link {
                None => ExtractStep::Write(EntryTargets { path, hardlink: None }),
                Some(Err(e)) => ExtractStep::Done(Err(e)),
                Some(Ok(l)) => match entry_destination(dest, l.as_str()) {
                    Ok(h) => ExtractStep::Write(EntryTargets { path, hardlink: Some(h) }),
                    Err(e) => ExtractStep::Done(Err(e)),
                },
            }
        },
    }
}

/// How many separator characters are put between a destination root and
/// the entry paths under it.
pub open spec fn separator_len(dest: Seq<char>) -> int {
    if dest.len() == 0 || dest.last() == SEPARATOR {
        0
    } else {
        1
    }
}

/// Extracting the same entry into two destination roots writes it at the
/// same place relative to each root, so two extractions of one archive lay
/// out identical trees.
pub proof fn lemma_same_tree_under_any_root(
    first_root: Seq<char>,
    second_root: Seq<char>,
    name: Seq<char>,
    first_target: Seq<char>,
    second_target: Seq<char>,
)
    requires
        writes_at(first_root, name, first_target),
        writes_at(second_root, name, second_target),
    ensures
        first_target.subrange(0, first_root.len() as int) == first_root,
        second_target.subrange(0, second_root.len() as int) == second_root,
        first_target.skip(first_root.len() + separator_len(first_root)) == second_target.skip(
            second_root.len() + separator_len(second_root),
        ),
{
    lemma_destination_stays_under_root(first_root, name);
    lemma_destination_stays_under_root(second_root, name);
}

} // verus!
