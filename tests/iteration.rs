use compress_tools::{
    decode_utf8, find_step, ArchiveContents, BlockRead, EntryCursor, Error, FindStep, HeaderRead,
    IoErrorKind, IteratorState, Listed, Listing, Request, Stat, Step, S_IFDIR, S_IFREG,
};

/// One archive entry as an engine would deliver it: raw name, status and
/// data blocks.
struct Member {
    name: Vec<u8>,
    stat: Stat,
    blocks: Vec<Vec<u8>>,
}

fn dir(name: &str) -> Member {
    Member {
        name: name.as_bytes().to_vec(),
        stat: Stat { mode: S_IFDIR | 0o755, size: 0, uid: 0, gid: 0, mtime: 0 },
        blocks: vec![],
    }
}

fn file(name: &str, blocks: Vec<&[u8]>) -> Member {
    let size: usize = blocks.iter().map(|b| b.len()).sum();
    Member {
        name: name.as_bytes().to_vec(),
        stat: Stat { mode: S_IFREG | 0o644, size: size as i64, uid: 0, gid: 0, mtime: 0 },
        blocks: blocks.into_iter().map(|b| b.to_vec()).collect(),
    }
}

fn tree() -> Vec<Member> {
    vec![
        dir("tree/"),
        dir("tree/branch1/"),
        file("tree/branch1/leaf", vec![b"Hello World\n"]),
        dir("tree/branch2/"),
        file("tree/branch2/leaf", vec![b"Goodbye ", b"World\n"]),
    ]
}

/// Drive a cursor over the members, the way the engine-facing iterator
/// does, and collect what it yields. `fail_after_headers` makes the engine
/// fail on that header read instead of delivering it.
fn iterate(
    members: &[Member],
    decode: fn(&[u8]) -> Result<String, Error>,
    filter: &dyn Fn(&str, &Stat) -> bool,
    fail_after_headers: Option<usize>,
) -> Vec<ArchiveContents> {
    let mut cursor = EntryCursor::new();
    let mut out = Vec::new();
    let mut header = 0;
    let mut block = 0;
    loop {
        let step = match cursor.next_request() {
            Request::ReadHeader => {
                let read = if fail_after_headers == Some(header) {
                    HeaderRead::Failed(Error::Unknown)
                } else if header < members.len() {
                    let m = &members[header];
                    HeaderRead::Entry(decode(&m.name), m.stat)
                } else {
                    HeaderRead::End
                };
                let keep = match &read {
                    HeaderRead::Entry(Ok(name), stat) => filter(name, stat),
                    _ => true,
                };
                header += 1;
                block = 0;
                cursor.on_header(read, keep)
            }
            Request::ReadBlock => {
                let m = &members[header - 1];
                let read = if block < m.blocks.len() {
                    BlockRead::Chunk(m.blocks[block].clone())
                } else {
                    BlockRead::End
                };
                block += 1;
                cursor.on_block(read)
            }
            Request::Stop => break,
        };
        match step {
            Step::Emit(item) => out.push(item),
            Step::Skip => {}
            Step::Finished => break,
        }
    }
    assert!(cursor.close());
    assert!(!cursor.close());
    assert_eq!(cursor.state(), IteratorState::Closed);
    assert_eq!(cursor.next_request(), Request::Stop);
    out
}

fn accept_all(_: &str, _: &Stat) -> bool {
    true
}

fn summarize(items: &[ArchiveContents]) -> Vec<(String, usize)> {
    let mut results = Vec::new();
    let mut name = String::new();
    let mut size = 0;
    for item in items {
        match item {
            ArchiveContents::StartOfEntry(n, _) => {
                assert!(name.is_empty());
                assert_eq!(size, 0);
                name = n.clone();
            }
            ArchiveContents::DataChunk(d) => {
                assert!(!name.is_empty());
                size += d.len();
            }
            ArchiveContents::EndOfEntry => {
                results.push((std::mem::take(&mut name), size));
                size = 0;
            }
            ArchiveContents::Error(e) => panic!("{:?}", e),
        }
    }
    assert!(name.is_empty());
    results
}

fn started_names(items: &[ArchiveContents]) -> Vec<String> {
    items
        .iter()
        .filter_map(|i| match i {
            ArchiveContents::StartOfEntry(n, _) => Some(n.clone()),
            _ => None,
        })
        .collect()
}

#[test]
fn iteration_nests_chunks_in_entries() {
    let items = iterate(&tree(), decode_utf8, &accept_all, None);
    let expected: Vec<(String, usize)> = vec![
        ("tree/", 0),
        ("tree/branch1/", 0),
        ("tree/branch1/leaf", 12),
        ("tree/branch2/", 0),
        ("tree/branch2/leaf", 14),
    ]
    .into_iter()
    .map(|(a, b)| (a.to_string(), b))
    .collect();
    assert_eq!(summarize(&items), expected);
}

#[test]
fn chunk_total_equals_stat_size() {
    let members = tree();
    let items = iterate(&members, decode_utf8, &accept_all, None);
    let mut current = 0i64;
    let mut expected = 0i64;
    for item in &items {
        match item {
            ArchiveContents::StartOfEntry(_, stat) => {
                expected = stat.size;
                current = 0;
            }
            ArchiveContents::DataChunk(d) => current += d.len() as i64,
            ArchiveContents::EndOfEntry => assert_eq!(current, expected),
            ArchiveContents::Error(e) => panic!("{:?}", e),
        }
    }
}

#[test]
fn single_member_stream_round_trips() {
    let members = vec![file("data", vec![b"some_file_", b"content\n"])];
    let items = iterate(&members, decode_utf8, &accept_all, None);
    let mut content = Vec::new();
    for item in &items {
        if let ArchiveContents::DataChunk(d) = item {
            content.extend_from_slice(d);
        }
    }
    assert_eq!(String::from_utf8_lossy(&content), "some_file_content\n");
    assert_eq!(content.len(), 18);
}

#[test]
fn filter_by_file_name() {
    let filter =
        |name: &str, _: &Stat| std::path::Path::new(name).file_name().map_or(false, |f| f == "leaf");
    let items = iterate(&tree(), decode_utf8, &filter, None);
    assert_eq!(
        started_names(&items),
        vec!["tree/branch1/leaf".to_string(), "tree/branch2/leaf".to_string()]
    );
    assert_eq!(summarize(&items).len(), 2);
}

#[test]
fn filter_by_type() {
    let filter = |_: &str, stat: &Stat| stat.is_file();
    let items = iterate(&tree(), decode_utf8, &filter, None);
    assert_eq!(
        started_names(&items),
        vec!["tree/branch1/leaf".to_string(), "tree/branch2/leaf".to_string()]
    );
}

#[test]
fn filter_by_path_prefix() {
    let filter = |name: &str, _: &Stat| name.starts_with("tree/branch2/");
    let items = iterate(&tree(), decode_utf8, &filter, None);
    assert_eq!(
        started_names(&items),
        vec!["tree/branch2/".to_string(), "tree/branch2/leaf".to_string()]
    );
}

#[test]
fn engine_failure_is_the_last_item() {
    let items = iterate(&tree(), decode_utf8, &accept_all, Some(2));
    assert_eq!(items.len(), 5);
    assert!(matches!(items.last(), Some(ArchiveContents::Error(Error::Unknown))));
}

#[test]
fn decoder_failure_is_yielded() {
    fn broken(_: &[u8]) -> Result<String, Error> {
        Err(Error::Io(IoErrorKind::BrokenPipe))
    }
    let items = iterate(&tree(), broken, &accept_all, None);
    assert_eq!(items.len(), 1);
    assert!(matches!(items[0], ArchiveContents::Error(Error::Io(IoErrorKind::BrokenPipe))));
}

/// A decoder for the few GBK characters the tests use.
fn decode_gbk(bytes: &[u8]) -> Result<String, Error> {
    let mut out = String::new();
    let mut i = 0;
    while i < bytes.len() {
        if bytes[i] < 0x80 {
            out.push(bytes[i] as char);
            i += 1;
            continue;
        }
        if i + 1 >= bytes.len() {
            return Err(Error::Utf);
        }
        let c = match (bytes[i], bytes[i + 1]) {
            (0xd6, 0xd0) => '中',
            (0xce, 0xc4) => '文',
            (0xbc, 0xfe) => '件',
            _ => return Err(Error::Utf),
        };
        out.push(c);
        i += 2;
    }
    Ok(out)
}

fn gbk_members() -> Vec<Member> {
    vec![
        Member {
            name: vec![0xd6, 0xd0, 0xce, 0xc4, b'/'],
            stat: Stat { mode: S_IFDIR | 0o755, size: 0, uid: 0, gid: 0, mtime: 0 },
            blocks: vec![],
        },
        Member {
            name: vec![0xd6, 0xd0, 0xce, 0xc4, b'/', 0xce, 0xc4, 0xbc, 0xfe, b'/'],
            stat: Stat { mode: S_IFDIR | 0o755, size: 0, uid: 0, gid: 0, mtime: 0 },
            blocks: vec![],
        },
    ]
}

fn list(members: &[Member], decode: fn(&[u8]) -> Result<String, Error>) -> Result<Vec<String>, Error> {
    let mut listing = Listing::new();
    let mut reads: Vec<HeaderRead> = members
        .iter()
        .map(|m| HeaderRead::Entry(decode(&m.name), m.stat))
        .collect();
    reads.push(HeaderRead::End);
    for read in reads {
        match listing.on_header(read) {
            Listed::More(next) => listing = next,
            Listed::Done(r) => return r,
        }
    }
    panic!("listing did not finish");
}

#[test]
fn listing_keeps_archive_order() {
    let names = list(&tree(), decode_utf8).unwrap();
    assert_eq!(
        names,
        vec!["tree/", "tree/branch1/", "tree/branch1/leaf", "tree/branch2/", "tree/branch2/leaf"]
    );
}

#[test]
fn listing_with_matching_decoder() {
    let names = list(&gbk_members(), decode_gbk).unwrap();
    assert_eq!(names, vec!["中文/", "中文/文件/"]);
}

#[test]
fn listing_non_utf8_names_as_utf8_fails() {
    assert!(matches!(list(&gbk_members(), decode_utf8), Err(Error::Utf)));
}

#[test]
fn listing_stops_at_engine_failure() {
    let mut listing = Listing::new();
    match listing.on_header(HeaderRead::Entry(Ok("a".to_string()), tree()[0].stat)) {
        Listed::More(next) => listing = next,
        Listed::Done(_) => panic!("listing ended early"),
    }
    assert!(matches!(
        listing.on_header(HeaderRead::Failed(Error::Unknown)),
        Listed::Done(Err(Error::Unknown))
    ));
}

#[test]
fn find_named_entry() {
    let wanted = "tree/branch2/leaf".to_string();
    let stat = tree()[4].stat;
    assert!(matches!(
        find_step(HeaderRead::Entry(Ok("tree/branch1/leaf".to_string()), stat), &wanted),
        FindStep::Continue
    ));
    assert!(matches!(
        find_step(HeaderRead::Entry(Ok("tree/branch2/leaf".to_string()), stat), &wanted),
        FindStep::Found
    ));
}

#[test]
fn missing_entry_is_not_found() {
    let wanted = "tree/none".to_string();
    assert!(matches!(
        find_step(HeaderRead::End, &wanted),
        FindStep::Failed(Error::Io(IoErrorKind::NotFound))
    ));
    assert!(matches!(
        find_step(HeaderRead::Failed(Error::Unknown), &wanted),
        FindStep::Failed(Error::Unknown)
    ));
}

#[test]
fn stat_file_types() {
    let members = tree();
    assert!(members[0].stat.is_dir());
    assert!(!members[0].stat.is_file());
    assert!(members[2].stat.is_file());
    assert_eq!(members[2].stat.file_type(), S_IFREG);
}
