use compress_tools::{
    entry_destination, extract_step, join_path, sanitize_destination_path, Error, ExtractStep,
    HeaderRead, IoErrorKind, Stat,
};

fn file_stat(size: i64) -> Stat {
    Stat { mode: 0o100644, size, uid: 0, gid: 0, mtime: 0 }
}

fn is_invalid_data<T>(r: &Result<T, Error>) -> bool {
    matches!(r, Err(Error::Io(IoErrorKind::InvalidData)))
}

#[test]
fn sanitize_strips_leading_root() {
    assert_eq!(sanitize_destination_path("/test.txt").unwrap(), "test.txt");
    assert_eq!(sanitize_destination_path("//etc/passwd").unwrap(), "etc/passwd");
    assert_eq!(sanitize_destination_path("tree/branch1/leaf").unwrap(), "tree/branch1/leaf");
    assert_eq!(sanitize_destination_path("").unwrap(), "");
    assert_eq!(sanitize_destination_path("/").unwrap(), "");
}

#[test]
fn sanitize_rejects_parent_components() {
    assert!(is_invalid_data(&sanitize_destination_path("../evil.txt")));
    assert!(is_invalid_data(&sanitize_destination_path("a/../../b")));
    assert!(is_invalid_data(&sanitize_destination_path("a/..")));
    assert!(is_invalid_data(&sanitize_destination_path("..")));
    assert!(is_invalid_data(&sanitize_destination_path("/../etc/passwd")));
}

#[test]
fn sanitize_accepts_dots_inside_names() {
    assert_eq!(sanitize_destination_path("a/..b").unwrap(), "a/..b");
    assert_eq!(sanitize_destination_path("a../b").unwrap(), "a../b");
    assert_eq!(sanitize_destination_path("./a/.../b").unwrap(), "./a/.../b");
    assert_eq!(sanitize_destination_path("中文/文件/").unwrap(), "中文/文件/");
}

#[test]
fn join_adds_one_separator() {
    assert_eq!(join_path("/tmp/dest", "tree/leaf"), "/tmp/dest/tree/leaf");
    assert_eq!(join_path("/tmp/dest/", "tree/leaf"), "/tmp/dest/tree/leaf");
    assert_eq!(join_path("", "tree/leaf"), "tree/leaf");
    assert_eq!(join_path("/tmp/dest", ""), "/tmp/dest/");
}

#[test]
fn absolute_entry_lands_under_root() {
    assert_eq!(entry_destination("/tmp/dest", "/test.txt").unwrap(), "/tmp/dest/test.txt");
    assert!(is_invalid_data(&entry_destination("/tmp/dest", "../../test.txt")));
}

#[test]
fn extraction_refuses_traversal_before_writing() {
    let read = HeaderRead::Entry(Ok("../evil.txt".to_string()), file_stat(4));
    match extract_step("/tmp/dest", read, None) {
        ExtractStep::Done(Err(Error::Io(IoErrorKind::InvalidData))) => {}
        other => panic!("unexpected step {:?}", other),
    }
}

#[test]
fn extraction_refuses_traversing_hardlink() {
    let read = HeaderRead::Entry(Ok("tree/link".to_string()), file_stat(0));
    match extract_step("/tmp/dest", read, Some(Ok("../../etc/shadow".to_string()))) {
        ExtractStep::Done(Err(Error::Io(IoErrorKind::InvalidData))) => {}
        other => panic!("unexpected step {:?}", other),
    }
}

#[test]
fn extraction_rewrites_absolute_entry() {
    let read = HeaderRead::Entry(Ok("/test.txt".to_string()), file_stat(4));
    match extract_step("/tmp/dest", read, None) {
        ExtractStep::Write(targets) => {
            assert_eq!(targets.path, "/tmp/dest/test.txt");
            assert!(targets.hardlink.is_none());
        }
        other => panic!("unexpected step {:?}", other),
    }
}

#[test]
fn extraction_places_hardlink_under_root() {
    let read = HeaderRead::Entry(Ok("tree/b".to_string()), file_stat(0));
    match extract_step("/tmp/dest", read, Some(Ok("/tree/a".to_string()))) {
        ExtractStep::Write(targets) => {
            assert_eq!(targets.path, "/tmp/dest/tree/b");
            assert_eq!(targets.hardlink.as_deref(), Some("/tmp/dest/tree/a"));
        }
        other => panic!("unexpected step {:?}", other),
    }
}

#[test]
fn extraction_into_two_roots_lays_out_same_tree() {
    let names = ["tree/", "tree/branch1/", "tree/branch1/leaf", "tree/branch2/leaf"];
    for name in names {
        let first = extract_step("/one", HeaderRead::Entry(Ok(name.to_string()), file_stat(0)), None);
        let second = extract_step("/two/", HeaderRead::Entry(Ok(name.to_string()), file_stat(0)), None);
        match (first, second) {
            (ExtractStep::Write(a), ExtractStep::Write(b)) => {
                assert_eq!(a.path.strip_prefix("/one/").unwrap(), name);
                assert_eq!(b.path.strip_prefix("/two/").unwrap(), name);
            }
            other => panic!("unexpected steps {:?}", other),
        }
    }
}

#[test]
fn extraction_ends_at_end_of_archive_and_on_failure() {
    assert!(matches!(extract_step("/d", HeaderRead::End, None), ExtractStep::Done(Ok(()))));
    assert!(matches!(
        extract_step("/d", HeaderRead::Failed(Error::Unknown), None),
        ExtractStep::Done(Err(Error::Unknown))
    ));
    assert!(matches!(
        extract_step("/d", HeaderRead::Entry(Err(Error::Utf), file_stat(0)), None),
        ExtractStep::Done(Err(Error::Utf))
    ));
    assert!(matches!(
        extract_step("/d", HeaderRead::Entry(Ok("a".to_string()), file_stat(0)), Some(Err(Error::Utf))),
        ExtractStep::Done(Err(Error::Utf))
    ));
}
