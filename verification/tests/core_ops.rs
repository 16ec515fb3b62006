//! The dispatcher's protocol surface, driven with plain values standing
//! in for the live directory/file resources.

use passfs::attr::StatRecord;
use passfs::dispatch::PassFs;
use passfs::errors::FsError;
use passfs::handles::HandleAllocator;
use passfs::readbuf::ReadBuffer;

fn stat(ino: u64, mode: u32, size: u64) -> StatRecord {
    StatRecord {
        ino,
        mode,
        size,
        blocks: 1,
        atime_secs: 100,
        mtime_secs: 200,
        ctime_secs: 300,
        nlink: 1,
        uid: 1000,
        gid: 1000,
        rdev: 0,
        blksize: 4096,
    }
}

#[test]
fn acquire_returns_smallest_free_value() {
    let mut a = HandleAllocator::new();
    assert_eq!(a.acquire().value(), 0);
    assert_eq!(a.acquire().value(), 1);
    assert_eq!(a.acquire().value(), 2);
    let one = passfs::handles::Fh::from_value(1);
    assert!(a.release(one));
    assert_eq!(a.acquire().value(), 1);
    assert_eq!(a.acquire().value(), 3);
}

#[test]
fn released_handle_is_reused_when_it_is_the_smallest_gap() {
    let mut a = HandleAllocator::new();
    let h0 = a.acquire();
    let _h1 = a.acquire();
    assert!(a.release(h0));
    assert_eq!(a.acquire().value(), 0);
}

#[test]
fn release_reports_absent_handles() {
    let mut a = HandleAllocator::new();
    let h = a.acquire();
    assert!(a.release(h));
    assert!(!a.release(h));
    assert!(!a.release(passfs::handles::Fh::from_value(9)));
}

#[test]
fn root_inode_resolves_to_empty_path() {
    let mut fs: PassFs<i32, i32> = PassFs::new();
    let root = fs.resolve_path(1).expect("root must resolve");
    assert!(root.is_empty());
    // A lookup that reports native inode 1 must not displace the root.
    let path = fs.lookup_path(1, &b"self".to_vec()).expect("root parent");
    let _ = fs.lookup(path, Ok(stat(1, 0o040755, 0))).expect("lookup ok");
    assert!(fs.resolve_path(1).expect("still root").is_empty());
    // Nor may a not-found getattr prune it.
    let r = fs.getattr(1, Err(FsError::NotFound));
    assert_eq!(r, Err(FsError::NotFound));
    assert!(fs.resolve_path(1).expect("root survives pruning").is_empty());
}

#[test]
fn unknown_inode_is_not_found() {
    let fs: PassFs<i32, i32> = PassFs::new();
    assert_eq!(fs.resolve_path(2), Err(FsError::NotFound));
}

#[test]
fn lookup_records_entry_under_its_native_inode() {
    let mut fs: PassFs<i32, i32> = PassFs::new();
    let path = fs.lookup_path(1, &b"foo.txt".to_vec()).expect("root parent");
    assert_eq!(path, vec![b"foo.txt".to_vec()]);
    let attr = fs.lookup(path, Ok(stat(77, 0o100644, 100))).expect("lookup ok");
    assert_eq!(attr.ino, 77);
    assert_eq!(attr.size, 100);
    assert_eq!(attr.kind, passfs::attr::FileKind::Regular);
    assert_eq!(fs.resolve_path(77).expect("recorded"), vec![b"foo.txt".to_vec()]);
}

#[test]
fn repeated_lookup_of_unchanged_entry_agrees() {
    let mut fs: PassFs<i32, i32> = PassFs::new();
    let st = stat(42, 0o100644, 10);
    let p1 = fs.lookup_path(1, &b"a".to_vec()).unwrap();
    let a1 = fs.lookup(p1, Ok(st)).unwrap();
    let p2 = fs.lookup_path(1, &b"a".to_vec()).unwrap();
    let a2 = fs.lookup(p2, Ok(st)).unwrap();
    assert_eq!(a1, a2);
    assert_eq!(a1.ino, 42);
}

#[test]
fn failed_lookup_leaves_registry_untouched() {
    let mut fs: PassFs<i32, i32> = PassFs::new();
    let p = fs.lookup_path(1, &b"gone".to_vec()).unwrap();
    let r = fs.lookup(p, Err(FsError::NotFound));
    assert_eq!(r, Err(FsError::NotFound));
    assert_eq!(fs.resolve_path(77), Err(FsError::NotFound));
    // Lookups below an unknown parent are refused without composing.
    assert_eq!(fs.lookup_path(9, &b"x".to_vec()), Err(FsError::NotFound));
}

#[test]
fn not_found_getattr_prunes_the_inode() {
    let mut fs: PassFs<i32, i32> = PassFs::new();
    let p = fs.lookup_path(1, &b"f".to_vec()).unwrap();
    fs.lookup(p, Ok(stat(42, 0o100644, 5))).unwrap();
    assert!(fs.resolve_path(42).is_ok());
    // The backing file was deleted externally: the stat reports not found.
    assert_eq!(fs.getattr(42, Err(FsError::NotFound)), Err(FsError::NotFound));
    // No further real filesystem call is needed to refuse the next request.
    assert_eq!(fs.resolve_path(42), Err(FsError::NotFound));
    assert_eq!(fs.getattr(42, Err(FsError::NotFound)), Err(FsError::NotFound));
}

#[test]
fn other_getattr_failures_do_not_prune() {
    let mut fs: PassFs<i32, i32> = PassFs::new();
    let p = fs.lookup_path(1, &b"f".to_vec()).unwrap();
    fs.lookup(p, Ok(stat(42, 0o100644, 5))).unwrap();
    assert_eq!(fs.getattr(42, Err(FsError::IoError(13))), Err(FsError::IoError(13)));
    assert!(fs.resolve_path(42).is_ok());
}

#[test]
fn successful_getattr_translates_the_stat() {
    let mut fs: PassFs<i32, i32> = PassFs::new();
    let a = fs.getattr(1, Ok(stat(1, 0o040755, 0))).expect("getattr ok");
    assert_eq!(a.kind, passfs::attr::FileKind::Directory);
    assert_eq!(a.perm, 0o755);
}

#[test]
fn opendir_allocates_dense_handles() {
    let mut fs: PassFs<&'static str, i32> = PassFs::new();
    let h0 = fs.opendir(1, Ok("first")).expect("opendir 1");
    assert_eq!(h0.value(), 0);
    let h1 = fs.opendir(5, Ok("second")).expect("opendir 2");
    assert_eq!(h1.value(), 1);
    let (res, present) = fs.releasedir(0);
    assert_eq!(res, Some("first"));
    assert!(present);
    let h2 = fs.opendir(6, Ok("third")).expect("opendir 3");
    assert_eq!(h2.value(), 0);
}

#[test]
fn opendir_failure_allocates_nothing_and_prunes_on_not_found() {
    let mut fs: PassFs<&'static str, i32> = PassFs::new();
    let p = fs.lookup_path(1, &b"d".to_vec()).unwrap();
    fs.lookup(p, Ok(stat(9, 0o040755, 0))).unwrap();
    assert_eq!(fs.opendir(9, Err(FsError::NotFound)), Err(FsError::NotFound));
    assert_eq!(fs.resolve_path(9), Err(FsError::NotFound));
    // No handle was allocated by the failure.
    assert_eq!(fs.opendir(1, Ok("root")).expect("opendir").value(), 0);
}

#[test]
fn readdir_checks_offset_then_handle() {
    let mut fs: PassFs<&'static str, i32> = PassFs::new();
    let h = fs.opendir(1, Ok("root")).expect("opendir");
    assert_eq!(fs.readdir_dir(h.value(), -1), Err(FsError::InvalidArgument));
    assert_eq!(fs.readdir_dir(3, 0), Err(FsError::BadHandle));
    assert_eq!(fs.readdir_dir(h.value(), 0), Ok(&"root"));
    // A negative offset is refused even for a bad handle.
    assert_eq!(fs.readdir_dir(3, -2), Err(FsError::InvalidArgument));
}

#[test]
fn readdir_entries_carry_their_own_inode_and_kind() {
    let file = passfs::dispatch::readdir_entry(&stat(10, 0o100644, 3), b"foo.txt".to_vec());
    assert_eq!(file.ino, 10);
    assert_eq!(file.kind, passfs::attr::FileKind::Regular);
    assert_eq!(file.name, b"foo.txt".to_vec());
    let dir = passfs::dispatch::readdir_entry(&stat(11, 0o040755, 0), b"bar".to_vec());
    assert_eq!(dir.ino, 11);
    assert_eq!(dir.kind, passfs::attr::FileKind::Directory);
    assert_eq!(dir.name, b"bar".to_vec());
}

#[test]
fn releasedir_is_safe_to_repeat() {
    let mut fs: PassFs<&'static str, i32> = PassFs::new();
    let h = fs.opendir(1, Ok("root")).expect("opendir");
    assert_eq!(fs.releasedir(h.value()), (Some("root"), true));
    assert_eq!(fs.releasedir(h.value()), (None, false));
}

#[test]
fn open_refuses_mutating_flags_without_allocating() {
    let mut fs: PassFs<&'static str, i32> = PassFs::new();
    let p = fs.lookup_path(1, &b"foo.txt".to_vec()).unwrap();
    fs.lookup(p, Ok(stat(7, 0o100644, 100))).unwrap();
    // Append, create and truncate each make the open a write.
    for flags in [0o2000, 0o100, 0o1000, 0o2000 | 0o100] {
        assert_eq!(fs.open_check(7, flags), Err(FsError::ReadOnly));
    }
    // No handle was allocated by the refusals.
    assert_eq!(fs.open(7, Ok(11)).expect("open").value(), 0);
}

#[test]
fn open_read_release_cycle() {
    let mut fs: PassFs<&'static str, i32> = PassFs::new();
    let p = fs.lookup_path(1, &b"foo.txt".to_vec()).unwrap();
    fs.lookup(p, Ok(stat(7, 0o100644, 100))).unwrap();
    let path = fs.open_check(7, 0).expect("read-only open passes the check");
    assert_eq!(path, vec![b"foo.txt".to_vec()]);
    let h = fs.open(7, Ok(55)).expect("open");
    assert_eq!(h.value(), 0);
    assert_eq!(fs.read_file(0, 90), Ok(&55));
    assert_eq!(fs.read_file(0, -1), Err(FsError::InvalidArgument));
    assert_eq!(fs.read_file(1, 0), Err(FsError::BadHandle));
    assert_eq!(fs.release(0), (Some(55), true));
    assert_eq!(fs.release(0), (None, false));
}

#[test]
fn open_failure_prunes_on_not_found_only() {
    let mut fs: PassFs<&'static str, i32> = PassFs::new();
    let p = fs.lookup_path(1, &b"a".to_vec()).unwrap();
    fs.lookup(p, Ok(stat(3, 0o100644, 1))).unwrap();
    assert_eq!(fs.open(3, Err(FsError::IoError(13))), Err(FsError::IoError(13)));
    assert!(fs.resolve_path(3).is_ok());
    assert_eq!(fs.open(3, Err(FsError::NotFound)), Err(FsError::NotFound));
    assert_eq!(fs.resolve_path(3), Err(FsError::NotFound));
}

#[test]
fn read_at_or_past_end_of_file_returns_zero_bytes() {
    // Offset at or beyond end-of-file: the first real read reports
    // end-of-file at once, and the reply is empty, not an error.
    let mut buf = ReadBuffer::new(50);
    assert_eq!(buf.remaining(), 50);
    let done = buf.push_chunk(&[]);
    assert!(done);
    assert_eq!(buf.into_data(), Vec::<u8>::new());
}

#[test]
fn read_stops_at_end_of_file_with_partial_data() {
    // 50 bytes asked at offset 90 of a 100-byte file: one 10-byte read,
    // then end-of-file; the reply is exactly the 10 bytes.
    let mut buf = ReadBuffer::new(50);
    let done = buf.push_chunk(&[7u8; 10]);
    assert!(!done);
    assert_eq!(buf.remaining(), 40);
    let done = buf.push_chunk(&[]);
    assert!(done);
    assert_eq!(buf.into_data(), vec![7u8; 10]);
}

#[test]
fn read_fills_the_buffer_over_partial_reads() {
    let mut buf = ReadBuffer::new(6);
    assert!(!buf.push_chunk(&[1, 2]));
    assert!(!buf.push_chunk(&[3]));
    assert!(buf.push_chunk(&[4, 5, 6]));
    assert_eq!(buf.into_data(), vec![1, 2, 3, 4, 5, 6]);
}

#[test]
fn file_and_directory_handles_share_one_namespace() {
    let mut fs: PassFs<&'static str, i32> = PassFs::new();
    let p = fs.lookup_path(1, &b"f".to_vec()).unwrap();
    fs.lookup(p, Ok(stat(7, 0o100644, 1))).unwrap();
    let file_h = fs.open(7, Ok(50)).expect("open");
    assert_eq!(file_h.value(), 0);
    let dir_h = fs.opendir(1, Ok("root")).expect("opendir");
    assert_eq!(dir_h.value(), 1);
    // Releasing the file handle makes 0 the next directory handle.
    assert_eq!(fs.release(0), (Some(50), true));
    let dir_h2 = fs.opendir(1, Ok("again")).expect("opendir");
    assert_eq!(dir_h2.value(), 0);
    // Each registry only answers for its own handles.
    assert_eq!(fs.read_file(0, 0), Err(FsError::BadHandle));
    assert_eq!(fs.readdir_dir(0, 0), Ok(&"again"));
}

#[test]
fn mutating_operations_are_always_refused() {
    let fs: PassFs<i32, i32> = PassFs::new();
    assert_eq!(fs.create(), FsError::ReadOnly);
    assert_eq!(fs.setattr(), FsError::ReadOnly);
    assert_eq!(fs.setxattr(), FsError::ReadOnly);
    assert_eq!(fs.statfs(), FsError::Unsupported);
}
