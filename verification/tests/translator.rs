//! The attribute translator and the error-number mapping.

use passfs::attr::{stat_to_fileattr, FileKind, StatRecord};
use passfs::errors::FsError;

fn stat_with_mode(mode: u32) -> StatRecord {
    StatRecord {
        ino: 123,
        mode,
        size: 4096,
        blocks: 8,
        atime_secs: 1_600_000_000,
        mtime_secs: 1_600_000_001,
        ctime_secs: 1_600_000_002,
        nlink: 2,
        uid: 42,
        gid: 43,
        rdev: 9,
        blksize: 4096,
    }
}

#[test]
fn every_recognized_file_type_maps_one_to_one() {
    let cases = [
        (0o140000, FileKind::Socket),
        (0o120000, FileKind::Symlink),
        (0o100000, FileKind::Regular),
        (0o060000, FileKind::BlockDevice),
        (0o040000, FileKind::Directory),
        (0o020000, FileKind::CharDevice),
        (0o010000, FileKind::NamedPipe),
    ];
    for (bits, kind) in cases {
        let a = stat_to_fileattr(&stat_with_mode(bits | 0o644));
        assert_eq!(a.kind, kind);
    }
}

#[test]
fn unrecognized_mode_falls_back_to_regular_file() {
    let a = stat_to_fileattr(&stat_with_mode(0o170000));
    assert_eq!(a.kind, FileKind::Regular);
    let b = stat_to_fileattr(&stat_with_mode(0));
    assert_eq!(b.kind, FileKind::Regular);
}

#[test]
fn translation_copies_identity_and_sizes() {
    let st = stat_with_mode(0o100644);
    let a = stat_to_fileattr(&st);
    assert_eq!(a.ino, 123);
    assert_eq!(a.size, 4096);
    assert_eq!(a.blocks, 8);
    assert_eq!(a.perm, 0o644);
    assert_eq!(a.nlink, 2);
    assert_eq!(a.uid, 42);
    assert_eq!(a.gid, 43);
    assert_eq!(a.rdev, 9);
    assert_eq!(a.blksize, 4096);
}

#[test]
fn timestamps_are_clamped_at_the_epoch() {
    let mut st = stat_with_mode(0o100644);
    st.atime_secs = -1;
    st.mtime_secs = 0;
    st.ctime_secs = i64::MIN;
    let a = stat_to_fileattr(&st);
    assert_eq!(a.atime_secs, 0);
    assert_eq!(a.mtime_secs, 0);
    assert_eq!(a.ctime_secs, 0);
}

#[test]
fn creation_time_is_always_the_epoch() {
    let a = stat_to_fileattr(&stat_with_mode(0o100644));
    assert_eq!(a.crtime_secs, 0);
}

#[test]
fn error_numbers_match_the_taxonomy() {
    assert_eq!(FsError::NotFound.errno(), 2);
    assert_eq!(FsError::BadHandle.errno(), 77);
    assert_eq!(FsError::InvalidArgument.errno(), 22);
    assert_eq!(FsError::ReadOnly.errno(), 30);
    assert_eq!(FsError::Unsupported.errno(), 1);
    assert_eq!(FsError::IoError(5).errno(), 5);
}

#[test]
fn os_errors_classify_into_the_taxonomy() {
    assert_eq!(FsError::from_errno(2), FsError::NotFound);
    assert_eq!(FsError::from_errno(5), FsError::IoError(5));
    assert_eq!(FsError::from_errno(13), FsError::IoError(13));
}
