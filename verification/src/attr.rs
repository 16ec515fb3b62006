//! The attribute translator: a pure mapping from a native file-status
//! record to the attribute record the virtual-filesystem protocol expects.
//! File kinds are a closed set of variants; unrecognized mode bits fall
//! back to a regular file; timestamps are clamped at the epoch.

use vstd::prelude::*;

verus! {

/// The file-type bits of a native mode word (the `S_IFMT` mask and the
/// seven type values it selects).
pub const FILE_TYPE_MASK: u32 = 0o170000;

pub const TYPE_SOCKET: u32 = 0o140000;

pub const TYPE_SYMLINK: u32 = 0o120000;

pub const TYPE_REGULAR: u32 = 0o100000;

pub const TYPE_BLOCK_DEVICE: u32 = 0o060000;

pub const TYPE_DIRECTORY: u32 = 0o040000;

pub const TYPE_CHAR_DEVICE: u32 = 0o020000;

pub const TYPE_NAMED_PIPE: u32 = 0o010000;

/// The permission bits of a native mode word.
pub const PERMISSION_MASK: u32 = 0o777;

/// The kind of a file, as the protocol reports it.
#[derive(Debug, PartialEq, Eq, Clone, Copy, Structural)]
pub enum FileKind {
    Socket,
    Symlink,
    Regular,
    BlockDevice,
    Directory,
    CharDevice,
    NamedPipe,
}

/// A native file-status record, reduced to the plain values the translator
/// reads: the real inode number, the raw mode word, sizes, epoch-second
/// timestamps, ownership, and device numbers.
#[derive(Debug, PartialEq, Eq, Clone, Copy, Structural)]
pub struct StatRecord {
    pub ino: u64,
    pub mode: u32,
    pub size: u64,
    pub blocks: u64,
    pub atime_secs: i64,
    pub mtime_secs: i64,
    pub ctime_secs: i64,
    pub nlink: u64,
    pub uid: u32,
    pub gid: u32,
    pub rdev: u64,
    pub blksize: u64,
}

/// The translated attribute record replied to the protocol layer.
/// Timestamps are non-negative epoch seconds; the creation time is not
/// available from the native record and is always the epoch.
#[derive(Debug, PartialEq, Eq, Clone, Copy, Structural)]
pub struct FileAttrData {
    pub ino: u64,
    pub size: u64,
    pub blocks: u64,
    pub atime_secs: u64,
    pub mtime_secs: u64,
    pub ctime_secs: u64,
    pub crtime_secs: u64,
    pub kind: FileKind,
    pub perm: u16,
    pub nlink: u32,
    pub uid: u32,
    pub gid: u32,
    pub rdev: u32,
    pub blksize: u32,
}

/// The deterministic file-type mapping: each recognized type value maps
/// one-to-one to its kind; anything else falls back to a regular file.
pub open spec fn spec_kind_of_mode(mode: u32) -> FileKind {
    let t = mode & FILE_TYPE_MASK;
    if t == TYPE_SOCKET {
        FileKind::Socket
    } else if t == TYPE_SYMLINK {
        FileKind::Symlink
    } else if t == TYPE_REGULAR {
        FileKind::Regular
    } else if t == TYPE_BLOCK_DEVICE {
        FileKind::BlockDevice
    } else if t == TYPE_DIRECTORY {
        FileKind::Directory
    } else if t == TYPE_CHAR_DEVICE {
        FileKind::CharDevice
    } else if t == TYPE_NAMED_PIPE {
        FileKind::NamedPipe
    } else {
        FileKind::Regular
    }
}

/// A timestamp converted to protocol time: clamped to the epoch when the
/// native epoch-seconds value is negative (the conversion would overflow).
pub open spec fn spec_clamp_time(t: i64) -> u64 {
    if t < 0 {
        0
    } else {
        t as u64
    }
}

/// What the translator returns for a given native record.
pub open spec fn spec_attr_of_stat(st: StatRecord) -> FileAttrData {
    FileAttrData {
        ino: st.ino,
        size: st.size,
        blocks: st.blocks,
        atime_secs: spec_clamp_time(st.atime_secs),
        mtime_secs: spec_clamp_time(st.mtime_secs),
        ctime_secs: spec_clamp_time(st.ctime_secs),
        crtime_secs: 0,
        kind: spec_kind_of_mode(st.mode),
        perm: (st.mode & PERMISSION_MASK) as u16,
        nlink: st.nlink as u32,
        uid: st.uid,
        gid: st.gid,
        rdev: st.rdev as u32,
        blksize: st.blksize as u32,
    }
}

/// Lookup consistency: the translated attributes, and the inode number a
/// successful lookup records its entry under, are determined by the
/// entry's native file-status record alone — so repeated lookups of an
/// unchanged entry yield the same inode number and the same attributes.
pub proof fn lemma_lookup_consistency(st1: StatRecord, st2: StatRecord)
    requires
        st1 == st2,
    ensures
        spec_attr_of_stat(st1) == spec_attr_of_stat(st2),
        spec_attr_of_stat(st1).ino == st1.ino,
{
}

/// Translate the file-type bits of a mode word to the protocol file kind.
pub fn kind_of_mode(mode: u32) -> (k: FileKind)
    ensures
        k == spec_kind_of_mode(mode),
{
    let t = mode & FILE_TYPE_MASK;
    if t == TYPE_SOCKET {
        FileKind::Socket
    } else if t == TYPE_SYMLINK {
        FileKind::Symlink
    } else if t == TYPE_REGULAR {
        FileKind::Regular
    } else if t == TYPE_BLOCK_DEVICE {
        FileKind::BlockDevice
    } else if t == TYPE_DIRECTORY {
        FileKind::Directory
    } else if t == TYPE_CHAR_DEVICE {
        FileKind::CharDevice
    } else if t == TYPE_NAMED_PIPE {
        FileKind::NamedPipe
    } else {
        FileKind::Regular
    }
}

/// Clamp an epoch-seconds timestamp at the epoch.
pub fn clamp_time(t: i64) -> (r: u64)
    ensures
        r == spec_clamp_time(t),
{
    if t < 0 {
        0
    } else {
        t as u64
    }
}

/// Translate a native file-status record to the protocol attribute record.
/// Never fails: an unrecognized file type is reported as a regular file.
pub fn stat_to_fileattr(st: &StatRecord) -> (a: FileAttrData)
    ensures
        a == spec_attr_of_stat(*st),
{
    FileAttrData {
        ino: st.ino,
        size: st.size,
        blocks: st.blocks,
        atime_secs: clamp_time(st.atime_secs),
        mtime_secs: clamp_time(st.mtime_secs),
        ctime_secs: clamp_time(st.ctime_secs),
        crtime_secs: 0,
        kind: kind_of_mode(st.mode),
        perm: (st.mode & PERMISSION_MASK) as u16,
        nlink: #[verifier::truncate] (st.nlink as u32),
        uid: st.uid,
        gid: st.gid,
        rdev: #[verifier::truncate] (st.rdev as u32),
        blksize: #[verifier::truncate] (st.blksize as u32),
    }
}

} // verus!
