//! A read-only passthrough filesystem core: the verified state machine that
//! bridges a stateless virtual-filesystem request stream to a real source
//! directory. It keeps the inode registry, the handle allocator, the open
//! directory/file registries and the attribute translator; the surrounding
//! binary performs the real filesystem calls and feeds their outcomes in.

pub mod attr;
pub mod dispatch;
pub mod errors;
pub mod handles;
pub mod inodes;
pub mod paths;
pub mod readbuf;
pub mod registry;
