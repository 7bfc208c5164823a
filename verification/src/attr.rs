//! Attributes of inodes as they are reported to the kernel.

use crate::datetime::{CreatedTime, LastModifiedTime};
use vstd::prelude::*;

verus! {

/// For how many seconds the kernel may cache an attribute or an entry.
pub const TTL_SECONDS: u64 = 1;

/// The number of blocks reported for every file.
pub const FILE_BLOCKS: u64 = 1;

/// The block size reported for every inode.
pub const BLOCK_SIZE: u32 = 512;

/// The permission bits of every directory.
pub const DIR_PERM: u16 = 0o755;

/// The permission bits of every file.
pub const FILE_PERM: u16 = 0o744;

/// Whether an inode is a directory or a regular file.
#[derive(Clone, Copy, Debug, PartialEq, Eq, Structural)]
pub enum FileType {
    Directory,
    RegularFile,
}

/// The attributes of one inode. Times are whole seconds since the epoch.
/// The owner is not part of it: whoever serves the mount adds its own
/// user and group.
#[derive(Clone, Copy, Debug, PartialEq, Eq, Structural)]
pub struct FileAttr {
    pub ino: u64,
    pub size: u64,
    pub blocks: u64,
    pub atime: i64,
    pub mtime: i64,
    pub ctime: i64,
    pub crtime: i64,
    pub kind: FileType,
    pub perm: u16,
    pub nlink: u32,
    pub rdev: u32,
    pub flags: u32,
    pub blksize: u32,
}

/// The attributes of the directory `ino`: empty, two links, times at the
/// epoch.
pub open spec fn dir_attr(ino: u64) -> FileAttr {
    FileAttr {
        ino,
        size: 0,
        blocks: 0,
        atime: 0,
        mtime: 0,
        ctime: 0,
        crtime: 0,
        kind: FileType::Directory,
        perm: DIR_PERM,
        nlink: 2,
        rdev: 0,
        flags: 0,
        blksize: BLOCK_SIZE,
    }
}

/// The attributes of the file `ino` of `size` bytes: one link, and the
/// stored times in whole seconds.
pub open spec fn file_attr(
    ino: u64,
    size: u64,
    blocks: u64,
    mtime: LastModifiedTime,
    ctime: CreatedTime,
) -> FileAttr {
    FileAttr {
        ino,
        size,
        blocks,
        atime: 0,
        mtime: mtime.0.seconds,
        ctime: ctime.0.seconds,
        crtime: 0,
        kind: FileType::RegularFile,
        perm: FILE_PERM,
        nlink: 1,
        rdev: 0,
        flags: 0,
        blksize: BLOCK_SIZE,
    }
}

/// Builds the attributes of a directory.
pub fn make_dir_attr(ino: u64) -> (attr: FileAttr)
    ensures
        attr == dir_attr(ino),
{
    FileAttr {
        ino,
        size: 0,
        blocks: 0,
        atime: 0,
        mtime: 0,
        ctime: 0,
        crtime: 0,
        kind: FileType::Directory,
        perm: DIR_PERM,
        nlink: 2,
        rdev: 0,
        flags: 0,
        blksize: BLOCK_SIZE,
    }
}

/// Builds the attributes of a file.
pub fn make_file_attr(
    ino: u64,
    size: u64,
    blocks: u64,
    mtime: LastModifiedTime,
    ctime: CreatedTime,
) -> (attr: FileAttr)
    ensures
        attr == file_attr(ino, size, blocks, mtime, ctime),
{
    FileAttr {
        ino,
        size,
        blocks,
        atime: 0,
        mtime: mtime.0.unix_timestamp(),
        ctime: ctime.0.unix_timestamp(),
        crtime: 0,
        kind: FileType::RegularFile,
        perm: FILE_PERM,
        nlink: 1,
        rdev: 0,
        flags: 0,
        blksize: BLOCK_SIZE,
    }
}

/// The errors that a call may be answered with.
#[derive(Clone, Copy, Debug, PartialEq, Eq, Structural)]
pub enum Errno {
    /// No such entry: the inode or the name does not resolve.
    NoEntry,
    /// The operation is not implemented.
    NotImplemented,
    /// The operation is not supported on this input.
    NotSupported,
    /// The attribute exists already.
    Exists,
    /// There is no such attribute.
    NoData,
    /// The caller's buffer is too small.
    Range,
    /// The offset lies outside what can be read.
    InvalidArgument,
}

} // verus!
