//! The calls that are answered without looking at anything: opening and
//! releasing succeed, the statistics are fixed, and whatever would change
//! the structure of the namespace is not implemented.

use crate::attr::{Errno, BLOCK_SIZE};
use vstd::prelude::*;

verus! {

/// The longest name that the filesystem reports to accept.
pub const NAME_LENGTH: u32 = 255;

/// The calls that are answered without looking at anything.
#[derive(Clone, Copy, Debug, PartialEq, Eq, Structural)]
pub enum Operation {
    Readlink,
    Mknod,
    Mkdir,
    Unlink,
    Rmdir,
    Symlink,
    Rename,
    Link,
    Open,
    Write,
    Flush,
    Release,
    Fsync,
    Opendir,
    Readdirplus,
    Releasedir,
    Fsyncdir,
    Access,
    Create,
    Getlk,
    Setlk,
    Bmap,
    Ioctl,
    Fallocate,
    Lseek,
    CopyFileRange,
}

/// The answer to such a call.
#[derive(Clone, Copy, Debug, PartialEq, Eq, Structural)]
pub enum Answer {
    /// The call succeeded and has nothing to report.
    Done,
    /// The file or directory was opened.
    Opened { fh: u64, flags: u32 },
    /// The call failed.
    Error(Errno),
}

/// The statistics of the filesystem.
#[derive(Clone, Copy, Debug, PartialEq, Eq, Structural)]
pub struct StatFs {
    pub blocks: u64,
    pub bfree: u64,
    pub bavail: u64,
    pub files: u64,
    pub ffree: u64,
    pub bsize: u32,
    pub namelen: u32,
    pub frsize: u32,
}

impl Operation {
    /// The answer to the call: opening a file or a directory succeeds with
    /// the handle 0 and no flags, releasing one succeeds, and everything
    /// else is not implemented.
    pub open spec fn answer(self) -> Answer {
        match self {
            Operation::Open | Operation::Opendir => Answer::Opened { fh: 0, flags: 0 },
            Operation::Release | Operation::Releasedir => Answer::Done,
            _ => Answer::Error(Errno::NotImplemented),
        }
    }

    /// Whether the call would change the structure of the namespace or
    /// the content of a file.
    pub open spec fn mutates(self) -> bool {
        match self {
            Operation::Mknod
            | Operation::Mkdir
            | Operation::Unlink
            | Operation::Rmdir
            | Operation::Symlink
            | Operation::Rename
            | Operation::Link
            | Operation::Create
            | Operation::Write
            | Operation::Setlk
            | Operation::Getlk
            | Operation::Fallocate
            | Operation::Ioctl
            | Operation::Bmap
            | Operation::Lseek
            | Operation::CopyFileRange => true,
            _ => false,
        }
    }

    /// Answers the call.
    pub fn reply(self) -> (answer: Answer)
        ensures
            answer == self.answer(),
            self.mutates() ==> answer == Answer::Error(Errno::NotImplemented),
    {
        match self {
            Operation::Open | Operation::Opendir => Answer::Opened { fh: 0, flags: 0 },
            Operation::Release | Operation::Releasedir => Answer::Done,
            _ => Answer::Error(Errno::NotImplemented),
        }
    }
}

/// The statistics that every call is answered with: nothing is used,
/// nothing is free, blocks are 512 bytes and names 255 bytes long.
pub fn statfs() -> (stats: StatFs)
    ensures
        stats == (StatFs {
            blocks: 0,
            bfree: 0,
            bavail: 0,
            files: 0,
            ffree: 0,
            bsize: BLOCK_SIZE,
            namelen: NAME_LENGTH,
            frsize: 0,
        }),
{
    StatFs {
        blocks: 0,
        bfree: 0,
        bavail: 0,
        files: 0,
        ffree: 0,
        bsize: BLOCK_SIZE,
        namelen: NAME_LENGTH,
        frsize: 0,
    }
}

} // verus!
