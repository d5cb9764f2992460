//! File identity as the operating system reports it: a (device, inode) pair.

use vstd::prelude::*;

verus! {

/// The identity of an on-disk file: the device id and the inode number that
/// a stat call reports.  Two stats name the same file exactly when both
/// components agree; comparing the pair fetched from the path with the pair
/// fetched from a held handle is what proves "the handle I just locked is
/// still reachable at this path".
#[derive(Clone, Copy, Debug, PartialEq, Eq, Structural)]
pub struct FileId {
    /// Device id of the filesystem holding the file.
    pub dev: u64,
    /// Inode number of the file on that device.
    pub ino: u64,
}

impl FileId {
    /// Whether `self` and `other` name the same on-disk file.
    pub fn same_file(&self, other: &FileId) -> (r: bool)
        ensures
            r == (*self == *other),
    {
        self.dev == other.dev && self.ino == other.ino
    }
}

} // verus!
