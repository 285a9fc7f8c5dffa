//! Plain data exchanged with the syscall layer: stat blocks, descriptor
//! status, preopen reports, rights bits and the errno enumeration.

use vstd::prelude::*;

verus! {

/// Hop bound for symlink resolution: a chain longer than this fails with
/// [`Errno::Mlink`] instead of looping.
pub const MAX_SYMLINKS: usize = 100;

/// Rights bit that a descriptor must carry before its backing handle may be
/// flushed.
pub const RIGHT_FD_DATASYNC: u64 = 1;

/// Lookup flag bit: when set, path and inode queries dereference symlinks.
pub const LOOKUP_SYMLINK_FOLLOW: u32 = 1;

/// Rights granted to the descriptor of every preopened directory.
pub const DEFAULT_PREOPEN_RIGHTS: u64 = 0x1FFFFFFF;

/// File type tag reported in stat blocks and descriptor status.
#[derive(Clone, Copy, Debug, PartialEq, Eq, Structural)]
pub enum FileType {
    Unknown,
    RegularFile,
    Directory,
    SymbolicLink,
}

/// Stat block of one filesystem node, with nanosecond timestamps.
#[derive(Clone, Copy, Debug, PartialEq, Eq, Structural)]
pub struct Filestat {
    pub st_dev: u64,
    pub st_ino: u64,
    pub st_filetype: FileType,
    pub st_nlink: u64,
    pub st_size: u64,
    pub st_atim: u64,
    pub st_mtim: u64,
    pub st_ctim: u64,
}

impl Default for Filestat {
    /// The all-zero stat block that a freshly mounted node starts with.
    fn default() -> (r: Filestat)
        ensures
            r == Filestat::zeroed(),
    {
        Filestat {
            st_dev: 0,
            st_ino: 0,
            st_filetype: FileType::Unknown,
            st_nlink: 0,
            st_size: 0,
            st_atim: 0,
            st_mtim: 0,
            st_ctim: 0,
        }
    }
}

impl Filestat {
    /// The stat block with every counter zero and an unknown file type.
    pub open spec fn zeroed() -> Filestat {
        Filestat {
            st_dev: 0,
            st_ino: 0,
            st_filetype: FileType::Unknown,
            st_nlink: 0,
            st_size: 0,
            st_atim: 0,
            st_mtim: 0,
            st_ctim: 0,
        }
    }
}

/// Status of one open descriptor: the file type of its inode, its flags and
/// its two rights masks.
#[derive(Clone, Copy, Debug, PartialEq, Eq, Structural)]
pub struct Fdstat {
    pub fs_filetype: FileType,
    pub fs_flags: u16,
    pub fs_rights_base: u64,
    pub fs_rights_inheriting: u64,
}

/// Tag of a preopen report; only preopened directories exist today.
#[derive(Clone, Copy, Debug, PartialEq, Eq, Structural)]
pub enum PreopenType {
    Dir,
}

/// Report on a preopened descriptor: its tag and the byte length of its name.
#[derive(Clone, Copy, Debug, PartialEq, Eq, Structural)]
pub struct Prestat {
    pub pr_type: PreopenType,
    pub pr_name_len: u32,
}

/// The closed errno enumeration every operation reports failure with.
#[derive(Clone, Copy, Debug, PartialEq, Eq, Structural)]
pub enum Errno {
    /// Permission denied: a required rights bit is missing.
    Acces,
    /// Bad descriptor: the id is unknown, or not preopened where one is required.
    Badf,
    /// Invalid argument: a generational reference no longer matches its slot.
    Inval,
    /// Input/output error on the backing stream.
    Io,
    /// The operation is not meaningful on a directory.
    Isdir,
    /// Too many levels of symbolic links.
    Mlink,
    /// No such entry: the path is not in the lookup cache.
    Noent,
}

} // verus!
