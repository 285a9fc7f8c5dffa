//! Inode records: what one filesystem node is made of.

use vstd::prelude::*;
use crate::arena::Inode;
use crate::types::{FileType, Filestat};

verus! {

/// Token for a backing stream owned by the embedder.  The filesystem state
/// never reads or writes through it; it only stores the token and hands it
/// back when the embedder must act on the real handle (for example to flush
/// it).  The payload is the embedder's own key for the handle.
#[derive(Clone, Copy, Debug, PartialEq, Eq, Structural)]
pub enum WasiFile {
    /// A file inside the backing repository store.
    ZboxFile(u64),
    /// A file opened on the host filesystem.
    HostFile(u64),
}

/// One entry of a directory: a name bound to an inode reference.
pub struct DirEntry {
    pub name: String,
    pub inode: Inode,
}

/// The shape of a filesystem node.
pub enum Kind {
    File {
        handle: WasiFile,
    },
    Dir {
        handle: WasiFile,
        /// The entries of a directory are lazily filled.
        entries: Vec<DirEntry>,
    },
    Symlink {
        forwarded: Inode,
    },
    Buffer {
        buffer: Vec<u8>,
    },
}

/// One filesystem node: its stat block, whether it was preopened at mount
/// time, its display name and its kind.
pub struct InodeVal {
    pub stat: Filestat,
    pub is_preopened: bool,
    pub name: String,
    pub kind: Kind,
}

/// The file type that stat and descriptor queries report for a kind.
pub open spec fn filetype_of_kind(k: Kind) -> FileType {
    match k {
        Kind::File { .. } => FileType::RegularFile,
        Kind::Dir { .. } => FileType::Directory,
        Kind::Symlink { .. } => FileType::SymbolicLink,
        Kind::Buffer { .. } => FileType::Unknown,
    }
}

} // verus!
