//! The filesystem facade: one instance owns the inode arena, the descriptor
//! table and the top-level name cache, and answers the stat, descriptor and
//! flush queries of the syscall layer.
//!
//! Host input and output never happens here.  Where an operation needs the
//! embedder to touch a real stream, the operation returns a [`FlushAction`]
//! describing exactly what to do; everything else is decided over the plain
//! state below, so a denied operation provably performs no side effect.

use vstd::prelude::*;
use crate::arena::{Inode, InodeArena};
use crate::fd::{Fd, FdMap, FIRST_DYNAMIC_FD};
use crate::inode::{filetype_of_kind, DirEntry, InodeVal, Kind, WasiFile};
use crate::types::{
    Errno, Fdstat, FileType, Filestat, Prestat, PreopenType, DEFAULT_PREOPEN_RIGHTS,
    LOOKUP_SYMLINK_FOLLOW, MAX_SYMLINKS, RIGHT_FD_DATASYNC,
};
use vstd::utf8::encode_utf8;

verus! {

/// One path handed over for preopening, already opened by the embedder:
/// its display name, whether the host says it is a directory, and the token
/// for the host handle.
pub struct Preopen {
    pub name: String,
    pub is_dir: bool,
    pub handle: WasiFile,
}

/// Why constructing a filesystem instance failed.  Initialization errors are
/// fatal: no instance is created.
#[derive(Debug)]
pub enum InitError {
    /// Only directories can be preopened; this path was something else.
    PreopenNotDirectory { name: String },
}

/// What the embedder must do to finish a successful flush request.
#[derive(Clone, Copy, Debug, PartialEq, Eq, Structural)]
pub enum FlushAction {
    /// Nothing: descriptor 0, or an in-memory buffer with no backing stream.
    Nothing,
    /// Flush the host's standard output stream.
    Stdout,
    /// Flush the host's standard error stream.
    Stderr,
    /// Flush the backing stream behind this handle token.
    File(WasiFile),
    /// The descriptor's inode is a symlink: flushing one is meaningless, a
    /// host-side defect that the embedder must report loudly rather than map
    /// to a guest-visible errno.
    SymlinkDefect,
}

/// A filesystem instance: the single owner of all filesystem state that one
/// guest module sees.
pub struct WasiFs {
    /// Cache of top-level path lookups.  Filled by the embedder (on-demand
    /// population from the backing store is a follow-up capability).
    pub name_map: Vec<DirEntry>,
    /// The inode arena.
    pub inodes: InodeArena,
    /// The open-descriptor table; ids 0, 1 and 2 stay reserved for stdio.
    pub fd_map: FdMap,
    /// Next synthetic inode id to assign when uncached paths are mounted.
    pub inode_counter: u64,
}

/// First match of `path` among the entries, scanning in order.
pub open spec fn name_lookup(entries: Seq<DirEntry>, path: Seq<char>) -> Option<Inode>
    decreases entries.len(),
{
    if entries.len() == 0 {
        None
    } else if entries[0].name@ == path {
        Some(entries[0].inode)
    } else {
        name_lookup(entries.drop_first(), path)
    }
}

/// Outcome of dereferencing symlinks from `i` with `hops_left` hops in the
/// budget: the stat of the first non-symlink inode reached, too-many-links
/// once the budget is exhausted, or invalid-argument on a stale reference.
pub open spec fn follow_symlinks(a: InodeArena, i: Inode, hops_left: nat) -> Result<Filestat, Errno>
    decreases hops_left,
{
    if hops_left == 0 {
        Err(Errno::Mlink)
    } else if !a.valid(i) {
        Err(Errno::Inval)
    } else {
        match a.value_of(i).kind {
            Kind::Symlink { forwarded } => follow_symlinks(a, forwarded, (hops_left - 1) as nat),
            _ => Ok(a.value_of(i).stat),
        }
    }
}

/// Whether `j` is the first position among the preopens that is not a
/// directory.
pub open spec fn is_first_non_dir(preopens: Seq<Preopen>, j: int) -> bool {
    &&& 0 <= j < preopens.len()
    &&& !preopens[j].is_dir
    &&& forall|k: int| 0 <= k < j ==> (#[trigger] preopens[k]).is_dir
}

/// Well-formedness of one inode record against the arena: a symlink forwards
/// to a live inode, and a directory's entries name live inodes under
/// pairwise distinct names.
pub open spec fn inode_val_wf(a: InodeArena, v: InodeVal) -> bool {
    match v.kind {
        Kind::Symlink { forwarded } => a.valid(forwarded),
        Kind::Dir { entries, .. } => {
            &&& forall|k: int| 0 <= k < entries@.len() ==> a.valid((#[trigger] entries@[k]).inode)
            &&& forall|k1: int, k2: int|
                0 <= k1 < k2 < entries@.len() ==> (#[trigger] entries@[k1]).name@ != (
                #[trigger] entries@[k2]).name@
        },
        _ => true,
    }
}

impl WasiFs {
    /// Well-formedness of an instance: every stored cross-reference (a
    /// descriptor's inode, a cached lookup, a directory entry, a symlink
    /// target) points at an inode currently live in the arena.
    pub open spec fn wf(self) -> bool {
        &&& forall|id: u32|
            #[trigger] self.fd_map.contains_id(id) ==> self.inodes.valid(
                self.fd_map.fd_of(id).inode,
            )
        &&& forall|k: int|
            0 <= k < self.name_map@.len() ==> self.inodes.valid(
                (#[trigger] self.name_map@[k]).inode,
            )
        &&& forall|i: Inode|
            #[trigger] self.inodes.valid(i) ==> inode_val_wf(
                self.inodes,
                self.inodes.value_of(i),
            )
    }

    /// Mount a filesystem instance from the preopened paths, in order: each
    /// must be a directory and becomes one preopened inode plus one
    /// descriptor with the default maximal rights, so descriptor `3 + k`
    /// belongs to preopen `k`.  The first non-directory aborts
    /// initialization.
    pub fn new(preopened_files: &Vec<Preopen>) -> (r: Result<WasiFs, InitError>)
        requires
            preopened_files@.len() + FIRST_DYNAMIC_FD <= u32::MAX,
        ensures
            match r {
                Ok(fs) => {
                    &&& forall|k: int|
                        0 <= k < preopened_files@.len() ==> (#[trigger] preopened_files@[k]).is_dir
                    &&& fs.inodes.slot_count() == preopened_files@.len()
                    &&& fs.fd_map@.len() == preopened_files@.len()
                    &&& forall|k: int|
                        0 <= k < preopened_files@.len() ==> {
                            let fd = #[trigger] fs.fd_map@[k];
                            &&& fd.rights == DEFAULT_PREOPEN_RIGHTS
                            &&& fd.rights_inheriting == DEFAULT_PREOPEN_RIGHTS
                            &&& fd.flags == 0
                            &&& fd.offset == 0
                            &&& fd.inode.index == k
                            &&& fs.inodes.valid(fd.inode)
                            &&& fs.inodes.value_of(fd.inode).stat == Filestat::zeroed()
                            &&& fs.inodes.value_of(fd.inode).is_preopened
                            &&& fs.inodes.value_of(fd.inode).name == preopened_files@[k].name
                            &&& fs.inodes.value_of(fd.inode).kind matches Kind::Dir {
                                handle,
                                entries,
                            } && handle == preopened_files@[k].handle && entries@.len() == 0
                        }
                    &&& fs.name_map@.len() == 0
                    &&& fs.inode_counter == 1000
                    &&& fs.wf()
                },
                Err(e) => {
                    &&& e matches InitError::PreopenNotDirectory { name }
                    &&& exists|j: int|
                        #[trigger] is_first_non_dir(preopened_files@, j) && (
                        e->PreopenNotDirectory_name)@ == preopened_files@[j].name@
                },
            },
    {
        let mut wasi_fs = WasiFs {
            name_map: Vec::new(),
            inodes: InodeArena::new(),
            fd_map: FdMap::new(),
            inode_counter: 1000,
        };
        let mut i: usize = 0;
        while i < preopened_files.len()
            invariant
                i <= preopened_files@.len(),
                preopened_files@.len() + FIRST_DYNAMIC_FD <= u32::MAX,
                wasi_fs.inodes.slot_count() == i,
                wasi_fs.fd_map@.len() == i,
                wasi_fs.name_map@.len() == 0,
                wasi_fs.inode_counter == 1000,
                forall|k: int| 0 <= k < i ==> (#[trigger] preopened_files@[k]).is_dir,
                forall|k: int|
                    0 <= k < i ==> {
                        let fd = #[trigger] wasi_fs.fd_map@[k];
                        &&& fd.rights == DEFAULT_PREOPEN_RIGHTS
                        &&& fd.rights_inheriting == DEFAULT_PREOPEN_RIGHTS
                        &&& fd.flags == 0
                        &&& fd.offset == 0
                        &&& fd.inode.index == k
                        &&& wasi_fs.inodes.valid(fd.inode)
                        &&& wasi_fs.inodes.value_of(fd.inode).stat == Filestat::zeroed()
                        &&& wasi_fs.inodes.value_of(fd.inode).is_preopened
                        &&& wasi_fs.inodes.value_of(fd.inode).name == preopened_files@[k].name
                        &&& wasi_fs.inodes.value_of(fd.inode).kind matches Kind::Dir {
                            handle,
                            entries,
                        } && handle == preopened_files@[k].handle && entries@.len() == 0
                    },
                forall|i2: Inode|
                    #[trigger] wasi_fs.inodes.valid(i2) ==> (wasi_fs.inodes.value_of(
                        i2,
                    ).kind matches Kind::Dir { entries, .. } && entries@.len() == 0),
            decreases preopened_files@.len() - i,
        {
            let p = &preopened_files[i];
            if !p.is_dir {
                proof {
                    assert(is_first_non_dir(preopened_files@, i as int));
                }
                return Err(InitError::PreopenNotDirectory { name: p.name.clone() });
            }
            let kind = Kind::Dir { handle: p.handle, entries: Vec::new() };
            let inode_val = InodeVal {
                stat: Filestat::default(),
                is_preopened: true,
                name: p.name.clone(),
                kind,
            };
            let inode = wasi_fs.inodes.insert(inode_val);
            let _ = wasi_fs.create_fd(DEFAULT_PREOPEN_RIGHTS, DEFAULT_PREOPEN_RIGHTS, 0, inode);
            i += 1;
        }
        Ok(wasi_fs)
    }

    /// Look a path up in the top-level cache.  Uncached paths are not yet
    /// resolved against the backing store, so they miss.
    pub fn get_inode(&mut self, path: &str) -> (r: Option<Inode>)
        ensures
            *final(self) == *old(self),
            r == name_lookup(old(self).name_map@, path@),
    {
        let owned: String = path.to_owned();
        lookup_name(&self.name_map, &owned)
    }

    /// What resolving `inode` under `flags` returns: the inode's own stat
    /// block, or — when symlink following is requested and the inode is a
    /// symlink — the stat of the chain's end under the hop budget.
    pub open spec fn filestat_inode_spec(self, inode: Inode, flags: u32) -> Result<
        Filestat,
        Errno,
    > {
        if !self.inodes.valid(inode) {
            Err(Errno::Inval)
        } else {
            match self.inodes.value_of(inode).kind {
                Kind::Symlink { forwarded } => {
                    if flags & LOOKUP_SYMLINK_FOLLOW != 0 {
                        follow_symlinks(self.inodes, forwarded, (MAX_SYMLINKS + 1) as nat)
                    } else {
                        Ok(self.inodes.value_of(inode).stat)
                    }
                },
                _ => Ok(self.inodes.value_of(inode).stat),
            }
        }
    }

    /// The stat block of `inode`, following symlink chains when the lookup
    /// flags ask for it.  A chain longer than [`MAX_SYMLINKS`] fails with
    /// too-many-links instead of looping.
    pub fn filestat_inode(&self, inode: Inode, flags: u32) -> (r: Result<Filestat, Errno>)
        ensures
            r == self.filestat_inode_spec(inode, flags),
    {
        let inode_val = match self.inodes.get(inode) {
            None => {
                return Err(Errno::Inval);
            },
            Some(v) => v,
        };
        if flags & LOOKUP_SYMLINK_FOLLOW != 0 {
            match &inode_val.kind {
                Kind::Symlink { forwarded } => {
                    let mut cur: Inode = *forwarded;
                    let mut counter: usize = 0;
                    while counter <= MAX_SYMLINKS
                        invariant
                            counter <= MAX_SYMLINKS + 1,
                            self.filestat_inode_spec(inode, flags) == follow_symlinks(
                                self.inodes,
                                cur,
                                (MAX_SYMLINKS + 1 - counter) as nat,
                            ),
                        decreases MAX_SYMLINKS + 1 - counter,
                    {
                        match self.inodes.get(cur) {
                            None => {
                                return Err(Errno::Inval);
                            },
                            Some(iv) => {
                                match &iv.kind {
                                    Kind::Symlink { forwarded: next } => {
                                        counter = counter + 1;
                                        cur = *next;
                                    },
                                    _ => {
                                        return Ok(iv.stat);
                                    },
                                }
                            },
                        }
                    }
                    Err(Errno::Mlink)
                },
                _ => Ok(inode_val.stat),
            }
        } else {
            Ok(inode_val.stat)
        }
    }

    /// The stat block of the inode a cached path resolves to, honoring the
    /// symlink-follow lookup flag.  The `preopened_fd` argument will scope
    /// the relative lookup; it is not yet enforced.
    #[allow(unused_variables)]
    pub fn filestat_path(&mut self, preopened_fd: u32, flags: u32, path: &str) -> (r: Result<
        Filestat,
        Errno,
    >)
        ensures
            *final(self) == *old(self),
            r == (match name_lookup(old(self).name_map@, path@) {
                Option::None => Err::<Filestat, Errno>(Errno::Noent),
                Option::Some(inode) => old(self).filestat_inode_spec(inode, flags),
            }),
    {
        let inode = match self.get_inode(path) {
            None => {
                return Err(Errno::Noent);
            },
            Some(i) => i,
        };
        self.filestat_inode(inode, flags)
    }

    /// What `filestat_fd` returns for a descriptor id.
    pub open spec fn filestat_fd_spec(self, fd: u32) -> Result<Filestat, Errno> {
        if !self.fd_map.contains_id(fd) {
            Err(Errno::Badf)
        } else if !self.inodes.valid(self.fd_map.fd_of(fd).inode) {
            Err(Errno::Inval)
        } else {
            Ok(self.inodes.value_of(self.fd_map.fd_of(fd).inode).stat)
        }
    }

    /// The stat block of the inode behind an open descriptor.
    pub fn filestat_fd(&self, fd: u32) -> (r: Result<Filestat, Errno>)
        ensures
            r == self.filestat_fd_spec(fd),
    {
        let fd_entry = match self.fd_map.get(fd) {
            None => {
                return Err(Errno::Badf);
            },
            Some(f) => f,
        };
        match self.inodes.get(fd_entry.inode) {
            None => Err(Errno::Inval),
            Some(v) => Ok(v.stat),
        }
    }

    /// What `fdstat` returns for a descriptor id: the file type derived from
    /// the inode's kind, beside the descriptor's flags and rights masks.
    pub open spec fn fdstat_spec(self, fd: u32) -> Result<Fdstat, Errno> {
        if !self.fd_map.contains_id(fd) {
            Err(Errno::Badf)
        } else if !self.inodes.valid(self.fd_map.fd_of(fd).inode) {
            Err(Errno::Inval)
        } else {
            Ok(
                Fdstat {
                    fs_filetype: filetype_of_kind(
                        self.inodes.value_of(self.fd_map.fd_of(fd).inode).kind,
                    ),
                    fs_flags: self.fd_map.fd_of(fd).flags,
                    fs_rights_base: self.fd_map.fd_of(fd).rights,
                    fs_rights_inheriting: self.fd_map.fd_of(fd).rights_inheriting,
                },
            )
        }
    }

    /// The status of an open descriptor.
    pub fn fdstat(&self, fd: u32) -> (r: Result<Fdstat, Errno>)
        ensures
            r == self.fdstat_spec(fd),
    {
        let fd_entry = match self.fd_map.get(fd) {
            None => {
                return Err(Errno::Badf);
            },
            Some(f) => f,
        };
        let inode_val = match self.inodes.get(fd_entry.inode) {
            None => {
                return Err(Errno::Inval);
            },
            Some(v) => v,
        };
        Ok(
            Fdstat {
                fs_filetype: match &inode_val.kind {
                    Kind::File { .. } => FileType::RegularFile,
                    Kind::Dir { .. } => FileType::Directory,
                    Kind::Symlink { .. } => FileType::SymbolicLink,
                    Kind::Buffer { .. } => FileType::Unknown,
                },
                fs_flags: fd_entry.flags,
                fs_rights_base: fd_entry.rights,
                fs_rights_inheriting: fd_entry.rights_inheriting,
            },
        )
    }

    /// What `prestat_fd` returns: defined only for descriptors whose inode
    /// was preopened, and reporting the byte length of the preopened name.
    pub open spec fn prestat_fd_spec(self, fd: u32) -> Result<Prestat, Errno> {
        if !self.fd_map.contains_id(fd) {
            Err(Errno::Badf)
        } else if !self.inodes.valid(self.fd_map.fd_of(fd).inode) {
            Err(Errno::Inval)
        } else if !self.inodes.value_of(self.fd_map.fd_of(fd).inode).is_preopened {
            Err(Errno::Badf)
        } else {
            Ok(
                Prestat {
                    pr_type: PreopenType::Dir,
                    pr_name_len: ((encode_utf8(
                        self.inodes.value_of(self.fd_map.fd_of(fd).inode).name@,
                    ).len() as usize) as u32),
                },
            )
        }
    }

    /// The preopen report of a descriptor: its tag and name length, or
    /// bad-descriptor when the inode was not preopened.
    pub fn prestat_fd(&self, fd: u32) -> (r: Result<Prestat, Errno>)
        ensures
            r == self.prestat_fd_spec(fd),
    {
        let fd_entry = match self.fd_map.get(fd) {
            None => {
                return Err(Errno::Badf);
            },
            Some(f) => f,
        };
        let inode_val = match self.inodes.get(fd_entry.inode) {
            None => {
                return Err(Errno::Inval);
            },
            Some(v) => v,
        };
        if inode_val.is_preopened {
            let name_len = inode_val.name.as_str().len();
            Ok(Prestat { pr_type: PreopenType::Dir, pr_name_len: name_len as u32 })
        } else {
            Err(Errno::Badf)
        }
    }

    /// What `flush` decides for a descriptor id.  Descriptors 0, 1 and 2 are
    /// the standard streams and need no rights; any other descriptor needs
    /// the datasync right before its inode is even examined.
    pub open spec fn flush_spec(self, fd: u32) -> Result<FlushAction, Errno> {
        if fd == 0 {
            Ok(FlushAction::Nothing)
        } else if fd == 1 {
            Ok(FlushAction::Stdout)
        } else if fd == 2 {
            Ok(FlushAction::Stderr)
        } else if !self.fd_map.contains_id(fd) {
            Err(Errno::Badf)
        } else if self.fd_map.fd_of(fd).rights & RIGHT_FD_DATASYNC == 0 {
            Err(Errno::Acces)
        } else if !self.inodes.valid(self.fd_map.fd_of(fd).inode) {
            Err(Errno::Inval)
        } else {
            match self.inodes.value_of(self.fd_map.fd_of(fd).inode).kind {
                Kind::File { handle } => Ok(FlushAction::File(handle)),
                Kind::Dir { .. } => Err(Errno::Isdir),
                Kind::Symlink { .. } => Ok(FlushAction::SymlinkDefect),
                Kind::Buffer { .. } => Ok(FlushAction::Nothing),
            }
        }
    }

    /// Decide what flushing a descriptor means.  The instance itself is not
    /// touched: an error therefore provably comes with no side effect, and
    /// the embedder performs the returned action on the real streams.
    pub fn flush(&self, fd: u32) -> (r: Result<FlushAction, Errno>)
        ensures
            r == self.flush_spec(fd),
    {
        if fd == 0 {
            return Ok(FlushAction::Nothing);
        }
        if fd == 1 {
            return Ok(FlushAction::Stdout);
        }
        if fd == 2 {
            return Ok(FlushAction::Stderr);
        }
        let fd_entry = match self.fd_map.get(fd) {
            None => {
                return Err(Errno::Badf);
            },
            Some(f) => f,
        };
        if fd_entry.rights & RIGHT_FD_DATASYNC == 0 {
            return Err(Errno::Acces);
        }
        let inode_val = match self.inodes.get(fd_entry.inode) {
            None => {
                return Err(Errno::Inval);
            },
            Some(v) => v,
        };
        match &inode_val.kind {
            Kind::File { handle } => Ok(FlushAction::File(*handle)),
            Kind::Dir { .. } => Err(Errno::Isdir),
            Kind::Symlink { .. } => Ok(FlushAction::SymlinkDefect),
            Kind::Buffer { .. } => Ok(FlushAction::Nothing),
        }
    }

    /// Open a new descriptor over `inode` under the next monotonic id.
    /// Aliasing is legal: several descriptors may share one inode.  The
    /// inode reference is stored as given; when it is live, a well-formed
    /// instance stays well-formed.
    pub fn create_fd(
        &mut self,
        rights: u64,
        rights_inheriting: u64,
        flags: u16,
        inode: Inode,
    ) -> (r: Result<u32, Errno>)
        requires
            old(self).fd_map@.len() + FIRST_DYNAMIC_FD <= u32::MAX,
        ensures
            r == Ok::<u32, Errno>(((FIRST_DYNAMIC_FD + old(self).fd_map@.len()) as u32)),
            final(self).fd_map@ == old(self).fd_map@.push(
                (Fd { rights, rights_inheriting, flags, offset: 0, inode }),
            ),
            final(self).inodes == old(self).inodes,
            final(self).name_map == old(self).name_map,
            final(self).inode_counter == old(self).inode_counter,
            old(self).wf() && old(self).inodes.valid(inode) ==> final(self).wf(),
    {
        let idx = self.fd_map.allocate(Fd { rights, rights_inheriting, flags, offset: 0, inode });
        proof {
            if old(self).wf() && old(self).inodes.valid(inode) {
                assert forall|id2: u32| #[trigger] self.fd_map.contains_id(id2) implies self.inodes.valid(self.fd_map.fd_of(id2).inode) by {
                    if id2 != idx {
                        assert(old(self).fd_map.contains_id(id2));
                    }
                }
            }
        }
        Ok(idx)
    }
}

/// Everything of one guest instance's system-interface state that this crate
/// models: the filesystem beside the guest's marshaled argument and
/// environment blocks.
pub struct WasiState<'a> {
    pub fs: WasiFs,
    pub args: &'a [Vec<u8>],
    pub envs: &'a [Vec<u8>],
}

/// Scan for the first entry whose name equals `path`.
fn lookup_name(entries: &Vec<DirEntry>, path: &String) -> (r: Option<Inode>)
    ensures
        r == name_lookup(entries@, path@),
{
    let mut i: usize = 0;
    proof {
        assert(entries@.skip(0) =~= entries@);
    }
    while i < entries.len()
        invariant
            i <= entries@.len(),
            name_lookup(entries@, path@) == name_lookup(entries@.skip(i as int), path@),
        decreases entries@.len() - i,
    {
        if entries[i].name == *path {
            assert(entries@.skip(i as int)[0] == entries@[i as int]);
            return Some(entries[i].inode);
        }
        proof {
            assert(entries@.skip(i as int)[0] == entries@[i as int]);
            assert(entries@.skip(i as int).drop_first() =~= entries@.skip(i as int + 1));
        }
        i += 1;
    }
    None
}

/// Dereferencing a chain of symlinks that ends in a non-symlink inode yields
/// that inode's stat, as long as the chain fits the hop budget.  `chain[0]`
/// is the first inode examined, each link forwards to its successor, and the
/// last element is the final, non-symlink inode.
pub proof fn lemma_follow_chain_resolves(a: InodeArena, chain: Seq<Inode>, hops_left: nat)
    requires
        1 <= chain.len() <= hops_left,
        forall|k: int| 0 <= k < chain.len() ==> a.valid(#[trigger] chain[k]),
        forall|k: int|
            0 <= k < chain.len() - 1 ==> ((#[trigger] a.value_of(chain[k])).kind matches Kind::Symlink {
                forwarded,
            } && forwarded == chain[k + 1]),
        !(a.value_of(chain[chain.len() - 1]).kind is Symlink),
    ensures
        follow_symlinks(a, chain[0], hops_left) == Ok::<Filestat, Errno>(
            a.value_of(chain[chain.len() - 1]).stat,
        ),
    decreases chain.len(),
{
    if chain.len() > 1 {
        lemma_follow_chain_resolves(a, chain.drop_first(), (hops_left - 1) as nat);
    }
}

/// A dereference that still sees a symlink at every hop of its budget fails
/// with too-many-links, whatever comes later in the chain.
pub proof fn lemma_follow_chain_exhausts(a: InodeArena, chain: Seq<Inode>, hops_left: nat)
    requires
        chain.len() > hops_left,
        forall|k: int| 0 <= k < hops_left ==> a.valid(#[trigger] chain[k]),
        forall|k: int|
            0 <= k < hops_left ==> ((#[trigger] a.value_of(chain[k])).kind matches Kind::Symlink {
                forwarded,
            } && forwarded == chain[k + 1]),
    ensures
        follow_symlinks(a, chain[0], hops_left) == Err::<Filestat, Errno>(Errno::Mlink),
    decreases hops_left,
{
    if hops_left > 0 {
        lemma_follow_chain_exhausts(a, chain.drop_first(), (hops_left - 1) as nat);
    }
}

/// Resolving a symlink whose chain of targets reaches a non-symlink inode
/// within the hop bound terminates with that final inode's stat block.
/// `chain` runs from the symlink's first target to the final inode, so it
/// carries at most [`MAX_SYMLINKS`] further links.
pub proof fn lemma_symlink_chain_resolves(fs: WasiFs, start: Inode, chain: Seq<Inode>, flags: u32)
    requires
        flags & LOOKUP_SYMLINK_FOLLOW != 0,
        fs.inodes.valid(start),
        fs.inodes.value_of(start).kind matches Kind::Symlink { forwarded } && chain.len() >= 1
            && forwarded == chain[0],
        chain.len() <= MAX_SYMLINKS + 1,
        forall|k: int| 0 <= k < chain.len() ==> fs.inodes.valid(#[trigger] chain[k]),
        forall|k: int|
            0 <= k < chain.len() - 1 ==> ((#[trigger] fs.inodes.value_of(
                chain[k],
            )).kind matches Kind::Symlink { forwarded } && forwarded == chain[k + 1]),
        !(fs.inodes.value_of(chain[chain.len() - 1]).kind is Symlink),
    ensures
        fs.filestat_inode_spec(start, flags) == Ok::<Filestat, Errno>(
            fs.inodes.value_of(chain[chain.len() - 1]).stat,
        ),
{
    lemma_follow_chain_resolves(fs.inodes, chain, (MAX_SYMLINKS + 1) as nat);
}

/// Resolving a symlink that is still forwarding to symlinks after the hop
/// bound fails with too-many-links — it never loops.  In particular a
/// self-referential symlink can never resolve.
pub proof fn lemma_symlink_chain_too_long(fs: WasiFs, start: Inode, chain: Seq<Inode>, flags: u32)
    requires
        flags & LOOKUP_SYMLINK_FOLLOW != 0,
        fs.inodes.valid(start),
        fs.inodes.value_of(start).kind matches Kind::Symlink { forwarded } && chain.len()
            > MAX_SYMLINKS + 1 && forwarded == chain[0],
        forall|k: int| 0 <= k <= MAX_SYMLINKS + 1 ==> fs.inodes.valid(#[trigger] chain[k]),
        forall|k: int|
            0 <= k <= MAX_SYMLINKS + 1 ==> ((#[trigger] fs.inodes.value_of(
                chain[k],
            )).kind matches Kind::Symlink { forwarded } && forwarded == chain[k + 1]),
    ensures
        fs.filestat_inode_spec(start, flags) == Err::<Filestat, Errno>(Errno::Mlink),
{
    lemma_follow_chain_exhausts(fs.inodes, chain, (MAX_SYMLINKS + 1) as nat);
}

/// A symlink that forwards to itself fails with too-many-links.
pub proof fn lemma_symlink_self_cycle(fs: WasiFs, start: Inode, flags: u32)
    requires
        flags & LOOKUP_SYMLINK_FOLLOW != 0,
        fs.inodes.valid(start),
        fs.inodes.value_of(start).kind matches Kind::Symlink { forwarded } && forwarded == start,
    ensures
        fs.filestat_inode_spec(start, flags) == Err::<Filestat, Errno>(Errno::Mlink),
{
    let chain = Seq::new((MAX_SYMLINKS + 3) as nat, |k: int| start);
    lemma_symlink_chain_too_long(fs, start, chain, flags);
}

/// On a well-formed instance, dereferencing symlinks from a live reference
/// never meets a stale one: every stored target is live, so the only way
/// such a walk can fail is by exhausting the hop budget.
pub proof fn lemma_wf_follow_never_stale(fs: WasiFs, i: Inode, hops_left: nat)
    requires
        fs.wf(),
        fs.inodes.valid(i),
    ensures
        follow_symlinks(fs.inodes, i, hops_left) != Err::<Filestat, Errno>(Errno::Inval),
    decreases hops_left,
{
    if hops_left > 0 {
        assert(inode_val_wf(fs.inodes, fs.inodes.value_of(i)));
        match fs.inodes.value_of(i).kind {
            Kind::Symlink { forwarded } => {
                lemma_wf_follow_never_stale(fs, forwarded, (hops_left - 1) as nat);
            },
            _ => {},
        }
    }
}

/// On a well-formed instance, resolving any live inode reference never fails
/// with invalid-argument, whatever the lookup flags: stale references can
/// only be presented from outside, never reached through stored state.
pub proof fn lemma_wf_filestat_inode_never_stale(fs: WasiFs, inode: Inode, flags: u32)
    requires
        fs.wf(),
        fs.inodes.valid(inode),
    ensures
        fs.filestat_inode_spec(inode, flags) != Err::<Filestat, Errno>(Errno::Inval),
{
    assert(inode_val_wf(fs.inodes, fs.inodes.value_of(inode)));
    match fs.inodes.value_of(inode).kind {
        Kind::Symlink { forwarded } => {
            if flags & LOOKUP_SYMLINK_FOLLOW != 0 {
                lemma_wf_follow_never_stale(fs, forwarded, (MAX_SYMLINKS + 1) as nat);
            }
        },
        _ => {},
    }
}

/// For every descriptor on which `fdstat` succeeds, the reported file type
/// is exactly the file type of the kind of the descriptor's inode.
pub proof fn lemma_fdstat_filetype_matches_kind(fs: WasiFs, fd: u32)
    ensures
        fs.fdstat_spec(fd) matches Ok(st) ==> st.fs_filetype == filetype_of_kind(
            fs.inodes.value_of(fs.fd_map.fd_of(fd).inode).kind,
        ),
{
}

/// Flushing descriptor 1 or 2 asks for the stream flush whatever rights any
/// descriptor carries; flushing any known dynamic descriptor without the
/// datasync right is denied with permission-denied, and — `flush` leaving
/// the instance untouched — no action reaches a backing handle.
pub proof fn lemma_flush_rights(fs: WasiFs, fd: u32)
    ensures
        fs.flush_spec(1) == Ok::<FlushAction, Errno>(FlushAction::Stdout),
        fs.flush_spec(2) == Ok::<FlushAction, Errno>(FlushAction::Stderr),
        fs.fd_map.contains_id(fd) && fs.fd_map.fd_of(fd).rights & RIGHT_FD_DATASYNC == 0
            ==> fs.flush_spec(fd) == Err::<FlushAction, Errno>(Errno::Acces),
{
}

/// `prestat_fd` succeeds exactly for descriptors whose live inode is marked
/// preopened; an unknown descriptor, or one whose inode was not preopened,
/// fails with bad-descriptor.
pub proof fn lemma_prestat_only_preopened(fs: WasiFs, fd: u32)
    ensures
        fs.prestat_fd_spec(fd) is Ok <==> (fs.fd_map.contains_id(fd) && fs.inodes.valid(
            fs.fd_map.fd_of(fd).inode,
        ) && fs.inodes.value_of(fs.fd_map.fd_of(fd).inode).is_preopened),
        !fs.fd_map.contains_id(fd) ==> fs.prestat_fd_spec(fd) == Err::<Prestat, Errno>(
            Errno::Badf,
        ),
        fs.fd_map.contains_id(fd) && fs.inodes.valid(fs.fd_map.fd_of(fd).inode)
            && !fs.inodes.value_of(fs.fd_map.fd_of(fd).inode).is_preopened ==> fs.prestat_fd_spec(
            fd,
        ) == Err::<Prestat, Errno>(Errno::Badf),
{
}

} // verus!
