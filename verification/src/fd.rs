//! Open-descriptor table: small integer handles mapped to descriptors.
//!
//! Ids 0, 1 and 2 are reserved for the standard streams and never appear in
//! the table.  Allocation is monotonic starting at 3 for the lifetime of a
//! filesystem instance: ids are never reused, so the id handed out when the
//! table holds `k` descriptors is always `3 + k`.

use vstd::prelude::*;
use crate::arena::Inode;

verus! {

/// Lowest descriptor id the table hands out; 0, 1 and 2 are the standard
/// streams.
pub const FIRST_DYNAMIC_FD: u32 = 3;

/// One open, guest-visible handle: its rights, the rights a derived open
/// would inherit, its flags, its byte cursor and the inode it refers to.
#[derive(Clone, Copy, Debug, PartialEq, Eq, Structural)]
pub struct Fd {
    pub rights: u64,
    pub rights_inheriting: u64,
    pub flags: u16,
    pub offset: u64,
    pub inode: Inode,
}

/// The descriptor table.  Its model is the sequence of descriptors in
/// allocation order: the descriptor at position `k` owns id `3 + k`.
pub struct FdMap {
    entries: Vec<Fd>,
}

impl View for FdMap {
    type V = Seq<Fd>;

    closed spec fn view(&self) -> Seq<Fd> {
        self.entries@
    }
}

impl FdMap {
    /// Whether `id` names a descriptor of the table.
    pub open spec fn contains_id(self, id: u32) -> bool {
        FIRST_DYNAMIC_FD <= id && id - FIRST_DYNAMIC_FD < self@.len()
    }

    /// The descriptor behind a contained id.
    pub open spec fn fd_of(self, id: u32) -> Fd {
        self@[id - FIRST_DYNAMIC_FD]
    }

    /// The id the next allocation will return.
    pub open spec fn spec_next_fd(self) -> int {
        FIRST_DYNAMIC_FD + self@.len()
    }

    /// An empty table.
    pub fn new() -> (r: FdMap)
        ensures
            r@ == Seq::<Fd>::empty(),
    {
        FdMap { entries: Vec::new() }
    }

    /// How many descriptors the table holds.
    pub fn len(&self) -> (r: usize)
        ensures
            r == self@.len(),
    {
        self.entries.len()
    }

    /// The id the next allocation will return.
    pub fn next_fd(&self) -> (r: u32)
        requires
            self@.len() + FIRST_DYNAMIC_FD <= u32::MAX,
        ensures
            r == self.spec_next_fd(),
    {
        FIRST_DYNAMIC_FD + self.entries.len() as u32
    }

    /// Store a descriptor under the next monotonic id and return that id.
    /// Every descriptor already in the table keeps its id and its value.
    pub fn allocate(&mut self, fd: Fd) -> (id: u32)
        requires
            old(self)@.len() + FIRST_DYNAMIC_FD <= u32::MAX,
        ensures
            id == old(self).spec_next_fd(),
            !old(self).contains_id(id),
            final(self)@ == old(self)@.push(fd),
            final(self).contains_id(id),
            final(self).fd_of(id) == fd,
            forall|i: u32|
                #[trigger] old(self).contains_id(i) ==> final(self).contains_id(i)
                    && final(self).fd_of(i) == old(self).fd_of(i),
    {
        let id = FIRST_DYNAMIC_FD + self.entries.len() as u32;
        self.entries.push(fd);
        id
    }

    /// Checked lookup of a descriptor id.
    pub fn get(&self, id: u32) -> (r: Option<&Fd>)
        ensures
            match r {
                Some(fd) => self.contains_id(id) && *fd == self.fd_of(id),
                None => !self.contains_id(id),
            },
    {
        if id >= FIRST_DYNAMIC_FD && ((id - FIRST_DYNAMIC_FD) as usize) < self.entries.len() {
            Some(&self.entries[(id - FIRST_DYNAMIC_FD) as usize])
        } else {
            None
        }
    }

    /// Exclusive access to the descriptor behind a contained id.
    pub fn get_mut(&mut self, id: u32) -> (r: &mut Fd)
        requires
            old(self).contains_id(id),
        ensures
            *r == old(self).fd_of(id),
            final(self)@ == old(self)@.update(id - FIRST_DYNAMIC_FD, *final(r)),
    {
        &mut self.entries[(id - FIRST_DYNAMIC_FD) as usize]
    }
}

/// The ids that a run of allocations returns, in order: starting from the
/// descriptors `s`, each step hands out the next monotonic id and appends
/// its descriptor, exactly as [`FdMap::allocate`] does.
pub open spec fn run_allocation_ids(s: Seq<Fd>, fds: Seq<Fd>) -> Seq<int>
    decreases fds.len(),
{
    if fds.len() == 0 {
        Seq::empty()
    } else {
        seq![FIRST_DYNAMIC_FD + s.len()] + run_allocation_ids(s.push(fds[0]), fds.drop_first())
    }
}

proof fn lemma_run_allocation_ids_len(s: Seq<Fd>, fds: Seq<Fd>)
    ensures
        run_allocation_ids(s, fds).len() == fds.len(),
    decreases fds.len(),
{
    if fds.len() > 0 {
        lemma_run_allocation_ids_len(s.push(fds[0]), fds.drop_first());
    }
}

proof fn lemma_run_allocation_ids_at(s: Seq<Fd>, fds: Seq<Fd>, k: int)
    requires
        0 <= k < fds.len(),
    ensures
        run_allocation_ids(s, fds)[k] == FIRST_DYNAMIC_FD + s.len() + k,
    decreases fds.len(),
{
    lemma_run_allocation_ids_len(s.push(fds[0]), fds.drop_first());
    if k > 0 {
        lemma_run_allocation_ids_at(s.push(fds[0]), fds.drop_first(), k - 1);
    }
}

/// Descriptor allocation is injective: a run of `n` consecutive allocations
/// on an empty table returns the ids `3, 4, ..., n + 2`, pairwise distinct.
pub proof fn lemma_allocation_injective(fds: Seq<Fd>)
    ensures
        forall|k: int|
            0 <= k < fds.len() ==> #[trigger] run_allocation_ids(Seq::empty(), fds)[k] == 3 + k,
        forall|i: int, j: int|
            0 <= i < fds.len() && 0 <= j < fds.len() && i != j ==> run_allocation_ids(
                Seq::empty(),
                fds,
            )[i] != run_allocation_ids(Seq::empty(), fds)[j],
{
    assert forall|k: int|
        0 <= k < fds.len() implies #[trigger] run_allocation_ids(Seq::empty(), fds)[k] == 3
        + k by {
        lemma_run_allocation_ids_at(Seq::empty(), fds, k);
    }
}

} // verus!
