//! What the loader hands to the kernel: the firmware's memory map, as a
//! cursor over fixed-size descriptor records.

use vstd::prelude::*;

verus! {

/// Bytes from one memory descriptor to the next.
pub const DESCRIPTOR_STRIDE: u64 = 40;

/// `size_of` the `uefi` crate's `MemoryDescriptor`: a 32-bit type with four
/// bytes of padding, then four 64-bit fields, laid out as in C.
#[verifier::external_body]
fn descriptor_size() -> (size: u64)
    ensures
        size == DESCRIPTOR_STRIDE,
{
    core::mem::size_of::<uefi::table::boot::MemoryDescriptor>() as u64
}

/// Where a cursor stands: the address of the next record, and how many
/// records are left.
pub struct Cursor {
    pub addr: int,
    pub remaining: nat,
}

/// A forward-only cursor over the memory descriptors that the firmware
/// reported. One pass uses it up; a copy taken before starts a new pass.
#[derive(Debug, Clone, Copy)]
pub struct MemoryMap {
    mem_desc: u64,
    len: u64,
}

/// One step of a cursor: the address it yields, if any record is left, and
/// where it stands afterwards. A cursor with nothing left stays as it is.
pub open spec fn step(c: Cursor) -> (Option<int>, Cursor) {
    if c.remaining != 0 {
        (
            Some(c.addr),
            Cursor { addr: c.addr + DESCRIPTOR_STRIDE, remaining: (c.remaining - 1) as nat },
        )
    } else {
        (None, c)
    }
}

/// The addresses that a cursor yields until it has nothing left.
pub open spec fn drain(c: Cursor) -> Seq<int>
    decreases c.remaining,
{
    match step(c).0 {
        Some(addr) => seq![addr] + drain(step(c).1),
        None => Seq::empty(),
    }
}

/// Where a cursor stands after it has yielded everything.
pub open spec fn drained(c: Cursor) -> Cursor
    decreases c.remaining,
{
    if step(c).0 is Some {
        drained(step(c).1)
    } else {
        c
    }
}

impl View for MemoryMap {
    type V = Cursor;

    closed spec fn view(&self) -> Cursor {
        Cursor { addr: self.mem_desc as int, remaining: self.len as nat }
    }
}

impl MemoryMap {
    #[verifier::type_invariant]
    spec fn inv(self) -> bool {
        self.mem_desc + self.len * DESCRIPTOR_STRIDE <= u64::MAX
    }

    /// A cursor over `len` descriptors of which the first is at address
    /// `mem_desc`. The records must lie inside the address space.
    pub fn new(mem_desc: u64, len: u64) -> (map: Self)
        requires
            mem_desc + len * DESCRIPTOR_STRIDE <= u64::MAX,
        ensures
            map@ == (Cursor { addr: mem_desc as int, remaining: len as nat }),
    {
        MemoryMap { mem_desc, len }
    }

    /// A cursor like that of `new`, or `None` if the records would not lie
    /// inside the address space.
    pub fn try_new(mem_desc: u64, len: u64) -> (map: Option<Self>)
        ensures
            match map {
                Some(m) => mem_desc + len * DESCRIPTOR_STRIDE <= u64::MAX && m@ == (Cursor {
                    addr: mem_desc as int,
                    remaining: len as nat,
                }),
                None => mem_desc + len * DESCRIPTOR_STRIDE > u64::MAX,
            },
    {
        if len <= (u64::MAX - mem_desc) / DESCRIPTOR_STRIDE {
            Some(MemoryMap::new(mem_desc, len))
        } else {
            None
        }
    }

    /// Yields the address of the next descriptor and moves on by one record;
    /// `None`, and no change, once all have been yielded.
    pub fn next(&mut self) -> (item: Option<u64>)
        ensures
            final(self)@ == step(old(self)@).1,
            match item {
                Some(addr) => step(old(self)@).0 == Some(addr as int),
                None => step(old(self)@).0 is None,
            },
    {
        proof {
            use_type_invariant(&*self);
        }
        if self.len != 0 {
            let ptr = self.mem_desc;
            let stride = descriptor_size();
            assert(self.mem_desc + stride + (self.len - 1) * DESCRIPTOR_STRIDE <= u64::MAX);
            self.len = self.len - 1;
            self.mem_desc = self.mem_desc + stride;
            Some(ptr)
        } else {
            None
        }
    }
}

/// A cursor over `n` records yields exactly `n` addresses, the first one its
/// own and each further one a stride after the one before. Then it has
/// nothing left: another pass yields nothing.
pub proof fn lemma_drain(c: Cursor)
    ensures
        drain(c).len() == c.remaining,
        forall|k: int| 0 <= k < c.remaining ==> #[trigger] drain(c)[k] == c.addr + k * DESCRIPTOR_STRIDE,
        forall|k: int| 0 < k < c.remaining ==> #[trigger] drain(c)[k] == drain(c)[k - 1] + DESCRIPTOR_STRIDE,
        drained(c) == (Cursor { addr: c.addr + c.remaining * DESCRIPTOR_STRIDE, remaining: 0 }),
        step(drained(c)) == (None::<int>, drained(c)),
        drain(drained(c)).len() == 0,
    decreases c.remaining,
{
    if c.remaining != 0 {
        let rest = step(c).1;
        lemma_drain(rest);
        assert forall|k: int| 0 <= k < c.remaining implies #[trigger] drain(c)[k] == c.addr + k
            * DESCRIPTOR_STRIDE by {
            if k > 0 {
                assert(drain(c)[k] == drain(rest)[k - 1]);
            }
        }
    }
}

/// The handle that the kernel receives from the loader.
#[derive(Debug, Clone, Copy)]
pub struct BootInfo {
    mmap: MemoryMap,
}

impl View for BootInfo {
    type V = Cursor;

    closed spec fn view(&self) -> Cursor {
        self.mmap@
    }
}

impl BootInfo {
    /// Wraps a memory map.
    pub fn new(mmap: MemoryMap) -> (info: Self)
        ensures
            info@ == mmap@,
    {
        BootInfo { mmap }
    }

    /// The memory map, as it stood when it was wrapped.
    pub fn mmap(&self) -> (mmap: &MemoryMap)
        ensures
            mmap@ == self@,
    {
        &self.mmap
    }
}

} // verus!
