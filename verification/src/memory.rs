//! The remote memory access layer.
//!
//! A host never dereferences a guest address. To write guest memory it
//! acquires a [`MemoryView`] over a [`TypedPluginPtr`]: a staging buffer of
//! the region's size, held exclusively by the acquiring call. Acquisition
//! only checks that the extent is representable and pays for no read, since
//! the buffer is meant to be fully overwritten; whether the range is
//! actually mapped in the guest is checked when the view is committed, the
//! one step that mutates guest memory. Dropping a view instead discards it
//! and leaves the guest untouched.

use vstd::prelude::*;

use crate::random::stream;
use crate::random::RandomSource;
use crate::syscall_types::TypedPluginPtr;

verus! {

/// Why a guest range could not be used: its extent is not representable in
/// the address space (`OutOfBounds`), or it is not fully resident in the
/// target process (`Unmapped`). Handlers collapse both into the syscall's
/// invalid-address failure.
#[derive(Clone, Copy, PartialEq, Eq, Structural, Debug)]
pub enum MemoryAccessError {
    OutOfBounds,
    Unmapped,
}

/// Whether a region of `count` bytes at `base` lies within the guest
/// address space at all.
pub open spec fn extent_ok(base: u64, count: nat) -> bool {
    base + count <= u64::MAX
}

/// Whether the `n` bytes at address `a` fall inside a mapping of `len`
/// bytes based at `base`; an empty range needs no mapping.
pub open spec fn range_in(base: u64, len: nat, a: int, n: int) -> bool {
    n == 0 || (base <= a && a + n <= base + len)
}

/// `mem` with `bytes` written at offset `off` and all else unchanged.
pub open spec fn write_range(mem: Seq<u8>, off: int, bytes: Seq<u8>) -> Seq<u8> {
    Seq::new(
        mem.len(),
        |i: int| if off <= i && i < off + bytes.len() { bytes[i - off] } else { mem[i] },
    )
}

/// The `n` bytes of `mem` starting at offset `off`.
pub open spec fn read_range(mem: Seq<u8>, off: int, n: nat) -> Seq<u8> {
    Seq::new(n, |i: int| mem[off + i])
}

/// One guest process's memory: a single contiguous mapping. Its view is
/// the mapped bytes; `spec_base` is the guest address of the first one.
pub struct ProcessMemory {
    base: u64,
    data: Vec<u8>,
}

impl View for ProcessMemory {
    type V = Seq<u8>;

    closed spec fn view(&self) -> Seq<u8> {
        self.data@
    }
}

impl ProcessMemory {
    /// The mapping never reaches past the end of the address space.
    #[verifier::type_invariant]
    spec fn inv(&self) -> bool {
        self.base + self.data@.len() <= u64::MAX
    }

    /// The guest address at which the mapping starts.
    pub closed spec fn spec_base(&self) -> u64 {
        self.base
    }

    /// Whether `n` bytes at guest address `a` are fully mapped here.
    pub open spec fn range_mapped(&self, a: int, n: int) -> bool {
        range_in(self.spec_base(), self@.len(), a, n)
    }

    /// A fresh mapping of `size` zeroed bytes at guest address `base`.
    pub fn new(base: u64, size: usize) -> (m: ProcessMemory)
        requires
            base + size <= u64::MAX,
        ensures
            m.spec_base() == base,
            m@ == Seq::new(size as nat, |i: int| 0u8),
    {
        ProcessMemory { base, data: zeroed(size) }
    }

    /// Borrows the region `ptr` for exclusive writing, without reading it:
    /// on success the view's staging buffer has the region's size and
    /// unspecified content. Fails only on an unrepresentable extent;
    /// residency is checked at commit.
    pub fn acquire_mutable_uninit(&self, ptr: TypedPluginPtr) -> (r: Result<
        MemoryView,
        MemoryAccessError,
    >)
        ensures
            extent_ok(ptr.spec_base(), ptr.spec_count() as nat) ==> (r matches Ok(v)
                && v.spec_base() == ptr.spec_base() && v@.len() == ptr.spec_count()),
            !extent_ok(ptr.spec_base(), ptr.spec_count() as nat) ==> r == Err::<
                MemoryView,
                MemoryAccessError,
            >(MemoryAccessError::OutOfBounds),
    {
        let base = ptr.base().val();
        let count = ptr.count();
        if (count as u64) <= u64::MAX - base {
            Ok(MemoryView { base, staging: zeroed(count) })
        } else {
            Err(MemoryAccessError::OutOfBounds)
        }
    }

    /// Reads the `ptr.count()` bytes at `ptr` out of the mapping; fails,
    /// without reading anything, when the range is not fully mapped.
    pub fn read_bytes(&self, ptr: TypedPluginPtr) -> (r: Result<Vec<u8>, MemoryAccessError>)
        ensures
            self.range_mapped(ptr.spec_base() as int, ptr.spec_count() as int) ==> (r matches Ok(v)
                && v@ == read_range(
                self@,
                ptr.spec_base() - self.spec_base(),
                ptr.spec_count() as nat,
            )),
            !self.range_mapped(ptr.spec_base() as int, ptr.spec_count() as int) ==> (r matches Err(
                e,
            ) && (e == MemoryAccessError::OutOfBounds <==> !extent_ok(
                ptr.spec_base(),
                ptr.spec_count() as nat,
            ))),
    {
        proof {
            use_type_invariant(&*self);
        }
        let base = ptr.base().val();
        let count = ptr.count();
        if count == 0 {
            let v: Vec<u8> = Vec::new();
            proof {
                assert(v@ =~= read_range(self@, base - self.spec_base(), 0));
            }
            return Ok(v);
        }
        if !((count as u64) <= u64::MAX - base) {
            return Err(MemoryAccessError::OutOfBounds);
        }
        if base < self.base {
            return Err(MemoryAccessError::Unmapped);
        }
        let off64 = base - self.base;
        let dlen = self.data.len();
        if off64 > dlen as u64 || count as u64 > dlen as u64 - off64 {
            return Err(MemoryAccessError::Unmapped);
        }
        let off = off64 as usize;
        let mut v: Vec<u8> = Vec::new();
        let mut i: usize = 0;
        while i < count
            invariant
                i <= count,
                dlen == self.data@.len(),
                off + count <= dlen,
                v@ == read_range(self@, off as int, i as nat),
            decreases count - i,
        {
            let b = self.data[off + i];
            v.push(b);
            proof {
                assert(v@ =~= read_range(self@, off as int, (i + 1) as nat));
            }
            i = i + 1;
        }
        Ok(v)
    }
}

/// A scoped, exclusive, staged view over one guest range. Writes land in a
/// host-local staging buffer; only `commit` copies them into the guest.
pub struct MemoryView {
    base: u64,
    staging: Vec<u8>,
}

impl View for MemoryView {
    type V = Seq<u8>;

    closed spec fn view(&self) -> Seq<u8> {
        self.staging@
    }
}

impl MemoryView {
    /// The guest address the staged bytes are destined for.
    pub closed spec fn spec_base(&self) -> u64 {
        self.base
    }

    /// Overwrites the whole staging buffer with `bytes`.
    pub fn write(&mut self, bytes: &Vec<u8>)
        requires
            bytes@.len() == old(self)@.len(),
        ensures
            final(self)@ == bytes@,
            final(self).spec_base() == old(self).spec_base(),
    {
        let n = bytes.len();
        let mut i: usize = 0;
        while i < n
            invariant
                i <= n,
                n == bytes@.len(),
                self@.len() == n,
                self.spec_base() == old(self).spec_base(),
                forall|j: int| 0 <= j < i ==> self@[j] == bytes@[j],
            decreases n - i,
        {
            let b = bytes[i];
            self.staging[i] = b;
            i = i + 1;
        }
        proof {
            assert(self@ =~= bytes@);
        }
    }

    /// Fills the whole staging buffer from the host's deterministic source,
    /// advancing its cursor by the buffer's length.
    pub fn fill_from(&mut self, src: &mut RandomSource)
        ensures
            final(self)@ == stream(old(src).seed(), old(src).cursor(), old(self)@.len()),
            final(self).spec_base() == old(self).spec_base(),
            final(src).seed() == old(src).seed(),
            final(src).cursor() == old(src).cursor() + old(self)@.len(),
    {
        src.draw_bytes(&mut self.staging);
    }

    /// Copies the staging buffer into the guest at the view's address: the
    /// only guest-visible effect a view can have, taken at most once since
    /// it consumes the view. Fails, leaving the guest unchanged, when the
    /// range is not fully mapped; an empty view always commits.
    pub fn commit(self, mem: &mut ProcessMemory) -> (r: Result<(), MemoryAccessError>)
        ensures
            final(mem).spec_base() == old(mem).spec_base(),
            old(mem).range_mapped(self.spec_base() as int, self@.len() as int) ==> (r == Ok::<
                (),
                MemoryAccessError,
            >(()) && final(mem)@ == write_range(
                old(mem)@,
                self.spec_base() - old(mem).spec_base(),
                self@,
            )),
            !old(mem).range_mapped(self.spec_base() as int, self@.len() as int) ==> (r == Err::<
                (),
                MemoryAccessError,
            >(MemoryAccessError::Unmapped) && final(mem)@ == old(mem)@),
    {
        proof {
            use_type_invariant(&*mem);
        }
        let count = self.staging.len();
        if count == 0 {
            proof {
                assert(old(mem)@ =~= write_range(
                    old(mem)@,
                    self.spec_base() - old(mem).spec_base(),
                    self@,
                ));
            }
            return Ok(());
        }
        if self.base < mem.base {
            return Err(MemoryAccessError::Unmapped);
        }
        let off64 = self.base - mem.base;
        let dlen = mem.data.len();
        if off64 > dlen as u64 || count as u64 > dlen as u64 - off64 {
            return Err(MemoryAccessError::Unmapped);
        }
        let off = off64 as usize;
        let mut i: usize = 0;
        while i < count
            invariant
                i <= count,
                count == self@.len(),
                off == self.spec_base() - mem.spec_base(),
                off + count <= dlen,
                dlen == mem@.len(),
                mem.spec_base() == old(mem).spec_base(),
                mem@.len() == old(mem)@.len(),
                mem.spec_base() + mem@.len() <= u64::MAX,
                forall|j: int| 0 <= j < i ==> mem@[off + j] == self@[j],
                forall|a: int|
                    0 <= a < mem@.len() && !(off <= a < off + i) ==> mem@[a] == old(mem)@[a],
            decreases count - i,
        {
            let b = self.staging[i];
            mem.data[off + i] = b;
            i = i + 1;
        }
        proof {
            assert(mem@ =~= write_range(old(mem)@, self.spec_base() - old(mem).spec_base(), self@));
        }
        Ok(())
    }
}

/// A vector of `n` zero bytes.
fn zeroed(n: usize) -> (v: Vec<u8>)
    ensures
        v@ == Seq::new(n as nat, |i: int| 0u8),
{
    let mut v: Vec<u8> = Vec::new();
    while v.len() < n
        invariant
            v@.len() <= n,
            v@ == Seq::new(v@.len(), |i: int| 0u8),
        decreases n - v@.len(),
    {
        v.push(0);
        proof {
            assert(v@ =~= Seq::new(v@.len(), |i: int| 0u8));
        }
    }
    v
}

} // verus!
