//! Pointer and result types of the syscall calling convention.

use vstd::prelude::*;

verus! {

/// The errno-style code a handler reports when a guest-supplied address
/// range is not a valid destination ("bad address", EFAULT).
pub const EFAULT: i64 = 14;

/// An address meaningful only inside one guest process's address space.
///
/// The host never dereferences it; it is an opaque numeric handle that only
/// the remote memory access layer can turn into readable or writable bytes.
#[derive(Clone, Copy, PartialEq, Eq, Structural, Debug)]
pub struct PluginPtr {
    val: u64,
}

impl PluginPtr {
    /// The raw guest address this pointer stands for.
    pub closed spec fn spec_val(self) -> u64 {
        self.val
    }

    pub fn new(val: u64) -> (p: PluginPtr)
        ensures
            p.spec_val() == val,
    {
        PluginPtr { val }
    }

    /// Returns the raw guest address; it may be stored or compared, never
    /// dereferenced by the host.
    pub fn val(self) -> (v: u64)
        ensures
            v == self.spec_val(),
    {
        self.val
    }
}

/// A `PluginPtr` together with the byte length of the guest region it
/// refers to.
///
/// The region must not be assumed valid until the memory access layer
/// checks it; this type only fixes the extent.
#[derive(Clone, Copy, PartialEq, Eq, Structural, Debug)]
pub struct TypedPluginPtr {
    base: PluginPtr,
    count: usize,
}

impl TypedPluginPtr {
    /// The guest address where the region starts.
    pub closed spec fn spec_base(self) -> u64 {
        self.base.spec_val()
    }

    /// The byte length of the region.
    pub closed spec fn spec_count(self) -> usize {
        self.count
    }

    /// A region of `count` single-byte elements starting at `base`.
    pub fn new(base: PluginPtr, count: usize) -> (p: TypedPluginPtr)
        ensures
            p.spec_base() == base.spec_val(),
            p.spec_count() == count,
    {
        TypedPluginPtr { base, count }
    }

    /// A region of `count` elements of `elem_size` bytes each; rejects a
    /// total byte length that does not fit in `usize`, before any
    /// acquisition can be attempted.
    pub fn new_counted(base: PluginPtr, count: usize, elem_size: usize) -> (r: Option<
        TypedPluginPtr,
    >)
        ensures
            count * elem_size <= usize::MAX ==> (r matches Some(p) && p.spec_base()
                == base.spec_val() && p.spec_count() == count * elem_size),
            count * elem_size > usize::MAX ==> r is None,
    {
        if let Some(total) = count.checked_mul(elem_size) {
            Some(TypedPluginPtr { base, count: total })
        } else {
            None
        }
    }

    pub fn base(self) -> (p: PluginPtr)
        ensures
            p.spec_val() == self.spec_base(),
    {
        self.base
    }

    pub fn count(self) -> (c: usize)
        ensures
            c == self.spec_count(),
    {
        self.count
    }
}

/// The one guest-visible failure this core produces: the destination range
/// was not a valid, fully accessible region of the calling process.
#[derive(Clone, Copy, PartialEq, Eq, Structural, Debug)]
pub enum SyscallError {
    /// The address range was invalid; reported to the guest as EFAULT.
    BadAddress,
}

impl SyscallError {
    /// The negative errno-convention return value for this failure.
    pub fn to_retval(self) -> (r: i64)
        ensures
            r == -EFAULT,
    {
        match self {
            SyscallError::BadAddress => -EFAULT,
        }
    }
}

/// What a syscall handler returns: the call's numeric result on success, or
/// the guest-visible failure on error.
pub type SyscallResult = Result<i64, SyscallError>;

} // verus!
