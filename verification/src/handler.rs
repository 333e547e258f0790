//! The syscall handlers, and what each call does to the guest.
//!
//! One handler is provided: `getrandom`. Its whole effect — result value,
//! new stream cursor, new guest memory — is the mathematical function
//! [`getrandom_outcome`] of the call's inputs and the pre-call state, which
//! is what makes simulation runs reproducible. The laws the simulator
//! depends on are stated and proved over that function below.

use vstd::prelude::*;

use crate::host::SyscallContext;
use crate::memory::extent_ok;
use crate::memory::range_in;
use crate::memory::write_range;
use crate::random::stream;
use crate::random::stream_byte;
use crate::syscall_types::PluginPtr;
use crate::syscall_types::SyscallError;
use crate::syscall_types::SyscallResult;
use crate::syscall_types::TypedPluginPtr;

verus! {

/// Everything one `getrandom` call does, as a function of the pre-call
/// state: the guest mapping (`base`, `mem`), the host's random stream
/// (`seed`, `cursor`), and the call's arguments. It yields the call's
/// result, the stream cursor after the call, and the guest memory after the
/// call. `flags` is accepted and ignored: the source never blocks, so the
/// blocking and non-blocking variants coincide.
///
/// An unrepresentable extent is rejected before anything is drawn; any
/// other invalid destination is noticed only when the staged bytes are
/// copied back, after the stream has already advanced by `count` — that
/// asymmetry is deliberate, so that the stream position depends only on
/// successful acquisitions, never on commit outcomes.
pub open spec fn getrandom_outcome(
    base: u64,
    mem: Seq<u8>,
    seed: u64,
    cursor: nat,
    buf: u64,
    count: nat,
    flags: u32,
) -> (SyscallResult, nat, Seq<u8>) {
    if !extent_ok(buf, count) {
        (Err(SyscallError::BadAddress), cursor, mem)
    } else if !range_in(base, mem.len(), buf as int, count as int) {
        (Err(SyscallError::BadAddress), (cursor + count) as nat, mem)
    } else {
        (
            Ok(count as i64),
            (cursor + count) as nat,
            write_range(mem, buf - base, stream(seed, cursor, count)),
        )
    }
}

/// The dispatch surface: the syscall handlers a host's dispatch layer
/// invokes once it has decoded a trap's arguments.
pub struct SyscallHandler {}

impl SyscallHandler {
    /// Serves the guest's request for `count` random bytes at `buf_ptr`:
    /// stages the next `count` bytes of the host's deterministic stream and
    /// commits them into the calling process's memory. Returns `count` on
    /// success and the invalid-address failure otherwise, exactly as
    /// [`getrandom_outcome`] says. `count` is bounded so that the result is
    /// representable in the syscall return convention.
    pub fn getrandom(
        ctx: &mut SyscallContext,
        buf_ptr: PluginPtr,
        count: usize,
        flags: u32,
    ) -> (r: SyscallResult)
        requires
            count <= i64::MAX,
        ensures
            ({
                let (res, cur, mem) = getrandom_outcome(
                    old(ctx).process.memory.spec_base(),
                    old(ctx).process.memory@,
                    old(ctx).host.random.seed(),
                    old(ctx).host.random.cursor(),
                    buf_ptr.spec_val(),
                    count as nat,
                    flags,
                );
                &&& r == res
                &&& final(ctx).host.random.cursor() == cur
                &&& final(ctx).process.memory@ == mem
            }),
            final(ctx).host.random.seed() == old(ctx).host.random.seed(),
            final(ctx).process.memory.spec_base() == old(ctx).process.memory.spec_base(),
    {
        let dst_ptr = TypedPluginPtr::new(buf_ptr, count);
        let memory = ctx.process.memory_borrow_mut();
        let mut mem_ref = match memory.acquire_mutable_uninit(dst_ptr) {
            Ok(m) => m,
            Err(_) => {
                return Err(SyscallError::BadAddress);
            },
        };
        let rng = ctx.host.random_mut();
        mem_ref.fill_from(rng);
        match mem_ref.commit(&mut ctx.process.memory) {
            Ok(()) => Ok(count as i64),
            Err(_) => Err(SyscallError::BadAddress),
        }
    }
}

/// For a valid destination — representable extent, fully mapped range —
/// the call returns `count`, advances the stream by `count` bytes, and the
/// destination then holds exactly the next `count` bytes of the host's
/// stream, with all other guest memory unchanged.
pub proof fn lemma_valid_destination(
    base: u64,
    mem: Seq<u8>,
    seed: u64,
    cursor: nat,
    buf: u64,
    count: nat,
    flags: u32,
)
    requires
        count <= i64::MAX,
        extent_ok(buf, count),
        range_in(base, mem.len(), buf as int, count as int),
    ensures
        ({
            let (res, cur, mem2) = getrandom_outcome(base, mem, seed, cursor, buf, count, flags);
            &&& res == Ok::<i64, SyscallError>(count as i64)
            &&& cur == cursor + count
            &&& mem2.len() == mem.len()
            &&& forall|i: int|
                0 <= i < count ==> #[trigger] mem2[buf - base + i] == stream_byte(
                    seed,
                    (cursor + i) as nat,
                )
            &&& forall|a: int|
                0 <= a < mem.len() && !(buf - base <= a < buf - base + count) ==> mem2[a] == mem[a]
        }),
{
}

/// Determinism: runs that start from the same seed, the same cursor and the
/// same guest mapping and issue the same call see the very same result,
/// cursor and memory — the outcome is a function of the listed state alone,
/// with no other source of variation.
pub proof fn lemma_deterministic(
    base1: u64,
    mem1: Seq<u8>,
    seed1: u64,
    cursor1: nat,
    base2: u64,
    mem2: Seq<u8>,
    seed2: u64,
    cursor2: nat,
    buf: u64,
    count: nat,
    flags: u32,
)
    requires
        base1 == base2,
        mem1 == mem2,
        seed1 == seed2,
        cursor1 == cursor2,
    ensures
        getrandom_outcome(base1, mem1, seed1, cursor1, buf, count, flags) == getrandom_outcome(
            base2,
            mem2,
            seed2,
            cursor2,
            buf,
            count,
            flags,
        ),
{
}

/// The arguments of one `getrandom` call, for stating laws about whole
/// call sequences.
pub struct GetrandomCall {
    pub buf: u64,
    pub count: nat,
    pub flags: u32,
}

/// The trace of a whole run: the outcomes of `calls`, issued in order
/// against one host, each seeing the cursor and guest memory the previous
/// call left behind. Yields the per-call results, the final cursor and the
/// final guest memory.
pub open spec fn run_calls(
    base: u64,
    mem: Seq<u8>,
    seed: u64,
    cursor: nat,
    calls: Seq<GetrandomCall>,
) -> (Seq<SyscallResult>, nat, Seq<u8>)
    decreases calls.len(),
{
    if calls.len() == 0 {
        (Seq::empty(), cursor, mem)
    } else {
        let (res0, cur0, mem0) = getrandom_outcome(
            base,
            mem,
            seed,
            cursor,
            calls[0].buf,
            calls[0].count,
            calls[0].flags,
        );
        let (rest, cur1, mem1) = run_calls(base, mem0, seed, cur0, calls.drop_first());
        (seq![res0] + rest, cur1, mem1)
    }
}

/// Determinism over whole runs: two independent runs that are seeded
/// identically, start from the same guest mapping and issue the same
/// sequence of calls produce the same results and byte-identical guest
/// memory, call for call.
pub proof fn lemma_run_deterministic(
    base1: u64,
    mem1: Seq<u8>,
    seed1: u64,
    base2: u64,
    mem2: Seq<u8>,
    seed2: u64,
    calls: Seq<GetrandomCall>,
)
    requires
        base1 == base2,
        mem1 == mem2,
        seed1 == seed2,
    ensures
        run_calls(base1, mem1, seed1, 0, calls) == run_calls(base2, mem2, seed2, 0, calls),
{
}

/// An invalid destination whose extent is still representable: the call
/// fails with the invalid-address error and the guest memory is untouched,
/// but the random stream has still advanced by `count` bytes — the draw
/// happened and is not rolled back.
pub proof fn lemma_invalid_destination(
    base: u64,
    mem: Seq<u8>,
    seed: u64,
    cursor: nat,
    buf: u64,
    count: nat,
    flags: u32,
)
    requires
        extent_ok(buf, count),
        !range_in(base, mem.len(), buf as int, count as int),
    ensures
        ({
            let (res, cur, mem2) = getrandom_outcome(base, mem, seed, cursor, buf, count, flags);
            &&& res == Err::<i64, SyscallError>(SyscallError::BadAddress)
            &&& cur == cursor + count
            &&& mem2 == mem
        }),
{
}

/// Flags independence: two calls that differ only in their `flags` value
/// have identical outcomes — the same result, the same cursor, the same
/// guest memory.
pub proof fn lemma_flags_ignored(
    base: u64,
    mem: Seq<u8>,
    seed: u64,
    cursor: nat,
    buf: u64,
    count: nat,
    flags1: u32,
    flags2: u32,
)
    ensures
        getrandom_outcome(base, mem, seed, cursor, buf, count, flags1) == getrandom_outcome(
            base,
            mem,
            seed,
            cursor,
            buf,
            count,
            flags2,
        ),
{
}

/// A zero-byte request always succeeds with result `0`, whatever address
/// it names: it needs no mapping, draws nothing and leaves both the stream
/// cursor and the guest memory exactly as they were.
pub proof fn lemma_zero_count(
    base: u64,
    mem: Seq<u8>,
    seed: u64,
    cursor: nat,
    buf: u64,
    flags: u32,
)
    ensures
        getrandom_outcome(base, mem, seed, cursor, buf, 0, flags) == (
            Ok::<i64, SyscallError>(0),
            cursor,
            mem,
        ),
{
    assert(write_range(mem, buf - base, stream(seed, cursor, 0)) =~= mem);
}

} // verus!
