//! Deterministic guest-memory and randomness core for a syscall-emulating
//! simulation host.
//!
//! A host intercepts a guest's system calls and services them itself. This
//! library provides the pieces that make one such call, `getrandom`,
//! reproducible: an address-space-relative pointer type that the host can
//! never dereference directly, a staged view over guest memory with an
//! explicit commit step, and a per-host random byte source whose output is a
//! pure function of its seed and of how many bytes were drawn before.

pub mod handler;
pub mod host;
pub mod memory;
pub mod random;
pub mod syscall_types;

pub use handler::SyscallHandler;

pub use host::Host;
pub use host::Process;
pub use host::SyscallContext;

pub use memory::MemoryAccessError;
pub use memory::MemoryView;
pub use memory::ProcessMemory;

pub use random::RandomSource;

pub use syscall_types::PluginPtr;
pub use syscall_types::SyscallError;
pub use syscall_types::SyscallResult;
pub use syscall_types::TypedPluginPtr;
