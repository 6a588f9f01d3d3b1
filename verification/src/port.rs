use vstd::prelude::*;

use vstd::multiset::Multiset;

verus! {

/// Raw outcome of one cross-process memory read, exactly as the OS reports
/// it: a success flag, the platform error code when the call failed, the byte
/// count the OS claims to have copied, and the word that was copied.
#[derive(Clone, Copy, Debug, PartialEq, Eq, Structural)]
pub struct RawRead {
    pub status: bool,
    pub err_code: u32,
    pub byte_count: u32,
    pub value: u32,
}

/// Raw outcome of one cross-process memory write: a success flag, the
/// platform error code when the call failed, and the byte count the OS claims
/// to have copied into the target.
#[derive(Clone, Copy, Debug, PartialEq, Eq, Structural)]
pub struct RawWrite {
    pub status: bool,
    pub err_code: u32,
    pub byte_count: u32,
}

/// The process query surface the core consumes from the operating system.
///
/// A port carries a model of the target's memory: `mem()` maps each readable
/// virtual address to the 32-bit word stored there. The contracts promise
/// nothing about when a call succeeds — the OS decides that — only that a
/// read which reports success with the requested byte count returned the
/// modelled word, and that a successful full-length write updates the model.
/// The model treats the target's memory as stable while a call sequence runs,
/// which is the same assumption the poll loop itself makes within one tick.
///
/// The call tallies (`read_calls`, `write_calls`, `enum_calls`,
/// `close_calls`) count how often the boundary was crossed, so that callers
/// can state that an access was never attempted. `open_handles()` is the
/// multiset of handles this port has handed out and not yet been asked to
/// release: a function that leaks no probe handle leaves it unchanged.
pub trait OsPort: Sized {
    /// The word stored at each readable address of the target process.
    /// The default model is overridden by every port the library reasons
    /// about; a port outside the library need not model its memory.
    open spec fn mem(&self) -> Map<u32, u32> {
        Map::empty()
    }

    /// How many memory reads have been issued to the OS.
    open spec fn read_calls(&self) -> nat {
        0
    }

    /// How many memory writes have been issued to the OS.
    open spec fn write_calls(&self) -> nat {
        0
    }

    /// How many process enumerations have been issued to the OS.
    open spec fn enum_calls(&self) -> nat {
        0
    }

    /// How many handle releases have been issued to the OS.
    open spec fn close_calls(&self) -> nat {
        0
    }

    /// The handles handed out by `open_process` whose release has not yet
    /// been requested through `close_handle`.
    open spec fn open_handles(&self) -> Multiset<u32> {
        Multiset::empty()
    }

    /// The process identifiers the OS reports, in enumeration order; stable
    /// across the calls of one tick, as the memory model is.
    open spec fn proc_pids(&self) -> Seq<u32> {
        Seq::empty()
    }

    /// Read `len` bytes at `addr` inside the target process, given an open
    /// handle.
    fn read_mem(&mut self, handle: u32, addr: u32, len: u32) -> (r: RawRead)
        ensures
            final(self).mem() == old(self).mem(),
            final(self).read_calls() == old(self).read_calls() + 1,
            final(self).write_calls() == old(self).write_calls(),
            final(self).enum_calls() == old(self).enum_calls(),
            final(self).close_calls() == old(self).close_calls(),
            final(self).open_handles() == old(self).open_handles(),
            final(self).proc_pids() == old(self).proc_pids(),
            r.status && r.byte_count == len ==> final(self).mem().dom().contains(addr) && r.value
                == final(self).mem()[addr],
    ;

    /// Write `len` bytes of `value` at `addr` inside the target process.
    fn write_mem(&mut self, handle: u32, addr: u32, value: u32, len: u32) -> (r: RawWrite)
        ensures
            final(self).read_calls() == old(self).read_calls(),
            final(self).write_calls() == old(self).write_calls() + 1,
            final(self).enum_calls() == old(self).enum_calls(),
            final(self).close_calls() == old(self).close_calls(),
            final(self).open_handles() == old(self).open_handles(),
            final(self).proc_pids() == old(self).proc_pids(),
            r.status && r.byte_count == len ==> final(self).mem() == old(self).mem().insert(
                addr,
                value,
            ),
            !(r.status && r.byte_count == len) ==> final(self).mem() == old(self).mem(),
    ;

    /// List the identifiers of every process currently visible to the caller.
    /// A catastrophic OS failure yields an empty list.
    fn enum_pids(&mut self) -> (r: Vec<u32>)
        ensures
            final(self).mem() == old(self).mem(),
            final(self).read_calls() == old(self).read_calls(),
            final(self).write_calls() == old(self).write_calls(),
            final(self).enum_calls() == old(self).enum_calls() + 1,
            final(self).close_calls() == old(self).close_calls(),
            final(self).open_handles() == old(self).open_handles(),
            final(self).proc_pids() == old(self).proc_pids(),
            r@ == final(self).proc_pids(),
    ;

    /// Open a handle to process `pid` with the given access rights. Returns
    /// the OS invalid-handle sentinel `0` on failure; a returned non-zero
    /// handle is recorded as open until `close_handle` is asked to release
    /// it.
    fn open_process(&mut self, pid: u32, access: u32) -> (h: u32)
        ensures
            final(self).mem() == old(self).mem(),
            final(self).read_calls() == old(self).read_calls(),
            final(self).write_calls() == old(self).write_calls(),
            final(self).enum_calls() == old(self).enum_calls(),
            final(self).close_calls() == old(self).close_calls(),
            final(self).proc_pids() == old(self).proc_pids(),
            h != 0 ==> final(self).open_handles() == old(self).open_handles().insert(h),
            h == 0 ==> final(self).open_handles() == old(self).open_handles(),
    ;

    /// Release a handle obtained from `open_process`. Exactly one OS release
    /// is issued per call, for the given handle.
    fn close_handle(&mut self, handle: u32)
        ensures
            final(self).mem() == old(self).mem(),
            final(self).read_calls() == old(self).read_calls(),
            final(self).write_calls() == old(self).write_calls(),
            final(self).enum_calls() == old(self).enum_calls(),
            final(self).close_calls() == old(self).close_calls() + 1,
            final(self).open_handles() == old(self).open_handles().remove(handle),
            final(self).proc_pids() == old(self).proc_pids(),
    ;

    /// Resolve the image file path of the process behind `handle`, or `None`
    /// when the process cannot be named.
    fn image_path(&mut self, handle: u32) -> (r: Option<String>)
        ensures
            final(self).mem() == old(self).mem(),
            final(self).read_calls() == old(self).read_calls(),
            final(self).write_calls() == old(self).write_calls(),
            final(self).enum_calls() == old(self).enum_calls(),
            final(self).close_calls() == old(self).close_calls(),
            final(self).open_handles() == old(self).open_handles(),
            final(self).proc_pids() == old(self).proc_pids(),
    ;
}

} // verus!
