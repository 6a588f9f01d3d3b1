use vstd::prelude::*;

use crate::errors::AccessError;
use crate::port::{OsPort, RawRead, RawWrite};

verus! {

/// How a raw read outcome is judged: an OS-reported failure carries the
/// platform error code, a byte count different from the requested size is a
/// size mismatch, and only a full-length success yields the copied word.
pub open spec fn classify_read(size: u32, raw: RawRead) -> Result<u32, AccessError> {
    if !raw.status {
        Err(AccessError::OsError { code: raw.err_code })
    } else if raw.byte_count != size {
        Err(AccessError::SizeMismatch { expected: size, got: raw.byte_count })
    } else {
        Ok(raw.value)
    }
}

/// How a raw write outcome is judged, symmetric to [`classify_read`].
pub open spec fn classify_write(size: u32, raw: RawWrite) -> Result<(), AccessError> {
    if !raw.status {
        Err(AccessError::OsError { code: raw.err_code })
    } else if raw.byte_count != size {
        Err(AccessError::SizeMismatch { expected: size, got: raw.byte_count })
    } else {
        Ok(())
    }
}

/// Judge the outcome the OS boundary reported for a read of `size` bytes.
/// For every possible outcome, the result is exactly [`classify_read`]: a
/// partial copy never yields a value.
pub fn finish_read(size: u32, raw: RawRead) -> (r: Result<u32, AccessError>)
    ensures
        r == classify_read(size, raw),
{
    if !raw.status {
        Err(AccessError::OsError { code: raw.err_code })
    } else if raw.byte_count != size {
        Err(AccessError::SizeMismatch { expected: size, got: raw.byte_count })
    } else {
        Ok(raw.value)
    }
}

/// Judge the outcome the OS boundary reported for a write of `size` bytes.
pub fn finish_write(size: u32, raw: RawWrite) -> (r: Result<(), AccessError>)
    ensures
        r == classify_write(size, raw),
{
    if !raw.status {
        Err(AccessError::OsError { code: raw.err_code })
    } else if raw.byte_count != size {
        Err(AccessError::SizeMismatch { expected: size, got: raw.byte_count })
    } else {
        Ok(())
    }
}

/// Typed read primitive: copy exactly `size` bytes from `addr` in the target
/// process into a local word.
///
/// A zero size is a contract violation and fails with `InvalidArgument`
/// before the OS boundary is ever invoked. Otherwise exactly one OS read is
/// issued and its outcome is judged by [`classify_read`]; a returned value is
/// always the word the port's memory model holds at `addr`.
pub fn read_memory<P: OsPort>(port: &mut P, handle: u32, addr: u32, size: u32) -> (r: Result<
    u32,
    AccessError,
>)
    ensures
        final(port).mem() == old(port).mem(),
        final(port).write_calls() == old(port).write_calls(),
        final(port).enum_calls() == old(port).enum_calls(),
        final(port).close_calls() == old(port).close_calls(),
        final(port).open_handles() == old(port).open_handles(),
        size == 0 ==> final(port).read_calls() == old(port).read_calls(),
        size != 0 ==> final(port).read_calls() == old(port).read_calls() + 1,
        (r == Err::<u32, AccessError>(AccessError::InvalidArgument)) <==> size == 0,
        r matches Ok(v) ==> final(port).mem().dom().contains(addr) && v == final(port).mem()[addr],
        r matches Err(e) ==> (e matches AccessError::InvalidArgument || e
            matches AccessError::SizeMismatch { .. } || e matches AccessError::OsError { .. }),
{
    if size == 0 {
        return Err(AccessError::InvalidArgument);
    }
    let raw = port.read_mem(handle, addr, size);
    finish_read(size, raw)
}

/// Typed write primitive: copy exactly `size` bytes of a local word to `addr`
/// in the target process.
///
/// A zero size fails with `InvalidArgument` before the OS boundary is
/// invoked. Otherwise exactly one OS write is issued and judged by
/// [`classify_write`]; on success the port's memory model holds `value` at
/// `addr`, and on any failure it is unchanged.
pub fn write_memory<P: OsPort>(
    port: &mut P,
    handle: u32,
    addr: u32,
    value: u32,
    size: u32,
) -> (r: Result<(), AccessError>)
    ensures
        final(port).read_calls() == old(port).read_calls(),
        final(port).enum_calls() == old(port).enum_calls(),
        final(port).close_calls() == old(port).close_calls(),
        final(port).open_handles() == old(port).open_handles(),
        size == 0 ==> final(port).write_calls() == old(port).write_calls(),
        size != 0 ==> final(port).write_calls() == old(port).write_calls() + 1,
        (r == Err::<(), AccessError>(AccessError::InvalidArgument)) <==> size == 0,
        r matches Ok(_) ==> final(port).mem() == old(port).mem().insert(addr, value),
        r matches Err(e) ==> final(port).mem() == old(port).mem() && (e
            matches AccessError::InvalidArgument || e matches AccessError::SizeMismatch { .. } || e
            matches AccessError::OsError { .. }),
{
    if size == 0 {
        return Err(AccessError::InvalidArgument);
    }
    let raw = port.write_mem(handle, addr, value, size);
    finish_write(size, raw)
}

} // verus!
