use crate::error::CoreError;
use vstd::arithmetic::div_mod::{lemma_fundamental_div_mod, lemma_mod_multiples_basic};
use vstd::prelude::*;

verus! {

/// Alignment, in bytes, that the runtime requires of a compiled model's buffer.
pub const ALIGN_OF_MOC: i32 = 64;

/// Alignment, in bytes, that the runtime requires of a model instance's buffer.
pub const ALIGN_OF_MODEL: i32 = 16;

/// The verdict on a buffer handed to the runtime: its length as the runtime's
/// 32-bit size, or why it cannot be handed over.
pub open spec fn buffer_verdict(addr: usize, len: usize, align: usize) -> Result<u32, CoreError> {
    if addr % align != 0 {
        Err(CoreError::InvalidAlignment)
    } else if len > u32::MAX {
        Err(CoreError::BufferTooLarge)
    } else {
        Ok(len as u32)
    }
}

/// Number of bytes to skip from `addr` to reach the next multiple of `align`.
pub fn align_padding(addr: usize, align: usize) -> (r: usize)
    requires
        align > 0,
    ensures
        r < align,
        (addr + r) % (align as int) == 0,
        addr % align == 0 ==> r == 0,
{
    let rem: usize = addr % align;
    if rem == 0 {
        0
    } else {
        proof {
            lemma_fundamental_div_mod(addr as int, align as int);
            let q: int = addr as int / align as int;
            assert(addr as int + (align - rem) == (q + 1) * align) by (nonlinear_arith)
                requires
                    addr as int == align * q + rem,
            ;
            lemma_mod_multiples_basic(q + 1, align as int);
        }
        align - rem
    }
}

/// Length of an allocation large enough to hold `len` bytes at an address
/// aligned to `align`, wherever the allocation itself starts; `None` where
/// that length does not fit in `usize`.
pub fn aligned_alloc_len(len: usize, align: usize) -> (r: Option<usize>)
    requires
        align > 0,
    ensures
        len + align - 1 <= usize::MAX ==> r == Some((len + align - 1) as usize),
        len + align - 1 > usize::MAX ==> r is None,
{
    len.checked_add(align - 1)
}

fn check_buffer(addr: usize, len: usize, align: usize) -> (r: Result<u32, CoreError>)
    requires
        align > 0,
    ensures
        r == buffer_verdict(addr, len, align),
{
    if addr % align != 0 {
        Err(CoreError::InvalidAlignment)
    } else if len > u32::MAX as usize {
        Err(CoreError::BufferTooLarge)
    } else {
        Ok(len as u32)
    }
}

/// Checks a compiled model's buffer, at `addr` and `len` bytes long, before it
/// is revived in place: it must start on an `ALIGN_OF_MOC` boundary and its
/// length must fit the runtime's size parameter.
pub fn check_moc_buffer(addr: usize, len: usize) -> (r: Result<u32, CoreError>)
    ensures
        r == buffer_verdict(addr, len, ALIGN_OF_MOC as usize),
        r is Err <==> (addr % (ALIGN_OF_MOC as usize) != 0 || len > u32::MAX),
        r matches Ok(n) ==> n as int == len as int,
{
    check_buffer(addr, len, ALIGN_OF_MOC as usize)
}

/// Checks the buffer a model instance is initialised in: it must start on an
/// `ALIGN_OF_MODEL` boundary and its length must fit the runtime's size parameter.
pub fn check_model_buffer(addr: usize, len: usize) -> (r: Result<u32, CoreError>)
    ensures
        r == buffer_verdict(addr, len, ALIGN_OF_MODEL as usize),
        r is Err <==> (addr % (ALIGN_OF_MODEL as usize) != 0 || len > u32::MAX),
        r matches Ok(n) ==> n as int == len as int,
{
    check_buffer(addr, len, ALIGN_OF_MODEL as usize)
}

} // verus!
