use vstd::prelude::*;

verus! {

/// The value a native count query returns when the table does not apply.
pub const NOT_APPLICABLE: i32 = -1;

/// Whether a raw count from the runtime stands for "no such table".
pub open spec fn is_count_absent(raw: i32) -> bool {
    raw < 0
}

/// Turns a raw count into an explicit absence or a non-negative count.
///
/// The runtime signals "not applicable" with `NOT_APPLICABLE`; no negative
/// value is ever passed on as a count.
pub fn decode_count(raw: i32) -> (r: Option<u32>)
    ensures
        raw == NOT_APPLICABLE ==> r is None,
        r is None <==> is_count_absent(raw),
        !is_count_absent(raw) ==> r == Some(raw as u32),
        r matches Some(n) ==> n as int == raw as int,
{
    if raw < 0 {
        None
    } else {
        Some(raw as u32)
    }
}

} // verus!
