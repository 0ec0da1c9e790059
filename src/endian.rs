//! Little-endian integer fields, read through zerocopy.

use vstd::prelude::*;

use crate::layout::le_u32_value;

verus! {

/// Relies on zerocopy's `little_endian::U32`: `from_bytes` keeps the four
/// bytes as given, and `get` turns them into a `u32` with
/// `u32::from_le_bytes`, least significant byte first.
#[verifier::external_body]
pub(crate) fn read_le_u32(bytes: [u8; 4]) -> (r: u32)
    ensures
        r as int == le_u32_value(bytes@),
{
    zerocopy::little_endian::U32::from_bytes(bytes).get()
}

} // verus!
