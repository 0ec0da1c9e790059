//! The view of a whole boot sector.

use vstd::prelude::*;
use vstd::slice::slice_subrange;

use crate::entry::PartitionEntry;
use crate::error::DecodeError;
use crate::layout::{
    BOOT_SIGNATURE_OFFSET, ENTRY_COUNT, ENTRY_SIZE, MBR_SIZE, PARTITION_TABLE_OFFSET,
    UNUSED_SIZE, entry_region, signature_region, unused_region,
};

verus! {

/// A 512-byte Master Boot Record, borrowed from the caller's buffer.
///
/// The sector holds 446 bytes of bootstrap code, four 16-byte partition
/// entries, and a two-byte boot signature. None of it is validated: every
/// 512-byte pattern is a structurally valid record.
#[derive(Debug, Clone, Copy)]
pub struct GenericMbr<'a> {
    bytes: &'a [u8],
}

impl<'a> View for GenericMbr<'a> {
    type V = Seq<u8>;

    /// The raw 512 bytes of the sector.
    closed spec fn view(&self) -> Seq<u8> {
        self.bytes@
    }
}

impl<'a> GenericMbr<'a> {
    #[verifier::type_invariant]
    spec fn inv(&self) -> bool {
        self.bytes@.len() == MBR_SIZE
    }

    /// Views `bytes` as a boot record; fails unless it is exactly 512 bytes long.
    pub fn from_bytes(bytes: &'a [u8]) -> (r: Result<GenericMbr<'a>, DecodeError>)
        ensures
            r is Ok <==> bytes@.len() == MBR_SIZE,
            r matches Ok(m) ==> m@ == bytes@,
            r matches Err(err) ==> err == (DecodeError::SizeMismatch {
                expected: MBR_SIZE,
                actual: bytes@.len() as usize,
            }),
    {
        if bytes.len() == MBR_SIZE {
            Ok(GenericMbr { bytes })
        } else {
            Err(DecodeError::SizeMismatch { expected: MBR_SIZE, actual: bytes.len() })
        }
    }

    /// The whole sector, exactly as it stands in the buffer.
    pub fn as_bytes(&self) -> (r: &'a [u8])
        ensures
            r@ == self@,
            r@.len() == MBR_SIZE,
    {
        proof {
            use_type_invariant(self);
        }
        self.bytes
    }

    /// The bootstrap region, never interpreted.
    pub fn unused(&self) -> (r: &'a [u8])
        ensures
            r@ == unused_region(self@),
    {
        proof {
            use_type_invariant(self);
        }
        slice_subrange(self.bytes, 0, UNUSED_SIZE)
    }

    /// The boot signature, conventionally `0x55 0xAA`; not checked.
    pub fn boot_signature(&self) -> (r: &'a [u8])
        ensures
            r@ == signature_region(self@),
    {
        proof {
            use_type_invariant(self);
        }
        slice_subrange(self.bytes, BOOT_SIGNATURE_OFFSET, MBR_SIZE)
    }

    /// The four partition entries, in slot order, whatever they hold.
    pub fn partition_entries(&self) -> (r: [PartitionEntry<'a>; 4])
        ensures
            r@.len() == ENTRY_COUNT,
            forall|i: int| 0 <= i < ENTRY_COUNT ==> (#[trigger] r@[i])@ == entry_region(self@, i),
    {
        proof {
            use_type_invariant(self);
        }
        let first = PartitionEntry::at(self.bytes, PARTITION_TABLE_OFFSET);
        let second = PartitionEntry::at(self.bytes, PARTITION_TABLE_OFFSET + ENTRY_SIZE);
        let third = PartitionEntry::at(self.bytes, PARTITION_TABLE_OFFSET + 2 * ENTRY_SIZE);
        let fourth = PartitionEntry::at(self.bytes, PARTITION_TABLE_OFFSET + 3 * ENTRY_SIZE);
        let r = [first, second, third, fourth];
        assert(r@[0] == first && r@[1] == second && r@[2] == third && r@[3] == fourth);
        r
    }
}

} // verus!
