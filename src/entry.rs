//! The view of a single partition table slot.

use vstd::prelude::*;
use vstd::slice::slice_subrange;

use crate::endian::read_le_u32;
use crate::error::DecodeError;
use crate::layout::{
    ENTRY_SIZE, LBA_OFFSET, MBR_SIZE, SECTOR_COUNT_OFFSET, TYPE_OFFSET, entry_is_empty, entry_sector_len,
    entry_start_sector, entry_type,
};

verus! {

/// One 16-byte slot of the partition table, borrowed from the caller's buffer.
///
/// Layout: status (1 byte), first CHS address (3), partition type (1),
/// last CHS address (3), starting sector (4, little-endian), sector count
/// (4, little-endian). Fields are read on demand; nothing is copied.
#[derive(Debug, Clone, Copy)]
pub struct PartitionEntry<'a> {
    bytes: &'a [u8],
}

impl<'a> View for PartitionEntry<'a> {
    type V = Seq<u8>;

    /// The raw 16 bytes of the entry.
    closed spec fn view(&self) -> Seq<u8> {
        self.bytes@
    }
}

impl<'a> PartitionEntry<'a> {
    #[verifier::type_invariant]
    spec fn inv(&self) -> bool {
        self.bytes@.len() == ENTRY_SIZE
    }

    /// Views `bytes` as a partition entry; fails unless it is exactly 16 bytes long.
    pub fn from_bytes(bytes: &'a [u8]) -> (r: Result<PartitionEntry<'a>, DecodeError>)
        ensures
            r is Ok <==> bytes@.len() == ENTRY_SIZE,
            r matches Ok(e) ==> e@ == bytes@,
            r matches Err(err) ==> err == (DecodeError::SizeMismatch {
                expected: ENTRY_SIZE,
                actual: bytes@.len() as usize,
            }),
    {
        if bytes.len() == ENTRY_SIZE {
            Ok(PartitionEntry { bytes })
        } else {
            Err(DecodeError::SizeMismatch { expected: ENTRY_SIZE, actual: bytes.len() })
        }
    }

    /// Views the entry at `offset` of a larger buffer.
    pub(crate) fn at(bytes: &'a [u8], offset: usize) -> (r: PartitionEntry<'a>)
        requires
            offset + ENTRY_SIZE <= bytes@.len(),
            offset <= MBR_SIZE,
        ensures
            r@ == bytes@.subrange(offset as int, offset + ENTRY_SIZE),
    {
        PartitionEntry { bytes: slice_subrange(bytes, offset, offset + ENTRY_SIZE) }
    }

    /// The raw bytes of the entry, exactly as they stand in the buffer.
    pub fn as_bytes(&self) -> (r: &'a [u8])
        ensures
            r@ == self@,
            r@.len() == ENTRY_SIZE,
    {
        proof {
            use_type_invariant(self);
        }
        self.bytes
    }

    /// Whether the slot is free, which is the case exactly when its type code
    /// is zero; no other field is looked at.
    pub fn is_empty(&self) -> (r: bool)
        ensures
            r == entry_is_empty(self@),
    {
        self.partition_type() == 0x00
    }

    /// The raw partition type code, not checked against any table of known types.
    pub fn partition_type(&self) -> (r: u8)
        ensures
            r == entry_type(self@),
    {
        proof {
            use_type_invariant(self);
        }
        self.bytes[TYPE_OFFSET]
    }

    /// The first sector of the partition, read from a little-endian field.
    pub fn start_sector(&self) -> (r: u32)
        ensures
            r as int == entry_start_sector(self@),
    {
        self.le_u32_at(LBA_OFFSET)
    }

    /// The number of sectors in the partition, read from a little-endian field.
    pub fn sector_len(&self) -> (r: u32)
        ensures
            r as int == entry_sector_len(self@),
    {
        self.le_u32_at(SECTOR_COUNT_OFFSET)
    }

    fn le_u32_at(&self, offset: usize) -> (r: u32)
        requires
            offset + 4 <= ENTRY_SIZE,
        ensures
            r as int == crate::layout::le_u32_value(self@.subrange(offset as int, offset + 4)),
    {
        proof {
            use_type_invariant(self);
        }
        let b = self.bytes;
        let field: [u8; 4] = [b[offset], b[offset + 1], b[offset + 2], b[offset + 3]];
        assert(field@ =~= self@.subrange(offset as int, offset + 4));
        read_le_u32(field)
    }
}

} // verus!
