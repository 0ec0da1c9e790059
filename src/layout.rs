//! The fixed on-disk layout of the boot sector and of a partition entry,
//! with the spec functions that give each field its meaning.

use vstd::prelude::*;

verus! {

/// Size in bytes of the whole boot sector.
pub const MBR_SIZE: usize = 512;

/// Size in bytes of the bootstrap region at the start of the sector.
pub const UNUSED_SIZE: usize = 446;

/// Offset of the first partition entry (it follows the bootstrap region).
pub const PARTITION_TABLE_OFFSET: usize = 446;

/// Size in bytes of one partition entry.
pub const ENTRY_SIZE: usize = 16;

/// Number of partition entries in the table.
pub const ENTRY_COUNT: usize = 4;

/// Offset of the two-byte boot signature at the end of the sector.
pub const BOOT_SIGNATURE_OFFSET: usize = 510;

/// Offset of the partition type byte within an entry.
pub const TYPE_OFFSET: usize = 4;

/// Offset of the little-endian starting sector within an entry.
pub const LBA_OFFSET: usize = 8;

/// Offset of the little-endian sector count within an entry.
pub const SECTOR_COUNT_OFFSET: usize = 12;

/// The unsigned value of four bytes read least significant first.
pub open spec fn le_u32_value(b: Seq<u8>) -> int {
    b[0] as int + 0x100 * (b[1] as int) + 0x1_0000 * (b[2] as int) + 0x100_0000 * (b[3] as int)
}

/// The partition type code of an entry's bytes.
pub open spec fn entry_type(e: Seq<u8>) -> u8 {
    e[TYPE_OFFSET as int]
}

/// A slot is free exactly when its type code is zero.
pub open spec fn entry_is_empty(e: Seq<u8>) -> bool {
    entry_type(e) == 0
}

/// The starting sector recorded in an entry's bytes.
pub open spec fn entry_start_sector(e: Seq<u8>) -> int {
    le_u32_value(e.subrange(LBA_OFFSET as int, LBA_OFFSET + 4))
}

/// The sector count recorded in an entry's bytes.
pub open spec fn entry_sector_len(e: Seq<u8>) -> int {
    le_u32_value(e.subrange(SECTOR_COUNT_OFFSET as int, SECTOR_COUNT_OFFSET + 4))
}

/// The bootstrap region of a sector.
pub open spec fn unused_region(m: Seq<u8>) -> Seq<u8> {
    m.subrange(0, UNUSED_SIZE as int)
}

/// The bytes of partition slot `i` of a sector.
pub open spec fn entry_region(m: Seq<u8>, i: int) -> Seq<u8> {
    m.subrange(
        PARTITION_TABLE_OFFSET + ENTRY_SIZE * i,
        PARTITION_TABLE_OFFSET + ENTRY_SIZE * i + ENTRY_SIZE,
    )
}

/// The boot signature of a sector.
pub open spec fn signature_region(m: Seq<u8>) -> Seq<u8> {
    m.subrange(BOOT_SIGNATURE_OFFSET as int, MBR_SIZE as int)
}

/// Any 512-byte sector is exactly its bootstrap region, then partition slots
/// 0 to 3 in order, then its boot signature: reading the regions back and
/// putting them end to end gives the input, byte for byte, with each region
/// the slice at its fixed offset.
pub proof fn lemma_sector_reassembles(m: Seq<u8>)
    requires
        m.len() == MBR_SIZE,
    ensures
        unused_region(m).len() == UNUSED_SIZE,
        forall|i: int| 0 <= i < ENTRY_COUNT ==> (#[trigger] entry_region(m, i)).len() == ENTRY_SIZE,
        signature_region(m).len() == 2,
        unused_region(m) + entry_region(m, 0) + entry_region(m, 1) + entry_region(m, 2)
            + entry_region(m, 3) + signature_region(m) == m,
{
    assert(unused_region(m) + entry_region(m, 0) + entry_region(m, 1) + entry_region(m, 2)
        + entry_region(m, 3) + signature_region(m) =~= m);
}

/// Whether a slot is free depends on its type byte alone: two entries with
/// the same type code agree on emptiness, whatever their other fields hold.
pub proof fn lemma_emptiness_reads_type_only(a: Seq<u8>, b: Seq<u8>)
    requires
        a.len() == ENTRY_SIZE,
        b.len() == ENTRY_SIZE,
        a[TYPE_OFFSET as int] == b[TYPE_OFFSET as int],
    ensures
        entry_is_empty(a) == entry_is_empty(b),
        entry_is_empty(a) <==> a[TYPE_OFFSET as int] == 0,
{
}

} // verus!
