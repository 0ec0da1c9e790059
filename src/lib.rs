//! A read-only, zero-copy view of the Master Boot Record partition table.
//!
//! A [`GenericMbr`] borrows a 512-byte sector and hands out the four
//! [`PartitionEntry`] records of its partition table, each a borrowed view of
//! 16 bytes. Integer fields are stored little-endian and converted when read.
//! Nothing is copied, and every 512-byte pattern is a structurally valid MBR.

mod endian;
pub mod error;
pub mod layout;
pub mod entry;
pub mod mbr;

pub use entry::PartitionEntry;
pub use error::DecodeError;
pub use mbr::GenericMbr;

