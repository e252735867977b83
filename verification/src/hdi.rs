//! The ATA/HDI identification block: its field layout and the byte checksum
//! that guards it.

use vstd::prelude::*;

verus! {

/// Block number of the Samara partition table.
pub const SHDD_PT_SEC: usize = 1;

/// Word offset of the default boot device.
pub const SHDD_BOOT_W: usize = 0;

/// Word offset of the cylinder volume (heads times sectors).
pub const SHDD_CYLVOL_W: usize = 1;

/// Word offset of the sectors-per-track and last-head word.
pub const SHDD_HEAD_SEC_W: usize = 2;

/// Word offset of the partition table.
pub const SHDD_PART_W: usize = 3;

/// Byte offset of the default boot device.
pub const SHDD_BOOT_B: usize = 0;

/// Byte offset of the cylinder volume.
pub const SHDD_CYLVOL_B: usize = 2;

/// Byte offset of the sectors-per-track byte.
pub const SHDD_SEC_B: usize = 4;

/// Byte offset of the last-head byte.
pub const SHDD_HEAD_B: usize = 5;

/// Byte offset of the partition table.
pub const SHDD_PART_B: usize = 6;

/// Word offset of a logical disk's number in its first block.
pub const SHDD_NLD_W: usize = 0;

/// Word offset of a logical disk's size in blocks.
pub const SHDD_LD_LEN_W: usize = 1;

/// Word offset of a logical disk's flags.
pub const SHDD_LD_FLAGS_W: usize = 2;

/// Word offset of the loader's load address.
pub const SHDD_ADR_BOOT_W: usize = 3;

/// Word offset of the loader's parameter block address.
pub const SHHD_ADR_PAR_W: usize = 4;

/// Word offset of the page-register state.
pub const SHDD_PAGE_W: usize = 5;

/// The ATA identification block, word for word.
#[derive(Debug)]
pub struct HDILayout {
    pub main_config: u16,
    pub cylinders: u16,
    pub word2: u16,
    pub heads: u16,
    pub raw_bytes_per_track: u16,
    pub raw_bytes_per_sector: u16,
    pub sectors: u16,
    pub reserved7: [u16; 3],
    pub serial_number: [u8; 20],
    pub buffer_type: u16,
    pub buffer_size_in_sectors: u16,
    pub ecc_bytes_num: u16,
    pub fw_version: [u8; 8],
    pub model_name: [u8; 40],
    pub word47: u16,
    pub word48: u16,
    pub capabilities1: u16,
    pub capabilities2: u16,
    pub reserved51: [u16; 6],
    pub capacity_in_sectors: u32,
    pub reserved59: u16,
    pub total_used_sectors: u32,
    pub reserved62: [u16; 193],
    /// Must be 0xa5 for the checksum byte to count.
    pub checksum_magic: u8,
    pub checksum: u8,
}

impl Default for HDILayout {
    fn default() -> (r: Self)
        ensures
            r.main_config == 0x045a,
            r.cylinders == 0,
            r.word2 == 0xc837,
            r.heads == 0,
            r.raw_bytes_per_track == 0,
            r.raw_bytes_per_sector == 0,
            r.sectors == 0,
            r.buffer_type == 1,
            r.buffer_size_in_sectors == 1,
            r.ecc_bytes_num == 4,
            r.word47 == 0x8001,
            r.word48 == 0,
            r.capabilities1 == 0x200,
            r.capabilities2 == 0x4000,
            r.capacity_in_sectors == 0,
            r.reserved59 == 0,
            r.total_used_sectors == 0,
            r.checksum_magic == 0,
            r.checksum == 0,
            forall|i: int| 0 <= i < 20 ==> r.serial_number@[i] == 0,
            forall|i: int| 0 <= i < 8 ==> r.fw_version@[i] == 0,
            forall|i: int| 0 <= i < 40 ==> r.model_name@[i] == 0,
            forall|i: int| 0 <= i < 3 ==> r.reserved7@[i] == 0,
            forall|i: int| 0 <= i < 6 ==> r.reserved51@[i] == 0,
            forall|i: int| 0 <= i < 193 ==> r.reserved62@[i] == 0,
    {
        HDILayout {
            main_config: 0x045a,
            cylinders: 0,
            word2: 0xc837,
            heads: 0,
            raw_bytes_per_track: 0,
            raw_bytes_per_sector: 0,
            sectors: 0,
            reserved7: [0; 3],
            serial_number: [0; 20],
            buffer_type: 1,
            buffer_size_in_sectors: 1,
            ecc_bytes_num: 4,
            fw_version: [0; 8],
            model_name: [0; 40],
            word47: 0x8001,
            word48: 0,
            capabilities1: 0x200,
            capabilities2: 0x4000,
            reserved51: [0; 6],
            capacity_in_sectors: 0,
            reserved59: 0,
            total_used_sectors: 0,
            reserved62: [0; 193],
            checksum_magic: 0,
            checksum: 0,
        }
    }
}

/// The sum of the bytes of `s`.
pub open spec fn byte_sum(s: Seq<u8>) -> int
    decreases s.len(),
{
    if s.len() == 0 {
        0
    } else {
        byte_sum(s.drop_last()) + s.last()
    }
}

/// An ATA identification disk image: the decoded block and its raw bytes.
pub struct HDI {
    /// Path of the image, kept for the caller's sake.
    file_name: String,
    /// The decoded identification block.
    meta: HDILayout,
    /// The raw block bytes.
    raw: [u8; 512],
}

impl HDI {
    /// The path the image was named by.
    pub closed spec fn path(&self) -> Seq<char> {
        self.file_name@
    }

    /// The raw block bytes.
    pub closed spec fn raw_view(&self) -> Seq<u8> {
        self.raw@
    }

    pub fn new() -> (r: Self)
        ensures
            r.path() == Seq::<char>::empty(),
            forall|i: int| 0 <= i < 512 ==> r.raw_view()[i] == 0,
    {
        HDI { file_name: String::new(), meta: HDILayout::default(), raw: [0; 512] }
    }

    /// The byte that balances the block: added to the sum of the block's
    /// first 511 bytes, everything cancels modulo 256.
    pub fn checksum(&self) -> (r: u8)
        ensures
            (r + byte_sum(self.raw_view().take(511))) % 256 == 0,
    {
        let mut sum: u8 = 0;
        let mut i: usize = 0;
        while i < 511
            invariant
                i <= 511,
                sum == byte_sum(self.raw_view().take(i as int)) % 256,
            decreases 511 - i,
        {
            proof {
                assert(self.raw_view().take(i + 1).drop_last() =~= self.raw_view().take(i as int));
                assert(self.raw_view().take(i + 1).last() == self.raw_view()[i as int]);
                lemma_byte_sum_bounds(self.raw_view().take(i as int));
            }
            sum = (((sum as u16) + (self.raw[i] as u16)) % 256) as u8;
            i += 1;
        }
        proof {
            lemma_byte_sum_bounds(self.raw_view().take(511));
        }
        (((256 - (sum as u16)) % 256) as u8)
    }
}

/// A byte sum is never negative.
pub proof fn lemma_byte_sum_bounds(s: Seq<u8>)
    ensures
        byte_sum(s) >= 0,
    decreases s.len(),
{
    if s.len() > 0 {
        lemma_byte_sum_bounds(s.drop_last());
    }
}

} // verus!
