//! The AltPro hard-disk partition table: one 512-byte block, written from its
//! end toward the front and stored bit-inverted, guarded by a rolling 16-bit
//! checksum.

use vstd::prelude::*;

use crate::io::{invert_seq, BinInvertedReader, ByteCursor, ReverseReader};
use crate::{u16le, BLOCK_SIZE};
use vstd::string::StringExecFns;

verus! {

/// Block number of the AltPro partition table.
pub const AHDD_PT_SEC: usize = 7;

/// Byte offset of the first partition record.
pub const AHDD_PART_B: usize = 0o766;

/// Byte offset of the count of logical disks.
pub const AHDD_LOGD_B: usize = 0o770;

/// Byte offset of the byte of unknown meaning, carried opaquely.
pub const AHDD_UNI_B: usize = 0o771;

/// Byte offset of the sectors-per-track word.
pub const AHDD_SEC_B: usize = 0o772;

/// Byte offset of the head count.
pub const AHDD_HEAD_B: usize = 0o774;

/// Byte offset of the boot-drive byte.
pub const AHDD_DRV_B: usize = 0o775;

/// Byte offset of the cylinder-count word.
pub const AHDD_CYL_B: usize = 0o776;

/// Initial value of the rolling checksum.
pub const AHDD_CS_INIT: u16 = 0o12701;

/// Number of header words covered by the checksum.
pub const AHDD_HEADER_WORDS: usize = 4;

/// Everything that can go wrong while decoding the partition table.
#[derive(Debug, PartialEq, Eq, Structural)]
pub enum AHDDError {
    /// No writable handle is at hand.
    FhMut,
    /// No readable handle is at hand.
    FhRef,
    /// The image path is empty.
    EmptyName,
    /// The table block could not be read whole; holds how many bytes came.
    ReadHeaderSize(usize),
    /// The stored checksum (first) does not match the computed one (second).
    CheckSum(u16, u16),
    /// Something else: a record count or geometry the block cannot carry.
    Unknown,
}

/// One partition record: two little-endian words.
#[derive(Debug, Copy, Clone, PartialEq, Eq, Structural)]
pub struct AHDDPattionEntrie {
    /// Cylinder in the upper twelve bits, head in the lower four; a set top
    /// bit marks the partition protected and complements the rest.
    pub cyl_head: u16,
    /// Size in blocks.
    pub blocks: u16,
}

/// The decoded table block: header words, partition records, checksum.
#[derive(Debug)]
pub struct AHDDLayout {
    /// Cylinder count.
    pub cylinders: u16,
    /// Boot drive.
    pub drv: u8,
    /// Head count.
    pub heads: u8,
    /// Sectors per track.
    pub sectors: u16,
    /// Meaning unknown; carried opaquely.
    pub uni: u8,
    /// Count of partition records.
    pub partitions: u8,
    /// The partition records, first record first.
    pub part_entries: Vec<AHDDPattionEntrie>,
    /// The stored checksum word.
    pub checksum: u16,
}

impl AHDDLayout {
    pub fn new() -> (r: Self)
        ensures
            r.cylinders == 0,
            r.drv == 0,
            r.heads == 0,
            r.sectors == 0,
            r.uni == 0,
            r.partitions == 0,
            r.part_entries@ == Seq::<AHDDPattionEntrie>::empty(),
            r.checksum == 0,
    {
        AHDDLayout {
            cylinders: 0,
            drv: 0,
            heads: 0,
            sectors: 0,
            uni: 0,
            partitions: 0,
            part_entries: Vec::new(),
            checksum: 0,
        }
    }
}

/// A partition with its geometry worked out.
#[derive(Debug, Copy, Clone, PartialEq, Eq, Structural)]
pub struct Partition {
    pub start_cylinder: u16,
    pub start_head: u16,
    pub start_sector: u16,
    /// Linear block address of the partition's start.
    pub lba: u32,
    /// Size in blocks.
    pub length: u32,
    /// Linear block address one past the partition's end.
    pub end_block: u32,
    pub end_cylinder: u16,
    pub end_head: u16,
    pub end_sector: u16,
    /// Whether the record's top bit marked the partition protected.
    pub protected: bool,
}

/// Whether the record's top bit marks the partition protected.
pub open spec fn part_protected(cyl_head: u16) -> bool {
    cyl_head >= 0x8000
}

/// The cylinder carried in the upper twelve bits of the record word.
pub open spec fn part_cyl(cyl_head: u16) -> u16 {
    cyl_head / 16
}

/// The head carried in the lower four bits; complemented when protected.
pub open spec fn part_head(cyl_head: u16) -> u16 {
    if part_protected(cyl_head) {
        ((0xFFFF - cyl_head) % 16) as u16
    } else {
        cyl_head % 16
    }
}

/// The partition a record works out to under the given geometry: the linear
/// start is `(cyl * heads + head) * sectors`, the end address splits back
/// into cylinder, head and one-based sector by Euclidean division, and the
/// stored words wrap at their width.
pub open spec fn spec_partition(e: AHDDPattionEntrie, heads: u8, sectors: u16) -> Partition
    recommends
        heads > 0,
        sectors > 0,
{
    let cyl = part_cyl(e.cyl_head) as int;
    let head = part_head(e.cyl_head) as int;
    let lba = ((cyl * heads + head) * sectors) % 0x1_0000_0000;
    let endb = (lba + e.blocks) % 0x1_0000_0000;
    Partition {
        start_cylinder: part_cyl(e.cyl_head),
        start_head: part_head(e.cyl_head),
        start_sector: 1,
        lba: lba as u32,
        length: e.blocks as u32,
        end_block: endb as u32,
        end_cylinder: ((endb / ((heads as int) * (sectors as int))) % 0x1_0000) as u16,
        end_head: ((endb / (sectors as int)) % (heads as int)) as u16,
        end_sector: (endb % (sectors as int) + 1) as u16,
        protected: part_protected(e.cyl_head),
    }
}

/// The partition record at index `i` of the decoded block: records run
/// backward from the header words.
pub open spec fn pt_entry(b: Seq<u8>, i: int) -> AHDDPattionEntrie {
    AHDDPattionEntrie { cyl_head: u16le(b, 502 - 4 * i), blocks: u16le(b, 500 - 4 * i) }
}

/// The sum of the `n` little-endian words that end at byte `end` of `b`,
/// consumed backward.
pub open spec fn words_sum(b: Seq<u8>, end: int, n: nat) -> int
    decreases n,
{
    if n == 0 {
        0
    } else {
        u16le(b, end - 2) + words_sum(b, end - 2, (n - 1) as nat)
    }
}

/// Taking one more word extends the sum by the word just past the consumed
/// ones.
pub proof fn lemma_words_sum_snoc(b: Seq<u8>, end: int, n: nat)
    ensures
        words_sum(b, end, (n + 1) as nat) == words_sum(b, end, n) + u16le(b, end - 2 * (n + 1)),
    decreases n,
{
    if n == 0 {
        assert(words_sum(b, end, 1) == u16le(b, end - 2) + words_sum(b, end - 2, 0));
    } else {
        lemma_words_sum_snoc(b, end - 2, (n - 1) as nat);
        assert(words_sum(b, end, (n + 1) as nat) == u16le(b, end - 2) + words_sum(
            b,
            end - 2,
            n,
        ));
        assert(words_sum(b, end, n) == u16le(b, end - 2) + words_sum(b, end - 2, (n - 1) as nat));
    }
}

/// The checksum the block must carry: the initial value plus every header
/// and record word, wrapped to 16 bits.
pub open spec fn spec_checksum(b: Seq<u8>, nparts: int) -> u16 {
    ((AHDD_CS_INIT + words_sum(b, 512, (AHDD_HEADER_WORDS + 2 * nparts) as nat))
        % 0x1_0000) as u16
}

/// An AltPro-partitioned disk: the decoded table block and what it yields.
pub struct AHDD {
    /// Path of the image, kept for the caller's sake.
    file_name: String,
    /// The table is only ever read.
    read_only: bool,
    /// Byte offset of the disk inside the image.
    offset: u64,
    /// The worked-out partitions, in record order.
    partitions: Vec<Partition>,
    /// The validated checksum.
    checksum: u16,
    /// The decoded table block.
    layout: AHDDLayout,
    /// The decoded (de-inverted) block bytes.
    raw: Vec<u8>,
}

impl AHDD {
    /// The path the disk was named by.
    pub closed spec fn path(&self) -> Seq<char> {
        self.file_name@
    }

    /// Byte offset of the disk inside the image.
    pub closed spec fn spec_offset(&self) -> u64 {
        self.offset
    }

    /// The worked-out partitions.
    pub closed spec fn partitions_view(&self) -> Seq<Partition> {
        self.partitions@
    }

    /// The validated checksum.
    pub closed spec fn spec_checksum_field(&self) -> u16 {
        self.checksum
    }

    /// The decoded table block.
    pub closed spec fn layout_spec(&self) -> AHDDLayout {
        self.layout
    }

    /// The decoded block bytes.
    pub closed spec fn raw_view(&self) -> Seq<u8> {
        self.raw@
    }

    /// The decoded block always spans one block, and its record count always
    /// fits the block.
    #[verifier::type_invariant]
    pub open spec fn inv(&self) -> bool {
        self.raw_view().len() == 512 && self.layout_spec().partitions <= 125
    }

    pub fn new(fname: &str) -> (r: Self)
        ensures
            r.path() == fname@,
            r.spec_offset() == 0,
            r.partitions_view() == Seq::<Partition>::empty(),
            r.spec_checksum_field() == AHDD_CS_INIT,
            r.layout_spec().partitions == 0,
            r.raw_view() == Seq::new(512, |i: int| 0u8),
    {
        let mut raw: Vec<u8> = Vec::new();
        let mut i: usize = 0;
        while i < 512
            invariant
                i <= 512,
                raw@ == Seq::new(i as nat, |j: int| 0u8),
            decreases 512 - i,
        {
            raw.push(0);
            proof {
                assert(raw@ =~= Seq::new((i + 1) as nat, |j: int| 0u8));
            }
            i += 1;
        }
        AHDD {
            file_name: String::from_str(fname),
            read_only: true,
            offset: 0,
            partitions: Vec::new(),
            checksum: AHDD_CS_INIT,
            layout: AHDDLayout::new(),
            raw,
        }
    }

    /// Sets the disk's byte offset inside the image.
    pub fn set_offset(&mut self, offset: u64)
        ensures
            final(self).spec_offset() == offset,
            final(self).path() == old(self).path(),
            final(self).partitions_view() == old(self).partitions_view(),
            final(self).spec_checksum_field() == old(self).spec_checksum_field(),
            final(self).layout_spec() == old(self).layout_spec(),
            final(self).raw_view() == old(self).raw_view(),
    {
        proof {
            use_type_invariant(&*self);
        }
        self.offset = offset;
    }

    /// The absolute byte offset of the partition-table block.
    pub fn pt_offset(&self) -> (r: u64)
        requires
            self.spec_offset() + AHDD_PT_SEC * BLOCK_SIZE <= u64::MAX,
        ensures
            r == self.spec_offset() + AHDD_PT_SEC * BLOCK_SIZE,
    {
        self.offset + (AHDD_PT_SEC * BLOCK_SIZE) as u64
    }

    /// The worked-out partitions, in record order.
    pub fn partitions(&self) -> (r: &Vec<Partition>)
        ensures
            r@ == self.partitions_view(),
    {
        &self.partitions
    }

    /// Decodes the partition-table block from `raw`, the 512 bytes stored at
    /// the table's position of the image (still bit-inverted, as on disk):
    /// reads the header and records back to front, validates the checksum,
    /// and works the partitions out. A short block, a record count the block
    /// cannot carry, or a zero geometry is refused; on a checksum mismatch
    /// the stored word and the computed one are reported. Nothing but the
    /// decoded state changes, and on failure nothing at all.
    pub fn read_header(&mut self, raw: Vec<u8>) -> (r: Result<(), AHDDError>)
        ensures
            final(self).path() == old(self).path(),
            final(self).spec_offset() == old(self).spec_offset(),
            ({
                let b = invert_seq(raw@.take(512));
                let p = b[504] as int;
                let heads = b[508];
                let sectors = u16le(b, 506);
                let stored = u16le(b, 502 - 4 * p);
                if raw@.len() < 512 {
                    r == Err::<(), AHDDError>(AHDDError::ReadHeaderSize(raw@.len() as usize))
                        && *final(self) == *old(self)
                } else if p > 125 || heads == 0 || sectors == 0 {
                    r == Err::<(), AHDDError>(AHDDError::Unknown) && *final(self) == *old(self)
                } else if stored != spec_checksum(b, p) {
                    r == Err::<(), AHDDError>(AHDDError::CheckSum(stored, spec_checksum(b, p)))
                        && *final(self) == *old(self)
                } else {
                    &&& r == Ok::<(), AHDDError>(())
                    &&& final(self).raw_view() == b
                    &&& final(self).spec_checksum_field() == stored
                    &&& final(self).layout_spec().cylinders == u16le(b, 510)
                    &&& final(self).layout_spec().drv == b[509]
                    &&& final(self).layout_spec().heads == heads
                    &&& final(self).layout_spec().sectors == sectors
                    &&& final(self).layout_spec().uni == b[505]
                    &&& final(self).layout_spec().partitions as int == p
                    &&& final(self).layout_spec().checksum == stored
                    &&& final(self).layout_spec().part_entries@ == Seq::new(
                        p as nat,
                        |i: int| pt_entry(b, i),
                    )
                    &&& final(self).partitions_view() == Seq::new(
                        p as nat,
                        |i: int| spec_partition(pt_entry(b, i), heads, sectors),
                    )
                }
            }),
    {
        proof {
            use_type_invariant(&*self);
        }
        let ghost raw_view = raw@;
        let mut inv_reader = BinInvertedReader::new(ByteCursor::new(raw));
        let block = inv_reader.read(512);
        let size = block.len();
        if size != 512 {
            return Err(AHDDError::ReadHeaderSize(size));
        }
        let ghost b = block@;
        proof {
            assert(b =~= invert_seq(raw_view.take(512)));
        }
        let mut rr = ReverseReader::new(ByteCursor::new(block));
        rr.seek(512);
        let cylinders = rr.read_u16_le();
        let drv = rr.read_u8();
        let heads = rr.read_u8();
        let sectors = rr.read_u16_le();
        let uni = rr.read_u8();
        let partitions = rr.read_u8();
        if partitions > 125 || heads == 0 || sectors == 0 {
            return Err(AHDDError::Unknown);
        }
        let p = partitions as usize;
        let mut part_entries: Vec<AHDDPattionEntrie> = Vec::new();
        let mut parts: Vec<Partition> = Vec::new();
        let mut i: usize = 0;
        proof {
            assert(part_entries@ =~= Seq::new(0, |k: int| pt_entry(b, k)));
            assert(parts@ =~= Seq::new(0, |k: int| spec_partition(pt_entry(b, k), heads, sectors)));
        }
        while i < p
            invariant
                i <= p,
                p <= 125,
                heads > 0,
                sectors > 0,
                rr.bytes() == b,
                b.len() == 512,
                rr.spec_pos() == 504 - 4 * i,
                part_entries@ == Seq::new(i as nat, |k: int| pt_entry(b, k)),
                parts@ == Seq::new(
                    i as nat,
                    |k: int| spec_partition(pt_entry(b, k), heads, sectors),
                ),
            decreases p - i,
        {
            let cyl_head = rr.read_u16_le();
            let blocks = rr.read_u16_le();
            let entry = AHDDPattionEntrie { cyl_head, blocks };
            let part = derive_partition(entry, heads, sectors);
            part_entries.push(entry);
            parts.push(part);
            proof {
                assert(part_entries@ =~= Seq::new((i + 1) as nat, |k: int| pt_entry(b, k)));
                assert(parts@ =~= Seq::new(
                    (i + 1) as nat,
                    |k: int| spec_partition(pt_entry(b, k), heads, sectors),
                ));
            }
            i += 1;
        }
        let stored = rr.read_u16_le();
        rr.seek(512);
        let words = AHDD_HEADER_WORDS + 2 * p;
        let computed = compute_checksum(&mut rr, words);
        if stored != computed {
            return Err(AHDDError::CheckSum(stored, computed));
        }
        let layout = AHDDLayout {
            cylinders,
            drv,
            heads,
            sectors,
            uni,
            partitions,
            part_entries,
            checksum: stored,
        };
        self.raw = rr.into_inner().into_inner();
        self.layout = layout;
        self.partitions = parts;
        self.checksum = computed;
        Ok(())
    }

    /// Recomputes the rolling checksum of the stored block and holds it
    /// against the stored word; a mismatch reports the stored word and the
    /// computed one.
    pub fn checksum(&self) -> (r: Result<u16, AHDDError>)
        ensures
            ({
                let cs = spec_checksum(self.raw_view(), self.layout_spec().partitions as int);
                if self.layout_spec().checksum == cs {
                    r == Ok::<u16, AHDDError>(cs)
                } else {
                    r == Err::<u16, AHDDError>(AHDDError::CheckSum(self.layout_spec().checksum, cs))
                }
            }),
    {
        proof {
            use_type_invariant(&*self);
        }
        let mut copy: Vec<u8> = Vec::new();
        let mut i: usize = 0;
        while i < self.raw.len()
            invariant
                i <= self.raw@.len(),
                copy@ == self.raw@.take(i as int),
            decreases self.raw@.len() - i,
        {
            copy.push(self.raw[i]);
            proof {
                assert(copy@ =~= self.raw@.take(i + 1));
            }
            i += 1;
        }
        proof {
            assert(self.raw@.take(self.raw@.len() as int) =~= self.raw@);
        }
        let mut rr = ReverseReader::new(ByteCursor::new(copy));
        rr.seek(512);
        let words = AHDD_HEADER_WORDS + 2 * (self.layout.partitions as usize);
        let cs = compute_checksum(&mut rr, words);
        if self.layout.checksum != cs {
            return Err(AHDDError::CheckSum(self.layout.checksum, cs));
        }
        Ok(cs)
    }
}

/// The partition a record works out to under the given geometry.
fn derive_partition(e: AHDDPattionEntrie, heads: u8, sectors: u16) -> (r: Partition)
    requires
        heads > 0,
        sectors > 0,
    ensures
        r == spec_partition(e, heads, sectors),
{
    let protected = e.cyl_head >= 0x8000;
    let cyl: u16 = e.cyl_head / 16;
    let head: u16 = if protected {
        (0xFFFF - e.cyl_head) % 16
    } else {
        e.cyl_head % 16
    };
    proof {
        assert(cyl <= 4095 && head <= 15);
        assert((cyl as int) * (heads as int) <= 4095 * 255) by (nonlinear_arith)
            requires
                cyl <= 4095,
                heads <= 255,
        ;
        assert(((cyl as int) * (heads as int) + (head as int)) * (sectors as int) <= (1044240
            * 65535)) by (nonlinear_arith)
            requires
                (cyl as int) * (heads as int) + (head as int) <= 1044240,
                sectors <= 65535,
        ;
    }
    let lba64: u64 = (cyl as u64 * heads as u64 + head as u64) * sectors as u64;
    let lba: u32 = (lba64 % 0x1_0000_0000) as u32;
    let endb64: u64 = lba as u64 + e.blocks as u64;
    let endb: u32 = (endb64 % 0x1_0000_0000) as u32;
    proof {
        assert(1 <= (heads as int) * (sectors as int) <= 255 * 65535) by (nonlinear_arith)
            requires
                1 <= heads <= 255,
                1 <= sectors <= 65535,
        ;
    }
    let hs: u32 = heads as u32 * sectors as u32;
    let end_cylinder: u16 = ((endb / hs) % 0x1_0000) as u16;
    let end_head: u16 = ((endb / sectors as u32) % heads as u32) as u16;
    let end_sector: u16 = (endb % sectors as u32 + 1) as u16;
    Partition {
        start_cylinder: cyl,
        start_head: head,
        start_sector: 1,
        lba,
        length: e.blocks as u32,
        end_block: endb,
        end_cylinder,
        end_head,
        end_sector,
        protected,
    }
}

/// Reads `nwords` words backward from the cursor and folds them into the
/// rolling checksum, starting at its initial value and wrapping to 16 bits.
#[verifier::rlimit(60)]
fn compute_checksum(rr: &mut ReverseReader, nwords: usize) -> (r: u16)
    requires
        old(rr).spec_pos() == 512,
        old(rr).bytes().len() == 512,
        2 * nwords <= 512,
    ensures
        final(rr).bytes() == old(rr).bytes(),
        final(rr).spec_pos() == 512 - 2 * nwords,
        r == ((AHDD_CS_INIT + words_sum(old(rr).bytes(), 512, nwords as nat)) % 0x1_0000) as u16,
{
    let mut cs: u16 = AHDD_CS_INIT;
    let mut k: usize = 0;
    while k < nwords
        invariant
            k <= nwords,
            2 * nwords <= 512,
            rr.bytes() == old(rr).bytes(),
            rr.bytes().len() == 512,
            rr.spec_pos() == 512 - 2 * k,
            cs == ((AHDD_CS_INIT + words_sum(old(rr).bytes(), 512, k as nat)) % 0x1_0000) as u16,
        decreases nwords - k,
    {
        let w = rr.read_u16_le();
        proof {
            lemma_words_sum_snoc(old(rr).bytes(), 512, k as nat);
            lemma_words_sum_bounds(old(rr).bytes(), 512, (k + 1) as nat);
        }
        cs = (((cs as u32) + (w as u32)) % 0x1_0000) as u16;
        k += 1;
    }
    cs
}

/// The word sum is never negative.
pub proof fn lemma_words_sum_bounds(b: Seq<u8>, end: int, n: nat)
    ensures
        words_sum(b, end, n) >= 0,
    decreases n,
{
    if n > 0 {
        lemma_words_sum_bounds(b, end - 2, (n - 1) as nat);
    }
}

/// The index each element of a pair-swapped sequence draws from: pairs trade
/// places, and the odd tail element stays put.
pub open spec fn swap_pair_idx(j: int, len: int) -> int {
    if j % 2 == 0 {
        if j + 1 < len {
            j + 1
        } else {
            j
        }
    } else {
        j - 1
    }
}

/// Swaps each pair of neighbouring elements; with an odd length the last
/// element stays where it is.
pub fn swap_pairs<T: Copy>(slice: &[T]) -> (r: Vec<T>)
    ensures
        r@.len() == slice@.len(),
        forall|j: int| 0 <= j < slice@.len() ==> r@[j] == slice@[swap_pair_idx(j, slice@.len() as int)],
{
    let len = slice.len();
    let mut r: Vec<T> = Vec::new();
    let mut i: usize = 0;
    while i + 1 < len
        invariant
            i <= len,
            i % 2 == 0,
            len == slice@.len(),
            r@.len() == i,
            forall|j: int| 0 <= j < i ==> r@[j] == slice@[swap_pair_idx(j, len as int)],
        decreases len - i,
    {
        r.push(slice[i + 1]);
        r.push(slice[i]);
        i += 2;
    }
    if i < len {
        r.push(slice[i]);
    }
    r
}

} // verus!
