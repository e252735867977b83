//! On-disk directory records and their decoded, inode-projected form.

use vstd::prelude::*;

use crate::koi8::spec_name;
use crate::meta::Meta;
use crate::{eff_byte, u16le, DIR_MARKER};

verus! {

/// Semantic status of a directory record.
#[derive(Debug, Copy, Clone, PartialEq, Eq, Structural)]
pub enum DirEntryStatus {
    /// An ordinary file.
    Normal,
    /// A protected file.
    Protected,
    /// A logical disk.
    LogicalDisk,
    /// A subdirectory (not a status MK-DOS itself knows; the marker byte in
    /// the name tells a directory apart, and the status byte then carries the
    /// subdirectory number).
    Directory,
    /// An area recorded as bad blocks.
    BadFile,
    /// A deleted file.
    Deleted,
}

impl DirEntryStatus {
    /// The on-disk status byte this status stands for.
    pub open spec fn spec_code(self) -> u8 {
        match self {
            DirEntryStatus::Normal => 0,
            DirEntryStatus::Protected => 1,
            DirEntryStatus::LogicalDisk => 2,
            DirEntryStatus::Directory => 4,
            DirEntryStatus::BadFile => 0o200,
            DirEntryStatus::Deleted => 0o377,
        }
    }

    /// The on-disk status byte this status stands for.
    #[verifier::when_used_as_spec(spec_code)]
    pub fn code(self) -> (r: u8)
        ensures
            r == self.spec_code(),
    {
        match self {
            DirEntryStatus::Normal => 0,
            DirEntryStatus::Protected => 1,
            DirEntryStatus::LogicalDisk => 2,
            DirEntryStatus::Directory => 4,
            DirEntryStatus::BadFile => 0o200,
            DirEntryStatus::Deleted => 0o377,
        }
    }
}

impl Default for DirEntryStatus {
    fn default() -> (r: Self)
        ensures
            r == DirEntryStatus::Normal,
    {
        DirEntryStatus::Normal
    }
}

/// Byte offsets of the fields inside one 24-byte directory record.
#[derive(Debug, Copy, Clone, PartialEq, Eq, Structural)]
pub enum DirEntryOffset {
    /// Status byte.
    Status,
    /// Subdirectory number of the parent (0 is the root).
    DirNo,
    /// KOI8-R name, 14 bytes.
    Name,
    /// First block of the file.
    StartBlock,
    /// Length in blocks.
    Blocks,
    /// Load address.
    StartAddress,
    /// Length in bytes.
    Length,
}

impl DirEntryOffset {
    /// The byte value of this offset.
    pub open spec fn spec_value(self) -> usize {
        match self {
            DirEntryOffset::Status => 0,
            DirEntryOffset::DirNo => 1,
            DirEntryOffset::Name => 2,
            DirEntryOffset::StartBlock => 0o20,
            DirEntryOffset::Blocks => 0o22,
            DirEntryOffset::StartAddress => 0o24,
            DirEntryOffset::Length => 0o26,
        }
    }

    /// The byte value of this offset.
    #[verifier::when_used_as_spec(spec_value)]
    pub fn value(self) -> (r: usize)
        ensures
            r == self.spec_value(),
    {
        match self {
            DirEntryOffset::Status => 0,
            DirEntryOffset::DirNo => 1,
            DirEntryOffset::Name => 2,
            DirEntryOffset::StartBlock => 0o20,
            DirEntryOffset::Blocks => 0o22,
            DirEntryOffset::StartAddress => 0o24,
            DirEntryOffset::Length => 0o26,
        }
    }
}

/// A decoded directory entry, projected into the virtual inode namespace.
#[derive(Debug)]
pub struct DirEntry {
    /// Semantic status of the record.
    pub status: DirEntryStatus,
    /// Subdirectory number of the parent (0 is the root).
    pub dir_no: u8,
    /// Decoded file name.
    pub name: String,
    /// First block of the file on the volume.
    pub start_block: u64,
    /// Length in blocks.
    pub blocks: u64,
    /// Load address.
    pub start_address: u32,
    /// Length in bytes.
    pub length: u32,
    /// Derived size: `length`, unless the file spans more than 128 blocks.
    pub size: u32,
    /// Virtual inode: the root is 1, directories sit at `1 + subdir number`,
    /// files are numbered upward from 1001.
    pub inode: u64,
    /// Virtual inode of the parent directory.
    pub parent_inode: u64,
    pub is_dir: bool,
    pub is_normal: bool,
    /// A protected file; its mode carries the sticky bit.
    pub is_protected: bool,
    pub is_logical: bool,
    pub is_bad: bool,
    pub is_deleted: bool,
    /// The status byte was none of the known values, yet the record looked
    /// sound enough to keep.
    pub is_unknown: bool,
    /// Unix permission bits.
    pub mode: u16,
}

/// The mathematical shadow of a `DirEntry`.
pub ghost struct EntrySpec {
    pub status: DirEntryStatus,
    pub dir_no: u8,
    pub name: Seq<char>,
    pub start_block: u64,
    pub blocks: u64,
    pub start_address: u32,
    pub length: u32,
    pub size: u32,
    pub inode: u64,
    pub parent_inode: u64,
    pub is_dir: bool,
    pub is_normal: bool,
    pub is_protected: bool,
    pub is_logical: bool,
    pub is_bad: bool,
    pub is_deleted: bool,
    pub is_unknown: bool,
    pub mode: u16,
}

impl View for DirEntry {
    type V = EntrySpec;

    open spec fn view(&self) -> EntrySpec {
        EntrySpec {
            status: self.status,
            dir_no: self.dir_no,
            name: self.name@,
            start_block: self.start_block,
            blocks: self.blocks,
            start_address: self.start_address,
            length: self.length,
            size: self.size,
            inode: self.inode,
            parent_inode: self.parent_inode,
            is_dir: self.is_dir,
            is_normal: self.is_normal,
            is_protected: self.is_protected,
            is_logical: self.is_logical,
            is_bad: self.is_bad,
            is_deleted: self.is_deleted,
            is_unknown: self.is_unknown,
            mode: self.mode,
        }
    }
}

impl Clone for DirEntry {
    fn clone(&self) -> (r: Self)
        ensures
            r@ == self@,
    {
        DirEntry {
            status: self.status,
            dir_no: self.dir_no,
            name: self.name.clone(),
            start_block: self.start_block,
            blocks: self.blocks,
            start_address: self.start_address,
            length: self.length,
            size: self.size,
            inode: self.inode,
            parent_inode: self.parent_inode,
            is_dir: self.is_dir,
            is_normal: self.is_normal,
            is_protected: self.is_protected,
            is_logical: self.is_logical,
            is_bad: self.is_bad,
            is_deleted: self.is_deleted,
            is_unknown: self.is_unknown,
            mode: self.mode,
        }
    }
}

impl DirEntry {
    pub fn new() -> (r: Self)
        ensures
            r@ == Self::spec_default(),
    {
        Self::default()
    }

    /// A blank entry: everything zero or false, read-only mode bits.
    pub open spec fn spec_default() -> EntrySpec {
        EntrySpec {
            status: DirEntryStatus::Normal,
            dir_no: 0,
            name: Seq::empty(),
            start_block: 0,
            blocks: 0,
            start_address: 0,
            length: 0,
            size: 0,
            inode: 0,
            parent_inode: 0,
            is_dir: false,
            is_normal: false,
            is_protected: false,
            is_logical: false,
            is_bad: false,
            is_deleted: false,
            is_unknown: false,
            mode: 0o444,
        }
    }
}

impl Default for DirEntry {
    fn default() -> (r: Self)
        ensures
            r@ == Self::spec_default(),
    {
        DirEntry {
            status: DirEntryStatus::Normal,
            dir_no: 0,
            name: String::new(),
            start_block: 0,
            blocks: 0,
            start_address: 0,
            length: 0,
            size: 0,
            inode: 0,
            parent_inode: 0,
            is_dir: false,
            is_normal: false,
            is_protected: false,
            is_logical: false,
            is_bad: false,
            is_deleted: false,
            is_unknown: false,
            mode: 0o444,
        }
    }
}

/// The 24 effective bytes of the directory record at byte `pos`; bytes past
/// the end of the image read as zero.
pub open spec fn rec_at(d: Seq<u8>, inverted: bool, pos: int) -> Seq<u8> {
    Seq::new(24, |i: int| eff_byte(d, inverted, pos + i))
}

/// The record's status byte.
pub open spec fn rec_status(rec: Seq<u8>) -> u8 {
    rec[0]
}

/// The record's parent subdirectory number.
pub open spec fn rec_dir_no(rec: Seq<u8>) -> u8 {
    rec[1]
}

/// Whether the record is a subdirectory: its first name byte is the marker.
pub open spec fn rec_is_dir(rec: Seq<u8>) -> bool {
    rec[2] == DIR_MARKER
}

/// The record's name bytes, with the directory marker stripped.
pub open spec fn rec_name_bytes(rec: Seq<u8>) -> Seq<u8> {
    if rec_is_dir(rec) {
        rec.subrange(3, 16)
    } else {
        rec.subrange(2, 16)
    }
}

/// The record's first block.
pub open spec fn rec_start_block(rec: Seq<u8>) -> u16 {
    u16le(rec, 0o20)
}

/// The record's length in blocks.
pub open spec fn rec_blocks(rec: Seq<u8>) -> u16 {
    u16le(rec, 0o22)
}

/// The record's load address.
pub open spec fn rec_start_address(rec: Seq<u8>) -> u16 {
    u16le(rec, 0o24)
}

/// The record's length in bytes.
pub open spec fn rec_length(rec: Seq<u8>) -> u16 {
    u16le(rec, 0o26)
}

/// Whether a non-directory status byte is one of the documented values.
pub open spec fn status_known(st: u8) -> bool {
    st == 0 || st == 1 || st == 2 || st == 0o200 || st == 0o377
}

/// Semantic status of a record.
pub open spec fn rec_semantic(rec: Seq<u8>) -> DirEntryStatus {
    if rec_is_dir(rec) {
        if rec_status(rec) == 0o377 {
            DirEntryStatus::Deleted
        } else {
            DirEntryStatus::Directory
        }
    } else if rec_status(rec) == 0 || !status_known(rec_status(rec)) {
        DirEntryStatus::Normal
    } else if rec_status(rec) == 1 {
        DirEntryStatus::Protected
    } else if rec_status(rec) == 2 {
        DirEntryStatus::LogicalDisk
    } else if rec_status(rec) == 0o200 {
        DirEntryStatus::BadFile
    } else {
        DirEntryStatus::Deleted
    }
}

/// Whether the record counts toward the volume's live-file tally: live files
/// and live subdirectories do, bad and deleted records do not, and neither do
/// records kept by the unknown-status heuristic.
pub open spec fn rec_counts_normal(rec: Seq<u8>) -> bool {
    if rec_is_dir(rec) {
        rec_status(rec) != 0o377
    } else {
        rec_status(rec) == 0 || rec_status(rec) == 1 || rec_status(rec) == 2
    }
}

/// The garbage heuristic for a non-directory record with an unknown status
/// byte: parsing halts when the live-file tally is already full, or the
/// record's geometry falls outside the volume.
pub open spec fn rec_heur_stop(rec: Seq<u8>, meta: Meta, normal: int) -> bool {
    ||| normal >= meta.files
    ||| rec_start_block(rec) <= meta.start_block
    ||| rec_start_block(rec) >= meta.disk_size
    ||| rec_blocks(rec) + meta.blocks > meta.disk_size
}

/// The entry a record decodes to, given how many file (non-directory) entries
/// came before it.
pub open spec fn mk_entry(rec: Seq<u8>, files_before: int) -> EntrySpec {
    let is_dir = rec_is_dir(rec);
    let st = rec_status(rec);
    let is_deleted = !is_dir && st == 0o377;
    let is_bad = !is_dir && st == 0o200;
    let is_protected = !is_dir && st == 1;
    EntrySpec {
        status: rec_semantic(rec),
        dir_no: rec_dir_no(rec),
        name: spec_name(rec_name_bytes(rec)),
        start_block: rec_start_block(rec) as u64,
        blocks: rec_blocks(rec) as u64,
        start_address: rec_start_address(rec) as u32,
        length: rec_length(rec) as u32,
        size: if rec_blocks(rec) > 128 {
            (rec_blocks(rec) * 512) as u32
        } else {
            rec_length(rec) as u32
        },
        inode: if is_dir {
            (1 + st) as u64
        } else {
            (1001 + files_before) as u64
        },
        parent_inode: if is_deleted || is_bad {
            1
        } else {
            (1 + rec_dir_no(rec)) as u64
        },
        is_dir,
        is_normal: !is_dir && st == 0,
        is_protected,
        is_logical: !is_dir && st == 2,
        is_bad,
        is_deleted,
        is_unknown: !is_dir && !status_known(st),
        mode: if is_dir {
            0o755
        } else if is_protected {
            0o1444
        } else {
            0o444
        },
    }
}

/// How far the directory table may run: one block before the first data block.
pub open spec fn table_limit(off: int, meta: Meta) -> int {
    off + meta.start_block * 512
}

/// Bytes left before the table limit; zero once the cursor has passed it.
pub open spec fn table_rem(limit: int, pos: int) -> int {
    if pos <= limit {
        limit - pos
    } else {
        0
    }
}

/// The sequence of entries decoded from the directory table of the effective
/// image contents, starting at byte `pos` with `normal` live records already
/// tallied and `nfiles` file entries already numbered. Parsing stops at a
/// record whose first name byte is zero, at a garbage record, or one record
/// after the cursor passes the table limit.
pub open spec fn parse_entries(
    d: Seq<u8>,
    inverted: bool,
    off: int,
    meta: Meta,
    pos: int,
    normal: int,
    nfiles: int,
) -> Seq<EntrySpec>
    decreases table_rem(table_limit(off, meta), pos),
{
    let rec = rec_at(d, inverted, pos);
    if rec[2] == 0 {
        Seq::empty()
    } else if !rec_is_dir(rec) && !status_known(rec_status(rec)) && rec_heur_stop(
        rec,
        meta,
        normal,
    ) {
        Seq::empty()
    } else {
        let e = mk_entry(rec, nfiles);
        let normal2 = normal + if rec_counts_normal(rec) {
            1int
        } else {
            0int
        };
        let nfiles2 = nfiles + if rec_is_dir(rec) {
            0int
        } else {
            1int
        };
        if pos + 24 > table_limit(off, meta) {
            seq![e]
        } else {
            seq![e] + parse_entries(d, inverted, off, meta, pos + 24, normal2, nfiles2)
        }
    }
}

/// The number of file (non-directory) entries in `s`.
pub open spec fn num_files(s: Seq<EntrySpec>) -> int
    decreases s.len(),
{
    if s.len() == 0 {
        0
    } else {
        num_files(s.drop_last()) + if s.last().is_dir {
            0int
        } else {
            1int
        }
    }
}

/// The entries of `s` whose parent inode is `parent`, in table order.
pub open spec fn children_of(s: Seq<EntrySpec>, parent: u64) -> Seq<EntrySpec> {
    s.filter(|e: EntrySpec| e.parent_inode == parent)
}

/// Whether the visibility switches let an entry be shown.
pub open spec fn vis_ok(e: EntrySpec, show_deleted: bool, show_bad: bool) -> bool {
    (!e.is_deleted || show_deleted) && (!e.is_bad || show_bad)
}

/// The members of `ch` that the visibility switches let through, in order.
pub open spec fn shown(ch: Seq<EntrySpec>, show_deleted: bool, show_bad: bool) -> Seq<EntrySpec> {
    ch.filter(|e: EntrySpec| vis_ok(e, show_deleted, show_bad))
}

pub proof fn lemma_children_of_empty(s: Seq<EntrySpec>, parent: u64)
    requires
        s.len() == 0,
    ensures
        children_of(s, parent) == Seq::<EntrySpec>::empty(),
{
    reveal(Seq::filter);
    assert(children_of(s, parent) =~= Seq::<EntrySpec>::empty());
}

pub proof fn lemma_shown_empty(ch: Seq<EntrySpec>, sd: bool, sb: bool)
    requires
        ch.len() == 0,
    ensures
        shown(ch, sd, sb) == Seq::<EntrySpec>::empty(),
{
    reveal(Seq::filter);
    assert(shown(ch, sd, sb) =~= Seq::<EntrySpec>::empty());
}

/// Extending the scanned prefix by one record extends its children list by
/// the record exactly when the parent matches.
pub proof fn lemma_children_of_push(s: Seq<EntrySpec>, parent: u64, i: int)
    requires
        0 <= i < s.len(),
    ensures
        children_of(s.take(i + 1), parent) == (if s[i].parent_inode == parent {
            children_of(s.take(i), parent).push(s[i])
        } else {
            children_of(s.take(i), parent)
        }),
{
    reveal(Seq::filter);
    assert(s.take(i + 1).drop_last() =~= s.take(i));
    assert(s.take(i + 1).last() == s[i]);
}

/// Extending the scanned prefix by one child extends what is shown by that
/// child exactly when the switches let it through.
pub proof fn lemma_shown_push(ch: Seq<EntrySpec>, sd: bool, sb: bool, i: int)
    requires
        0 <= i < ch.len(),
    ensures
        shown(ch.take(i + 1), sd, sb) == (if vis_ok(ch[i], sd, sb) {
            shown(ch.take(i), sd, sb).push(ch[i])
        } else {
            shown(ch.take(i), sd, sb)
        }),
{
    reveal(Seq::filter);
    assert(ch.take(i + 1).drop_last() =~= ch.take(i));
    assert(ch.take(i + 1).last() == ch[i]);
}

/// A children list is never longer than the table it came from.
pub proof fn lemma_children_of_len(s: Seq<EntrySpec>, parent: u64)
    ensures
        children_of(s, parent).len() <= s.len(),
{
    s.lemma_filter_len(|e: EntrySpec| e.parent_inode == parent);
}

} // verus!
