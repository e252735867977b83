//! The decoded MK-DOS volume: open, re-open, and the entry queries that the
//! filesystem operations are answered from.

use vstd::prelude::*;

use crate::dir::{
    children_of, lemma_children_of_empty, lemma_children_of_push, mk_entry, num_files,
    parse_entries, rec_at, rec_heur_stop, rec_is_dir, rec_name_bytes, table_limit, table_rem,
    DirEntry, DirEntryStatus, EntrySpec,
};
use crate::koi8::decode_name;
use vstd::string::StringExecFns;
use crate::meta::{labels_ok, meta_avail, spec_meta, Meta};
use crate::{eff_byte, u16le, u16le_eff, BLOCK_SIZE, META_SIZE, MICRODOS_LABEL, MKDOS_LABEL};

verus! {

/// Everything that can go wrong while opening and decoding a volume.
#[derive(Debug, PartialEq, Eq, Structural)]
pub enum FsError {
    /// The mount bridge's init callback failed with this code.
    FuserInitError(i32),
    /// The meta block could not be read whole; holds how many bytes came.
    BadMetaSize(usize),
    /// The Micro DOS label is missing.
    LabelMicroDos,
    /// The MK-DOS label is missing.
    LabelMkDos,
    /// A nonzero volume offset was given without an explicit size.
    UnknownSize,
    /// Something else.
    Unknown,
}

/// What decoding the meta block at byte `off` of the effective image yields:
/// the whole block must be readable and both labels must match.
pub open spec fn meta_result(d: Seq<u8>, inverted: bool, off: int) -> Result<Meta, FsError> {
    let avail = meta_avail(d.len() as int, off);
    if avail < META_SIZE {
        Err(FsError::BadMetaSize(avail as usize))
    } else {
        let m = spec_meta(d, inverted, off);
        if m.microdos_label != MICRODOS_LABEL {
            Err(FsError::LabelMicroDos)
        } else if m.mkdos_label != MKDOS_LABEL {
            Err(FsError::LabelMkDos)
        } else {
            Ok(m)
        }
    }
}

/// The index of the first entry of `s`, from `i` on, under parent `parent`
/// and named `name`; -1 when there is none.
pub open spec fn find_by_name_idx(s: Seq<EntrySpec>, parent: u64, name: Seq<char>, i: int) -> int
    decreases s.len() - i,
    when 0 <= i <= s.len()
{
    if i >= s.len() {
        -1
    } else if s[i].parent_inode == parent && s[i].name == name {
        i
    } else {
        find_by_name_idx(s, parent, name, i + 1)
    }
}

/// The index of the first entry of `s`, from `i` on, with inode `inode`;
/// -1 when there is none.
pub open spec fn find_by_inode_idx(s: Seq<EntrySpec>, inode: u64, i: int) -> int
    decreases s.len() - i,
    when 0 <= i <= s.len()
{
    if i >= s.len() {
        -1
    } else if s[i].inode == inode {
        i
    } else {
        find_by_inode_idx(s, inode, i + 1)
    }
}

/// A decoded volume: the raw image bytes plus everything parsed from them.
pub struct Fs {
    /// Path of the image, kept for the caller's sake.
    file_path: String,
    /// The volume is always served read-only.
    read_only: bool,
    /// The raw image bytes, as stored on disk.
    data: Vec<u8>,
    /// Byte offset of the logical volume inside the image.
    offset: u64,
    /// Image size in bytes; zero until set or derived at open.
    size: u64,
    /// Whether every image byte is stored bit-inverted.
    inverted: bool,
    last_modified_secs: u64,
    last_modified_nanos: u32,
    /// The decoded meta block.
    meta: Meta,
    /// The next virtual inode a file entry would receive.
    file_inodes: u64,
    /// The decoded directory entries.
    entries: Vec<DirEntry>,
}

impl Fs {
    /// The raw image bytes.
    pub closed spec fn img(&self) -> Seq<u8> {
        self.data@
    }

    /// Byte offset of the logical volume inside the image.
    pub closed spec fn img_offset(&self) -> u64 {
        self.offset
    }

    /// Image size in bytes.
    pub closed spec fn img_size(&self) -> u64 {
        self.size
    }

    /// Whether every image byte is stored bit-inverted.
    pub closed spec fn is_inverted(&self) -> bool {
        self.inverted
    }

    /// The decoded meta block.
    pub closed spec fn vol_meta(&self) -> Meta {
        self.meta
    }

    /// The decoded entries.
    pub closed spec fn entries_view(&self) -> Seq<EntrySpec> {
        self.entries@.map_values(|e: DirEntry| e@)
    }

    /// The path the volume was named by.
    pub closed spec fn path(&self) -> Seq<char> {
        self.file_path@
    }

    /// Whether the volume is read-only (it always is).
    pub closed spec fn spec_read_only(&self) -> bool {
        self.read_only
    }

    /// The next virtual inode a file entry would receive.
    pub closed spec fn next_file_inode(&self) -> u64 {
        self.file_inodes
    }

    /// The cached last-modified stamp of the backing file.
    pub closed spec fn modified_stamp(&self) -> (u64, u32) {
        (self.last_modified_secs, self.last_modified_nanos)
    }

    /// The directory table of a volume fits in one region below the first
    /// data block, so the decoder never yields more entries than this.
    #[verifier::type_invariant]
    pub open spec fn inv(&self) -> bool {
        self.entries_view().len() <= 0x0020_0000
    }

    pub fn new(fname: &str) -> (r: Self)
        ensures
            r.path() == fname@,
            r.spec_read_only() == true,
            r.img() == Seq::<u8>::empty(),
            r.img_offset() == 0,
            r.img_size() == 0,
            r.is_inverted() == false,
            r.modified_stamp() == (0u64, 0u32),
            r.vol_meta() == Meta::spec_default(),
            r.next_file_inode() == 1001,
            r.entries_view() == Seq::<EntrySpec>::empty(),
    {
        let r = Fs {
            file_path: String::from_str(fname),
            read_only: true,
            data: Vec::new(),
            offset: 0,
            size: 0,
            inverted: false,
            last_modified_secs: 0,
            last_modified_nanos: 0,
            meta: Meta::new(),
            file_inodes: 1001,
            entries: Vec::new(),
        };
        proof {
            assert(r.entries_view() =~= Seq::<EntrySpec>::empty());
        }
        r
    }

    /// The effective image byte at absolute offset `i`: bit-inverted when the
    /// image is stored inverted, zero past the end.
    fn eff_at(&self, i: u128) -> (r: u8)
        ensures
            r == eff_byte(self.img(), self.is_inverted(), i as int),
    {
        if i < self.data.len() as u128 {
            let b = self.data[i as usize];
            if self.inverted {
                255 - b
            } else {
                b
            }
        } else {
            0
        }
    }

    /// The effective little-endian word at absolute offset `i`.
    fn word_at(&self, i: u64) -> (r: u16)
        requires
            i < 0xFFFF_FFFF_FFFF_FFFF,
        ensures
            r == u16le_eff(self.img(), self.is_inverted(), i as int),
    {
        self.eff_at(i as u128) as u16 + 256 * (self.eff_at(i as u128 + 1) as u16)
    }

    /// Decodes the meta block: reads the counters, checks both labels, and
    /// reads the geometry. The image, offset and entries are untouched; the
    /// meta block changes only on success.
    fn read_meta(&mut self) -> (r: Result<(), FsError>)
        ensures
            final(self).img() == old(self).img(),
            final(self).img_offset() == old(self).img_offset(),
            final(self).img_size() == old(self).img_size(),
            final(self).is_inverted() == old(self).is_inverted(),
            final(self).path() == old(self).path(),
            final(self).spec_read_only() == old(self).spec_read_only(),
            final(self).modified_stamp() == old(self).modified_stamp(),
            final(self).next_file_inode() == old(self).next_file_inode(),
            final(self).entries_view() == old(self).entries_view(),
            match meta_result(old(self).img(), old(self).is_inverted(), old(self).img_offset() as int) {
                Ok(m) => r == Ok::<(), FsError>(()) && final(self).vol_meta() == m,
                Err(e) => r == Err::<(), FsError>(e) && final(self).vol_meta() == old(self).vol_meta(),
            },
    {
        proof {
            use_type_invariant(&*self);
        }
        let dlen = self.data.len();
        let avail: usize = if self.offset <= dlen as u64 {
            let rest = dlen - self.offset as usize;
            if rest < META_SIZE {
                rest
            } else {
                META_SIZE
            }
        } else {
            0
        };
        if avail < META_SIZE {
            return Err(FsError::BadMetaSize(avail));
        }
        let off = self.offset;
        let files = self.word_at(off + 0o30);
        let blocks = self.word_at(off + 0o32);
        let microdos_label = self.word_at(off + 0o400);
        if microdos_label != MICRODOS_LABEL {
            return Err(FsError::LabelMicroDos);
        }
        let mkdos_label = self.word_at(off + 0o402);
        if mkdos_label != MKDOS_LABEL {
            return Err(FsError::LabelMkDos);
        }
        let disk_size = self.word_at(off + 0o466);
        let start_block = self.word_at(off + 0o470);
        self.meta = Meta { files, blocks, microdos_label, mkdos_label, disk_size, start_block };
        Ok(())
    }

    /// The 24 effective bytes of the record at absolute offset `pos`.
    fn read_record(&self, pos: u128) -> (r: Vec<u8>)
        requires
            pos <= 0xFFFF_FFFF_FFFF_FFFF_FF00,
        ensures
            r@ == rec_at(self.img(), self.is_inverted(), pos as int),
            r@.len() == 24,
    {
        let mut r: Vec<u8> = Vec::new();
        let mut i: usize = 0;
        while i < 24
            invariant
                i <= 24,
                pos <= 0xFFFF_FFFF_FFFF_FFFF_FF00,
                r@.len() == i,
                forall|j: int|
                    0 <= j < i ==> r@[j] == eff_byte(self.img(), self.is_inverted(), pos + j),
            decreases 24 - i,
        {
            let b = self.eff_at(pos + i as u128);
            r.push(b);
            i += 1;
        }
        proof {
            assert(r@ =~= rec_at(self.img(), self.is_inverted(), pos as int));
        }
        r
    }

    /// Decodes the directory table that follows the meta block, assigning
    /// virtual inodes as it goes: the parsed entries replace whatever was
    /// there before.
    fn read_entries(&mut self)
        requires
            old(self).img_offset() + META_SIZE <= old(self).img().len(),
        ensures
            final(self).img() == old(self).img(),
            final(self).img_offset() == old(self).img_offset(),
            final(self).img_size() == old(self).img_size(),
            final(self).is_inverted() == old(self).is_inverted(),
            final(self).path() == old(self).path(),
            final(self).spec_read_only() == old(self).spec_read_only(),
            final(self).modified_stamp() == old(self).modified_stamp(),
            final(self).vol_meta() == old(self).vol_meta(),
            final(self).entries_view() == parse_entries(
                old(self).img(),
                old(self).is_inverted(),
                old(self).img_offset() as int,
                old(self).vol_meta(),
                old(self).img_offset() + META_SIZE,
                0,
                0,
            ),
            final(self).next_file_inode() == 1001 + num_files(final(self).entries_view()),
    {
        proof {
            use_type_invariant(&*self);
        }
        let ghost d = self.img();
        let ghost inv = self.is_inverted();
        let ghost m = self.vol_meta();
        let ghost off = self.img_offset() as int;
        let ghost limit_i = table_limit(off, m);
        let mut entries: Vec<DirEntry> = Vec::new();
        let mut next_inode: u64 = 1001;
        let limit: u128 = self.offset as u128 + (self.meta.start_block as u128) * (
        BLOCK_SIZE as u128);
        let mut pos: u128 = self.offset as u128 + (META_SIZE as u128);
        let mut normal: u64 = 0;
        proof {
            assert(entries@.map_values(|en: DirEntry| en@) =~= Seq::<EntrySpec>::empty());
            assert(parse_entries(d, inv, off, m, off + META_SIZE, 0, 0) =~= entries@.map_values(
                |en: DirEntry| en@,
            ) + parse_entries(d, inv, off, m, pos as int, normal as int, 0));
        }
        loop
            invariant_except_break
                pos as int >= off + META_SIZE,
                pos as int <= vstd::math::max(off + META_SIZE, limit_i) + 24,
                normal as int * 24 <= pos as int - off - META_SIZE,
                next_inode >= 1001,
                (next_inode - 1001) as int * 24 <= pos as int - off - META_SIZE,
                entries@.len() * 24 <= pos as int - off - META_SIZE,
                next_inode == 1001 + num_files(entries@.map_values(|en: DirEntry| en@)),
                parse_entries(d, inv, off, m, off + META_SIZE, 0, 0) == entries@.map_values(
                    |en: DirEntry| en@,
                ) + parse_entries(
                    d,
                    inv,
                    off,
                    m,
                    pos as int,
                    normal as int,
                    (next_inode - 1001) as int,
                ),
            invariant
                self.img() == d,
                self.is_inverted() == inv,
                self.vol_meta() == m,
                self.img_offset() as int == off,
                off + META_SIZE <= d.len(),
                limit == limit_i,
                limit_i == table_limit(off, m),
            ensures
                entries@.map_values(|en: DirEntry| en@) == parse_entries(
                    d,
                    inv,
                    off,
                    m,
                    off + META_SIZE,
                    0,
                    0,
                ),
                next_inode == 1001 + num_files(entries@.map_values(|en: DirEntry| en@)),
                next_inode >= 1001,
                entries@.len() <= 0x0020_0000,
            decreases table_rem(limit_i, pos as int),
        {
            let ghost pre_view = entries@.map_values(|en: DirEntry| en@);
            let ghost normal0 = normal as int;
            let ghost nf0 = (next_inode - 1001) as int;
            let ghost pos0 = pos as int;
            proof {
                assert(m.start_block * 512 <= 65535 * 512);
                assert(entries@.len() <= 0x0020_0000 - 1);
            }
            let rec = self.read_record(pos);
            let ghost rec_s = rec_at(d, inv, pos0);
            if rec[2] == 0 {
                proof {
                    assert(parse_entries(d, inv, off, m, pos0, normal0, nf0)
                        =~= Seq::<EntrySpec>::empty());
                    assert(pre_view + Seq::<EntrySpec>::empty() =~= pre_view);
                }
                break ;
            }
            let st = rec[0];
            let dir_no = rec[1];
            let is_dir = rec[2] == crate::DIR_MARKER;
            let start_block = rec_u16(&rec, 0o20);
            let blocks = rec_u16(&rec, 0o22);
            let start_address = rec_u16(&rec, 0o24);
            let length = rec_u16(&rec, 0o26);
            let mut e = DirEntry::new();
            if is_dir {
                e.is_dir = true;
                if st == 0o377 {
                    e.status = DirEntryStatus::Deleted;
                } else {
                    e.status = DirEntryStatus::Directory;
                    normal = normal + 1;
                }
            } else {
                match st {
                    0u8 => {
                        e.is_normal = true;
                        normal = normal + 1;
                        e.status = DirEntryStatus::Normal;
                    },
                    1u8 => {
                        e.is_protected = true;
                        normal = normal + 1;
                        e.status = DirEntryStatus::Protected;
                    },
                    2u8 => {
                        e.is_logical = true;
                        normal = normal + 1;
                        e.status = DirEntryStatus::LogicalDisk;
                    },
                    0o200u8 => {
                        e.is_bad = true;
                        e.status = DirEntryStatus::BadFile;
                    },
                    0o377u8 => {
                        e.is_deleted = true;
                        e.status = DirEntryStatus::Deleted;
                    },
                    _ => {
                        if normal >= self.meta.files as u64 || start_block <= self.meta.start_block
                            || start_block >= self.meta.disk_size || (blocks as u32) + (
                        self.meta.blocks as u32) > (self.meta.disk_size as u32) {
                            proof {
                                assert(rec_heur_stop(rec_s, m, normal0));
                                assert(parse_entries(d, inv, off, m, pos0, normal0, nf0)
                                    =~= Seq::<EntrySpec>::empty());
                                assert(pre_view + Seq::<EntrySpec>::empty() =~= pre_view);
                            }
                            break ;
                        }
                        e.is_unknown = true;
                        e.status = DirEntryStatus::Normal;
                    },
                }
            }
            let name_vec = name_field(&rec, is_dir);
            e.name = decode_name(&name_vec);
            e.dir_no = dir_no;
            e.parent_inode = 1 + dir_no as u64;
            e.start_block = start_block as u64;
            e.blocks = blocks as u64;
            e.start_address = start_address as u32;
            e.length = length as u32;
            if blocks > 128 {
                e.size = (blocks as u32) * (BLOCK_SIZE as u32);
            } else {
                e.size = length as u32;
            }
            if is_dir {
                e.inode = 1 + st as u64;
                e.mode = 0o755;
            } else {
                e.inode = next_inode;
                next_inode = next_inode + 1;
            }
            if e.is_protected {
                e.mode = e.mode + 0o1000;
            }
            if e.is_deleted || e.is_bad {
                e.parent_inode = 1;
            }
            proof {
                assert(e@ =~= mk_entry(rec_s, nf0));
            }
            entries.push(e);
            proof {
                assert(entries@.map_values(|en: DirEntry| en@) =~= pre_view.push(
                    mk_entry(rec_s, nf0),
                ));
                assert(entries@.map_values(|en: DirEntry| en@) =~= pre_view + seq![
                    mk_entry(rec_s, nf0),
                ]);
                assert(num_files(entries@.map_values(|en: DirEntry| en@)) == num_files(pre_view)
                    + (if mk_entry(rec_s, nf0).is_dir {
                    0int
                } else {
                    1int
                })) by {
                    assert(entries@.map_values(|en: DirEntry| en@).drop_last() =~= pre_view);
                }
            }
            pos = pos + 24;
            if pos > limit {
                proof {
                    assert(parse_entries(d, inv, off, m, pos0, normal0, nf0) =~= seq![
                        mk_entry(rec_s, nf0),
                    ]);
                    assert(pre_view + seq![mk_entry(rec_s, nf0)] =~= entries@.map_values(
                        |en: DirEntry| en@,
                    ));
                }
                break ;
            }
            proof {
                assert(parse_entries(d, inv, off, m, pos0, normal0, nf0) =~= seq![
                    mk_entry(rec_s, nf0),
                ] + parse_entries(
                    d,
                    inv,
                    off,
                    m,
                    pos0 + 24,
                    normal as int,
                    (next_inode - 1001) as int,
                ));
                assert(pre_view + (seq![mk_entry(rec_s, nf0)] + parse_entries(
                    d,
                    inv,
                    off,
                    m,
                    pos0 + 24,
                    normal as int,
                    (next_inode - 1001) as int,
                )) =~= entries@.map_values(|en: DirEntry| en@) + parse_entries(
                    d,
                    inv,
                    off,
                    m,
                    pos0 + 24,
                    normal as int,
                    (next_inode - 1001) as int,
                ));
            }
        }
        self.entries = entries;
        self.file_inodes = next_inode;
    }

    /// Opens the volume held in `data`: derives the size where none was set,
    /// decodes the meta block and the directory table. A nonzero offset with
    /// no explicit size is rejected. On success both labels are the required
    /// ones.
    pub fn try_open(&mut self, data: Vec<u8>) -> (r: Result<(), FsError>)
        ensures
            final(self).img_offset() == old(self).img_offset(),
            final(self).is_inverted() == old(self).is_inverted(),
            final(self).path() == old(self).path(),
            final(self).spec_read_only() == old(self).spec_read_only(),
            final(self).modified_stamp() == old(self).modified_stamp(),
            old(self).img_size() == 0 && old(self).img_offset() != 0 ==> r == Err::<
                (),
                FsError,
            >(FsError::UnknownSize) && final(self).img() == old(self).img() && final(self).vol_meta() == old(self).vol_meta() && final(self).entries_view() == old(self).entries_view(),
            !(old(self).img_size() == 0 && old(self).img_offset() != 0) ==> {
                &&& final(self).img() == data@
                &&& final(self).img_size() == (if old(self).img_size() == 0 {
                    data@.len() as u64
                } else {
                    old(self).img_size()
                })
                &&& match meta_result(data@, old(self).is_inverted(), old(self).img_offset() as int) {
                    Ok(m) => {
                        &&& r == Ok::<(), FsError>(())
                        &&& final(self).vol_meta() == m
                        &&& labels_ok(m)
                        &&& final(self).entries_view() == parse_entries(
                            data@,
                            old(self).is_inverted(),
                            old(self).img_offset() as int,
                            m,
                            old(self).img_offset() + META_SIZE,
                            0,
                            0,
                        )
                        &&& final(self).next_file_inode() == 1001 + num_files(
                            final(self).entries_view(),
                        )
                    },
                    Err(e) => r == Err::<(), FsError>(e) && final(self).vol_meta() == old(self).vol_meta() && final(self).entries_view() == old(self).entries_view(),
                }
            },
    {
        proof {
            use_type_invariant(&*self);
        }
        if self.size == 0 {
            if self.offset != 0 {
                return Err(FsError::UnknownSize);
            }
            self.size = data.len() as u64;
        }
        self.data = data;
        let r = self.read_meta();
        if let Err(e) = r {
            return Err(e);
        }
        proof {
            assert(meta_avail(self.img().len() as int, self.img_offset() as int) >= META_SIZE);
        }
        self.read_entries();
        Ok(())
    }

    /// Discards the whole parsed model and decodes `data` afresh.
    pub fn try_reopen(&mut self, data: Vec<u8>) -> (r: Result<(), FsError>)
        ensures
            final(self).img_offset() == old(self).img_offset(),
            final(self).is_inverted() == old(self).is_inverted(),
            final(self).path() == old(self).path(),
            final(self).spec_read_only() == old(self).spec_read_only(),
            final(self).modified_stamp() == old(self).modified_stamp(),
            old(self).img_offset() != 0 ==> r == Err::<(), FsError>(FsError::UnknownSize),
            old(self).img_offset() == 0 ==> {
                &&& final(self).img() == data@
                &&& final(self).img_size() == data@.len() as u64
                &&& match meta_result(data@, old(self).is_inverted(), 0) {
                    Ok(m) => {
                        &&& r == Ok::<(), FsError>(())
                        &&& final(self).vol_meta() == m
                        &&& labels_ok(m)
                        &&& final(self).entries_view() == parse_entries(
                            data@,
                            old(self).is_inverted(),
                            0,
                            m,
                            META_SIZE as int,
                            0,
                            0,
                        )
                    },
                    Err(e) => r == Err::<(), FsError>(e),
                }
            },
    {
        proof {
            use_type_invariant(&*self);
        }
        self.file_inodes = 1001;
        self.size = 0;
        self.meta = Meta::new();
        self.entries = Vec::new();
        proof {
            assert(self.entries_view() =~= Seq::<EntrySpec>::empty());
        }
        self.try_open(data)
    }

    /// The cached last-modified stamp, as seconds and nanoseconds.
    pub fn last_modified(&self) -> (r: (u64, u32))
        ensures
            r == self.modified_stamp(),
    {
        (self.last_modified_secs, self.last_modified_nanos)
    }

    /// Remembers the given modification stamp of the backing file and says
    /// whether it differs from the cached one; when it does, the caller must
    /// re-read the image and re-open.
    pub fn check_modified(&mut self, secs: u64, nanos: u32) -> (r: bool)
        ensures
            final(self).img() == old(self).img(),
            final(self).img_offset() == old(self).img_offset(),
            final(self).img_size() == old(self).img_size(),
            final(self).is_inverted() == old(self).is_inverted(),
            final(self).path() == old(self).path(),
            final(self).spec_read_only() == old(self).spec_read_only(),
            final(self).vol_meta() == old(self).vol_meta(),
            final(self).entries_view() == old(self).entries_view(),
            final(self).next_file_inode() == old(self).next_file_inode(),
            final(self).modified_stamp() == (secs, nanos),
            r == ((secs, nanos) != old(self).modified_stamp()),
    {
        proof {
            use_type_invariant(&*self);
        }
        let changed = secs != self.last_modified_secs || nanos != self.last_modified_nanos;
        self.last_modified_secs = secs;
        self.last_modified_nanos = nanos;
        changed
    }

    /// The entries whose parent is `parent_ino`, in table order.
    #[verifier::loop_isolation(false)]
    pub fn entries_by_parent_inode(&self, parent_ino: u64) -> (r: Vec<DirEntry>)
        ensures
            r@.map_values(|e: DirEntry| e@) == children_of(self.entries_view(), parent_ino),
    {
        let ghost s = self.entries_view();
        let mut r: Vec<DirEntry> = Vec::new();
        let mut i: usize = 0;
        proof {
            assert(s.take(0) =~= Seq::<EntrySpec>::empty());
            lemma_children_of_empty(s.take(0), parent_ino);
            assert(r@.map_values(|e: DirEntry| e@) =~= Seq::<EntrySpec>::empty());
        }
        while i < self.entries.len()
            invariant
                i <= self.entries@.len(),
                r@.map_values(|e: DirEntry| e@) == children_of(s.take(i as int), parent_ino),
            decreases self.entries@.len() - i,
        {
            let ghost prefix = r@.map_values(|e: DirEntry| e@);
            proof {
                assert(s[i as int] == self.entries@[i as int]@);
                lemma_children_of_push(s, parent_ino, i as int);
            }
            if self.entries[i].parent_inode == parent_ino {
                r.push(self.entries[i].clone());
                proof {
                    assert(r@.map_values(|e: DirEntry| e@) =~= prefix.push(s[i as int]));
                }
            }
            i += 1;
        }
        proof {
            assert(s.take(s.len() as int) =~= s);
        }
        r
    }

    /// Finds the entry named `name` under the directory with inode
    /// `parent_inode`; the first match in table order wins.
    pub fn find_entrie(&self, name: &str, parent_inode: u64) -> (r: Option<&DirEntry>)
        ensures
            ({
                let k = find_by_name_idx(self.entries_view(), parent_inode, name@, 0);
                match r {
                    Some(e) => 0 <= k < self.entries_view().len() && e@ == self.entries_view()[k],
                    None => k == -1,
                }
            }),
    {
        let ghost s = self.entries_view();
        let query = String::from_str(name);
        let mut i: usize = 0;
        while i < self.entries.len()
            invariant
                i <= self.entries@.len(),
                s == self.entries_view(),
                query@ == name@,
                find_by_name_idx(s, parent_inode, name@, 0) == find_by_name_idx(
                    s,
                    parent_inode,
                    name@,
                    i as int,
                ),
            decreases self.entries@.len() - i,
        {
            if self.entries[i].parent_inode == parent_inode && self.entries[i].name == query {
                return Some(&self.entries[i]);
            }
            i += 1;
        }
        None
    }

    /// Finds the entry with inode `inode`; the first match in table order wins.
    pub fn entrie_by_inode(&self, inode: u64) -> (r: Option<&DirEntry>)
        ensures
            ({
                let k = find_by_inode_idx(self.entries_view(), inode, 0);
                match r {
                    Some(e) => 0 <= k < self.entries_view().len() && e@ == self.entries_view()[k],
                    None => k == -1,
                }
            }),
    {
        let ghost s = self.entries_view();
        let mut i: usize = 0;
        while i < self.entries.len()
            invariant
                i <= self.entries@.len(),
                s == self.entries_view(),
                find_by_inode_idx(s, inode, 0) == find_by_inode_idx(s, inode, i as int),
            decreases self.entries@.len() - i,
        {
            if self.entries[i].inode == inode {
                return Some(&self.entries[i]);
            }
            i += 1;
        }
        None
    }

    /// Reads `len` effective bytes at byte `offset` of the logical volume;
    /// bytes past the end of the image read as zero.
    pub fn read_exact_at(&self, len: usize, offset: u128) -> (r: Vec<u8>)
        requires
            offset <= 0xFFFF_FFFF_FFFF_FFFF_FFFF,
        ensures
            r@.len() == len,
            forall|i: int|
                0 <= i < len ==> r@[i] == eff_byte(
                    self.img(),
                    self.is_inverted(),
                    self.img_offset() + offset + i,
                ),
    {
        let mut r: Vec<u8> = Vec::new();
        let mut i: usize = 0;
        while i < len
            invariant
                i <= len,
                offset <= 0xFFFF_FFFF_FFFF_FFFF_FFFF,
                r@.len() == i,
                forall|j: int|
                    0 <= j < i ==> r@[j] == eff_byte(
                        self.img(),
                        self.is_inverted(),
                        self.img_offset() + offset + j,
                    ),
            decreases len - i,
        {
            let b = self.eff_at(self.offset as u128 + offset + i as u128);
            r.push(b);
            i += 1;
        }
        r
    }

    /// Block size of the volume.
    pub fn block_size(&self) -> (r: u64)
        ensures
            r == BLOCK_SIZE,
    {
        BLOCK_SIZE as u64
    }

    /// Count of live files, from the meta block.
    pub fn files(&self) -> (r: u64)
        ensures
            r == self.vol_meta().files,
    {
        self.meta.files as u64
    }

    /// Volume size in blocks, from the meta block.
    pub fn disk_size(&self) -> (r: u64)
        ensures
            r == self.vol_meta().disk_size,
    {
        self.meta.disk_size as u64
    }

    /// Count of used blocks, from the meta block.
    pub fn blocks(&self) -> (r: u64)
        ensures
            r == self.vol_meta().blocks,
    {
        self.meta.blocks as u64
    }

    /// Sets the volume's byte offset inside the image.
    pub fn set_offset(&mut self, offset: u64)
        ensures
            final(self).img_offset() == offset,
            final(self).img() == old(self).img(),
            final(self).img_size() == old(self).img_size(),
            final(self).is_inverted() == old(self).is_inverted(),
            final(self).path() == old(self).path(),
            final(self).spec_read_only() == old(self).spec_read_only(),
            final(self).vol_meta() == old(self).vol_meta(),
            final(self).entries_view() == old(self).entries_view(),
            final(self).next_file_inode() == old(self).next_file_inode(),
            final(self).modified_stamp() == old(self).modified_stamp(),
    {
        proof {
            use_type_invariant(&*self);
        }
        self.offset = offset;
    }

    /// Sets the volume's offset inside the image, in blocks.
    pub fn set_offset_blocks(&mut self, offset: u64)
        requires
            offset * BLOCK_SIZE <= u64::MAX,
        ensures
            final(self).img_offset() == offset * BLOCK_SIZE,
            final(self).img() == old(self).img(),
            final(self).img_size() == old(self).img_size(),
            final(self).is_inverted() == old(self).is_inverted(),
            final(self).path() == old(self).path(),
            final(self).spec_read_only() == old(self).spec_read_only(),
            final(self).vol_meta() == old(self).vol_meta(),
            final(self).entries_view() == old(self).entries_view(),
            final(self).next_file_inode() == old(self).next_file_inode(),
            final(self).modified_stamp() == old(self).modified_stamp(),
    {
        proof {
            use_type_invariant(&*self);
        }
        self.offset = offset * BLOCK_SIZE as u64;
    }

    /// Sets the image size in bytes.
    pub fn set_size(&mut self, size: u64)
        ensures
            final(self).img_size() == size,
            final(self).img() == old(self).img(),
            final(self).img_offset() == old(self).img_offset(),
            final(self).is_inverted() == old(self).is_inverted(),
            final(self).path() == old(self).path(),
            final(self).spec_read_only() == old(self).spec_read_only(),
            final(self).vol_meta() == old(self).vol_meta(),
            final(self).entries_view() == old(self).entries_view(),
            final(self).next_file_inode() == old(self).next_file_inode(),
            final(self).modified_stamp() == old(self).modified_stamp(),
    {
        proof {
            use_type_invariant(&*self);
        }
        self.size = size;
    }

    /// Sets the image size, in blocks.
    pub fn set_size_blocks(&mut self, size: u64)
        requires
            size * BLOCK_SIZE <= u64::MAX,
        ensures
            final(self).img_size() == size * BLOCK_SIZE,
            final(self).img() == old(self).img(),
            final(self).img_offset() == old(self).img_offset(),
            final(self).is_inverted() == old(self).is_inverted(),
            final(self).path() == old(self).path(),
            final(self).spec_read_only() == old(self).spec_read_only(),
            final(self).vol_meta() == old(self).vol_meta(),
            final(self).entries_view() == old(self).entries_view(),
            final(self).next_file_inode() == old(self).next_file_inode(),
            final(self).modified_stamp() == old(self).modified_stamp(),
    {
        proof {
            use_type_invariant(&*self);
        }
        self.size = size * BLOCK_SIZE as u64;
    }

    /// Chooses whether reads see the image bit-inverted.
    pub fn set_inverted(&mut self, inverted: bool)
        ensures
            final(self).is_inverted() == inverted,
            final(self).img() == old(self).img(),
            final(self).img_offset() == old(self).img_offset(),
            final(self).img_size() == old(self).img_size(),
            final(self).path() == old(self).path(),
            final(self).spec_read_only() == old(self).spec_read_only(),
            final(self).vol_meta() == old(self).vol_meta(),
            final(self).entries_view() == old(self).entries_view(),
            final(self).next_file_inode() == old(self).next_file_inode(),
            final(self).modified_stamp() == old(self).modified_stamp(),
    {
        proof {
            use_type_invariant(&*self);
        }
        self.inverted = inverted;
    }
}

/// The record's name bytes, with the directory marker stripped.
fn name_field(rec: &Vec<u8>, is_dir: bool) -> (r: Vec<u8>)
    requires
        rec@.len() == 24,
        is_dir == rec_is_dir(rec@),
    ensures
        r@ == rec_name_bytes(rec@),
{
    let start: usize = if is_dir {
        3
    } else {
        2
    };
    let mut r: Vec<u8> = Vec::new();
    let mut i: usize = start;
    while i < 16
        invariant
            start <= i <= 16,
            rec@.len() == 24,
            r@ == rec@.subrange(start as int, i as int),
        decreases 16 - i,
    {
        r.push(rec[i]);
        assert(r@ =~= rec@.subrange(start as int, i + 1));
        i += 1;
    }
    r
}

/// The little-endian word at byte `i` of a record.
fn rec_u16(rec: &Vec<u8>, i: usize) -> (r: u16)
    requires
        i + 2 <= rec@.len(),
    ensures
        r == u16le(rec@, i as int),
{
    let n = rec.len();
    rec[i] as u16 + 256 * (rec[i + 1] as u16)
}

} // verus!
