//! The filesystem operation facade: answers lookup, getattr, readdir, read
//! and statfs from the decoded volume, and enforces the read-only policy.

use vstd::prelude::*;

use crate::dir::{
    children_of, lemma_children_of_len, lemma_shown_empty, lemma_shown_push, shown, vis_ok,
    DirEntry, DirEntryStatus, EntrySpec,
};
use crate::fs::{find_by_inode_idx, find_by_name_idx, meta_result, Fs, FsError};
use crate::meta::{labels_ok, Meta};
use crate::{eff_byte, BLOCK_SIZE, FILE_NAME_SIZE, META_SIZE};
use vstd::string::StringExecFns;

verus! {

/// POSIX error number: no such file or directory.
pub const ENOENT: i32 = 2;

/// POSIX error number: input/output error.
pub const EIO: i32 = 5;

/// POSIX error number: permission denied.
pub const EACCES: i32 = 13;

/// POSIX error number: invalid argument.
pub const EINVAL: i32 = 22;

/// POSIX error number: function not implemented.
pub const ENOSYS: i32 = 38;

/// open(2) access mode: read-only.
pub const O_RDONLY: i32 = 0;

/// open(2) access mode: write-only.
pub const O_WRONLY: i32 = 1;

/// open(2) access mode: read-write.
pub const O_RDWR: i32 = 2;

/// Mask of the open(2) access mode bits.
pub const O_ACCMODE: i32 = 3;

/// open(2) flag: truncate on open.
pub const O_TRUNC: i32 = 0o1000;

/// access(2) read permission bit.
pub const R_OK: u32 = 4;

/// access(2) write permission bit.
pub const W_OK: u32 = 2;

/// Synthetic timestamp carried by every entry's attributes.
pub const ATTR_TIME_SECS: u64 = 286426800;

/// Synthetic stamp of the root directory's modification times.
pub const ED_UNIX_TIME: u64 = 286405200;

/// What kind of node an entry projects to.
#[derive(Debug, Copy, Clone, PartialEq, Eq, Structural)]
pub enum FileKind {
    RegularFile,
    Directory,
}

/// The node kind an entry status projects to: only directories differ.
pub open spec fn spec_kind(status: DirEntryStatus) -> FileKind {
    if status == DirEntryStatus::Directory {
        FileKind::Directory
    } else {
        FileKind::RegularFile
    }
}

/// The node kind an entry status projects to: only directories differ.
#[verifier::when_used_as_spec(spec_kind)]
pub fn from_direntry_status(status: DirEntryStatus) -> (r: FileKind)
    ensures
        r == spec_kind(status),
{
    match status {
        DirEntryStatus::Directory => FileKind::Directory,
        _ => FileKind::RegularFile,
    }
}

/// Attributes of one node, in plain values.
#[derive(Debug, Copy, Clone, PartialEq, Eq, Structural)]
pub struct FileAttr {
    pub ino: u64,
    /// Size in bytes.
    pub size: u64,
    /// Size in blocks.
    pub blocks: u64,
    pub atime_secs: u64,
    pub mtime_secs: u64,
    pub ctime_secs: u64,
    pub crtime_secs: u64,
    pub kind: FileKind,
    /// Unix permission bits.
    pub perm: u16,
    pub nlink: u32,
    pub uid: u32,
    pub gid: u32,
    pub rdev: u32,
    pub blksize: u32,
    pub flags: u32,
}

/// The synthetic attributes of the root directory.
pub open spec fn root_attr() -> FileAttr {
    FileAttr {
        ino: 1,
        size: 0,
        blocks: 0,
        atime_secs: ATTR_TIME_SECS,
        mtime_secs: ED_UNIX_TIME,
        ctime_secs: ED_UNIX_TIME,
        crtime_secs: ED_UNIX_TIME,
        kind: FileKind::Directory,
        perm: 0o755,
        nlink: 2,
        uid: 1000,
        gid: 1000,
        rdev: 0,
        blksize: 512,
        flags: 0,
    }
}

/// The attributes an entry projects to.
pub open spec fn entry_attr(e: EntrySpec) -> FileAttr {
    FileAttr {
        ino: e.inode,
        size: e.length as u64,
        blocks: e.blocks,
        atime_secs: ATTR_TIME_SECS,
        mtime_secs: ATTR_TIME_SECS,
        ctime_secs: ATTR_TIME_SECS,
        crtime_secs: ATTR_TIME_SECS,
        kind: spec_kind(e.status),
        perm: e.mode,
        nlink: 1,
        uid: 1000,
        gid: 1000,
        rdev: 0,
        blksize: 512,
        flags: 0,
    }
}

/// One directory stream item.
#[derive(Debug)]
pub struct DirItem {
    pub inode: u64,
    /// The offset a reader hands back to continue after this item.
    pub offset: i64,
    pub kind: FileKind,
    pub name: String,
}

/// The mathematical shadow of a `DirItem`.
pub ghost struct DirItemSpec {
    pub inode: u64,
    pub offset: int,
    pub kind: FileKind,
    pub name: Seq<char>,
}

impl View for DirItem {
    type V = DirItemSpec;

    open spec fn view(&self) -> DirItemSpec {
        DirItemSpec {
            inode: self.inode,
            offset: self.offset as int,
            kind: self.kind,
            name: self.name@,
        }
    }
}

/// What the read-only policy grants for the given open(2) flags: reads pass,
/// writes and truncation are refused, a malformed access mode is invalid.
pub open spec fn spec_access_mask(flags: i32, read_only: bool) -> Result<u32, i32> {
    if flags & O_ACCMODE == O_RDONLY {
        if flags & O_TRUNC != 0 {
            Err(EACCES)
        } else {
            Ok(R_OK)
        }
    } else if flags & O_ACCMODE == O_WRONLY {
        if read_only {
            Err(EACCES)
        } else {
            Ok(W_OK)
        }
    } else if flags & O_ACCMODE == O_RDWR {
        if read_only {
            Err(EACCES)
        } else {
            Ok(R_OK | W_OK)
        }
    } else {
        Err(EINVAL)
    }
}

/// How many bytes a read of `size` at `offset` of an entry of length
/// `e.length` yields: clamped to what is left of the file.
pub open spec fn read_len(e: EntrySpec, offset: u64, size: u32) -> int {
    if offset <= e.length {
        vstd::math::min(size as int, e.length - offset)
    } else {
        0
    }
}

/// The children of `ino` that the stream shows, honoring the deleted/bad
/// visibility switches; table order is kept.
pub open spec fn visible_children(s: Seq<EntrySpec>, ino: u64, show_deleted: bool, show_bad: bool) -> Seq<
    EntrySpec,
> {
    shown(children_of(s, ino), show_deleted, show_bad)
}

/// The stream item an entry projects to, at stream offset `off`.
pub open spec fn dir_item(e: EntrySpec, off: int) -> DirItemSpec {
    DirItemSpec { inode: e.inode, offset: off, kind: spec_kind(e.status), name: e.name }
}

/// The `.` item of a directory.
pub open spec fn dot_item(ino: u64) -> DirItemSpec {
    DirItemSpec { inode: ino, offset: 1, kind: FileKind::Directory, name: seq!['.'] }
}

/// The `..` item of a directory.
pub open spec fn dotdot_item(parent: u64) -> DirItemSpec {
    DirItemSpec { inode: parent, offset: 2, kind: FileKind::Directory, name: seq!['.', '.'] }
}

/// The `.` and `..` items a stream starting at `offset` still emits.
pub open spec fn readdir_head(ino: u64, parent: u64, offset: int) -> Seq<DirItemSpec> {
    if offset == 0 {
        seq![dot_item(ino), dotdot_item(parent)]
    } else if offset == 1 {
        seq![dotdot_item(parent)]
    } else {
        Seq::empty()
    }
}

/// The child items a stream that skips the first `skip` visible children
/// emits: child number `k` continues at stream offset `k + 3`.
pub open spec fn readdir_tail(ch: Seq<EntrySpec>, skip: int) -> Seq<DirItemSpec> {
    let k = if skip <= ch.len() {
        skip
    } else {
        ch.len() as int
    };
    Seq::new((ch.len() - k) as nat, |u: int| dir_item(ch[k + u], k + u + 3))
}

/// The filesystem statistics the volume reports.
#[derive(Debug, Copy, Clone, PartialEq, Eq, Structural)]
pub struct StatFs {
    /// Total data blocks.
    pub blocks: u64,
    /// Free blocks.
    pub bfree: u64,
    /// Free blocks available to unprivileged users.
    pub bavail: u64,
    /// Total file nodes.
    pub files: u64,
    /// Free file nodes.
    pub ffree: u64,
    /// Block size.
    pub bsize: u32,
    /// Maximum name length.
    pub namelen: u32,
    /// Fragment size.
    pub frsize: u32,
}

/// The mount facade: a decoded volume plus the visibility switches.
pub struct FuseFs {
    /// The volume is always served read-only.
    read_only: bool,
    /// Show entries recorded as bad blocks.
    show_bad: bool,
    /// Show deleted entries.
    show_deleted: bool,
    /// The decoded volume.
    fs: Fs,
}

impl FuseFs {
    /// The decoded volume behind the facade.
    pub closed spec fn spec_fs(&self) -> Fs {
        self.fs
    }

    /// Whether the facade is read-only (it always is).
    pub closed spec fn spec_read_only(&self) -> bool {
        self.read_only
    }

    /// Whether bad-block entries are shown.
    pub closed spec fn spec_show_bad(&self) -> bool {
        self.show_bad
    }

    /// Whether deleted entries are shown.
    pub closed spec fn spec_show_deleted(&self) -> bool {
        self.show_deleted
    }

    pub fn new(fname: &str) -> (r: Self)
        ensures
            r.spec_read_only() == true,
            r.spec_show_bad() == false,
            r.spec_show_deleted() == false,
            r.spec_fs().path() == fname@,
            r.spec_fs().img() == Seq::<u8>::empty(),
            r.spec_fs().img_offset() == 0,
            r.spec_fs().img_size() == 0,
            r.spec_fs().is_inverted() == false,
            r.spec_fs().vol_meta() == Meta::spec_default(),
            r.spec_fs().entries_view() == Seq::<EntrySpec>::empty(),
            r.spec_fs().modified_stamp() == (0u64, 0u32),
    {
        FuseFs { read_only: true, show_bad: false, show_deleted: false, fs: Fs::new(fname) }
    }

    /// Switches visibility of bad-block entries.
    pub fn show_bad(&mut self, arg: bool)
        ensures
            final(self).spec_show_bad() == arg,
            final(self).spec_show_deleted() == old(self).spec_show_deleted(),
            final(self).spec_read_only() == old(self).spec_read_only(),
            final(self).spec_fs() == old(self).spec_fs(),
    {
        self.show_bad = arg;
    }

    /// Switches visibility of deleted entries.
    pub fn show_deleted(&mut self, arg: bool)
        ensures
            final(self).spec_show_deleted() == arg,
            final(self).spec_show_bad() == old(self).spec_show_bad(),
            final(self).spec_read_only() == old(self).spec_read_only(),
            final(self).spec_fs() == old(self).spec_fs(),
    {
        self.show_deleted = arg;
    }

    /// Chooses whether reads see the image bit-inverted.
    pub fn set_inverted(&mut self, inverted: bool)
        ensures
            final(self).spec_show_bad() == old(self).spec_show_bad(),
            final(self).spec_show_deleted() == old(self).spec_show_deleted(),
            final(self).spec_read_only() == old(self).spec_read_only(),
            final(self).spec_fs().is_inverted() == inverted,
            final(self).spec_fs().img() == old(self).spec_fs().img(),
            final(self).spec_fs().img_offset() == old(self).spec_fs().img_offset(),
            final(self).spec_fs().img_size() == old(self).spec_fs().img_size(),
            final(self).spec_fs().vol_meta() == old(self).spec_fs().vol_meta(),
            final(self).spec_fs().entries_view() == old(self).spec_fs().entries_view(),
            final(self).spec_fs().modified_stamp() == old(self).spec_fs().modified_stamp(),
    {
        self.fs.set_inverted(inverted);
    }

    /// Sets the volume's offset inside the image, in blocks.
    pub fn set_offset(&mut self, offset_blocks: u64)
        requires
            offset_blocks * BLOCK_SIZE <= u64::MAX,
        ensures
            final(self).spec_show_bad() == old(self).spec_show_bad(),
            final(self).spec_show_deleted() == old(self).spec_show_deleted(),
            final(self).spec_read_only() == old(self).spec_read_only(),
            final(self).spec_fs().img_offset() == offset_blocks * BLOCK_SIZE,
            final(self).spec_fs().img() == old(self).spec_fs().img(),
            final(self).spec_fs().is_inverted() == old(self).spec_fs().is_inverted(),
            final(self).spec_fs().img_size() == old(self).spec_fs().img_size(),
            final(self).spec_fs().vol_meta() == old(self).spec_fs().vol_meta(),
            final(self).spec_fs().entries_view() == old(self).spec_fs().entries_view(),
            final(self).spec_fs().modified_stamp() == old(self).spec_fs().modified_stamp(),
    {
        self.fs.set_offset_blocks(offset_blocks);
    }

    /// Sets the image size, in blocks.
    pub fn set_size(&mut self, size_blocks: u64)
        requires
            size_blocks * BLOCK_SIZE <= u64::MAX,
        ensures
            final(self).spec_show_bad() == old(self).spec_show_bad(),
            final(self).spec_show_deleted() == old(self).spec_show_deleted(),
            final(self).spec_read_only() == old(self).spec_read_only(),
            final(self).spec_fs().img_size() == size_blocks * BLOCK_SIZE,
            final(self).spec_fs().img() == old(self).spec_fs().img(),
            final(self).spec_fs().is_inverted() == old(self).spec_fs().is_inverted(),
            final(self).spec_fs().img_offset() == old(self).spec_fs().img_offset(),
            final(self).spec_fs().vol_meta() == old(self).spec_fs().vol_meta(),
            final(self).spec_fs().entries_view() == old(self).spec_fs().entries_view(),
            final(self).spec_fs().modified_stamp() == old(self).spec_fs().modified_stamp(),
    {
        self.fs.set_size_blocks(size_blocks);
    }

    /// Opens the volume held in `data`; see `Fs::try_open`.
    pub fn try_open(&mut self, data: Vec<u8>) -> (r: Result<(), FsError>)
        ensures
            final(self).spec_show_bad() == old(self).spec_show_bad(),
            final(self).spec_show_deleted() == old(self).spec_show_deleted(),
            final(self).spec_read_only() == old(self).spec_read_only(),
            final(self).spec_fs().img_offset() == old(self).spec_fs().img_offset(),
            final(self).spec_fs().is_inverted() == old(self).spec_fs().is_inverted(),
            final(self).spec_fs().modified_stamp() == old(self).spec_fs().modified_stamp(),
            old(self).spec_fs().img_size() == 0 && old(self).spec_fs().img_offset() != 0 ==> r
                == Err::<(), FsError>(FsError::UnknownSize),
            !(old(self).spec_fs().img_size() == 0 && old(self).spec_fs().img_offset() != 0) ==> {
                &&& final(self).spec_fs().img() == data@
                &&& match meta_result(
                    data@,
                    old(self).spec_fs().is_inverted(),
                    old(self).spec_fs().img_offset() as int,
                ) {
                    Ok(m) => {
                        &&& r == Ok::<(), FsError>(())
                        &&& final(self).spec_fs().vol_meta() == m
                        &&& labels_ok(m)
                        &&& final(self).spec_fs().entries_view() == crate::dir::parse_entries(
                            data@,
                            old(self).spec_fs().is_inverted(),
                            old(self).spec_fs().img_offset() as int,
                            m,
                            old(self).spec_fs().img_offset() + META_SIZE,
                            0,
                            0,
                        )
                    },
                    Err(e) => r == Err::<(), FsError>(e) && final(self).spec_fs().vol_meta() == old(self).spec_fs().vol_meta() && final(self).spec_fs().entries_view() == old(self).spec_fs().entries_view(),
                }
            },
    {
        self.fs.try_open(data)
    }

    /// Discards the parsed model and decodes `data` afresh; see
    /// `Fs::try_reopen`.
    pub fn try_reopen(&mut self, data: Vec<u8>) -> (r: Result<(), FsError>)
        ensures
            final(self).spec_show_bad() == old(self).spec_show_bad(),
            final(self).spec_show_deleted() == old(self).spec_show_deleted(),
            final(self).spec_read_only() == old(self).spec_read_only(),
            final(self).spec_fs().img_offset() == old(self).spec_fs().img_offset(),
            final(self).spec_fs().is_inverted() == old(self).spec_fs().is_inverted(),
            final(self).spec_fs().modified_stamp() == old(self).spec_fs().modified_stamp(),
            old(self).spec_fs().img_offset() != 0 ==> r == Err::<(), FsError>(FsError::UnknownSize),
            old(self).spec_fs().img_offset() == 0 ==> {
                &&& final(self).spec_fs().img() == data@
                &&& match meta_result(data@, old(self).spec_fs().is_inverted(), 0) {
                    Ok(m) => {
                        &&& r == Ok::<(), FsError>(())
                        &&& final(self).spec_fs().vol_meta() == m
                        &&& labels_ok(m)
                        &&& final(self).spec_fs().entries_view() == crate::dir::parse_entries(
                            data@,
                            old(self).spec_fs().is_inverted(),
                            0,
                            m,
                            META_SIZE as int,
                            0,
                            0,
                        )
                    },
                    Err(e) => r == Err::<(), FsError>(e),
                }
            },
    {
        self.fs.try_reopen(data)
    }

    /// Remembers the backing file's modification stamp and says whether it
    /// changed; see `Fs::check_modified`.
    pub fn check_modified(&mut self, secs: u64, nanos: u32) -> (r: bool)
        ensures
            final(self).spec_show_bad() == old(self).spec_show_bad(),
            final(self).spec_show_deleted() == old(self).spec_show_deleted(),
            final(self).spec_read_only() == old(self).spec_read_only(),
            final(self).spec_fs().img() == old(self).spec_fs().img(),
            final(self).spec_fs().img_offset() == old(self).spec_fs().img_offset(),
            final(self).spec_fs().img_size() == old(self).spec_fs().img_size(),
            final(self).spec_fs().is_inverted() == old(self).spec_fs().is_inverted(),
            final(self).spec_fs().vol_meta() == old(self).spec_fs().vol_meta(),
            final(self).spec_fs().entries_view() == old(self).spec_fs().entries_view(),
            final(self).spec_fs().modified_stamp() == (secs, nanos),
            r == ((secs, nanos) != old(self).spec_fs().modified_stamp()),
    {
        self.fs.check_modified(secs, nanos)
    }

    /// What the read-only policy grants for the given open(2) flags; used by
    /// both the file-open and the directory-open operations.
    pub fn open_access(&self, flags: i32) -> (r: Result<u32, i32>)
        ensures
            r == spec_access_mask(flags, self.spec_read_only()),
    {
        let acc = flags & O_ACCMODE;
        if acc == O_RDONLY {
            if flags & O_TRUNC != 0 {
                Err(EACCES)
            } else {
                Ok(R_OK)
            }
        } else if acc == O_WRONLY {
            if self.read_only {
                Err(EACCES)
            } else {
                Ok(W_OK)
            }
        } else if acc == O_RDWR {
            if self.read_only {
                Err(EACCES)
            } else {
                Ok(R_OK | W_OK)
            }
        } else {
            Err(EINVAL)
        }
    }

    /// Looks a name up under a parent directory and returns the node's
    /// attributes; an unknown pair gives `ENOENT`.
    pub fn lookup(&self, parent: u64, name: &str) -> (r: Result<FileAttr, i32>)
        ensures
            ({
                let s = self.spec_fs().entries_view();
                let k = find_by_name_idx(s, parent, name@, 0);
                if k >= 0 {
                    r == Ok::<FileAttr, i32>(entry_attr(s[k]))
                } else {
                    r == Err::<FileAttr, i32>(ENOENT)
                }
            }),
    {
        match self.fs.find_entrie(name, parent) {
            Some(entry) => Ok(
                FileAttr {
                    ino: entry.inode,
                    size: entry.length as u64,
                    blocks: entry.blocks,
                    atime_secs: ATTR_TIME_SECS,
                    mtime_secs: ATTR_TIME_SECS,
                    ctime_secs: ATTR_TIME_SECS,
                    crtime_secs: ATTR_TIME_SECS,
                    kind: from_direntry_status(entry.status),
                    perm: entry.mode,
                    nlink: 1,
                    uid: 1000,
                    gid: 1000,
                    rdev: 0,
                    blksize: 512,
                    flags: 0,
                },
            ),
            None => Err(ENOENT),
        }
    }

    /// Returns the attributes of a node: inode 1 is the synthetic root, any
    /// other inode must be an entry; unknown inodes give `ENOENT`.
    pub fn getattr(&self, ino: u64) -> (r: Result<FileAttr, i32>)
        ensures
            ino == 1 ==> r == Ok::<FileAttr, i32>(root_attr()),
            ino != 1 ==> ({
                let s = self.spec_fs().entries_view();
                let k = find_by_inode_idx(s, ino, 0);
                if k >= 0 {
                    r == Ok::<FileAttr, i32>(entry_attr(s[k]))
                } else {
                    r == Err::<FileAttr, i32>(ENOENT)
                }
            }),
    {
        if ino == 1 {
            return Ok(
                FileAttr {
                    ino: 1,
                    size: 0,
                    blocks: 0,
                    atime_secs: ATTR_TIME_SECS,
                    mtime_secs: ED_UNIX_TIME,
                    ctime_secs: ED_UNIX_TIME,
                    crtime_secs: ED_UNIX_TIME,
                    kind: FileKind::Directory,
                    perm: 0o755,
                    nlink: 2,
                    uid: 1000,
                    gid: 1000,
                    rdev: 0,
                    blksize: 512,
                    flags: 0,
                },
            );
        }
        match self.fs.entrie_by_inode(ino) {
            Some(entry) => Ok(
                FileAttr {
                    ino: entry.inode,
                    size: entry.length as u64,
                    blocks: entry.blocks,
                    atime_secs: ATTR_TIME_SECS,
                    mtime_secs: ATTR_TIME_SECS,
                    ctime_secs: ATTR_TIME_SECS,
                    crtime_secs: ATTR_TIME_SECS,
                    kind: from_direntry_status(entry.status),
                    perm: entry.mode,
                    nlink: 1,
                    uid: 1000,
                    gid: 1000,
                    rdev: 0,
                    blksize: 512,
                    flags: 0,
                },
            ),
            None => Err(ENOENT),
        }
    }

    /// Reads up to `size` bytes of a file at byte `offset`: the length of the
    /// result is `size` clamped to what is left of the file, and the bytes
    /// come from the backing store at the entry's first block plus `offset`.
    /// An unknown inode gives `ENOENT`.
    pub fn read(&self, ino: u64, offset: i64, size: u32) -> (r: Result<Vec<u8>, i32>)
        ensures
            ({
                let s = self.spec_fs().entries_view();
                let k = find_by_inode_idx(s, ino, 0);
                if k >= 0 {
                    match r {
                        Ok(v) => {
                            let e = s[k];
                            &&& v@.len() == read_len(e, offset as u64, size)
                            &&& forall|i: int|
                                0 <= i < v@.len() ==> v@[i] == eff_byte(
                                    self.spec_fs().img(),
                                    self.spec_fs().is_inverted(),
                                    self.spec_fs().img_offset() + (offset as u64) + e.start_block
                                        * 512 + i,
                                )
                        },
                        Err(_) => false,
                    }
                } else {
                    r == Err::<Vec<u8>, i32>(ENOENT)
                }
            }),
    {
        match self.fs.entrie_by_inode(ino) {
            Some(entry) => {
                let file_size: u64 = entry.length as u64;
                let off_u: u64 = offset as u64;
                let avail: u64 = if off_u <= file_size {
                    file_size - off_u
                } else {
                    0
                };
                let read_size: u32 = if (size as u64) <= avail {
                    size
                } else {
                    avail as u32
                };
                if read_size == 0 {
                    return Ok(Vec::new());
                }
                let real_offset: u128 = off_u as u128 + entry.start_block as u128 * (
                BLOCK_SIZE as u128);
                let buf = self.fs.read_exact_at(read_size as usize, real_offset);
                Ok(buf)
            },
            None => Err(ENOENT),
        }
    }

    /// Streams a directory from `offset` on: offset 0 emits `.`, offset 1
    /// emits `..`, and from offset 2 on the visible children follow, each
    /// handing back a strictly larger offset. An unknown non-root inode gives
    /// `ENOENT` while `.` or `..` are still due.
    #[verifier::loop_isolation(false)]
    #[verifier::rlimit(60)]
    pub fn readdir(&self, ino: u64, offset: i64) -> (r: Result<Vec<DirItem>, i32>)
        requires
            offset >= 0,
        ensures
            ({
                let s = self.spec_fs().entries_view();
                let k = find_by_inode_idx(s, ino, 0);
                let ch = visible_children(
                    s,
                    ino,
                    self.spec_show_deleted(),
                    self.spec_show_bad(),
                );
                let skip = if offset <= 1 {
                    0int
                } else {
                    offset - 2
                };
                let parent = if ino == 1 {
                    1u64
                } else {
                    s[k].parent_inode
                };
                if ino != 1 && k < 0 && offset <= 1 {
                    r == Err::<Vec<DirItem>, i32>(ENOENT)
                } else {
                    match r {
                        Ok(v) => v@.map_values(|it: DirItem| it@) == readdir_head(
                            ino,
                            parent,
                            offset as int,
                        ) + readdir_tail(ch, skip),
                        Err(_) => false,
                    }
                }
            }),
            match r {
                Ok(v) => forall|i: int, j: int|
                    0 <= i < j < v@.len() ==> #[trigger] v@[i]@.offset < #[trigger] v@[j]@.offset,
                Err(_) => true,
            },
    {
        let ghost s = self.spec_fs().entries_view();
        let ghost sd = self.spec_show_deleted();
        let ghost sb = self.spec_show_bad();
        let mut v: Vec<DirItem> = Vec::new();
        let ghost spec_parent = if ino == 1 {
            1u64
        } else {
            s[find_by_inode_idx(s, ino, 0)].parent_inode
        };
        if offset == 0 || offset == 1 {
            let parent_ino: u64;
            if ino == 1 {
                parent_ino = 1;
            } else {
                match self.fs.entrie_by_inode(ino) {
                    Some(entry) => {
                        parent_ino = entry.parent_inode;
                    },
                    None => {
                        return Err(ENOENT);
                    },
                }
            }
            if offset == 0 {
                let dot = DirItem {
                    inode: ino,
                    offset: 1,
                    kind: FileKind::Directory,
                    name: String::from_str("."),
                };
                proof {
                    reveal_strlit(".");
                    assert(dot@.name =~= seq!['.']);
                }
                v.push(dot);
            }
            let dotdot = DirItem {
                inode: parent_ino,
                offset: 2,
                kind: FileKind::Directory,
                name: String::from_str(".."),
            };
            proof {
                reveal_strlit("..");
                assert(dotdot@.name =~= seq!['.', '.']);
            }
            v.push(dotdot);
        }
        let ghost head = v@.map_values(|it: DirItem| it@);
        proof {
            assert(head =~= readdir_head(ino, spec_parent, offset as int));
        }
        let skip: u64 = if offset <= 1 {
            0
        } else {
            (offset - 2) as u64
        };
        let children = self.fs.entries_by_parent_inode(ino);
        let ghost ch_all = children@.map_values(|e: DirEntry| e@);
        let mut t: u64 = 0;
        let mut idx: usize = 0;
        proof {
            use_type_invariant(&self.fs);
            lemma_children_of_len(s, ino);
            assert(ch_all.take(0) =~= Seq::<EntrySpec>::empty());
            lemma_shown_empty(ch_all.take(0), sd, sb);
            assert(v@.map_values(|it: DirItem| it@) =~= head + readdir_tail(
                shown(ch_all.take(0), sd, sb),
                skip as int,
            ));
        }
        while idx < children.len()
            invariant
                idx <= children@.len(),
                children@.len() <= 0x0020_0000,
                t <= idx,
                t == shown(ch_all.take(idx as int), sd, sb).len(),
                v@.map_values(|it: DirItem| it@) == head + readdir_tail(
                    shown(ch_all.take(idx as int), sd, sb),
                    skip as int,
                ),
            decreases children@.len() - idx,
        {
            let ghost ch_pre = shown(ch_all.take(idx as int), sd, sb);
            let e = &children[idx];
            let keep = (!e.is_deleted || self.show_deleted) && (!e.is_bad || self.show_bad);
            proof {
                assert(ch_all[idx as int] == children@[idx as int]@);
                assert(keep == vis_ok(ch_all[idx as int], sd, sb));
                lemma_shown_push(ch_all, sd, sb, idx as int);
            }
            if keep {
                if t >= skip {
                    let ghost pre_items = v@.map_values(|it: DirItem| it@);
                    let item = DirItem {
                        inode: e.inode,
                        offset: (t + 3) as i64,
                        kind: from_direntry_status(e.status),
                        name: e.name.clone(),
                    };
                    v.push(item);
                    proof {
                        assert(v@.map_values(|it: DirItem| it@) =~= pre_items.push(
                            dir_item(ch_all[idx as int], t + 3),
                        ));
                        assert(head + readdir_tail(
                            shown(ch_all.take(idx + 1), sd, sb),
                            skip as int,
                        ) =~= pre_items.push(dir_item(ch_all[idx as int], t + 3)));
                    }
                } else {
                    proof {
                        assert(head + readdir_tail(
                            shown(ch_all.take(idx + 1), sd, sb),
                            skip as int,
                        ) =~= v@.map_values(|it: DirItem| it@));
                    }
                }
                t = t + 1;
            } else {
                proof {
                    assert(head + readdir_tail(
                        shown(ch_all.take(idx + 1), sd, sb),
                        skip as int,
                    ) =~= v@.map_values(|it: DirItem| it@));
                }
            }
            idx += 1;
        }
        proof {
            assert(ch_all.take(children@.len() as int) =~= ch_all);
            assert(visible_children(s, ino, sd, sb) == shown(ch_all, sd, sb));
            let items = v@.map_values(|it: DirItem| it@);
            assert forall|i: int, j: int| 0 <= i < j < v@.len() implies #[trigger] v@[i]@.offset
                < #[trigger] v@[j]@.offset by {
                assert(items[i] == v@[i]@);
                assert(items[j] == v@[j]@);
            }
        }
        Ok(v)
    }

    /// The volume's filesystem statistics: the free count is the disk size
    /// less the used blocks (never below zero), and the used blocks are thus
    /// recoverable as total minus free.
    pub fn statfs(&self) -> (r: StatFs)
        ensures
            r.blocks == self.spec_fs().vol_meta().disk_size,
            r.bfree == (if self.spec_fs().vol_meta().blocks <= self.spec_fs().vol_meta().disk_size {
                self.spec_fs().vol_meta().disk_size - self.spec_fs().vol_meta().blocks
            } else {
                0int
            }),
            r.bavail == r.bfree,
            r.files == self.spec_fs().vol_meta().files,
            r.ffree == 0,
            r.bsize == BLOCK_SIZE,
            r.namelen == FILE_NAME_SIZE,
            r.frsize == 0,
            self.spec_fs().vol_meta().blocks <= self.spec_fs().vol_meta().disk_size ==> r.blocks
                - r.bfree == self.spec_fs().vol_meta().blocks,
    {
        let total = self.fs.disk_size();
        let used = self.fs.blocks();
        let free = if used <= total {
            total - used
        } else {
            0
        };
        StatFs {
            blocks: total,
            bfree: free,
            bavail: free,
            files: self.fs.files(),
            ffree: 0,
            bsize: BLOCK_SIZE as u32,
            namelen: FILE_NAME_SIZE as u32,
            frsize: 0,
        }
    }
}

} // verus!
