use mkdosfs::dir::{DirEntryOffset, DirEntryStatus};
use mkdosfs::facade::{FileKind, FuseFs, EACCES, EINVAL, ENOENT};
use mkdosfs::fs::{Fs, FsError};
use mkdosfs::meta::{Meta, MetaOffset};
use mkdosfs::{BLOCK_SIZE, MICRODOS_LABEL, MKDOS_LABEL};

fn put_u16(img: &mut Vec<u8>, at: usize, v: u16) {
    img[at] = (v & 0xFF) as u8;
    img[at + 1] = (v >> 8) as u8;
}

fn put_name(img: &mut Vec<u8>, at: usize, name: &[u8]) {
    for (i, b) in name.iter().enumerate() {
        img[at + i] = *b;
    }
    for i in name.len()..14 {
        img[at + i] = 0x20;
    }
}

/// A record of the directory table, 24 bytes at `at`.
fn put_entry(
    img: &mut Vec<u8>,
    at: usize,
    status: u8,
    dir_no: u8,
    name: &[u8],
    start_block: u16,
    blocks: u16,
    length: u16,
) {
    img[at] = status;
    img[at + 1] = dir_no;
    put_name(img, at + 2, name);
    put_u16(img, at + 16, start_block);
    put_u16(img, at + 18, blocks);
    put_u16(img, at + 20, 0);
    put_u16(img, at + 22, length);
}

/// A small valid floppy: one live file HELLO of 100 bytes at block 25.
fn floppy_image() -> Vec<u8> {
    let mut img = vec![0u8; 26 * 512];
    put_u16(&mut img, 0o30, 3);
    put_u16(&mut img, 0o32, 5);
    put_u16(&mut img, 0o400, MICRODOS_LABEL);
    put_u16(&mut img, 0o402, MKDOS_LABEL);
    put_u16(&mut img, 0o466, 800);
    put_u16(&mut img, 0o470, 25);
    put_entry(&mut img, 0o500, 0, 0, b"HELLO", 25, 1, 100);
    for i in 0..512 {
        img[25 * 512 + i] = (i % 256) as u8;
    }
    img
}

#[test]
fn valid_floppy_mounts_and_serves_hello() {
    let mut f = FuseFs::new("floppy.img");
    assert!(f.try_open(floppy_image()).is_ok());

    let attr = f.lookup(1, "HELLO").unwrap();
    assert_eq!(attr.ino, 1001);
    assert_eq!(attr.size, 100);
    assert_eq!(attr.blocks, 1);
    assert_eq!(attr.perm, 0o444);
    assert_eq!(attr.kind, FileKind::RegularFile);
    assert_eq!(attr.nlink, 1);
    assert_eq!(attr.uid, 1000);
    assert_eq!(attr.gid, 1000);
    assert_eq!(attr.atime_secs, 286426800);

    let items = f.readdir(1, 0).unwrap();
    assert_eq!(items.len(), 3);
    assert_eq!(items[0].name, ".");
    assert_eq!(items[0].inode, 1);
    assert_eq!(items[0].offset, 1);
    assert_eq!(items[1].name, "..");
    assert_eq!(items[1].inode, 1);
    assert_eq!(items[1].offset, 2);
    assert_eq!(items[2].name, "HELLO");
    assert_eq!(items[2].inode, 1001);
    assert_eq!(items[2].offset, 3);

    let data = f.read(1001, 0, 200).unwrap();
    assert_eq!(data.len(), 100);
    for i in 0..100 {
        assert_eq!(data[i], (i % 256) as u8);
    }
}

#[test]
fn missing_labels_refuse_the_mount() {
    let mut img = floppy_image();
    put_u16(&mut img, 0o400, 0);
    put_u16(&mut img, 0o402, 0);
    let mut f = Fs::new("nolabel.img");
    assert_eq!(f.try_open(img), Err(FsError::LabelMicroDos));
}

#[test]
fn missing_second_label_is_its_own_error() {
    let mut img = floppy_image();
    put_u16(&mut img, 0o402, 0);
    let mut f = Fs::new("bad.img");
    assert_eq!(f.try_open(img), Err(FsError::LabelMkDos));
}

#[test]
fn short_image_reports_bad_meta_size() {
    let mut f = Fs::new("short.img");
    assert_eq!(f.try_open(vec![0u8; 100]), Err(FsError::BadMetaSize(100)));
}

#[test]
fn offset_without_size_is_refused() {
    let mut f = Fs::new("off.img");
    f.set_offset(512);
    assert_eq!(f.try_open(floppy_image()), Err(FsError::UnknownSize));
}

#[test]
fn offset_with_size_shifts_the_volume() {
    let mut shifted = vec![0u8; 512];
    shifted.extend(floppy_image());
    let mut f = FuseFs::new("shift.img");
    f.set_offset(1);
    f.set_size(800);
    assert!(f.try_open(shifted).is_ok());
    let attr = f.lookup(1, "HELLO").unwrap();
    assert_eq!(attr.ino, 1001);
    let data = f.read(1001, 0, 10).unwrap();
    assert_eq!(data.len(), 10);
    assert_eq!(data[0], 0);
    assert_eq!(data[1], 1);
}

#[test]
fn inverted_image_behaves_like_the_plain_one() {
    let img: Vec<u8> = floppy_image().iter().map(|b| !*b).collect();
    let mut f = FuseFs::new("inv.img");
    f.set_inverted(true);
    assert!(f.try_open(img).is_ok());
    let attr = f.lookup(1, "HELLO").unwrap();
    assert_eq!(attr.ino, 1001);
    assert_eq!(attr.size, 100);
    let data = f.read(1001, 0, 200).unwrap();
    assert_eq!(data.len(), 100);
    for i in 0..100 {
        assert_eq!(data[i], (i % 256) as u8);
    }
}

#[test]
fn deleted_files_hide_until_asked_for() {
    let mut img = floppy_image();
    put_entry(&mut img, 0o500 + 24, 0o377, 0, b"GONE", 30, 1, 50);
    let mut f = FuseFs::new("del.img");
    assert!(f.try_open(img.clone()).is_ok());
    let items = f.readdir(1, 0).unwrap();
    assert_eq!(items.len(), 3);
    assert!(items.iter().all(|it| it.name != "GONE"));

    let mut g = FuseFs::new("del2.img");
    g.show_deleted(true);
    assert!(g.try_open(img).is_ok());
    let items = g.readdir(1, 0).unwrap();
    assert_eq!(items.len(), 4);
    assert_eq!(items[3].name, "GONE");
    assert_eq!(items[3].offset, 4);
}

#[test]
fn bad_files_hide_until_asked_for() {
    let mut img = floppy_image();
    put_entry(&mut img, 0o500 + 24, 0o200, 0, b"BADAREA", 30, 2, 0);
    let mut f = FuseFs::new("bad1.img");
    assert!(f.try_open(img.clone()).is_ok());
    assert_eq!(f.readdir(1, 0).unwrap().len(), 3);

    let mut g = FuseFs::new("bad2.img");
    g.show_bad(true);
    assert!(g.try_open(img).is_ok());
    let items = g.readdir(1, 0).unwrap();
    assert_eq!(items.len(), 4);
    assert_eq!(items[3].name, "BADAREA");
}

#[test]
fn readdir_streams_from_any_offset_with_growing_offsets() {
    let mut img = floppy_image();
    put_entry(&mut img, 0o500 + 24, 0, 0, b"SECOND", 30, 1, 10);
    put_entry(&mut img, 0o500 + 48, 0, 0, b"THIRD", 31, 1, 10);
    let mut f = FuseFs::new("rd.img");
    assert!(f.try_open(img).is_ok());

    let from1 = f.readdir(1, 1).unwrap();
    assert_eq!(from1[0].name, "..");
    assert_eq!(from1[0].offset, 2);
    assert_eq!(from1.len(), 4);

    let from3 = f.readdir(1, 3).unwrap();
    assert_eq!(from3.len(), 2);
    assert_eq!(from3[0].name, "SECOND");
    assert_eq!(from3[0].offset, 4);
    assert_eq!(from3[1].name, "THIRD");
    assert_eq!(from3[1].offset, 5);

    let all = f.readdir(1, 0).unwrap();
    for w in all.windows(2) {
        assert!(w[0].offset < w[1].offset);
    }

    assert_eq!(f.readdir(1, 7).unwrap().len(), 0);
    assert_eq!(f.readdir(999, 0).unwrap_err(), ENOENT);
    assert_eq!(f.readdir(999, 5).unwrap().len(), 0);
}

#[test]
fn read_is_clamped_to_what_is_left() {
    let mut f = FuseFs::new("clamp.img");
    assert!(f.try_open(floppy_image()).is_ok());
    assert_eq!(f.read(1001, 0, 40).unwrap().len(), 40);
    assert_eq!(f.read(1001, 60, 100).unwrap().len(), 40);
    assert_eq!(f.read(1001, 100, 10).unwrap().len(), 0);
    assert_eq!(f.read(1001, 150, 10).unwrap().len(), 0);
    assert_eq!(f.read(1001, -5, 10).unwrap().len(), 0);
    assert_eq!(f.read(4242, 0, 10), Err(ENOENT));
}

#[test]
fn statfs_balances_total_free_and_used() {
    let mut f = FuseFs::new("st.img");
    assert!(f.try_open(floppy_image()).is_ok());
    let st = f.statfs();
    assert_eq!(st.blocks, 800);
    assert_eq!(st.bfree, 795);
    assert_eq!(st.bavail, 795);
    assert_eq!(st.blocks - st.bfree, 5);
    assert_eq!(st.files, 3);
    assert_eq!(st.ffree, 0);
    assert_eq!(st.bsize, 512);
    assert_eq!(st.namelen, 14);
}

#[test]
fn getattr_serves_the_synthetic_root() {
    let mut f = FuseFs::new("root.img");
    assert!(f.try_open(floppy_image()).is_ok());
    let root = f.getattr(1).unwrap();
    assert_eq!(root.ino, 1);
    assert_eq!(root.perm, 0o755);
    assert_eq!(root.nlink, 2);
    assert_eq!(root.kind, FileKind::Directory);
    assert_eq!(root.atime_secs, 286426800);
    assert_eq!(root.mtime_secs, 286405200);
    assert_eq!(root.crtime_secs, 286405200);
    let file = f.getattr(1001).unwrap();
    assert_eq!(file.ino, 1001);
    assert_eq!(file.mtime_secs, 286426800);
    assert_eq!(f.getattr(77), Err(ENOENT));
    assert_eq!(f.lookup(1, "NOSUCH"), Err(ENOENT));
}

#[test]
fn open_access_enforces_the_read_only_policy() {
    let f = FuseFs::new("acc.img");
    assert_eq!(f.open_access(0), Ok(4));
    assert_eq!(f.open_access(0o1000), Err(EACCES));
    assert_eq!(f.open_access(1), Err(EACCES));
    assert_eq!(f.open_access(2), Err(EACCES));
    assert_eq!(f.open_access(3), Err(EINVAL));
}

#[test]
fn koi8r_names_decode_to_cyrillic() {
    let mut img = floppy_image();
    // KOI8-R 0xC1 0xC2 are the Cyrillic letters that follow: not identity bytes.
    put_entry(&mut img, 0o500 + 24, 0, 0, &[0xC1, 0xC2], 30, 1, 10);
    let mut f = FuseFs::new("koi.img");
    assert!(f.try_open(img).is_ok());
    let items = f.readdir(1, 0).unwrap();
    assert_eq!(items[3].name, "\u{0430}\u{0431}");
    assert!(f.lookup(1, "\u{0430}\u{0431}").is_ok());
}

#[test]
fn subdirectories_get_stable_small_inodes() {
    let mut img = floppy_image();
    let mut dirname = vec![0o177u8];
    dirname.extend_from_slice(b"SUB");
    put_entry(&mut img, 0o500 + 24, 2, 0, &dirname, 0, 0, 0);
    put_entry(&mut img, 0o500 + 48, 0, 2, b"INSIDE", 30, 1, 10);
    let mut f = FuseFs::new("sub.img");
    assert!(f.try_open(img).is_ok());

    let sub = f.lookup(1, "SUB").unwrap();
    assert_eq!(sub.ino, 3);
    assert_eq!(sub.kind, FileKind::Directory);
    assert_eq!(sub.perm, 0o755);

    let inside = f.lookup(3, "INSIDE").unwrap();
    assert_eq!(inside.ino, 1002);

    let items = f.readdir(3, 0).unwrap();
    assert_eq!(items[0].name, ".");
    assert_eq!(items[0].inode, 3);
    assert_eq!(items[1].name, "..");
    assert_eq!(items[1].inode, 1);
    assert_eq!(items[2].name, "INSIDE");
}

#[test]
fn inodes_are_unique_and_never_the_root() {
    let mut img = floppy_image();
    let mut d1 = vec![0o177u8];
    d1.extend_from_slice(b"D1");
    let mut d2 = vec![0o177u8];
    d2.extend_from_slice(b"D2");
    put_entry(&mut img, 0o500 + 24, 1, 0, &d1, 0, 0, 0);
    put_entry(&mut img, 0o500 + 48, 2, 0, &d2, 0, 0, 0);
    put_entry(&mut img, 0o500 + 72, 0, 1, b"A", 30, 1, 10);
    put_entry(&mut img, 0o500 + 96, 0, 2, b"B", 31, 1, 10);
    let mut f = Fs::new("uniq.img");
    assert!(f.try_open(img).is_ok());
    let mut inodes: Vec<u64> = Vec::new();
    for parent in [1u64, 2, 3] {
        for e in f.entries_by_parent_inode(parent) {
            inodes.push(e.inode);
        }
    }
    assert_eq!(inodes.len(), 5);
    for i in 0..inodes.len() {
        assert_ne!(inodes[i], 1);
        for j in 0..i {
            assert_ne!(inodes[i], inodes[j]);
        }
    }
}

#[test]
fn deleted_and_bad_entries_are_reparented_to_the_root() {
    let mut img = floppy_image();
    put_entry(&mut img, 0o500 + 24, 0o377, 9, b"GONE", 30, 1, 10);
    put_entry(&mut img, 0o500 + 48, 0o200, 9, b"BAD", 31, 1, 10);
    let mut f = Fs::new("repar.img");
    assert!(f.try_open(img).is_ok());
    let root_children = f.entries_by_parent_inode(1);
    assert_eq!(root_children.len(), 3);
    for e in &root_children {
        assert_eq!(e.parent_inode, 1);
    }
    assert!(root_children.iter().any(|e| e.is_deleted && e.name == "GONE"));
    assert!(root_children.iter().any(|e| e.is_bad && e.name == "BAD"));
}

#[test]
fn unknown_status_is_kept_when_plausible_and_halts_otherwise() {
    let mut img = floppy_image();
    put_entry(&mut img, 0o500 + 24, 77, 0, b"ODD", 30, 1, 10);
    put_entry(&mut img, 0o500 + 48, 0, 0, b"AFTER", 31, 1, 10);
    let mut f = Fs::new("odd.img");
    assert!(f.try_open(img).is_ok());
    let children = f.entries_by_parent_inode(1);
    assert_eq!(children.len(), 3);
    assert!(children.iter().any(|e| e.is_unknown && e.name == "ODD"));

    // An unknown status whose start block sits inside the system area halts
    // the table, and nothing after it is kept.
    let mut img2 = floppy_image();
    put_entry(&mut img2, 0o500 + 24, 77, 0, b"JUNK", 5, 1, 10);
    put_entry(&mut img2, 0o500 + 48, 0, 0, b"AFTER", 31, 1, 10);
    let mut g = Fs::new("junk.img");
    assert!(g.try_open(img2).is_ok());
    let children = g.entries_by_parent_inode(1);
    assert_eq!(children.len(), 1);
    assert_eq!(children[0].name, "HELLO");
}

#[test]
fn long_files_take_their_size_from_the_block_count() {
    let mut img = floppy_image();
    put_entry(&mut img, 0o500 + 24, 0, 0, b"BIG", 30, 200, 77);
    let mut f = Fs::new("big.img");
    assert!(f.try_open(img).is_ok());
    let children = f.entries_by_parent_inode(1);
    let big = children.iter().find(|e| e.name == "BIG").unwrap();
    assert_eq!(big.size, 200 * 512);
    assert_eq!(big.length, 77);
    let hello = children.iter().find(|e| e.name == "HELLO").unwrap();
    assert_eq!(hello.size, 100);
}

#[test]
fn protected_files_carry_the_sticky_bit() {
    let mut img = floppy_image();
    put_entry(&mut img, 0o500 + 24, 1, 0, b"SAFE", 30, 1, 10);
    let mut f = FuseFs::new("prot.img");
    assert!(f.try_open(img).is_ok());
    let attr = f.lookup(1, "SAFE").unwrap();
    assert_eq!(attr.perm, 0o1444);
}

#[test]
fn check_modified_tracks_the_stamp() {
    let mut f = Fs::new("mod.img");
    assert_eq!(f.last_modified(), (0, 0));
    assert!(!f.check_modified(0, 0));
    assert!(f.check_modified(5, 7));
    assert!(!f.check_modified(5, 7));
    assert_eq!(f.last_modified(), (5, 7));
}

#[test]
fn try_reopen_discards_the_old_model() {
    let mut f = Fs::new("re.img");
    assert!(f.try_open(floppy_image()).is_ok());
    let mut img2 = floppy_image();
    put_entry(&mut img2, 0o500 + 24, 0, 0, b"NEW", 30, 1, 10);
    assert!(f.try_reopen(img2).is_ok());
    let children = f.entries_by_parent_inode(1);
    assert_eq!(children.len(), 2);
    // File inodes restart at 1001 after a reopen.
    assert_eq!(children[0].inode, 1001);
    assert_eq!(children[1].inode, 1002);
}

#[test]
fn meta_defaults_carry_the_labels() {
    let m = Meta::new();
    assert_eq!(m.microdos_label, MICRODOS_LABEL);
    assert_eq!(m.mkdos_label, MKDOS_LABEL);
    assert_eq!(m.files, 0);
    assert_eq!(m.disk_size, 0);
    assert_eq!(BLOCK_SIZE, 512);
}

#[test]
fn field_offsets_match_the_on_disk_layout() {
    assert_eq!(MetaOffset::Files.value(), 0o30);
    assert_eq!(MetaOffset::MicrodosLabel.value(), 0o400);
    assert_eq!(MetaOffset::MkdosLabel.value(), 0o402);
    assert_eq!(MetaOffset::DiskSize.value(), 0o466);
    assert_eq!(MetaOffset::StartBlock.value(), 0o470);
    assert_eq!(MetaOffset::DirEntriesStart.value(), 0o500);
    assert_eq!(DirEntryOffset::Name.value(), 2);
    assert_eq!(DirEntryOffset::StartBlock.value(), 0o20);
    assert_eq!(DirEntryOffset::Length.value(), 0o26);
    assert_eq!(DirEntryStatus::BadFile.code(), 0o200);
    assert_eq!(DirEntryStatus::Deleted.code(), 0o377);
    assert_eq!(DirEntryStatus::default().code(), 0);
}

#[test]
fn blank_entries_default_to_read_only() {
    let e = mkdosfs::dir::DirEntry::new();
    assert_eq!(e.mode, 0o444);
    assert_eq!(e.inode, 0);
    assert_eq!(e.name, "");
    assert!(!e.is_dir);
}
