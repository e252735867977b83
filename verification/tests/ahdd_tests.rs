use mkdosfs::ahdd::{swap_pairs, AHDDError, AHDD, AHDD_CS_INIT};
use mkdosfs::hdi::{HDILayout, HDI};

fn put_u16(b: &mut [u8; 512], at: usize, v: u16) {
    b[at] = (v & 0xFF) as u8;
    b[at + 1] = (v >> 8) as u8;
}

/// A decoded (logical) table block with one partition and a sound checksum:
/// geometry 4 heads by 10 sectors, one protected partition of 256 blocks.
fn table_block() -> [u8; 512] {
    let mut b = [0u8; 512];
    put_u16(&mut b, 510, 100); // cylinders
    b[509] = 0; // drv
    b[508] = 4; // heads
    put_u16(&mut b, 506, 10); // sectors
    b[505] = 0; // uni
    b[504] = 1; // partitions
    put_u16(&mut b, 502, 0x8040); // cyl_head of the single record
    put_u16(&mut b, 500, 0x0100); // blocks of the single record
    let words: [u16; 6] = [100, 4, 10, 1, 0x8040, 0x0100];
    let mut cs: u32 = AHDD_CS_INIT as u32;
    for w in words {
        cs = (cs + w as u32) % 0x1_0000;
    }
    put_u16(&mut b, 498, cs as u16);
    b
}

/// The block as it sits on disk: every byte bit-inverted.
fn on_disk(b: &[u8; 512]) -> Vec<u8> {
    b.iter().map(|x| !*x).collect()
}

#[test]
fn sound_checksum_is_accepted() {
    let mut a = AHDD::new("disk.img");
    assert!(a.read_header(on_disk(&table_block())).is_ok());
    assert_eq!(a.partitions().len(), 1);
    let expected: u32 = (AHDD_CS_INIT as u32 + 100 + 4 + 10 + 1 + 0x8040 + 0x0100) % 0x1_0000;
    assert_eq!(a.checksum().unwrap(), expected as u16);
}

#[test]
fn mutated_block_fails_the_checksum() {
    let mut b = table_block();
    b[510] = b[510].wrapping_add(1);
    let mut a = AHDD::new("disk.img");
    let expected_stored = {
        let mut cs: u32 = AHDD_CS_INIT as u32;
        for w in [100u16, 4, 10, 1, 0x8040, 0x0100] {
            cs = (cs + w as u32) % 0x1_0000;
        }
        cs as u16
    };
    match a.read_header(on_disk(&b)) {
        Err(AHDDError::CheckSum(stored, computed)) => {
            assert_eq!(stored, expected_stored);
            assert_eq!(computed, expected_stored.wrapping_add(1));
        }
        other => panic!("expected a checksum mismatch, got {:?}", other),
    }
}

#[test]
fn protected_partition_geometry() {
    let mut a = AHDD::new("disk.img");
    assert!(a.read_header(on_disk(&table_block())).is_ok());
    let p = &a.partitions()[0];
    assert!(p.protected);
    assert_eq!(p.start_cylinder, 0x804);
    assert_eq!(p.start_head, 0xF);
    assert_eq!(p.start_sector, 1);
    // lba = (cyl * heads + head) * sectors
    assert_eq!(p.lba, (0x804 * 4 + 0xF) * 10);
    assert_eq!(p.length, 256);
    assert_eq!(p.end_block, p.lba + 256);
    assert_eq!(p.end_cylinder, (p.end_block / 40) as u16);
    assert_eq!(p.end_head, ((p.end_block / 10) % 4) as u16);
    assert_eq!(p.end_sector, (p.end_block % 10 + 1) as u16);
}

#[test]
fn unprotected_records_split_plainly() {
    let mut b = table_block();
    put_u16(&mut b, 502, 0x0123); // cyl 0x12, head 3, not protected
    let words: [u16; 6] = [100, 4, 10, 1, 0x0123, 0x0100];
    let mut cs: u32 = AHDD_CS_INIT as u32;
    for w in words {
        cs = (cs + w as u32) % 0x1_0000;
    }
    put_u16(&mut b, 498, cs as u16);
    let mut a = AHDD::new("disk.img");
    assert!(a.read_header(on_disk(&b)).is_ok());
    let p = &a.partitions()[0];
    assert!(!p.protected);
    assert_eq!(p.start_cylinder, 0x12);
    assert_eq!(p.start_head, 3);
}

#[test]
fn a_short_block_is_refused_with_its_size() {
    let mut a = AHDD::new("disk.img");
    assert_eq!(a.read_header(vec![0u8; 40]), Err(AHDDError::ReadHeaderSize(40)));
}

#[test]
fn a_zero_geometry_is_refused() {
    let mut b = table_block();
    b[508] = 0; // heads
    let mut a = AHDD::new("disk.img");
    assert_eq!(a.read_header(on_disk(&b)), Err(AHDDError::Unknown));
}

#[test]
fn the_table_offset_follows_the_disk_offset() {
    let mut a = AHDD::new("disk.img");
    assert_eq!(a.pt_offset(), 7 * 512);
    a.set_offset(1024);
    assert_eq!(a.pt_offset(), 1024 + 7 * 512);
}

#[test]
fn swap_pairs_trades_neighbours() {
    assert_eq!(swap_pairs(&[1, 2, 3, 4]), vec![2, 1, 4, 3]);
    assert_eq!(swap_pairs(&[1, 2, 3, 4, 5]), vec![2, 1, 4, 3, 5]);
    assert_eq!(swap_pairs::<u8>(&[]), Vec::<u8>::new());
    assert_eq!(swap_pairs(&[7]), vec![7]);
    assert_eq!(swap_pairs(&[b'A', b'B']), vec![b'B', b'A']);
}

#[test]
fn hdi_checksum_balances_the_block() {
    let h = HDI::new();
    assert_eq!(h.checksum(), 0);
}

#[test]
fn hdi_layout_defaults_match_the_ata_identity() {
    let l = HDILayout::default();
    assert_eq!(l.main_config, 0x045a);
    assert_eq!(l.word2, 0xc837);
    assert_eq!(l.buffer_type, 1);
    assert_eq!(l.ecc_bytes_num, 4);
    assert_eq!(l.word47, 0x8001);
    assert_eq!(l.capabilities1, 0x200);
    assert_eq!(l.capabilities2, 0x4000);
    assert_eq!(l.model_name, [0u8; 40]);
}
