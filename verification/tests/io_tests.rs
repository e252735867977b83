use mkdosfs::io::{invert_bytes, BinInvertedReader, ByteCursor, ReverseReader};

#[test]
fn cursor_reads_and_seeks() {
    let mut c = ByteCursor::new(vec![10, 20, 30, 40, 50]);
    assert_eq!(c.len(), 5);
    assert_eq!(c.position(), 0);
    assert_eq!(c.read(2), vec![10, 20]);
    assert_eq!(c.position(), 2);
    c.seek(4);
    assert_eq!(c.read(3), vec![50]);
    assert_eq!(c.position(), 5);
    assert_eq!(c.into_inner(), vec![10, 20, 30, 40, 50]);
}

#[test]
fn inverting_reader_inverts_every_byte() {
    let mut r = BinInvertedReader::new(ByteCursor::new(vec![0x00, 0xFF, 0x0F, 0xA5]));
    assert_eq!(r.read(4), vec![0xFF, 0x00, 0xF0, 0x5A]);
    r.seek(1);
    assert_eq!(r.read(1), vec![0x00]);
    let inner = r.into_inner();
    assert_eq!(inner.position(), 2);
}

#[test]
fn invert_twice_gives_the_bytes_back() {
    let data: Vec<u8> = vec![0, 1, 2, 127, 128, 254, 255, 0x36, 0xA7];
    let once = invert_bytes(&data);
    let twice = invert_bytes(&once);
    assert_eq!(twice, data);
    assert_ne!(once, data);
}

#[test]
fn reverse_reader_steps_backward() {
    let mut c = ByteCursor::new(vec![0, 1, 2, 3, 4, 5, 6, 7]);
    c.seek(6);
    let mut r = ReverseReader::new(c);
    assert_eq!(r.read(2), vec![4, 5]);
    assert_eq!(r.position(), 4);
    assert_eq!(r.read(2), vec![2, 3]);
    assert_eq!(r.position(), 2);
    assert_eq!(r.read(2), vec![0, 1]);
    assert_eq!(r.position(), 0);
}

#[test]
fn reverse_reader_multi_read_concatenates_preceding_blocks() {
    let mut c = ByteCursor::new(vec![0, 1, 2, 3, 4, 5, 6, 7]);
    c.seek(6);
    let mut r = ReverseReader::new(c);
    let out = r.read_multi(3, 2);
    assert_eq!(out, vec![4, 5, 2, 3, 0, 1]);
    assert_eq!(r.position(), 0);
}

#[test]
fn reverse_reader_decodes_little_endian_words() {
    let mut c = ByteCursor::new(vec![0x0C, 0x53, 0x2E, 0xA7]);
    c.seek(4);
    let mut r = ReverseReader::new(c);
    assert_eq!(r.read_u16_le(), 0xA72E);
    assert_eq!(r.read_u16_le(), 0x530C);
    assert_eq!(r.position(), 0);
}

#[test]
fn reverse_reader_seek_is_forwarded() {
    let mut c = ByteCursor::new(vec![9, 8, 7, 6]);
    c.seek(1);
    let mut r = ReverseReader::new(c);
    r.seek(3);
    assert_eq!(r.read(3), vec![9, 8, 7]);
}
