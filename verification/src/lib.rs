//! Read-only decoder for MK-DOS floppy / hard-disk images and AltPro
//! partition tables, exposed as a virtual-inode directory tree.

use vstd::prelude::*;

pub mod io;
pub mod ahdd;
pub mod dir;
pub mod facade;
pub mod fs;
pub mod hdi;
pub mod koi8;
pub mod laws;
pub mod meta;

verus! {

/// Size of one addressable block on the image, in bytes.
pub const BLOCK_SIZE: usize = 512;

/// Volume label that marks a Micro DOS formatted volume.
pub const MICRODOS_LABEL: u16 = 0o123456;

/// Volume label that marks an MK-DOS directory format.
pub const MKDOS_LABEL: u16 = 0o51414;

/// First name byte that marks a directory entry.
pub const DIR_MARKER: u8 = 0o177;

/// Size of one on-disk directory record, in bytes.
pub const DIR_ENTRY_SIZE: usize = 0o30;

/// Number of name bytes in a directory record.
pub const FILE_NAME_SIZE: usize = 14;

/// Size of the volume meta block, in bytes.
pub const META_SIZE: usize = 0o500;

/// The little-endian 16-bit word stored at byte offset `i` of `d`.
pub open spec fn u16le(d: Seq<u8>, i: int) -> u16
    recommends
        0 <= i,
        i + 2 <= d.len(),
{
    (d[i] + 256 * d[i + 1]) as u16
}

/// The byte that the backing store yields at offset `i`: bit-inverted when the
/// image is stored inverted, and zero past the end of the image.
pub open spec fn eff_byte(d: Seq<u8>, inverted: bool, i: int) -> u8 {
    if 0 <= i < d.len() {
        if inverted {
            crate::io::invert_byte(d[i])
        } else {
            d[i]
        }
    } else {
        0
    }
}

/// The little-endian 16-bit word at offset `i` of the effective (possibly
/// bit-inverted) image contents.
pub open spec fn u16le_eff(d: Seq<u8>, inverted: bool, i: int) -> u16 {
    (eff_byte(d, inverted, i) + 256 * eff_byte(d, inverted, i + 1)) as u16
}

} // verus!
