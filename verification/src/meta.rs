//! The MK-DOS volume meta block: field offsets, the decoded form, and the
//! specification of what decoding yields.

use vstd::prelude::*;

use crate::{u16le_eff, MICRODOS_LABEL, MKDOS_LABEL, META_SIZE};

verus! {

/// Byte offsets inside the volume meta block. `LabelsOffset` and
/// `DiskSizeOffset` are the gaps skipped between field groups when the block
/// is consumed front to back.
#[derive(Debug, Copy, Clone, PartialEq, Eq, Structural)]
pub enum MetaOffset {
    Start,
    /// Count of live files in the directory.
    Files,
    /// Total count of blocks used by the directory's files.
    Blocks,
    /// Gap between the counters and the format labels.
    LabelsOffset,
    /// Label of the Micro DOS format family.
    MicrodosLabel,
    /// Label of the MK-DOS directory format.
    MkdosLabel,
    /// Gap between the labels and the geometry words.
    DiskSizeOffset,
    /// Total volume size in blocks.
    DiskSize,
    /// Number of the first data block.
    StartBlock,
    /// First directory record.
    DirEntriesStart,
}

impl MetaOffset {
    /// The byte value of this offset.
    pub open spec fn spec_value(self) -> usize {
        match self {
            MetaOffset::Start => 0,
            MetaOffset::Files => 0o30,
            MetaOffset::Blocks => 0o32,
            MetaOffset::LabelsOffset => 0o344,
            MetaOffset::MicrodosLabel => 0o400,
            MetaOffset::MkdosLabel => 0o402,
            MetaOffset::DiskSizeOffset => 0o62,
            MetaOffset::DiskSize => 0o466,
            MetaOffset::StartBlock => 0o470,
            MetaOffset::DirEntriesStart => 0o500,
        }
    }

    /// The byte value of this offset.
    #[verifier::when_used_as_spec(spec_value)]
    pub fn value(self) -> (r: usize)
        ensures
            r == self.spec_value(),
    {
        match self {
            MetaOffset::Start => 0,
            MetaOffset::Files => 0o30,
            MetaOffset::Blocks => 0o32,
            MetaOffset::LabelsOffset => 0o344,
            MetaOffset::MicrodosLabel => 0o400,
            MetaOffset::MkdosLabel => 0o402,
            MetaOffset::DiskSizeOffset => 0o62,
            MetaOffset::DiskSize => 0o466,
            MetaOffset::StartBlock => 0o470,
            MetaOffset::DirEntriesStart => 0o500,
        }
    }
}

/// The decoded volume meta block.
#[derive(Debug, Copy, Clone, PartialEq, Eq, Structural)]
pub struct Meta {
    /// Count of live files in the directory.
    pub files: u16,
    /// Total count of blocks used by the directory's files.
    pub blocks: u16,
    /// Must equal `MICRODOS_LABEL` or the volume is rejected.
    pub microdos_label: u16,
    /// Must equal `MKDOS_LABEL` or the volume is rejected.
    pub mkdos_label: u16,
    /// Total volume size in blocks.
    pub disk_size: u16,
    /// Number of the first data block.
    pub start_block: u16,
}

/// The meta block decoded from the effective image contents at byte `off`.
pub open spec fn spec_meta(d: Seq<u8>, inverted: bool, off: int) -> Meta {
    Meta {
        files: u16le_eff(d, inverted, off + 0o30),
        blocks: u16le_eff(d, inverted, off + 0o32),
        microdos_label: u16le_eff(d, inverted, off + 0o400),
        mkdos_label: u16le_eff(d, inverted, off + 0o402),
        disk_size: u16le_eff(d, inverted, off + 0o466),
        start_block: u16le_eff(d, inverted, off + 0o470),
    }
}

/// How many meta-block bytes a read at offset `off` of an image of `dlen`
/// bytes can deliver.
pub open spec fn meta_avail(dlen: int, off: int) -> int {
    if off <= dlen {
        vstd::math::min(META_SIZE as int, dlen - off)
    } else {
        0
    }
}

/// Whether both format labels of `m` carry their required values.
pub open spec fn labels_ok(m: Meta) -> bool {
    m.microdos_label == MICRODOS_LABEL && m.mkdos_label == MKDOS_LABEL
}

impl Meta {
    pub fn new() -> (r: Self)
        ensures
            r == Self::spec_default(),
    {
        Self::default()
    }

    /// The meta block of an empty, freshly labelled volume.
    pub open spec fn spec_default() -> Meta {
        Meta {
            files: 0,
            blocks: 0,
            microdos_label: MICRODOS_LABEL,
            mkdos_label: MKDOS_LABEL,
            disk_size: 0,
            start_block: 0,
        }
    }
}

impl Default for Meta {
    fn default() -> (r: Self)
        ensures
            r == Self::spec_default(),
    {
        Meta {
            files: 0,
            blocks: 0,
            microdos_label: MICRODOS_LABEL,
            mkdos_label: MKDOS_LABEL,
            disk_size: 0,
            start_block: 0,
        }
    }
}

} // verus!
