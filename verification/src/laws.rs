//! Laws of the decoded directory table: how virtual inodes and parent links
//! behave across every volume the decoder accepts.

use vstd::prelude::*;

use crate::dir::{
    mk_entry, num_files, parse_entries, rec_at, rec_counts_normal, rec_is_dir, table_limit,
    table_rem, EntrySpec,
};
use crate::meta::Meta;
use crate::META_SIZE;

verus! {

/// The field facts the decoder guarantees of entry `i` of a decoded table,
/// with `nfiles` file entries numbered before the table started: deleted and
/// bad entries hang off the root, everything else points at `1 + dir_no`,
/// directory inodes stay within 1..=256, and file inodes count up from 1001.
pub open spec fn entry_shape(es: Seq<EntrySpec>, nfiles: int, i: int) -> bool {
    let e = es[i];
    &&& (e.is_deleted || e.is_bad ==> e.parent_inode == 1)
    &&& (!(e.is_deleted || e.is_bad) ==> e.parent_inode == 1 + e.dir_no)
    &&& (e.is_dir ==> 1 <= e.inode <= 256)
    &&& (!e.is_dir ==> e.inode == 1001 + nfiles + num_files(es.take(i)))
}

proof fn lemma_num_files_cons(e: EntrySpec, s: Seq<EntrySpec>)
    ensures
        num_files(seq![e] + s) == num_files(s) + (if e.is_dir {
            0int
        } else {
            1int
        }),
    decreases s.len(),
{
    if s.len() == 0 {
        assert(seq![e] + s =~= seq![e]);
        assert(seq![e].drop_last() =~= Seq::<EntrySpec>::empty());
        assert(seq![e].last() == e);
        assert(num_files(seq![e]) == num_files(seq![e].drop_last()) + (if e.is_dir {
            0int
        } else {
            1int
        }));
        assert(num_files(seq![e] + s) == num_files(s) + (if e.is_dir {
            0int
        } else {
            1int
        }));
    } else {
        lemma_num_files_cons(e, s.drop_last());
        assert((seq![e] + s).drop_last() =~= seq![e] + s.drop_last());
        assert((seq![e] + s).last() == s.last());
        assert(s.drop_last().push(s.last()) =~= s);
        assert(num_files(seq![e] + s) == num_files((seq![e] + s).drop_last()) + (if (seq![e]
            + s).last().is_dir {
            0int
        } else {
            1int
        }));
        assert(num_files(s) == num_files(s.drop_last()) + (if s.last().is_dir {
            0int
        } else {
            1int
        }));
        assert(num_files(seq![e] + s) == num_files(s) + (if e.is_dir {
            0int
        } else {
            1int
        }));
    }
}

proof fn lemma_num_files_nonneg(s: Seq<EntrySpec>)
    ensures
        num_files(s) >= 0,
    decreases s.len(),
{
    if s.len() > 0 {
        lemma_num_files_nonneg(s.drop_last());
    }
}

proof fn lemma_num_files_step(es: Seq<EntrySpec>, i: int)
    requires
        0 <= i < es.len(),
    ensures
        num_files(es.take(i + 1)) == num_files(es.take(i)) + (if es[i].is_dir {
            0int
        } else {
            1int
        }),
{
    assert(es.take(i + 1).drop_last() =~= es.take(i));
    assert(es.take(i + 1).last() == es[i]);
}

proof fn lemma_num_files_mono(es: Seq<EntrySpec>, i: int, j: int)
    requires
        0 <= i <= j <= es.len(),
    ensures
        num_files(es.take(i)) <= num_files(es.take(j)),
    decreases j - i,
{
    if i < j {
        lemma_num_files_mono(es, i, j - 1);
        lemma_num_files_step(es, j - 1);
    }
}

/// Every entry of a decoded table satisfies `entry_shape`.
pub proof fn lemma_parse_shape(
    d: Seq<u8>,
    inverted: bool,
    off: int,
    m: Meta,
    pos: int,
    normal: int,
    nfiles: int,
)
    requires
        0 <= nfiles,
        nfiles + table_rem(table_limit(off, m), pos) / 24 + 2 < 0x1000_0000_0000,
    ensures
        forall|i: int|
            0 <= i < parse_entries(d, inverted, off, m, pos, normal, nfiles).len()
                ==> #[trigger] entry_shape(
                parse_entries(d, inverted, off, m, pos, normal, nfiles),
                nfiles,
                i,
            ),
    decreases table_rem(table_limit(off, m), pos),
{
    let es = parse_entries(d, inverted, off, m, pos, normal, nfiles);
    let limit = table_limit(off, m);
    let rec = rec_at(d, inverted, pos);
    if es.len() > 0 {
        let e0 = mk_entry(rec, nfiles);
        let normal2 = normal + if rec_counts_normal(rec) {
            1int
        } else {
            0int
        };
        let nfiles2 = nfiles + if rec_is_dir(rec) {
            0int
        } else {
            1int
        };
        assert(es[0] == e0);
        assert(es.take(0) =~= Seq::<EntrySpec>::empty());
        assert(entry_shape(es, nfiles, 0));
        if pos + 24 <= limit {
            let rest = parse_entries(d, inverted, off, m, pos + 24, normal2, nfiles2);
            assert(es =~= seq![e0] + rest);
            lemma_parse_shape(d, inverted, off, m, pos + 24, normal2, nfiles2);
            assert forall|i: int| 1 <= i < es.len() implies entry_shape(es, nfiles, i) by {
                assert(entry_shape(rest, nfiles2, i - 1));
                assert(es[i] == rest[i - 1]);
                assert(es.take(i) =~= seq![e0] + rest.take(i - 1));
                lemma_num_files_cons(e0, rest.take(i - 1));
            }
        } else {
            assert(es =~= seq![e0]);
        }
    }
}

/// Inode uniqueness: within a decoded directory table whose live
/// subdirectory numbers are pairwise distinct and nonzero — the volume
/// invariant MK-DOS maintains — no two entries share a virtual inode, and
/// the root's inode 1 appears on none of them.
pub proof fn lemma_inode_uniqueness(
    d: Seq<u8>,
    inverted: bool,
    off: int,
    m: Meta,
    es: Seq<EntrySpec>,
)
    requires
        es == parse_entries(d, inverted, off, m, off + META_SIZE, 0, 0),
        forall|i: int, j: int|
            0 <= i < j < es.len() && es[i].is_dir && es[j].is_dir ==> es[i].inode != es[j].inode,
        forall|i: int| 0 <= i < es.len() && es[i].is_dir ==> es[i].inode != 1,
    ensures
        forall|i: int, j: int| 0 <= i < j < es.len() ==> es[i].inode != es[j].inode,
        forall|i: int| 0 <= i < es.len() ==> es[i].inode != 1,
{
    lemma_parse_shape(d, inverted, off, m, off + META_SIZE, 0, 0);
    assert forall|i: int, j: int| 0 <= i < j < es.len() implies es[i].inode != es[j].inode by {
        assert(entry_shape(es, 0, i));
        assert(entry_shape(es, 0, j));
        lemma_num_files_nonneg(es.take(i));
        lemma_num_files_nonneg(es.take(j));
        if !es[i].is_dir && !es[j].is_dir {
            lemma_num_files_step(es, i);
            lemma_num_files_mono(es, i + 1, j);
        }
    }
    assert forall|i: int| 0 <= i < es.len() implies es[i].inode != 1 by {
        assert(entry_shape(es, 0, i));
        lemma_num_files_nonneg(es.take(i));
    }
}

/// Parent resolution: in a decoded directory table, every deleted or bad
/// entry is reparented to the root, and every other entry points at the
/// root or at an entry of the table — provided each subdirectory number a
/// live entry names is present, as the volume invariant promises.
pub proof fn lemma_parents_resolve(
    d: Seq<u8>,
    inverted: bool,
    off: int,
    m: Meta,
    es: Seq<EntrySpec>,
)
    requires
        es == parse_entries(d, inverted, off, m, off + META_SIZE, 0, 0),
        forall|i: int|
            0 <= i < es.len() && !es[i].is_deleted && !es[i].is_bad && #[trigger] es[i].dir_no != 0
                ==> exists|j: int|
                0 <= j < es.len() && es[j].is_dir && #[trigger] es[j].inode == 1 + es[i].dir_no,
    ensures
        forall|i: int|
            0 <= i < es.len() && (es[i].is_deleted || es[i].is_bad)
                ==> #[trigger] es[i].parent_inode == 1,
        forall|i: int|
            0 <= i < es.len() ==> #[trigger] es[i].parent_inode == 1 || exists|j: int|
                0 <= j < es.len() && #[trigger] es[j].inode == es[i].parent_inode,
{
    lemma_parse_shape(d, inverted, off, m, off + META_SIZE, 0, 0);
    assert forall|i: int| 0 <= i < es.len() && (es[i].is_deleted || es[i].is_bad) implies es[i].parent_inode
        == 1 by {
        assert(entry_shape(es, 0, i));
    }
    assert forall|i: int| 0 <= i < es.len() implies es[i].parent_inode == 1 || exists|j: int|
        0 <= j < es.len() && #[trigger] es[j].inode == es[i].parent_inode by {
        assert(entry_shape(es, 0, i));
        if !es[i].is_deleted && !es[i].is_bad && es[i].dir_no != 0 {
            let j = choose|j: int|
                0 <= j < es.len() && es[j].is_dir && #[trigger] es[j].inode == 1 + es[i].dir_no;
            assert(es[j].inode == es[i].parent_inode);
        }
    }
}

} // verus!
