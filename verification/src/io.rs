//! Byte-stream adapters over an in-memory backing store: a seekable cursor,
//! a bit-inverting reader, and a reverse-consuming reader.

use vstd::prelude::*;

verus! {

/// A byte XORed with 0xFF.
pub open spec fn invert_byte(b: u8) -> u8 {
    (255 - b) as u8
}

/// Every byte of `s` XORed with 0xFF.
pub open spec fn invert_seq(s: Seq<u8>) -> Seq<u8> {
    s.map_values(|b: u8| invert_byte(b))
}

/// Bit inversion undoes itself: applying it twice gives the bytes back.
pub proof fn lemma_invert_involutive(s: Seq<u8>)
    ensures
        invert_seq(invert_seq(s)) == s,
{
    assert(invert_seq(invert_seq(s)) =~= s);
}

/// A seekable reader over an in-memory byte buffer.
pub struct ByteCursor {
    data: Vec<u8>,
    pos: usize,
}

impl ByteCursor {
    /// The bytes behind the cursor.
    pub closed spec fn bytes(&self) -> Seq<u8> {
        self.data@
    }

    /// The current read position.
    pub closed spec fn spec_pos(&self) -> int {
        self.pos as int
    }

    pub fn new(data: Vec<u8>) -> (r: Self)
        ensures
            r.bytes() == data@,
            r.spec_pos() == 0,
    {
        ByteCursor { data, pos: 0 }
    }

    pub fn into_inner(self) -> (r: Vec<u8>)
        ensures
            r@ == self.bytes(),
    {
        self.data
    }

    pub fn seek(&mut self, pos: usize)
        ensures
            final(self).bytes() == old(self).bytes(),
            final(self).spec_pos() == pos,
    {
        self.pos = pos;
    }

    pub fn position(&self) -> (r: usize)
        ensures
            r == self.spec_pos(),
    {
        self.pos
    }

    pub fn len(&self) -> (r: usize)
        ensures
            r == self.bytes().len(),
    {
        self.data.len()
    }

    /// Reads up to `n` bytes from the current position, advancing the cursor;
    /// past the end of the buffer it yields what is left.
    pub fn read(&mut self, n: usize) -> (r: Vec<u8>)
        ensures
            final(self).bytes() == old(self).bytes(),
            ({
                let len = old(self).bytes().len() as int;
                let start = vstd::math::min(old(self).spec_pos(), len);
                let end = vstd::math::min(old(self).spec_pos() + n, len);
                &&& r@ == old(self).bytes().subrange(start, end)
                &&& final(self).spec_pos() == end
            }),
    {
        let len = self.data.len();
        let start: usize = if self.pos < len {
            self.pos
        } else {
            len
        };
        let end: usize = if n < len - start {
            start + n
        } else {
            len
        };
        let mut r: Vec<u8> = Vec::new();
        let mut i: usize = start;
        while i < end
            invariant
                start <= i <= end <= self.data@.len(),
                r@ == self.data@.subrange(start as int, i as int),
            decreases end - i,
        {
            r.push(self.data[i]);
            assert(r@ =~= self.data@.subrange(start as int, i + 1));
            i += 1;
        }
        self.pos = end;
        assert(r@ =~= self.data@.subrange(start as int, end as int));
        r
    }
}

/// A reader that XORs every byte it reads with 0xFF; seeks pass through.
pub struct BinInvertedReader {
    inner: ByteCursor,
}

impl BinInvertedReader {
    /// The bytes behind the inner cursor, before inversion.
    pub closed spec fn bytes(&self) -> Seq<u8> {
        self.inner.bytes()
    }

    /// The current read position.
    pub closed spec fn spec_pos(&self) -> int {
        self.inner.spec_pos()
    }

    pub fn new(reader: ByteCursor) -> (r: Self)
        ensures
            r.bytes() == reader.bytes(),
            r.spec_pos() == reader.spec_pos(),
    {
        BinInvertedReader { inner: reader }
    }

    pub fn into_inner(self) -> (r: ByteCursor)
        ensures
            r.bytes() == self.bytes(),
            r.spec_pos() == self.spec_pos(),
    {
        self.inner
    }

    pub fn seek(&mut self, pos: usize)
        ensures
            final(self).bytes() == old(self).bytes(),
            final(self).spec_pos() == pos,
    {
        self.inner.seek(pos);
    }

    /// Reads up to `n` bytes and returns them bit-inverted.
    pub fn read(&mut self, n: usize) -> (r: Vec<u8>)
        ensures
            final(self).bytes() == old(self).bytes(),
            ({
                let len = old(self).bytes().len() as int;
                let start = vstd::math::min(old(self).spec_pos(), len);
                let end = vstd::math::min(old(self).spec_pos() + n, len);
                &&& r@ == invert_seq(old(self).bytes().subrange(start, end))
                &&& final(self).spec_pos() == end
            }),
    {
        let raw = self.inner.read(n);
        invert_bytes(&raw)
    }
}

/// Every byte of `v`, XORed with 0xFF.
pub fn invert_bytes(v: &Vec<u8>) -> (r: Vec<u8>)
    ensures
        r@ == invert_seq(v@),
{
    let mut r: Vec<u8> = Vec::new();
    let mut i: usize = 0;
    while i < v.len()
        invariant
            i <= v@.len(),
            r@ == invert_seq(v@.take(i as int)),
        decreases v@.len() - i,
    {
        r.push(255 - v[i]);
        assert(r@ =~= invert_seq(v@.take(i + 1)));
        i += 1;
    }
    assert(v@.take(v@.len() as int) =~= v@);
    r
}

/// A reader that consumes its stream backward: each read of `n` bytes yields
/// the `n` bytes immediately before the cursor, in forward order, and leaves
/// the cursor at their start. Seeks pass through.
pub struct ReverseReader {
    inner: ByteCursor,
}

impl ReverseReader {
    /// The bytes behind the inner cursor.
    pub closed spec fn bytes(&self) -> Seq<u8> {
        self.inner.bytes()
    }

    /// The current read position.
    pub closed spec fn spec_pos(&self) -> int {
        self.inner.spec_pos()
    }

    pub fn new(reader: ByteCursor) -> (r: Self)
        ensures
            r.bytes() == reader.bytes(),
            r.spec_pos() == reader.spec_pos(),
    {
        ReverseReader { inner: reader }
    }

    pub fn into_inner(self) -> (r: ByteCursor)
        ensures
            r.bytes() == self.bytes(),
            r.spec_pos() == self.spec_pos(),
    {
        self.inner
    }

    pub fn seek(&mut self, pos: usize)
        ensures
            final(self).bytes() == old(self).bytes(),
            final(self).spec_pos() == pos,
    {
        self.inner.seek(pos);
    }

    pub fn position(&self) -> (r: usize)
        ensures
            r == self.spec_pos(),
    {
        self.inner.position()
    }

    /// Reads the `n` bytes immediately preceding the cursor, in forward order,
    /// and steps the cursor back by `n`.
    pub fn read(&mut self, n: usize) -> (r: Vec<u8>)
        requires
            n <= old(self).spec_pos(),
            old(self).spec_pos() <= old(self).bytes().len(),
        ensures
            final(self).bytes() == old(self).bytes(),
            r@ == old(self).bytes().subrange(old(self).spec_pos() - n, old(self).spec_pos()),
            final(self).spec_pos() == old(self).spec_pos() - n,
    {
        let pos = self.inner.position();
        self.inner.seek(pos - n);
        let r = self.inner.read(n);
        self.inner.seek(pos - n);
        r
    }

    /// Reads a little-endian 16-bit word from the two bytes before the cursor,
    /// stepping the cursor back past them.
    pub fn read_u16_le(&mut self) -> (r: u16)
        requires
            2 <= old(self).spec_pos(),
            old(self).spec_pos() <= old(self).bytes().len(),
        ensures
            final(self).bytes() == old(self).bytes(),
            r == crate::u16le(old(self).bytes(), old(self).spec_pos() - 2),
            final(self).spec_pos() == old(self).spec_pos() - 2,
    {
        let b = self.read(2);
        b[0] as u16 + 256 * (b[1] as u16)
    }

    /// Reads the single byte before the cursor, stepping the cursor back past it.
    pub fn read_u8(&mut self) -> (r: u8)
        requires
            1 <= old(self).spec_pos(),
            old(self).spec_pos() <= old(self).bytes().len(),
        ensures
            final(self).bytes() == old(self).bytes(),
            r == old(self).bytes()[old(self).spec_pos() - 1],
            final(self).spec_pos() == old(self).spec_pos() - 1,
    {
        let b = self.read(1);
        b[0]
    }

    /// `k` successive reads of `n` bytes, concatenated in read order: the
    /// result is made of the `k` blocks immediately preceding the starting
    /// position, each block itself in forward byte order, and the cursor ends
    /// up `k * n` bytes before where it started.
    pub fn read_multi(&mut self, k: usize, n: usize) -> (r: Vec<u8>)
        requires
            k * n <= old(self).spec_pos(),
            old(self).spec_pos() <= old(self).bytes().len(),
        ensures
            final(self).bytes() == old(self).bytes(),
            final(self).spec_pos() == old(self).spec_pos() - k * n,
            r@.len() == k * n,
            forall|i: int|
                0 <= i < k ==> #[trigger] r@.subrange(i * n, (i + 1) * n) == old(
                    self,
                ).bytes().subrange(
                    old(self).spec_pos() - (i + 1) * n,
                    old(self).spec_pos() - i * n,
                ),
    {
        let mut r: Vec<u8> = Vec::new();
        let mut i: usize = 0;
        while i < k
            invariant
                i <= k,
                k * n <= old(self).spec_pos() <= old(self).bytes().len(),
                self.bytes() == old(self).bytes(),
                self.spec_pos() == old(self).spec_pos() - i * n,
                r@.len() == i * n,
                forall|j: int|
                    0 <= j < i ==> #[trigger] r@.subrange(j * n, (j + 1) * n) == old(
                        self,
                    ).bytes().subrange(
                        old(self).spec_pos() - (j + 1) * n,
                        old(self).spec_pos() - j * n,
                    ),
            decreases k - i,
        {
            proof {
                assert((i + 1) * n <= k * n) by (nonlinear_arith)
                    requires
                        i < k,
                        n >= 0,
                ;
                assert(i * n + n == (i + 1) * n) by (nonlinear_arith);
            }
            let b = self.read(n);
            let ghost r_old = r@;
            r.append(&mut { b });
            proof {
                assert forall|j: int| 0 <= j < i + 1 implies #[trigger] r@.subrange(
                    j * n,
                    (j + 1) * n,
                ) == old(
                    self,
                ).bytes().subrange(
                    old(self).spec_pos() - (j + 1) * n,
                    old(self).spec_pos() - j * n,
                ) by {
                    assert(0 <= j * n && j * n + n == (j + 1) * n && (j + 1) * n <= (i + 1) * n && (
                    j < i ==> (j + 1) * n <= i * n)) by (nonlinear_arith)
                        requires
                            0 <= j < i + 1,
                            n >= 0,
                    ;
                    if j < i {
                        assert(r@.subrange(j * n, (j + 1) * n) =~= r_old.subrange(
                            j * n,
                            (j + 1) * n,
                        ));
                    } else {
                        assert(r@.subrange(j * n, (j + 1) * n) =~= old(self).bytes().subrange(
                            old(self).spec_pos() - (j + 1) * n,
                            old(self).spec_pos() - j * n,
                        ));
                    }
                }
            }
            i += 1;
        }
        r
    }
}

} // verus!
