//! KOI8-R filename decoding: trim the space/null padding of an on-disk name,
//! then decode the remaining bytes.

use vstd::prelude::*;

verus! {

/// What KOI8-R decoding yields for a byte sequence.
pub uninterp spec fn koi8r_of(bytes: Seq<u8>) -> Seq<char>;

/// A padding byte at the end of an on-disk name: space or null.
pub open spec fn is_pad(b: u8) -> bool {
    b == 0x20 || b == 0
}

/// `s` with its trailing space and null bytes removed.
pub open spec fn trim_padding(s: Seq<u8>) -> Seq<u8>
    decreases s.len(),
{
    if s.len() > 0 && is_pad(s.last())
    {
        trim_padding(s.drop_last())
    } else {
        s
    }
}

pub proof fn lemma_trim_padding_len(s: Seq<u8>)
    ensures
        trim_padding(s).len() <= s.len(),
    decreases s.len(),
{
    if s.len() > 0 && is_pad(s.last()) {
        lemma_trim_padding_len(s.drop_last());
    }
}

/// The decoded form of an on-disk name field: padding trimmed, then KOI8-R.
pub open spec fn spec_name(name_bytes: Seq<u8>) -> Seq<char> {
    koi8r_of(trim_padding(name_bytes))
}

/// Relies on encoding_rs: KOI8_R.decode returns text that is a function of
/// the input bytes alone; an empty input decodes to the empty string, and an
/// all-ASCII input decodes to its own characters (the borrowed fast path).
#[verifier::external_body]
pub(crate) fn koi8r_decode(bytes: &Vec<u8>) -> (r: String)
    requires
        bytes@.len() < 0x1000_0000,
    ensures
        r@ == koi8r_of(bytes@),
        bytes@.len() == 0 ==> r@.len() == 0,
        (forall|i: int| 0 <= i < bytes@.len() ==> bytes@[i] < 0x80) ==> r@ == bytes@.map_values(
            |b: u8| b as char,
        ),
{
    let (cow, _encoding, _had_errors) = encoding_rs::KOI8_R.decode(bytes.as_slice());
    cow.into_owned()
}

/// `v` with its trailing space and null bytes removed.
pub fn trim_pad_bytes(v: &Vec<u8>) -> (r: Vec<u8>)
    ensures
        r@ == trim_padding(v@),
{
    let mut end: usize = v.len();
    proof {
        assert(v@.take(end as int) =~= v@);
    }
    while end > 0 && (v[end - 1] == 0x20 || v[end - 1] == 0)
        invariant
            end <= v@.len(),
            trim_padding(v@) == trim_padding(v@.take(end as int)),
        decreases end,
    {
        proof {
            assert(v@.take(end as int).drop_last() =~= v@.take(end - 1));
        }
        end -= 1;
    }
    let mut r: Vec<u8> = Vec::new();
    let mut i: usize = 0;
    while i < end
        invariant
            i <= end <= v@.len(),
            r@ == v@.take(end as int).take(i as int),
        decreases end - i,
    {
        r.push(v[i]);
        assert(r@ =~= v@.take(end as int).take(i + 1));
        i += 1;
    }
    proof {
        assert(v@.take(end as int).take(end as int) =~= v@.take(end as int));
        assert(trim_padding(v@.take(end as int)) == v@.take(end as int));
    }
    r
}

/// Decodes an on-disk name field: trims the padding, then decodes as KOI8-R.
pub fn decode_name(bytes: &Vec<u8>) -> (r: String)
    requires
        bytes@.len() < 0x1000_0000,
    ensures
        r@ == spec_name(bytes@),
{
    let t = trim_pad_bytes(bytes);
    proof {
        lemma_trim_padding_len(bytes@);
    }
    koi8r_decode(&t)
}

} // verus!
