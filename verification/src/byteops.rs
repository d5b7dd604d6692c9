//! Byte-level building blocks for the wire codecs: copying and comparing
//! byte runs, and integer fields in both byte orders.  Little-endian
//! conversions come from vstd; the big-endian ones are defined here.

use vstd::prelude::*;
use vstd::bytes::{spec_u64_to_le_bytes, spec_u64_from_le_bytes};

verus! {

broadcast use vstd::array::group_array_axioms;

/// The eight bytes of `x`, most significant first.
pub open spec fn spec_u64_to_be_bytes(x: u64) -> Seq<u8> {
    seq![
        ((x >> 56) & 0xff) as u8,
        ((x >> 48) & 0xff) as u8,
        ((x >> 40) & 0xff) as u8,
        ((x >> 32) & 0xff) as u8,
        ((x >> 24) & 0xff) as u8,
        ((x >> 16) & 0xff) as u8,
        ((x >> 8) & 0xff) as u8,
        (x & 0xff) as u8,
    ]
}

/// The value of eight bytes read most significant first.
pub open spec fn spec_u64_from_be_bytes(s: Seq<u8>) -> u64
    recommends
        s.len() == 8,
{
    (s[7] as u64) | (s[6] as u64) << 8 | (s[5] as u64) << 16 | (s[4] as u64) << 24
        | (s[3] as u64) << 32 | (s[2] as u64) << 40 | (s[1] as u64) << 48 | (s[0] as u64) << 56
}

/// Big-endian encoding and decoding of a `u64` invert each other.
pub proof fn lemma_u64_be_bytes_round_trip()
    ensures
        forall|x: u64|
            #![trigger spec_u64_to_be_bytes(x)]
            {
                &&& spec_u64_to_be_bytes(x).len() == 8
                &&& spec_u64_from_be_bytes(spec_u64_to_be_bytes(x)) == x
            },
{
    assert forall|x: u64|
        {
            &&& #[trigger] spec_u64_to_be_bytes(x).len() == 8
            &&& spec_u64_from_be_bytes(spec_u64_to_be_bytes(x)) == x
        } by {
        assert({
            &&& (x >> 56) & 0xff < 256
            &&& (x >> 48) & 0xff < 256
            &&& (x >> 40) & 0xff < 256
            &&& (x >> 32) & 0xff < 256
            &&& (x >> 24) & 0xff < 256
            &&& (x >> 16) & 0xff < 256
            &&& (x >> 8) & 0xff < 256
            &&& x & 0xff < 256
        }) by (bit_vector);
        assert(x == (x & 0xff) | ((x >> 8) & 0xff) << 8 | ((x >> 16) & 0xff) << 16
            | ((x >> 24) & 0xff) << 24 | ((x >> 32) & 0xff) << 32 | ((x >> 40) & 0xff) << 40
            | ((x >> 48) & 0xff) << 48 | ((x >> 56) & 0xff) << 56) by (bit_vector);
    }
}

/// Writes `x` as eight big-endian bytes.
pub fn u64_to_be_bytes(x: u64) -> (s: Vec<u8>)
    ensures
        s@ == spec_u64_to_be_bytes(x),
        s@.len() == 8,
{
    proof {
        assert({
            &&& (x >> 56) & 0xff < 256
            &&& (x >> 48) & 0xff < 256
            &&& (x >> 40) & 0xff < 256
            &&& (x >> 32) & 0xff < 256
            &&& (x >> 24) & 0xff < 256
            &&& (x >> 16) & 0xff < 256
            &&& (x >> 8) & 0xff < 256
            &&& x & 0xff < 256
        }) by (bit_vector);
    }
    let mut s: Vec<u8> = Vec::new();
    s.push(((x >> 56) & 0xff) as u8);
    s.push(((x >> 48) & 0xff) as u8);
    s.push(((x >> 40) & 0xff) as u8);
    s.push(((x >> 32) & 0xff) as u8);
    s.push(((x >> 24) & 0xff) as u8);
    s.push(((x >> 16) & 0xff) as u8);
    s.push(((x >> 8) & 0xff) as u8);
    s.push((x & 0xff) as u8);
    assert(s@ =~= spec_u64_to_be_bytes(x));
    s
}

/// Reads eight big-endian bytes as a `u64`.
pub fn u64_from_be_bytes(s: &[u8]) -> (x: u64)
    requires
        s@.len() == 8,
    ensures
        x == spec_u64_from_be_bytes(s@),
{
    (s[7] as u64) | (s[6] as u64) << 8 | (s[5] as u64) << 16 | (s[4] as u64) << 24
        | (s[3] as u64) << 32 | (s[2] as u64) << 40 | (s[1] as u64) << 48 | (s[0] as u64) << 56
}

/// The eight little-endian bytes of a signed timestamp, written through its
/// two's-complement image.
pub open spec fn spec_i64_to_le_bytes(x: i64) -> Seq<u8> {
    spec_u64_to_le_bytes(x as u64)
}

/// The signed value of eight little-endian bytes.
pub open spec fn spec_i64_from_le_bytes(s: Seq<u8>) -> i64
    recommends
        s.len() == 8,
{
    spec_u64_from_le_bytes(s) as i64
}

/// Little-endian encoding and decoding of an `i64` invert each other.
pub proof fn lemma_i64_le_bytes_round_trip()
    ensures
        forall|x: i64|
            #![trigger spec_i64_to_le_bytes(x)]
            {
                &&& spec_i64_to_le_bytes(x).len() == 8
                &&& spec_i64_from_le_bytes(spec_i64_to_le_bytes(x)) == x
            },
{
    vstd::bytes::lemma_auto_spec_u64_to_from_le_bytes();
    assert forall|x: i64|
        {
            &&& #[trigger] spec_i64_to_le_bytes(x).len() == 8
            &&& spec_i64_from_le_bytes(spec_i64_to_le_bytes(x)) == x
        } by {
        assert(((x as u64) as i64) == x) by (bit_vector);
    }
}

/// Writes a signed timestamp as eight little-endian bytes.
pub fn i64_to_le_bytes(x: i64) -> (s: Vec<u8>)
    ensures
        s@ == spec_i64_to_le_bytes(x),
        s@.len() == 8,
{
    vstd::bytes::u64_to_le_bytes(#[verifier::truncate] (x as u64))
}

/// Reads eight little-endian bytes as a signed timestamp.
pub fn i64_from_le_bytes(s: &[u8]) -> (x: i64)
    requires
        s@.len() == 8,
    ensures
        x == spec_i64_from_le_bytes(s@),
{
    #[verifier::truncate] (vstd::bytes::u64_from_le_bytes(s) as i64)
}

/// Appends all of `src` to `out`.
pub fn push_bytes(out: &mut Vec<u8>, src: &[u8])
    ensures
        final(out)@ == old(out)@ + src@,
{
    let mut i: usize = 0;
    while i < src.len()
        invariant
            i <= src@.len(),
            out@ == old(out)@ + src@.subrange(0, i as int),
        decreases src@.len() - i,
    {
        out.push(src[i]);
        proof {
            assert(src@.subrange(0, i as int).push(src@[i as int]) =~= src@.subrange(
                0,
                i as int + 1,
            ));
        }
        i = i + 1;
    }
    assert(out@ =~= old(out)@ + src@);
}

/// Whether two byte runs hold the same bytes.
pub fn bytes_eq(a: &[u8], b: &[u8]) -> (r: bool)
    ensures
        r == (a@ == b@),
{
    if a.len() != b.len() {
        return false;
    }
    let mut i: usize = 0;
    while i < a.len()
        invariant
            i <= a@.len(),
            a@.len() == b@.len(),
            forall|j: int| 0 <= j < i ==> a@[j] == b@[j],
        decreases a@.len() - i,
    {
        if a[i] != b[i] {
            return false;
        }
        i = i + 1;
    }
    proof {
        assert(a@ =~= b@);
    }
    true
}

/// Copies 32 bytes of `src`, starting at `off`, into a fresh array.
pub fn read_arr32(src: &[u8], off: usize) -> (r: [u8; 32])
    requires
        off + 32 <= src@.len(),
    ensures
        r@ == src@.subrange(off as int, off as int + 32),
{
    let n = src.len();
    let mut r: [u8; 32] = [0u8; 32];
    let mut i: usize = 0;
    while i < 32
        invariant
            i <= 32,
            off + 32 <= n == src@.len(),
            forall|j: int| 0 <= j < i ==> r@[j] == src@[off + j],
        decreases 32 - i,
    {
        r[i] = src[off + i];
        i = i + 1;
    }
    assert(r@ =~= src@.subrange(off as int, off as int + 32));
    r
}

/// Copies 20 bytes of `src`, starting at `off`, into a fresh array.
pub fn read_arr20(src: &[u8], off: usize) -> (r: [u8; 20])
    requires
        off + 20 <= src@.len(),
    ensures
        r@ == src@.subrange(off as int, off as int + 20),
{
    let n = src.len();
    let mut r: [u8; 20] = [0u8; 20];
    let mut i: usize = 0;
    while i < 20
        invariant
            i <= 20,
            off + 20 <= n == src@.len(),
            forall|j: int| 0 <= j < i ==> r@[j] == src@[off + j],
        decreases 20 - i,
    {
        r[i] = src[off + i];
        i = i + 1;
    }
    assert(r@ =~= src@.subrange(off as int, off as int + 20));
    r
}

} // verus!
