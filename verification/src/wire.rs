//! Byte-level helpers shared by the builders, the finalization chain and the
//! packet views: in-place range writes over byte sequences and the protocol's
//! big-endian 16-bit fields.

use vstd::prelude::*;

verus! {

/// `s` with `data` written in place starting at `at`; bytes outside the
/// range keep their old values.
pub open spec fn seq_write(s: Seq<u8>, at: int, data: Seq<u8>) -> Seq<u8> {
    Seq::new(s.len(), |i: int| if at <= i && i < at + data.len() { data[i - at] } else { s[i] })
}

/// `n` zero bytes.
pub open spec fn zero_bytes(n: int) -> Seq<u8> {
    Seq::new(n as nat, |i: int| 0u8)
}

/// The two big-endian bytes of a 16-bit value.
pub open spec fn be16_bytes(v: u16) -> Seq<u8> {
    seq![(v / 256) as u8, (v % 256) as u8]
}

/// The 16-bit value held big-endian at offset `i` of `s`.
pub open spec fn be16_at(s: Seq<u8>, i: int) -> u16
    recommends
        0 <= i,
        i + 2 <= s.len(),
{
    (s[i] * 256 + s[i + 1]) as u16
}

/// `s` with the 16-bit value `v` written big-endian at offset `at`.
pub open spec fn seq_write_u16(s: Seq<u8>, at: int, v: u16) -> Seq<u8> {
    seq_write(s, at, be16_bytes(v))
}

/// Reads the big-endian 16-bit field at offset `i` of a byte slice.
pub fn read_u16_be(s: &[u8], i: usize) -> (v: u16)
    requires
        i + 2 <= s@.len(),
    ensures
        v == be16_at(s@, i as int),
{
    // the slice's length bounds `i + 1` within usize
    let _n: usize = s.len();
    let hi = *vstd::slice::slice_index_get(s, i);
    let lo = *vstd::slice::slice_index_get(s, i + 1);
    (hi as u16) * 256 + (lo as u16)
}

} // verus!
