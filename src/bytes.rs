use vstd::prelude::*;
use crate::pubkey::Pubkey;
use crate::address::le_bytes;

verus! {

/// The two little-endian bytes of `x`.
pub open spec fn le16(x: u16) -> Seq<u8> {
    seq![(x & 0xff) as u8, ((x >> 8u16) & 0xff) as u8]
}

/// Reads the 32 bytes of an identity at `off`.
pub fn read_key(data: &[u8], off: usize) -> (r: Pubkey)
    requires
        off + 32 <= data@.len(),
    ensures
        r@ == data@.subrange(off as int, off + 32),
{
    let n = data.len();
    let mut bytes = [0u8; 32];
    let mut i: usize = 0;
    while i < 32
        invariant
            i <= 32,
            off + 32 <= n,
            n == data@.len(),
            forall|j: int| 0 <= j < i ==> bytes@[j] == data@[off + j],
        decreases 32 - i,
    {
        bytes[i] = data[off + i];
        i = i + 1;
    }
    let r = Pubkey { bytes };
    assert(r@ =~= data@.subrange(off as int, off + 32));
    r
}

/// Reads a little-endian `u16` at `off`.
pub fn read_u16(data: &[u8], off: usize) -> (r: u16)
    requires
        off + 2 <= data@.len(),
    ensures
        le16(r) == data@.subrange(off as int, off + 2),
{
    let b0 = data[off];
    let b1 = data[off + 1];
    let r: u16 = (b0 as u16) | ((b1 as u16) << 8u16);
    assert((r & 0xff) as u8 == b0 && ((r >> 8u16) & 0xff) as u8 == b1) by (bit_vector)
        requires
            r == (b0 as u16) | ((b1 as u16) << 8u16),
    ;
    assert(le16(r) =~= data@.subrange(off as int, off + 2));
    r
}

/// Reads a little-endian `u64` at `off`.
pub fn read_u64(data: &[u8], off: usize) -> (r: u64)
    requires
        off + 8 <= data@.len(),
    ensures
        le_bytes(r) == data@.subrange(off as int, off + 8),
{
    let b0 = data[off];
    let b1 = data[off + 1];
    let b2 = data[off + 2];
    let b3 = data[off + 3];
    let b4 = data[off + 4];
    let b5 = data[off + 5];
    let b6 = data[off + 6];
    let b7 = data[off + 7];
    let r: u64 = (b0 as u64) | ((b1 as u64) << 8u64) | ((b2 as u64) << 16u64) | ((b3 as u64)
        << 24u64) | ((b4 as u64) << 32u64) | ((b5 as u64) << 40u64) | ((b6 as u64) << 48u64) | ((
    b7 as u64) << 56u64);
    assert((r & 0xff) as u8 == b0 && ((r >> 8u64) & 0xff) as u8 == b1 && ((r >> 16u64) & 0xff)
        as u8 == b2 && ((r >> 24u64) & 0xff) as u8 == b3 && ((r >> 32u64) & 0xff) as u8 == b4
        && ((r >> 40u64) & 0xff) as u8 == b5 && ((r >> 48u64) & 0xff) as u8 == b6 && ((r
        >> 56u64) & 0xff) as u8 == b7) by (bit_vector)
        requires
            r == (b0 as u64) | ((b1 as u64) << 8u64) | ((b2 as u64) << 16u64) | ((b3 as u64)
                << 24u64) | ((b4 as u64) << 32u64) | ((b5 as u64) << 40u64) | ((b6 as u64)
                << 48u64) | ((b7 as u64) << 56u64),
    ;
    assert(le_bytes(r) =~= data@.subrange(off as int, off + 8));
    r
}

/// Appends the 32 bytes of `k`.
pub fn push_key(out: &mut Vec<u8>, k: &Pubkey)
    ensures
        final(out)@ == old(out)@ + k@,
{
    let mut i: usize = 0;
    while i < 32
        invariant
            i <= 32,
            out@ == old(out)@ + k@.subrange(0, i as int),
        decreases 32 - i,
    {
        out.push(k.bytes[i]);
        i = i + 1;
        assert(out@ =~= old(out)@ + k@.subrange(0, i as int));
    }
    assert(k@.subrange(0, 32) =~= k@);
}

/// Appends `x` as two little-endian bytes.
pub fn push_u16(out: &mut Vec<u8>, x: u16)
    ensures
        final(out)@ == old(out)@ + le16(x),
{
    out.push((x & 0xff) as u8);
    out.push(((x >> 8u16) & 0xff) as u8);
    assert(out@ =~= old(out)@ + le16(x));
}

/// Appends `x` as eight little-endian bytes.
pub fn push_u64(out: &mut Vec<u8>, x: u64)
    ensures
        final(out)@ == old(out)@ + le_bytes(x),
{
    out.push((x & 0xff) as u8);
    out.push(((x >> 8u64) & 0xff) as u8);
    out.push(((x >> 16u64) & 0xff) as u8);
    out.push(((x >> 24u64) & 0xff) as u8);
    out.push(((x >> 32u64) & 0xff) as u8);
    out.push(((x >> 40u64) & 0xff) as u8);
    out.push(((x >> 48u64) & 0xff) as u8);
    out.push(((x >> 56u64) & 0xff) as u8);
    assert(out@ =~= old(out)@ + le_bytes(x));
}

/// Appends `n` zero bytes.
pub fn push_zeros(out: &mut Vec<u8>, n: usize)
    ensures
        final(out)@ == old(out)@ + Seq::new(n as nat, |i: int| 0u8),
{
    let mut i: usize = 0;
    while i < n
        invariant
            i <= n,
            out@ == old(out)@ + Seq::new(i as nat, |j: int| 0u8),
        decreases n - i,
    {
        out.push(0u8);
        i = i + 1;
        assert(out@ =~= old(out)@ + Seq::new(i as nat, |j: int| 0u8));
    }
}

} // verus!
