//! Little-endian encoding of 32-bit words and in-place appending into a byte
//! buffer.
use vstd::prelude::*;

verus! {

/// The four bytes of `v`, least significant first.
pub open spec fn le_bytes(v: u32) -> Seq<u8> {
    seq![(v & 0xff) as u8, ((v >> 8u32) & 0xff) as u8, ((v >> 16u32) & 0xff) as u8, ((v >> 24u32) & 0xff) as u8]
}

/// The four bytes of `v`, least significant first.
pub(crate) fn u32_to_le_bytes(v: u32) -> (r: [u8; 4])
    ensures
        r@ == le_bytes(v),
{
    let r: [u8; 4] = [(v & 0xff) as u8, ((v >> 8) & 0xff) as u8, ((v >> 16) & 0xff) as u8, ((v >> 24) & 0xff) as u8];
    assert(r@ =~= le_bytes(v));
    r
}

/// Writes `src` into `dst` at `pos`, where `dst` holds the bytes `done` already
/// written followed by what is left of `orig` from `pos` on.
pub(crate) fn append_bytes(
    dst: &mut [u8],
    pos: usize,
    src: &[u8],
    Ghost(done): Ghost<Seq<u8>>,
    Ghost(orig): Ghost<Seq<u8>>,
) -> (end: usize)
    requires
        done.len() == pos,
        pos + src@.len() <= orig.len(),
        old(dst)@ == done + orig.subrange(pos as int, orig.len() as int),
    ensures
        end == pos + src@.len(),
        final(dst)@ == (done + src@) + orig.subrange(end as int, orig.len() as int),
{
    let total = dst.len();
    assert(orig.len() == total);
    let n = src.len();
    let mut i: usize = 0;
    while i < n
        invariant
            0 <= i <= n,
            n == src@.len(),
            done.len() == pos,
            pos + n <= orig.len(),
            orig.len() == total,
            dst@ == (done + src@.subrange(0, i as int)) + orig.subrange(pos + i, orig.len() as int),
        decreases n - i,
    {
        dst[pos + i] = src[i];
        assert(dst@ =~= (done + src@.subrange(0, i + 1)) + orig.subrange(pos + i + 1, orig.len() as int));
        i = i + 1;
    }
    assert(src@.subrange(0, n as int) =~= src@);
    pos + n
}

/// Writes the little-endian bytes of `v` into `dst` at `pos`, where `dst`
/// holds the bytes `done` already written followed by what is left of `orig`
/// from `pos` on.
pub(crate) fn append_u32(
    dst: &mut [u8],
    pos: usize,
    v: u32,
    Ghost(done): Ghost<Seq<u8>>,
    Ghost(orig): Ghost<Seq<u8>>,
) -> (end: usize)
    requires
        done.len() == pos,
        pos + 4 <= orig.len(),
        old(dst)@ == done + orig.subrange(pos as int, orig.len() as int),
    ensures
        end == pos + 4,
        final(dst)@ == (done + le_bytes(v)) + orig.subrange(end as int, orig.len() as int),
{
    let bytes = u32_to_le_bytes(v);
    append_bytes(dst, pos, bytes.as_slice(), Ghost(done), Ghost(orig))
}

} // verus!
