//! Little-endian integers in byte sequences: reading, writing, and the
//! facts that tie the two together.
use vstd::prelude::*;

verus! {

/// The 16-bit little-endian integer stored at `p` in `b`.
pub open spec fn u16_at(b: Seq<u8>, p: int) -> u16 {
    (b[p] as int + 256 * b[p + 1] as int) as u16
}

/// The 32-bit little-endian integer stored at `p` in `b`.
pub open spec fn u32_at(b: Seq<u8>, p: int) -> u32 {
    (u16_at(b, p) as int + 0x1_0000 * u16_at(b, p + 2) as int) as u32
}

/// The 64-bit little-endian integer stored at `p` in `b`.
pub open spec fn u64_at(b: Seq<u8>, p: int) -> u64 {
    (u32_at(b, p) as int + 0x1_0000_0000 * u32_at(b, p + 4) as int) as u64
}

/// The two bytes that store `v` in little-endian order.
pub open spec fn u16_bytes(v: u16) -> Seq<u8> {
    seq![(v % 256) as u8, (v / 256) as u8]
}

/// The four bytes that store `v` in little-endian order.
pub open spec fn u32_bytes(v: u32) -> Seq<u8> {
    u16_bytes((v % 0x1_0000) as u16) + u16_bytes((v / 0x1_0000) as u16)
}

/// The eight bytes that store `v` in little-endian order.
pub open spec fn u64_bytes(v: u64) -> Seq<u8> {
    u32_bytes((v % 0x1_0000_0000) as u32) + u32_bytes((v / 0x1_0000_0000) as u32)
}

pub fn read_u16(b: &[u8], p: usize) -> (r: u16)
    requires
        p + 2 <= b@.len(),
    ensures
        r == u16_at(b@, p as int),
{
    b[p] as u16 + (b[p + 1] as u16) * 256
}

pub fn read_u32(b: &[u8], p: usize) -> (r: u32)
    requires
        p + 4 <= b@.len(),
    ensures
        r == u32_at(b@, p as int),
{
    proof {
        assert(b@.len() == b.len());
    }
    read_u16(b, p) as u32 + (read_u16(b, p + 2) as u32) * 0x1_0000
}

pub fn read_u64(b: &[u8], p: usize) -> (r: u64)
    requires
        p + 8 <= b@.len(),
    ensures
        r == u64_at(b@, p as int),
{
    proof {
        assert(b@.len() == b.len());
    }
    read_u32(b, p) as u64 + (read_u32(b, p + 4) as u64) * 0x1_0000_0000
}

pub fn push_u16(out: &mut Vec<u8>, v: u16)
    ensures
        final(out)@ == old(out)@ + u16_bytes(v),
{
    out.push((v % 256) as u8);
    out.push((v / 256) as u8);
    assert(final(out)@ =~= old(out)@ + u16_bytes(v));
}

pub fn push_u32(out: &mut Vec<u8>, v: u32)
    ensures
        final(out)@ == old(out)@ + u32_bytes(v),
{
    push_u16(out, (v % 0x1_0000) as u16);
    push_u16(out, (v / 0x1_0000) as u16);
    assert(final(out)@ =~= old(out)@ + u32_bytes(v));
}

pub fn push_u64(out: &mut Vec<u8>, v: u64)
    ensures
        final(out)@ == old(out)@ + u64_bytes(v),
{
    push_u32(out, (v % 0x1_0000_0000) as u32);
    push_u32(out, (v / 0x1_0000_0000) as u32);
    assert(final(out)@ =~= old(out)@ + u64_bytes(v));
}

/// A copy of `b[from..to]`.
pub fn copy_range(b: &[u8], from: usize, to: usize) -> (r: Vec<u8>)
    requires
        from <= to <= b@.len(),
    ensures
        r@ == b@.subrange(from as int, to as int),
{
    let mut r: Vec<u8> = Vec::new();
    let mut i: usize = from;
    while i < to
        invariant
            from <= i <= to <= b@.len(),
            r@ == b@.subrange(from as int, i as int),
        decreases to - i,
    {
        r.push(b[i]);
        i = i + 1;
        assert(r@ =~= b@.subrange(from as int, i as int));
    }
    r
}

/// Appends the bytes of `b` to `out`.
pub fn push_all(out: &mut Vec<u8>, b: &[u8])
    ensures
        final(out)@ == old(out)@ + b@,
{
    let ghost start = out@;
    let mut i: usize = 0;
    while i < b.len()
        invariant
            i <= b@.len(),
            out@ == start + b@.take(i as int),
        decreases b.len() - i,
    {
        out.push(b[i]);
        i = i + 1;
        assert(out@ =~= start + b@.take(i as int));
    }
    assert(b@.take(i as int) =~= b@);
}

/// `n` zero bytes.
pub open spec fn zeros(n: nat) -> Seq<u8> {
    Seq::new(n, |i: int| 0u8)
}

/// Appends `n` zero bytes to `out`.
pub fn push_zeros(out: &mut Vec<u8>, n: usize)
    ensures
        final(out)@ == old(out)@ + zeros(n as nat),
{
    let ghost start = out@;
    let mut i: usize = 0;
    while i < n
        invariant
            i <= n,
            out@ == start + zeros(i as nat),
        decreases n - i,
    {
        out.push(0);
        i = i + 1;
        assert(out@ =~= start + zeros(i as nat));
    }
}

/// Where stored bytes are the concatenation `a + c`, the first `a.len()`
/// of them are `a` and the rest are `c`.
pub proof fn lemma_split(b: Seq<u8>, p: int, a: Seq<u8>, c: Seq<u8>)
    requires
        0 <= p,
        p + a.len() + c.len() <= b.len(),
        b.subrange(p, p + a.len() + c.len()) == a + c,
    ensures
        b.subrange(p, p + a.len()) == a,
        b.subrange(p + a.len(), p + a.len() + c.len()) == c,
{
    assert(b.subrange(p, p + a.len()) =~= (a + c).subrange(0, a.len() as int));
    assert(b.subrange(p + a.len(), p + a.len() + c.len()) =~= (a + c).subrange(
        a.len() as int,
        (a.len() + c.len()) as int,
    ));
    assert((a + c).subrange(0, a.len() as int) =~= a);
    assert((a + c).subrange(a.len() as int, (a.len() + c.len()) as int) =~= c);
}

/// Reading back what was written gives the value that was written.
pub proof fn lemma_u16_round_trip(b: Seq<u8>, p: int, v: u16)
    requires
        0 <= p,
        p + 2 <= b.len(),
        b.subrange(p, p + 2) == u16_bytes(v),
    ensures
        u16_at(b, p) == v,
{
    assert(b[p] == b.subrange(p, p + 2)[0]);
    assert(b[p + 1] == b.subrange(p, p + 2)[1]);
}

pub proof fn lemma_u32_round_trip(b: Seq<u8>, p: int, v: u32)
    requires
        0 <= p,
        p + 4 <= b.len(),
        b.subrange(p, p + 4) == u32_bytes(v),
    ensures
        u32_at(b, p) == v,
{
    assert(b.subrange(p, p + 2) =~= b.subrange(p, p + 4).subrange(0, 2));
    assert(b.subrange(p + 2, p + 4) =~= b.subrange(p, p + 4).subrange(2, 4));
    assert(u32_bytes(v).subrange(0, 2) =~= u16_bytes((v % 0x1_0000) as u16));
    assert(u32_bytes(v).subrange(2, 4) =~= u16_bytes((v / 0x1_0000) as u16));
    lemma_u16_round_trip(b, p, (v % 0x1_0000) as u16);
    lemma_u16_round_trip(b, p + 2, (v / 0x1_0000) as u16);
}

pub proof fn lemma_u64_round_trip(b: Seq<u8>, p: int, v: u64)
    requires
        0 <= p,
        p + 8 <= b.len(),
        b.subrange(p, p + 8) == u64_bytes(v),
    ensures
        u64_at(b, p) == v,
{
    assert(b.subrange(p, p + 4) =~= b.subrange(p, p + 8).subrange(0, 4));
    assert(b.subrange(p + 4, p + 8) =~= b.subrange(p, p + 8).subrange(4, 8));
    assert(u64_bytes(v).subrange(0, 4) =~= u32_bytes((v % 0x1_0000_0000) as u32));
    assert(u64_bytes(v).subrange(4, 8) =~= u32_bytes((v / 0x1_0000_0000) as u32));
    lemma_u32_round_trip(b, p, (v % 0x1_0000_0000) as u32);
    lemma_u32_round_trip(b, p + 4, (v / 0x1_0000_0000) as u32);
}

} // verus!
