//! Little-endian encoding and decoding of integers in byte sequences.
use vstd::prelude::*;

verus! {

/// The `n` least significant bytes of `v`, least significant first.
pub open spec fn le_bytes(v: nat, n: nat) -> Seq<u8>
    decreases n,
{
    if n == 0 {
        Seq::empty()
    } else {
        seq![(v % 256) as u8] + le_bytes(v / 256, (n - 1) as nat)
    }
}

pub proof fn lemma_le_bytes_len(v: nat, n: nat)
    ensures
        le_bytes(v, n).len() == n,
    decreases n,
{
    if n > 0 {
        lemma_le_bytes_len(v / 256, (n - 1) as nat);
    }
}

/// `s` with the bytes from `off` on replaced by the `n`-byte encoding of `v`.
pub open spec fn put_le(s: Seq<u8>, off: nat, v: nat, n: nat) -> Seq<u8> {
    s.subrange(0, off as int) + le_bytes(v, n) + s.subrange((off + n) as int, s.len() as int)
}

/// The 16-bit little-endian value at `i`.
pub open spec fn u16_at(s: Seq<u8>, i: int) -> nat {
    (s[i] + 256 * s[i + 1]) as nat
}

/// The 32-bit little-endian value at `i`.
pub open spec fn u32_at(s: Seq<u8>, i: int) -> nat {
    (s[i] + 0x100 * s[i + 1] + 0x1_0000 * s[i + 2] + 0x100_0000 * s[i + 3]) as nat
}

/// The 64-bit little-endian value at `i`.
pub open spec fn u64_at(s: Seq<u8>, i: int) -> nat {
    (u32_at(s, i) + 0x1_0000_0000 * u32_at(s, i + 4)) as nat
}

/// Appends the `n`-byte little-endian encoding of `v`.
pub fn push_le(out: &mut Vec<u8>, v: u64, n: usize)
    ensures
        final(out)@ == old(out)@ + le_bytes(v as nat, n as nat),
{
    let mut x: u64 = v;
    let mut i: usize = 0;
    while i < n
        invariant
            i <= n,
            out@ + le_bytes(x as nat, (n - i) as nat) == old(out)@ + le_bytes(v as nat, n as nat),
        decreases n - i,
    {
        let ghost before = out@;
        out.push((x % 256) as u8);
        proof {
            let rest = le_bytes((x / 256) as nat, (n - i - 1) as nat);
            assert(le_bytes(x as nat, (n - i) as nat) == seq![(x % 256) as u8] + rest);
            assert(out@ + rest =~= before + (seq![(x % 256) as u8] + rest));
        }
        x = x / 256;
        i = i + 1;
    }
    assert(le_bytes(x as nat, 0) =~= Seq::<u8>::empty());
    assert(out@ + le_bytes(x as nat, 0) =~= out@);
}

/// Overwrites `n` bytes from `off` on with the little-endian encoding of `v`.
pub fn write_le(buf: &mut Vec<u8>, off: usize, v: u64, n: usize)
    requires
        off + n <= old(buf)@.len(),
    ensures
        final(buf)@ == put_le(old(buf)@, off as nat, v as nat, n as nat),
        final(buf)@.len() == old(buf)@.len(),
{
    let mut enc: Vec<u8> = Vec::new();
    push_le(&mut enc, v, n);
    proof {
        lemma_le_bytes_len(v as nat, n as nat);
        assert(enc@ =~= le_bytes(v as nat, n as nat));
    }
    let blen = buf.len();
    let mut j: usize = 0;
    while j < n
        invariant
            j <= n,
            off + n <= blen,
            buf@.len() == blen,
            blen == old(buf)@.len(),
            enc@ == le_bytes(v as nat, n as nat),
            enc@.len() == n,
            forall|k: int| 0 <= k < off || off + n <= k < buf@.len() ==> buf@[k] == old(buf)@[k],
            forall|k: int| 0 <= k < j ==> buf@[off + k] == enc@[k],
        decreases n - j,
    {
        buf.set(off + j, enc[j]);
        j = j + 1;
    }
    assert(buf@ =~= put_le(old(buf)@, off as nat, v as nat, n as nat));
}

/// Reads the 16-bit little-endian value at `i`.
pub fn read_u16(s: &[u8], i: usize) -> (r: u16)
    requires
        i + 2 <= s@.len(),
    ensures
        r as nat == u16_at(s@, i as int),
{
    s[i] as u16 + 256 * (s[i + 1] as u16)
}

/// Reads the 32-bit little-endian value at `i`.
pub fn read_u32(s: &[u8], i: usize) -> (r: u32)
    requires
        i + 4 <= s@.len(),
    ensures
        r as nat == u32_at(s@, i as int),
{
    s[i] as u32 + 0x100 * (s[i + 1] as u32) + 0x1_0000 * (s[i + 2] as u32) + 0x100_0000 * (
    s[i + 3] as u32)
}

/// Reads the 64-bit little-endian value at `i`.
pub fn read_u64(s: &[u8], i: usize) -> (r: u64)
    requires
        i + 8 <= s@.len(),
    ensures
        r as nat == u64_at(s@, i as int),
{
    let len = s.len();
    read_u32(s, i) as u64 + 0x1_0000_0000 * (read_u32(s, i + 4) as u64)
}

} // verus!
