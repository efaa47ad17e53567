use vstd::prelude::*;

verus! {

/// A 32-byte root (block root, state root, execution block hash).
#[derive(Clone, Copy, Debug)]
pub struct Hash256 {
    pub bytes: [u8; 32],
}

impl View for Hash256 {
    type V = Seq<u8>;

    open spec fn view(&self) -> Seq<u8> {
        self.bytes@
    }
}

impl Hash256 {
    /// The all-zero root.
    pub fn zero() -> (r: Hash256)
        ensures
            r@ == Seq::new(32, |i: int| 0u8),
    {
        let r = Hash256 { bytes: [0u8; 32] };
        assert(r@ =~= Seq::new(32, |i: int| 0u8));
        r
    }

    /// Byte-wise equality of two roots.
    pub fn same(&self, other: &Hash256) -> (r: bool)
        ensures
            r == (self@ == other@),
    {
        let mut i: usize = 0;
        while i < 32
            invariant
                0 <= i <= 32,
                self@.len() == 32,
                other@.len() == 32,
                forall|j: int| 0 <= j < i ==> self@[j] == other@[j],
            decreases 32 - i,
        {
            if self.bytes[i] != other.bytes[i] {
                assert(self@[i as int] != other@[i as int]);
                return false;
            }
            i = i + 1;
        }
        assert(self@ =~= other@);
        true
    }
}

/// What `tree_hash::merkle_root(bytes, 0)` returns: the SSZ merkle root of
/// `bytes` read as 32-byte chunks.
pub uninterp spec fn merkle_root_of(bytes: Seq<u8>) -> Seq<u8>;

/// Relies on `tree_hash::merkle_root`: the root of the chunks of `bytes`, a
/// function of the bytes alone.
#[verifier::external_body]
pub(crate) fn merkle_root(bytes: &Vec<u8>) -> (r: Hash256)
    ensures
        r@ == merkle_root_of(bytes@),
{
    Hash256 { bytes: tree_hash::merkle_root(bytes.as_slice(), 0).0 }
}

/// `v` shifted right by `k` bytes.
pub open spec fn shifted(v: nat, k: nat) -> nat
    decreases k,
{
    if k == 0 {
        v
    } else {
        shifted(v, (k - 1) as nat) / 256
    }
}

/// The 32-byte chunk that holds `v` little-endian, zero padded.
pub open spec fn u64_chunk(v: u64) -> Seq<u8> {
    Seq::new(32, |i: int| if i < 8 { (shifted(v as nat, i as nat) % 256) as u8 } else { 0u8 })
}

/// Appends the little-endian chunk of `v` to `out`.
pub fn push_u64_chunk(out: &mut Vec<u8>, v: u64)
    ensures
        final(out)@ == old(out)@ + u64_chunk(v),
{
    let ghost start = out@;
    let mut x: u64 = v;
    let mut k: usize = 0;
    while k < 32
        invariant
            0 <= k <= 32,
            out@.len() == start.len() + k,
            out@.subrange(0, start.len() as int) == start,
            k <= 8 ==> x as nat == shifted(v as nat, k as nat),
            forall|j: int| 0 <= j < k ==> out@[start.len() + j] == u64_chunk(v)[j],
        decreases 32 - k,
    {
        if k < 8 {
            out.push((x % 256) as u8);
            x = x / 256;
        } else {
            out.push(0u8);
        }
        k = k + 1;
    }
    assert(out@ =~= start + u64_chunk(v));
}

/// Appends the 32 bytes of `h` to `out`.
pub fn push_root_chunk(out: &mut Vec<u8>, h: &Hash256)
    ensures
        final(out)@ == old(out)@ + h@,
{
    let ghost start = out@;
    let mut k: usize = 0;
    while k < 32
        invariant
            0 <= k <= 32,
            h@.len() == 32,
            out@ == start + h@.subrange(0, k as int),
        decreases 32 - k,
    {
        out.push(h.bytes[k]);
        k = k + 1;
        assert(out@ =~= start + h@.subrange(0, k as int));
    }
    assert(h@.subrange(0, 32) =~= h@);
}

} // verus!
