use vstd::prelude::*;

verus! {

/// The little-endian 32-bit value stored at byte offset `i` of `s`.
pub open spec fn le32_at(s: Seq<u8>, i: int) -> int
    recommends
        0 <= i,
        i + 4 <= s.len(),
{
    s[i] + s[i + 1] * 0x100 + s[i + 2] * 0x1_0000 + s[i + 3] * 0x100_0000
}

/// Two byte sequences that agree on a subrange agree on each index in it.
pub proof fn lemma_subrange_index(a: Seq<u8>, b: Seq<u8>, lo: int, hi: int)
    requires
        0 <= lo <= hi <= a.len(),
        hi <= b.len(),
        a.subrange(lo, hi) == b.subrange(lo, hi),
    ensures
        forall|j: int| lo <= j < hi ==> a[j] == b[j],
{
    assert forall|j: int| lo <= j < hi implies a[j] == b[j] by {
        assert(a[j] == a.subrange(lo, hi)[j - lo]);
        assert(b[j] == b.subrange(lo, hi)[j - lo]);
    }
}

/// Allocates a zero-initialized byte container of length `n`.
pub fn zeroed(n: usize) -> (r: Vec<u8>)
    ensures
        r@.len() == n,
        forall|i: int| 0 <= i < n ==> r@[i] == 0,
{
    let mut v: Vec<u8> = Vec::new();
    while v.len() < n
        invariant
            v@.len() <= n,
            forall|i: int| 0 <= i < v@.len() ==> v@[i] == 0,
        decreases n - v.len(),
    {
        v.push(0u8);
    }
    v
}

/// Copies all of `data` into `dst` starting at byte `offset`, in order and
/// with no gaps, leaving every byte outside the copied range unchanged.
pub fn write_at(dst: &mut Vec<u8>, offset: usize, data: &Vec<u8>)
    requires
        offset + data@.len() <= old(dst)@.len(),
    ensures
        final(dst)@.len() == old(dst)@.len(),
        final(dst)@.subrange(offset as int, offset + data@.len()) == data@,
        final(dst)@.subrange(0, offset as int) == old(dst)@.subrange(0, offset as int),
        final(dst)@.subrange(offset + data@.len(), old(dst)@.len() as int) == old(
            dst,
        )@.subrange(offset + data@.len(), old(dst)@.len() as int),
{
    let dst_len: usize = dst.len();
    let mut i: usize = 0;
    while i < data.len()
        invariant
            i <= data@.len(),
            offset + data@.len() <= dst_len,
            offset + data@.len() <= dst@.len(),
            dst@.len() == old(dst)@.len(),
            forall|j: int| 0 <= j < i ==> dst@[offset + j] == data@[j],
            forall|j: int| 0 <= j < offset ==> dst@[j] == old(dst)@[j],
            forall|j: int| offset + data@.len() <= j < dst@.len() ==> dst@[j] == old(dst)@[j],
        decreases data@.len() - i,
    {
        let b = data[i];
        dst.set(offset + i, b);
        i = i + 1;
    }
    proof {
        assert(dst@.subrange(offset as int, offset + data@.len()) =~= data@);
        assert(dst@.subrange(0, offset as int) =~= old(dst)@.subrange(0, offset as int));
        assert(dst@.subrange(offset + data@.len(), old(dst)@.len() as int) =~= old(
            dst,
        )@.subrange(offset + data@.len(), old(dst)@.len() as int));
    }
}

} // verus!
