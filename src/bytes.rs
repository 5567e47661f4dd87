use vstd::prelude::*;

verus! {

/// A 32-byte account address or public key.
pub type Key = [u8; 32];

/// Lexicographic `a <= b` over two byte strings of equal length, as Rust
/// orders byte arrays.
pub open spec fn lex_le(a: Seq<u8>, b: Seq<u8>) -> bool {
    exists|i: int|
        0 <= i <= a.len() && a.subrange(0, i) == b.subrange(0, i) && (i == a.len() || a[i] < b[i])
}

/// Compares two 32-byte values in lexicographic order.
pub fn bytes_le(a: &[u8; 32], b: &[u8; 32]) -> (r: bool)
    ensures
        r == lex_le(a@, b@),
{
    let mut i: usize = 0;
    while i < 32 && a[i] == b[i]
        invariant
            0 <= i <= 32,
            a@.len() == 32,
            b@.len() == 32,
            a@.subrange(0, i as int) == b@.subrange(0, i as int),
        decreases 32 - i,
    {
        assert(a@.subrange(0, i + 1) =~= a@.subrange(0, i as int).push(a@[i as int]));
        assert(b@.subrange(0, i + 1) =~= b@.subrange(0, i as int).push(b@[i as int]));
        i = i + 1;
    }
    if i == 32 {
        assert(a@.subrange(0, 32) =~= a@);
        assert(b@.subrange(0, 32) =~= b@);
        return true;
    }
    let r = a[i] < b[i];
    assert(a@[i as int] != b@[i as int]);
    if !r {
        assert forall|j: int|
            0 <= j <= a@.len() && a@.subrange(0, j) == b@.subrange(0, j) implies !(j == a@.len()
                || a@[j] < b@[j]) by {
            if j > i {
                assert(a@.subrange(0, j)[i as int] == b@.subrange(0, j)[i as int]);
            } else if j < i {
                assert(a@.subrange(0, i as int)[j] == b@.subrange(0, i as int)[j]);
            }
        }
    }
    r
}

/// Compares two byte strings for equality.
pub fn bytes_eq(a: &[u8], b: &[u8]) -> (r: bool)
    ensures
        r == (a@ == b@),
{
    if a.len() != b.len() {
        return false;
    }
    let mut i: usize = 0;
    while i < a.len()
        invariant
            0 <= i <= a@.len(),
            a@.len() == b@.len(),
            forall|j: int| 0 <= j < i ==> a@[j] == b@[j],
        decreases a@.len() - i,
    {
        if a[i] != b[i] {
            return false;
        }
        i = i + 1;
    }
    assert(a@ =~= b@);
    true
}

/// Compares two keys for equality.
pub fn keys_eq(a: &Key, b: &Key) -> (r: bool)
    ensures
        r == (a == b),
{
    let r = bytes_eq(a.as_slice(), b.as_slice());
    proof {
        if r {
            assert(*a =~= *b);
        }
    }
    r
}

/// Appends every byte of `src` to `dst`.
pub fn append_bytes(dst: &mut Vec<u8>, src: &[u8])
    ensures
        final(dst)@ == old(dst)@ + src@,
{
    let mut i: usize = 0;
    while i < src.len()
        invariant
            0 <= i <= src@.len(),
            dst@ == old(dst)@ + src@.subrange(0, i as int),
        decreases src@.len() - i,
    {
        dst.push(src[i]);
        assert(src@.subrange(0, i + 1) =~= src@.subrange(0, i as int).push(src@[i as int]));
        i = i + 1;
    }
    assert(src@.subrange(0, src@.len() as int) =~= src@);
}

} // verus!

verus! {

/// Whether `data[start..end]` equals `expected`.
pub fn region_eq(data: &[u8], start: usize, end: usize, expected: &[u8]) -> (r: bool)
    requires
        start <= end <= data@.len(),
    ensures
        r == (data@.subrange(start as int, end as int) == expected@),
{
    if end - start != expected.len() {
        return false;
    }
    let mut i: usize = 0;
    while i < expected.len()
        invariant
            start <= end <= data@.len(),
            end - start == expected@.len(),
            0 <= i <= expected@.len(),
            forall|j: int| 0 <= j < i ==> data@[start + j] == expected@[j],
        decreases expected@.len() - i,
    {
        if data[start + i] != expected[i] {
            assert(data@.subrange(start as int, end as int)[i as int] != expected@[i as int]);
            return false;
        }
        i = i + 1;
    }
    assert(data@.subrange(start as int, end as int) =~= expected@);
    true
}

} // verus!
