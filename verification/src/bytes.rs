use vstd::prelude::*;
use vstd::bytes::*;
use crate::error::CodecError;

verus! {

/// What reading a fixed-size layout of `size` bytes from `len` bytes fails with,
/// if it fails: too few bytes, or bytes left over.
pub open spec fn slice_fault(len: int, size: int) -> Option<CodecError> {
    if len < size {
        Some(CodecError::UnexpectedLength)
    } else if len > size {
        Some(CodecError::NotAllBytesRead)
    } else {
        None
    }
}

/// The little-endian bytes of `x`.
pub open spec fn le_bytes(x: u64) -> Seq<u8> {
    spec_u64_to_le_bytes(x)
}

/// The number whose little-endian bytes are `s` (eight of them).
pub open spec fn le_value(s: Seq<u8>) -> u64 {
    spec_u64_from_le_bytes(s)
}

/// Little-endian encoding is a bijection between numbers and eight-byte sequences.
pub proof fn lemma_le_bytes(x: u64, s: Seq<u8>)
    ensures
        le_bytes(x).len() == 8,
        le_value(le_bytes(x)) == x,
        s.len() == 8 ==> le_bytes(le_value(s)) == s,
{
    lemma_auto_spec_u64_to_from_le_bytes();
}

/// Appends `src` to `out`.
pub fn push_bytes(out: &mut Vec<u8>, src: &[u8])
    ensures
        final(out)@ == old(out)@ + src@,
{
    let n = src.len();
    let mut i: usize = 0;
    while i < n
        invariant
            n == src@.len(),
            i <= n,
            out@ == old(out)@ + src@.subrange(0, i as int),
        decreases n - i,
    {
        out.push(src[i]);
        i = i + 1;
        assert(out@ =~= old(out)@ + src@.subrange(0, i as int));
    }
    assert(src@.subrange(0, n as int) =~= src@);
}

/// Appends the little-endian bytes of `x` to `out`.
pub fn push_u64(out: &mut Vec<u8>, x: u64)
    ensures
        final(out)@ == old(out)@ + le_bytes(x),
{
    let b = u64_to_le_bytes(x);
    push_bytes(out, b.as_slice());
}

/// The 32 bytes of `bytes` from `start` on, as an address.
pub fn read_key(bytes: &[u8], start: usize) -> (k: [u8; 32])
    requires
        start + 32 <= bytes.len(),
    ensures
        k@ == bytes@.subrange(start as int, start + 32),
{
    let mut k = [0u8; 32];
    let mut i: usize = 0;
    while i < 32
        invariant
            start + 32 <= bytes.len(),
            i <= 32,
            k@.len() == 32,
            forall|j: int| 0 <= j < i ==> k@[j] == bytes@[start + j],
        decreases 32 - i,
    {
        k[i] = bytes[start + i];
        i = i + 1;
    }
    assert(k@ =~= bytes@.subrange(start as int, start + 32));
    k
}

/// The number whose little-endian bytes stand in `bytes` from `start` on.
pub fn read_u64(bytes: &[u8], start: usize) -> (x: u64)
    requires
        start + 8 <= bytes.len(),
    ensures
        x == le_value(bytes@.subrange(start as int, start + 8)),
{
    let s = vstd::slice::slice_subrange(bytes, start, start + 8);
    u64_from_le_bytes(s)
}

/// Whether two addresses are the same.
pub fn same_key(a: &[u8; 32], b: &[u8; 32]) -> (r: bool)
    ensures
        r == (a@ == b@),
{
    let mut i: usize = 0;
    while i < 32
        invariant
            i <= 32,
            a@.len() == 32,
            b@.len() == 32,
            forall|j: int| 0 <= j < i ==> a@[j] == b@[j],
        decreases 32 - i,
    {
        if a[i] != b[i] {
            return false;
        }
        i = i + 1;
    }
    assert(a@ =~= b@);
    true
}

/// Overwrites the first bytes of `data` with `bytes`, as writing a layout into an
/// account's data does; fails, leaving `data` as it was, where `data` is too short.
pub fn write_prefix(data: &mut Vec<u8>, bytes: &[u8]) -> (r: Result<(), CodecError>)
    ensures
        old(data)@.len() < bytes@.len() ==> r == Err::<(), CodecError>(CodecError::WriteZero)
            && final(data)@ == old(data)@,
        old(data)@.len() >= bytes@.len() ==> r is Ok && final(data)@ == bytes@ + old(data)@.skip(
            bytes@.len() as int,
        ),
{
    let n = bytes.len();
    if data.len() < n {
        return Err(CodecError::WriteZero);
    }
    let mut i: usize = 0;
    while i < n
        invariant
            n == bytes@.len(),
            i <= n,
            data@.len() == old(data)@.len(),
            n <= data@.len(),
            forall|j: int| 0 <= j < i ==> data@[j] == bytes@[j],
            forall|j: int| i <= j < data@.len() ==> data@[j] == old(data)@[j],
        decreases n - i,
    {
        data.set(i, bytes[i]);
        i = i + 1;
    }
    assert(data@ =~= bytes@ + old(data)@.skip(n as int));
    Ok(())
}

} // verus!
