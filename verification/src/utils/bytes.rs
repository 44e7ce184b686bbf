//! Little-endian integers and byte windows.
use vstd::prelude::*;

verus! {

/// The two bytes of `x`, least significant first.
pub open spec fn u16_le(x: u16) -> Seq<u8> {
    seq![(x % 256) as u8, (x / 256) as u8]
}

/// The four bytes of `x`, least significant first.
pub open spec fn u32_le(x: u32) -> Seq<u8> {
    seq![
        (x % 256) as u8,
        (x / 256 % 256) as u8,
        (x / 65536 % 256) as u8,
        (x / 16777216) as u8,
    ]
}

/// The integer whose little-endian bytes are `lo`, `hi`.
pub open spec fn u16_from_le(lo: u8, hi: u8) -> u16 {
    (lo + 256 * hi) as u16
}

/// The integer stored little-endian in the two bytes of `data` at `at`.
pub open spec fn u16_le_at(data: Seq<u8>, at: int) -> u16
    recommends
        0 <= at,
        at + 2 <= data.len(),
{
    u16_from_le(data[at], data[at + 1])
}

/// Appends the bytes of `src` to `dst`.
pub fn extend(dst: &mut Vec<u8>, src: &[u8])
    ensures
        final(dst)@ == old(dst)@ + src@,
{
    let mut i: usize = 0;
    while i < src.len()
        invariant
            i <= src@.len(),
            dst@ == old(dst)@ + src@.subrange(0, i as int),
        decreases src@.len() - i,
    {
        dst.push(src[i]);
        i += 1;
    }
    assert(src@.subrange(0, src@.len() as int) == src@);
}

/// Appends `x` as two little-endian bytes.
pub fn push_u16_le(dst: &mut Vec<u8>, x: u16)
    ensures
        final(dst)@ == old(dst)@ + u16_le(x),
{
    dst.push((x % 256) as u8);
    dst.push((x / 256) as u8);
}

/// Appends `x` as four little-endian bytes.
pub fn push_u32_le(dst: &mut Vec<u8>, x: u32)
    ensures
        final(dst)@ == old(dst)@ + u32_le(x),
{
    dst.push((x % 256) as u8);
    dst.push((x / 256 % 256) as u8);
    dst.push((x / 65536 % 256) as u8);
    dst.push((x / 16777216) as u8);
}

/// Reads the little-endian integer in the two bytes of `data` at `at`.
pub fn read_u16_le(data: &[u8], at: usize) -> (x: u16)
    requires
        at + 2 <= data@.len(),
    ensures
        x == u16_le_at(data@, at as int),
{
    let lo: u16 = data[at] as u16;
    let hi: u16 = data[at + 1] as u16;
    lo + 256 * hi
}

/// The `len` bytes of `data` from `offset` on, where `data` has that many.
pub open spec fn window(data: Seq<u8>, offset: int, len: int) -> Option<Seq<u8>> {
    if 0 <= offset && 0 <= len && offset + len <= data.len() {
        Some(data.subrange(offset, offset + len))
    } else {
        None
    }
}

/// Borrows the `len` bytes of `data` from `offset` on, where `data` has that
/// many.
pub fn window_of(data: &[u8], offset: u16, len: u16) -> (found: Option<&[u8]>)
    ensures
        window(data@, offset as int, len as int) is Some <==> found is Some,
        found matches Some(bytes) ==> Some(bytes@) == window(data@, offset as int, len as int),
{
    let start: usize = offset as usize;
    let end: usize = start + len as usize;
    if end <= data.len() {
        Some(&data[start..end])
    } else {
        None
    }
}

/// Whether two byte strings have the same length and the same bytes.
pub fn same_bytes(a: &[u8], b: &[u8]) -> (same: bool)
    ensures
        same == (a@ == b@),
{
    if a.len() != b.len() {
        return false;
    }
    let mut i: usize = 0;
    while i < a.len()
        invariant
            i <= a@.len(),
            a@.len() == b@.len(),
            a@.subrange(0, i as int) == b@.subrange(0, i as int),
        decreases a@.len() - i,
    {
        if a[i] != b[i] {
            return false;
        }
        assert(a@.subrange(0, i + 1) == a@.subrange(0, i as int).push(a@[i as int]));
        assert(b@.subrange(0, i + 1) == b@.subrange(0, i as int).push(b@[i as int]));
        i += 1;
    }
    assert(a@.subrange(0, a@.len() as int) == a@);
    assert(b@.subrange(0, b@.len() as int) == b@);
    true
}

/// Changing one byte of `data` changes exactly the windows that hold it.
pub proof fn window_of_altered_data(data: Seq<u8>, offset: int, len: int, at: int, byte: u8)
    requires
        0 <= at < data.len(),
        byte != data[at],
    ensures
        window(data.update(at, byte), offset, len) is Some <==> window(data, offset, len) is Some,
        window(data, offset, len) is Some ==> (window(data.update(at, byte), offset, len) == window(
            data,
            offset,
            len,
        ) <==> !(offset <= at < offset + len)),
{
    if window(data, offset, len) is Some {
        let before = data.subrange(offset, offset + len);
        let after = data.update(at, byte).subrange(offset, offset + len);
        if offset <= at < offset + len {
            assert(before[at - offset] != after[at - offset]);
        } else {
            assert(before == after);
        }
    }
}

/// Different integers have different bytes.
pub proof fn u32_le_is_injective(x: u32, y: u32)
    requires
        u32_le(x) == u32_le(y),
    ensures
        x == y,
{
    assert(u32_le(x)[0] == u32_le(y)[0]);
    assert(u32_le(x)[1] == u32_le(y)[1]);
    assert(u32_le(x)[2] == u32_le(y)[2]);
    assert(u32_le(x)[3] == u32_le(y)[3]);
}

} // verus!
