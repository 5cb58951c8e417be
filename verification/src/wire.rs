//! Little-endian framing of 32-bit words, the building block of every
//! program input and public output layout.

use vstd::prelude::*;

verus! {

/// The four bytes of `value`, least significant first.
pub open spec fn word_bytes(value: u32) -> Seq<u8> {
    seq![
        (value % 256) as u8,
        (value / 256 % 256) as u8,
        (value / 65536 % 256) as u8,
        (value / 16777216) as u8,
    ]
}

/// The word whose least significant byte comes first in `bytes`.
pub open spec fn word_value(bytes: Seq<u8>) -> u32
    recommends
        bytes.len() == 4,
{
    (bytes[0] + bytes[1] * 256 + bytes[2] * 65536 + bytes[3] * 16777216) as u32
}

/// Reading back what `word_bytes` wrote gives the word again.
pub proof fn word_round_trip(value: u32)
    ensures
        word_bytes(value).len() == 4,
        word_value(word_bytes(value)) == value,
{
}

/// Four bytes are the framing of exactly the word they decode to.
pub proof fn word_bytes_canonical(bytes: Seq<u8>)
    requires
        bytes.len() == 4,
    ensures
        word_bytes(word_value(bytes)) == bytes,
{
    let b0 = bytes[0] as int;
    let b1 = bytes[1] as int;
    let b2 = bytes[2] as int;
    let b3 = bytes[3] as int;
    let value = b0 + b1 * 256 + b2 * 65536 + b3 * 16777216;
    assert(value == word_value(bytes));
    let high = b1 + b2 * 256 + b3 * 65536;
    assert(value == high * 256 + b0);
    assert(value / 256 == high && value % 256 == b0);
    let higher = b2 + b3 * 256;
    assert(high == higher * 256 + b1);
    assert(high / 256 == higher && high % 256 == b1);
    assert(value / 65536 == higher);
    assert(higher / 256 == b3 && higher % 256 == b2);
    assert(value / 16777216 == b3);
    assert(word_bytes(word_value(bytes)) =~= bytes);
}

/// Appends the little-endian framing of `value` to `out`.
pub fn put_word(out: &mut Vec<u8>, value: u32)
    ensures
        final(out)@ == old(out)@ + word_bytes(value),
{
    out.push((value % 256) as u8);
    out.push((value / 256 % 256) as u8);
    out.push((value / 65536 % 256) as u8);
    out.push((value / 16777216) as u8);
    assert(out@ =~= old(out)@ + word_bytes(value));
}

/// Reads the word framed at `bytes[at..at + 4]`.
pub fn get_word(bytes: &[u8], at: usize) -> (value: u32)
    requires
        at + 4 <= bytes.len(),
    ensures
        value == word_value(bytes@.subrange(at as int, at + 4)),
{
    let b0: u32 = bytes[at] as u32;
    let b1: u32 = bytes[at + 1] as u32;
    let b2: u32 = bytes[at + 2] as u32;
    let b3: u32 = bytes[at + 3] as u32;
    b0 + b1 * 256 + b2 * 65536 + b3 * 16777216
}

/// The eight bytes of `value`, least significant first: its low word, then
/// its high word.
pub open spec fn long_bytes(value: u64) -> Seq<u8> {
    word_bytes((value % 0x1_0000_0000) as u32) + word_bytes((value / 0x1_0000_0000) as u32)
}

/// The 64-bit number whose least significant byte comes first in `bytes`.
pub open spec fn long_value(bytes: Seq<u8>) -> u64
    recommends
        bytes.len() == 8,
{
    (word_value(bytes.subrange(0, 4)) + word_value(bytes.subrange(4, 8)) * 0x1_0000_0000) as u64
}

/// Reading back what `long_bytes` wrote gives the number again.
pub proof fn long_round_trip(value: u64)
    ensures
        long_bytes(value).len() == 8,
        long_value(long_bytes(value)) == value,
{
    let low = (value % 0x1_0000_0000) as u32;
    let high = (value / 0x1_0000_0000) as u32;
    word_round_trip(low);
    word_round_trip(high);
    assert(long_bytes(value).subrange(0, 4) =~= word_bytes(low));
    assert(long_bytes(value).subrange(4, 8) =~= word_bytes(high));
}

/// Appends the little-endian framing of the 64-bit `value` to `out`.
pub fn put_long(out: &mut Vec<u8>, value: u64)
    ensures
        final(out)@ == old(out)@ + long_bytes(value),
{
    put_word(out, (value % 0x1_0000_0000) as u32);
    put_word(out, (value / 0x1_0000_0000) as u32);
    assert(out@ =~= old(out)@ + long_bytes(value));
}

/// Reads the 64-bit number framed at `bytes[at..at + 8]`.
pub fn get_long(bytes: &[u8], at: usize) -> (value: u64)
    requires
        at + 8 <= bytes.len(),
    ensures
        value == long_value(bytes@.subrange(at as int, at + 8)),
{
    let low = get_word(bytes, at);
    let high = get_word(bytes, at + 4);
    proof {
        let window = bytes@.subrange(at as int, at + 8);
        assert(window.subrange(0, 4) =~= bytes@.subrange(at as int, at + 4));
        assert(window.subrange(4, 8) =~= bytes@.subrange(at + 4, at + 8));
    }
    low as u64 + high as u64 * 0x1_0000_0000
}

/// Appends all of `source` to `out`.
pub fn put_bytes(out: &mut Vec<u8>, source: &[u8])
    ensures
        final(out)@ == old(out)@ + source@,
{
    let mut i: usize = 0;
    while i < source.len()
        invariant
            i <= source.len(),
            out@ == old(out)@ + source@.take(i as int),
        decreases source.len() - i,
    {
        out.push(source[i]);
        assert(out@ =~= old(out)@ + source@.take(i + 1));
        i += 1;
    }
    assert(source@.take(i as int) =~= source@);
}

/// A copy of `bytes[from..to]`.
pub fn get_bytes(bytes: &[u8], from: usize, to: usize) -> (copy: Vec<u8>)
    requires
        from <= to <= bytes.len(),
    ensures
        copy@ == bytes@.subrange(from as int, to as int),
{
    let mut copy: Vec<u8> = Vec::new();
    let mut i: usize = from;
    while i < to
        invariant
            from <= i <= to <= bytes.len(),
            copy@ == bytes@.subrange(from as int, i as int),
        decreases to - i,
    {
        copy.push(bytes[i]);
        assert(copy@ =~= bytes@.subrange(from as int, i + 1));
        i += 1;
    }
    copy
}

} // verus!
