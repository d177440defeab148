//! Little-endian 32-bit words: their mathematical meaning, and the two
//! `byteorder` calls that read and write them.

use vstd::prelude::*;

verus! {

/// The value of four bytes read as an unsigned little-endian word.
pub open spec fn le_u32(b: Seq<u8>) -> u32
    recommends
        b.len() == 4,
{
    (b[0] as int + b[1] as int * 0x100 + b[2] as int * 0x1_0000 + b[3] as int * 0x100_0000) as u32
}

/// The four bytes that hold `n` as an unsigned little-endian word.
pub open spec fn le_bytes(n: u32) -> Seq<u8> {
    seq![
        (n as int % 0x100) as u8,
        (n as int / 0x100 % 0x100) as u8,
        (n as int / 0x1_0000 % 0x100) as u8,
        (n as int / 0x100_0000) as u8,
    ]
}

/// A number below 2^32 is the sum of its four base-256 digits.
proof fn lemma_digits_sum(n: int)
    requires
        0 <= n < 0x1_0000_0000,
    ensures
        0 <= n / 0x100_0000 < 0x100,
        n == n % 0x100 + (n / 0x100 % 0x100) * 0x100 + (n / 0x1_0000 % 0x100) * 0x1_0000 + (n
            / 0x100_0000) * 0x100_0000,
{
    let q1 = n / 0x100;
    let q2 = q1 / 0x100;
    let q3 = q2 / 0x100;
    assert(n == q1 * 0x100 + n % 0x100);
    assert(q1 == q2 * 0x100 + q1 % 0x100);
    assert(q2 == q3 * 0x100 + q2 % 0x100);
    assert(n / 0x1_0000 == q2);
    assert(n / 0x100_0000 == q3);
}

/// Four base-256 digits are recovered from their sum.
proof fn lemma_sum_digits(b0: int, b1: int, b2: int, b3: int)
    requires
        0 <= b0 < 0x100,
        0 <= b1 < 0x100,
        0 <= b2 < 0x100,
        0 <= b3 < 0x100,
    ensures
        ({
            let v = b0 + b1 * 0x100 + b2 * 0x1_0000 + b3 * 0x100_0000;
            &&& 0 <= v < 0x1_0000_0000
            &&& v % 0x100 == b0
            &&& v / 0x100 % 0x100 == b1
            &&& v / 0x1_0000 % 0x100 == b2
            &&& v / 0x100_0000 == b3
        }),
{
    let v = b0 + b1 * 0x100 + b2 * 0x1_0000 + b3 * 0x100_0000;
    let r1 = b1 + b2 * 0x100 + b3 * 0x1_0000;
    let r2 = b2 + b3 * 0x100;
    assert(v == r1 * 0x100 + b0);
    assert(v / 0x100 == r1);
    assert(r1 == r2 * 0x100 + b1);
    assert(v == r2 * 0x1_0000 + (b0 + b1 * 0x100));
    assert(v / 0x1_0000 == r2);
    assert(v == b3 * 0x100_0000 + (b0 + b1 * 0x100 + b2 * 0x1_0000));
    assert(v / 0x100_0000 == b3);
}

/// Writing a word and reading it back gives the word.
pub proof fn lemma_le_u32_of_le_bytes(n: u32)
    ensures
        le_bytes(n).len() == 4,
        le_u32(le_bytes(n)) == n,
{
    lemma_digits_sum(n as int);
}

/// Reading four bytes and writing the word back gives the same four bytes.
pub proof fn lemma_le_bytes_of_le_u32(b: Seq<u8>)
    requires
        b.len() == 4,
    ensures
        le_bytes(le_u32(b)) == b,
{
    lemma_sum_digits(b[0] as int, b[1] as int, b[2] as int, b[3] as int);
    assert(le_bytes(le_u32(b)) =~= b);
}

/// Reads one word through `byteorder::ReadBytesExt::read_u32::<LittleEndian>`
/// on a `std::io::Cursor` placed at the start of `bytes`.
///
/// Trusted: the read succeeds exactly when at least four bytes are there, and
/// then yields the little-endian value of the first four.
#[verifier::external_body]
pub(crate) fn read_u32_le(bytes: &[u8]) -> (r: Option<u32>)
    ensures
        r.is_some() <==> bytes@.len() >= 4,
        r matches Some(v) ==> v == le_u32(bytes@.subrange(0, 4)),
{
    let mut cursor = std::io::Cursor::new(bytes);
    byteorder::ReadBytesExt::read_u32::<byteorder::LittleEndian>(&mut cursor).ok()
}

/// Appends one word through
/// `byteorder::WriteBytesExt::write_u32::<LittleEndian>` on a `Vec<u8>`.
///
/// Trusted: the vector grows by exactly the four little-endian bytes of `n`
/// (writing to a vector does not fail).
#[verifier::external_body]
pub(crate) fn write_u32_le(out: &mut Vec<u8>, n: u32)
    ensures
        final(out)@ == old(out)@ + le_bytes(n),
{
    let _ = byteorder::WriteBytesExt::write_u32::<byteorder::LittleEndian>(out, n);
}

} // verus!
