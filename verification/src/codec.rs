//! The two wire formats: frame payloads going out, transform records coming in.

use vstd::prelude::*;
use vstd::slice::slice_subrange;
use crate::wire::{le_bytes, le_u32, read_u32_le, write_u32_le};
use crate::wire::{lemma_le_bytes_of_le_u32, lemma_le_u32_of_le_bytes};

verus! {

/// Length of the frame header: width and height, four bytes each.
pub const FRAME_HEADER_SIZE: usize = 8;

/// Number of elements of a transform matrix (4 rows of 4).
pub const MATRIX_ELEMENTS: usize = 16;

/// Length of one transform record: 16 elements of four bytes each.
pub const TRANSFORM_DATA_SIZE: usize = 64;

/// Why a buffer could not be read as a frame.
#[derive(Clone, Copy, Debug, PartialEq, Eq, Structural)]
pub enum FrameError {
    /// The buffer is shorter than the 8-byte header.
    MalformedInput,
}

/// The bytes of a frame: width, height, then the pixels as they are.
pub open spec fn frame_bytes(width: u32, height: u32, pixels: Seq<u8>) -> Seq<u8> {
    le_bytes(width) + le_bytes(height) + pixels
}

/// Builds the payload for one frame. The pixel bytes are not checked against
/// the dimensions: whatever is given is sent.
pub fn encode_frame(width: u32, height: u32, pixels: &[u8]) -> (out: Vec<u8>)
    ensures
        out@ == frame_bytes(width, height, pixels@),
        out@.len() == pixels@.len() + 8,
{
    let mut out: Vec<u8> = Vec::new();
    write_u32_le(&mut out, width);
    write_u32_le(&mut out, height);
    out.extend_from_slice(pixels);
    proof {
        assert(out@ =~= frame_bytes(width, height, pixels@));
    }
    out
}

/// Reads width and height off the front of a frame payload.
pub fn decode_header(payload: &[u8]) -> (r: Result<(u32, u32), FrameError>)
    ensures
        payload@.len() < 8 <==> r == Err::<(u32, u32), FrameError>(FrameError::MalformedInput),
        payload@.len() >= 8 ==> r == Ok::<(u32, u32), FrameError>(
            (le_u32(payload@.subrange(0, 4)), le_u32(payload@.subrange(4, 8))),
        ),
{
    if payload.len() < FRAME_HEADER_SIZE {
        return Err(FrameError::MalformedInput);
    }
    let rest = slice_subrange(payload, 4, payload.len());
    proof {
        assert(rest@.subrange(0, 4) =~= payload@.subrange(4, 8));
    }
    match (read_u32_le(payload), read_u32_le(rest)) {
        (Some(width), Some(height)) => Ok((width, height)),
        _ => Err(FrameError::MalformedInput),
    }
}

/// The pixel bytes of a frame payload: all that follows the header.
pub open spec fn frame_pixels(payload: Seq<u8>) -> Seq<u8>
    recommends
        payload.len() >= 8,
{
    payload.subrange(8, payload.len() as int)
}

/// Returns the pixel bytes of a frame payload, or nothing where the header
/// is incomplete.
pub fn frame_body(payload: &[u8]) -> (r: Option<&[u8]>)
    ensures
        r.is_some() <==> payload@.len() >= 8,
        r matches Some(body) ==> body@ == frame_pixels(payload@),
{
    if payload.len() < FRAME_HEADER_SIZE {
        None
    } else {
        Some(slice_subrange(payload, FRAME_HEADER_SIZE, payload.len()))
    }
}

/// A frame that was encoded decodes to the dimensions and pixels it was made
/// from.
pub proof fn lemma_frame_round_trip(width: u32, height: u32, pixels: Seq<u8>)
    ensures
        frame_bytes(width, height, pixels).len() == pixels.len() + 8,
        le_u32(frame_bytes(width, height, pixels).subrange(0, 4)) == width,
        le_u32(frame_bytes(width, height, pixels).subrange(4, 8)) == height,
        frame_pixels(frame_bytes(width, height, pixels)) == pixels,
{
    let f = frame_bytes(width, height, pixels);
    lemma_le_u32_of_le_bytes(width);
    lemma_le_u32_of_le_bytes(height);
    assert(f.subrange(0, 4) =~= le_bytes(width));
    assert(f.subrange(4, 8) =~= le_bytes(height));
    assert(frame_pixels(f) =~= pixels);
}

/// A payload with a complete header is exactly the frame made of its own
/// dimensions and pixels: encoding what was decoded forwards it unchanged.
pub proof fn lemma_frame_reencode(payload: Seq<u8>)
    requires
        payload.len() >= 8,
    ensures
        frame_bytes(
            le_u32(payload.subrange(0, 4)),
            le_u32(payload.subrange(4, 8)),
            frame_pixels(payload),
        ) == payload,
{
    lemma_le_bytes_of_le_u32(payload.subrange(0, 4));
    lemma_le_bytes_of_le_u32(payload.subrange(4, 8));
    assert(frame_bytes(
        le_u32(payload.subrange(0, 4)),
        le_u32(payload.subrange(4, 8)),
        frame_pixels(payload),
    ) =~= payload);
}

/// A 4x4 transform in row-major order. Each element is held as the bit
/// pattern of a 32-bit float.
#[derive(Debug, PartialEq, Eq)]
pub struct TransformMatrix {
    bits: Vec<u32>,
}

impl View for TransformMatrix {
    type V = Seq<u32>;

    closed spec fn view(&self) -> Seq<u32> {
        self.bits@
    }
}

impl Clone for TransformMatrix {
    fn clone(&self) -> (m: Self)
        ensures
            m@ == self@,
    {
        proof {
            use_type_invariant(self);
        }
        let bits = self.bits.clone();
        proof {
            assert(bits@ =~= self.bits@);
        }
        TransformMatrix { bits }
    }
}

/// The matrix whose 16 elements are all positive zero.
pub open spec fn zero_matrix() -> Seq<u32> {
    Seq::new(16, |i: int| 0u32)
}

/// The bytes of a transform record: each element in turn, little-endian.
pub open spec fn matrix_bytes(m: Seq<u32>) -> Seq<u8> {
    Seq::new(4 * m.len(), |k: int| le_bytes(m[k / 4])[k % 4])
}

/// The 16 elements that the first 64 bytes of a record hold.
pub open spec fn record_matrix(b: Seq<u8>) -> Seq<u32>
    recommends
        b.len() >= 64,
{
    Seq::new(16, |i: int| le_u32(b.subrange(4 * i, 4 * i + 4)))
}

impl TransformMatrix {
    #[verifier::type_invariant]
    spec fn sixteen_elements(&self) -> bool {
        self.bits@.len() == 16
    }

    /// A matrix has exactly 16 elements. Every matrix that this crate hands
    /// out has them.
    pub open spec fn wf(&self) -> bool {
        self@.len() == 16
    }

    /// The all-zero matrix.
    pub fn zero() -> (m: Self)
        ensures
            m.wf(),
            m@ == zero_matrix(),
    {
        let mut bits: Vec<u32> = Vec::new();
        let mut i: usize = 0;
        while i < MATRIX_ELEMENTS
            invariant
                i <= 16,
                bits@.len() == i,
                forall|j: int| 0 <= j < i ==> bits@[j] == 0u32,
            decreases 16 - i,
        {
            bits.push(0u32);
            i += 1;
        }
        proof {
            assert(bits@ =~= zero_matrix());
        }
        TransformMatrix { bits }
    }

    /// Takes 16 bit patterns as a matrix; any other count is refused.
    pub fn from_bits(bits: Vec<u32>) -> (r: Option<Self>)
        ensures
            r.is_some() <==> bits@.len() == 16,
            r matches Some(m) ==> m.wf() && m@ == bits@,
    {
        if bits.len() == MATRIX_ELEMENTS {
            Some(TransformMatrix { bits })
        } else {
            None
        }
    }

    /// The elements, row by row.
    pub fn bits(&self) -> (r: &Vec<u32>)
        ensures
            r@ == self@,
            self.wf(),
    {
        proof {
            use_type_invariant(self);
        }
        &self.bits
    }
}

/// What decoding one record gave.
#[derive(Debug, Clone, PartialEq, Eq)]
pub struct Decoded {
    /// The matrix read, or the zero matrix where the record was cut short.
    pub matrix: TransformMatrix,
    /// Whether the zero matrix stands in for a record that could not be read.
    pub corrupted: bool,
}

/// Builds the 64-byte record of a matrix.
pub fn encode_transform(matrix: &TransformMatrix) -> (out: Vec<u8>)
    ensures
        matrix.wf(),
        out@ == matrix_bytes(matrix@),
        out@.len() == 64,
{
    proof {
        use_type_invariant(matrix);
    }
    let mut out: Vec<u8> = Vec::new();
    let mut i: usize = 0;
    while i < MATRIX_ELEMENTS
        invariant
            i <= 16,
            matrix@.len() == 16,
            matrix.bits@ == matrix@,
            out@ == matrix_bytes(matrix@.take(i as int)),
        decreases 16 - i,
    {
        let ghost before = out@;
        write_u32_le(&mut out, matrix.bits[i]);
        i += 1;
        proof {
            let m = matrix@;
            let next = matrix_bytes(m.take(i as int));
            assert(out@.len() == next.len());
            assert forall|k: int| 0 <= k < next.len() implies out@[k] == next[k] by {
                if k < 4 * (i - 1) {
                    assert(before[k] == le_bytes(m.take(i - 1)[k / 4])[k % 4]);
                } else {
                    assert(k / 4 == i - 1);
                    assert(k % 4 == k - 4 * (i - 1));
                }
            }
            assert(out@ =~= next);
        }
    }
    proof {
        assert(matrix@.take(16) =~= matrix@);
    }
    out
}

/// Reads one record. A buffer of at least 64 bytes gives the 16 elements of
/// its first 64 bytes. A shorter one gives the zero matrix, flagged as
/// corrupted, so that one bad record never stops a reader.
pub fn decode_transform(buffer: &[u8]) -> (d: Decoded)
    ensures
        d.matrix.wf(),
        d.corrupted <==> buffer@.len() < 64,
        buffer@.len() >= 64 ==> d.matrix@ == record_matrix(buffer@),
        buffer@.len() < 64 ==> d.matrix@ == zero_matrix(),
{
    let mut bits: Vec<u32> = Vec::new();
    let mut i: usize = 0;
    while i < MATRIX_ELEMENTS
        invariant
            i <= 16,
            bits@.len() == i,
            4 * i <= buffer@.len(),
            forall|j: int|
                0 <= j < i ==> bits@[j] == le_u32(#[trigger] buffer@.subrange(4 * j, 4 * j + 4)),
        decreases 16 - i,
    {
        let rest = slice_subrange(buffer, 4 * i, buffer.len());
        match read_u32_le(rest) {
            Some(word) => {
                proof {
                    assert(rest@.subrange(0, 4) =~= buffer@.subrange(4 * i, 4 * i + 4));
                }
                bits.push(word);
            },
            None => {
                return Decoded { matrix: TransformMatrix::zero(), corrupted: true };
            },
        }
        i += 1;
    }
    proof {
        assert(bits@ =~= record_matrix(buffer@));
    }
    Decoded { matrix: TransformMatrix { bits }, corrupted: false }
}

/// A matrix that was encoded decodes to itself, element for element and bit
/// for bit.
pub proof fn lemma_transform_round_trip(m: Seq<u32>)
    requires
        m.len() == 16,
    ensures
        matrix_bytes(m).len() == 64,
        record_matrix(matrix_bytes(m)) == m,
{
    let b = matrix_bytes(m);
    assert forall|i: int| 0 <= i < 16 implies record_matrix(b)[i] == m[i] by {
        lemma_le_u32_of_le_bytes(m[i]);
        assert forall|k: int| 0 <= k < 4 implies b.subrange(4 * i, 4 * i + 4)[k] == le_bytes(
            m[i],
        )[k] by {
            assert((4 * i + k) / 4 == i);
            assert((4 * i + k) % 4 == k);
        }
        assert(b.subrange(4 * i, 4 * i + 4) =~= le_bytes(m[i]));
    }
    assert(record_matrix(b) =~= m);
}

/// A 64-byte record that was decoded encodes to the same 64 bytes.
pub proof fn lemma_transform_reencode(b: Seq<u8>)
    requires
        b.len() == 64,
    ensures
        record_matrix(b).len() == 16,
        matrix_bytes(record_matrix(b)) == b,
{
    let m = record_matrix(b);
    assert forall|k: int| 0 <= k < 64 implies matrix_bytes(m)[k] == b[k] by {
        let i = k / 4;
        let word = b.subrange(4 * i, 4 * i + 4);
        lemma_le_bytes_of_le_u32(word);
        assert(m[i] == le_u32(word));
        assert(word[k % 4] == b[4 * i + k % 4]);
    }
    assert(matrix_bytes(m) =~= b);
}

} // verus!
