//! The storage metadata of an exported texture and its wire format.
//!
//! The metadata travels from sender to receiver as the bincode encoding (in
//! bincode's default configuration: fixed-width little-endian integers) of
//! its four fields in declaration order, 20 bytes in all.
use vstd::prelude::*;

verus! {

/// How the exported DMA-BUF plane is laid out: its DRM fourcc format code,
/// the byte offset of the plane, its DRM format modifier and its row pitch.
#[derive(PartialEq, Eq, Structural, Debug, Clone, Copy)]
pub struct TextureStorageMetadata {
    pub fourcc: i32,
    pub offset: i32,
    pub modifiers: u64,
    pub stride: i32,
}

/// Number of bytes of the encoded metadata.
pub const METADATA_WIRE_LEN: usize = 20;

/// Little-endian bytes of a 32-bit word.
pub open spec fn u32_le_bytes(v: u32) -> Seq<u8> {
    seq![
        (v & 0xff) as u8,
        ((v >> 8u32) & 0xff) as u8,
        ((v >> 16u32) & 0xff) as u8,
        ((v >> 24u32) & 0xff) as u8,
    ]
}

/// Little-endian bytes of a 64-bit word.
pub open spec fn u64_le_bytes(v: u64) -> Seq<u8> {
    seq![
        (v & 0xff) as u8,
        ((v >> 8u64) & 0xff) as u8,
        ((v >> 16u64) & 0xff) as u8,
        ((v >> 24u64) & 0xff) as u8,
        ((v >> 32u64) & 0xff) as u8,
        ((v >> 40u64) & 0xff) as u8,
        ((v >> 48u64) & 0xff) as u8,
        ((v >> 56u64) & 0xff) as u8,
    ]
}

/// Little-endian bytes of a signed 32-bit word (its two's complement bits).
pub open spec fn i32_le_bytes(v: i32) -> Seq<u8> {
    u32_le_bytes(v as u32)
}

/// The 32-bit word whose little-endian bytes are the first four of `b`.
pub open spec fn u32_from_le(b: Seq<u8>) -> u32 {
    (b[0] as u32) | ((b[1] as u32) << 8u32) | ((b[2] as u32) << 16u32) | ((b[3] as u32) << 24u32)
}

/// The 64-bit word whose little-endian bytes are the first eight of `b`.
pub open spec fn u64_from_le(b: Seq<u8>) -> u64 {
    (b[0] as u64) | ((b[1] as u64) << 8u64) | ((b[2] as u64) << 16u64) | ((b[3] as u64) << 24u64)
        | ((b[4] as u64) << 32u64) | ((b[5] as u64) << 40u64) | ((b[6] as u64) << 48u64)
        | ((b[7] as u64) << 56u64)
}

/// The signed 32-bit word whose little-endian bytes are the first four of `b`.
pub open spec fn i32_from_le(b: Seq<u8>) -> i32 {
    u32_from_le(b) as i32
}

/// The wire bytes of the four metadata fields, in declaration order.
pub open spec fn fields_wire_bytes(fourcc: i32, offset: i32, modifiers: u64, stride: i32) -> Seq<u8> {
    i32_le_bytes(fourcc) + i32_le_bytes(offset) + u64_le_bytes(modifiers) + i32_le_bytes(stride)
}

/// The wire bytes of a metadata value.
pub open spec fn metadata_wire_bytes(m: TextureStorageMetadata) -> Seq<u8> {
    fields_wire_bytes(m.fourcc, m.offset, m.modifiers, m.stride)
}

/// The four fields, in declaration order, that the first 20 bytes of `b` encode.
pub open spec fn fields_from_wire(b: Seq<u8>) -> (i32, i32, u64, i32) {
    (
        i32_from_le(b.subrange(0, 4)),
        i32_from_le(b.subrange(4, 8)),
        u64_from_le(b.subrange(8, 16)),
        i32_from_le(b.subrange(16, 20)),
    )
}

/// The metadata value that the first 20 bytes of `b` encode.
pub open spec fn metadata_from_wire(b: Seq<u8>) -> TextureStorageMetadata {
    let (fourcc, offset, modifiers, stride) = fields_from_wire(b);
    TextureStorageMetadata { fourcc, offset, modifiers, stride }
}

proof fn lemma_u32_value_roundtrip(v: u32)
    ensures
        u32_from_le(u32_le_bytes(v)) == v,
{
    let b = u32_le_bytes(v);
    let (b0, b1, b2, b3) = (b[0], b[1], b[2], b[3]);
    assert(b0 == (v & 0xff) as u8 && b1 == ((v >> 8u32) & 0xff) as u8 && b2 == ((v >> 16u32)
        & 0xff) as u8 && b3 == ((v >> 24u32) & 0xff) as u8);
    assert((b0 == (v & 0xff) as u8 && b1 == ((v >> 8u32) & 0xff) as u8 && b2 == ((v >> 16u32)
        & 0xff) as u8 && b3 == ((v >> 24u32) & 0xff) as u8) ==> ((b0 as u32) | ((b1 as u32)
        << 8u32) | ((b2 as u32) << 16u32) | ((b3 as u32) << 24u32)) == v) by (bit_vector);
}

proof fn lemma_u32_bytes_roundtrip(b: Seq<u8>)
    requires
        b.len() == 4,
    ensures
        u32_le_bytes(u32_from_le(b)) == b,
{
    let (b0, b1, b2, b3) = (b[0], b[1], b[2], b[3]);
    let v = u32_from_le(b);
    assert(v == (b0 as u32) | ((b1 as u32) << 8u32) | ((b2 as u32) << 16u32) | ((b3 as u32)
        << 24u32));
    assert((v == (b0 as u32) | ((b1 as u32) << 8u32) | ((b2 as u32) << 16u32) | ((b3 as u32)
        << 24u32)) ==> (b0 == (v & 0xff) as u8 && b1 == ((v >> 8u32) & 0xff) as u8 && b2 == ((v
        >> 16u32) & 0xff) as u8 && b3 == ((v >> 24u32) & 0xff) as u8)) by (bit_vector);
    assert(u32_le_bytes(v) =~= b);
}

proof fn lemma_u64_value_roundtrip(v: u64)
    ensures
        u64_from_le(u64_le_bytes(v)) == v,
{
    let b = u64_le_bytes(v);
    let (b0, b1, b2, b3, b4, b5, b6, b7) = (b[0], b[1], b[2], b[3], b[4], b[5], b[6], b[7]);
    assert(b0 == (v & 0xff) as u8 && b1 == ((v >> 8u64) & 0xff) as u8 && b2 == ((v >> 16u64)
        & 0xff) as u8 && b3 == ((v >> 24u64) & 0xff) as u8 && b4 == ((v >> 32u64) & 0xff) as u8
        && b5 == ((v >> 40u64) & 0xff) as u8 && b6 == ((v >> 48u64) & 0xff) as u8 && b7 == ((v
        >> 56u64) & 0xff) as u8);
    assert((b0 == (v & 0xff) as u8 && b1 == ((v >> 8u64) & 0xff) as u8 && b2 == ((v >> 16u64)
        & 0xff) as u8 && b3 == ((v >> 24u64) & 0xff) as u8 && b4 == ((v >> 32u64) & 0xff) as u8
        && b5 == ((v >> 40u64) & 0xff) as u8 && b6 == ((v >> 48u64) & 0xff) as u8 && b7 == ((v
        >> 56u64) & 0xff) as u8) ==> ((b0 as u64) | ((b1 as u64) << 8u64) | ((b2 as u64)
        << 16u64) | ((b3 as u64) << 24u64) | ((b4 as u64) << 32u64) | ((b5 as u64) << 40u64) | ((
    b6 as u64) << 48u64) | ((b7 as u64) << 56u64)) == v) by (bit_vector);
}

proof fn lemma_u64_bytes_roundtrip(b: Seq<u8>)
    requires
        b.len() == 8,
    ensures
        u64_le_bytes(u64_from_le(b)) == b,
{
    let (b0, b1, b2, b3, b4, b5, b6, b7) = (b[0], b[1], b[2], b[3], b[4], b[5], b[6], b[7]);
    let v = u64_from_le(b);
    assert(v == (b0 as u64) | ((b1 as u64) << 8u64) | ((b2 as u64) << 16u64) | ((b3 as u64)
        << 24u64) | ((b4 as u64) << 32u64) | ((b5 as u64) << 40u64) | ((b6 as u64) << 48u64) | ((
    b7 as u64) << 56u64));
    assert((v == (b0 as u64) | ((b1 as u64) << 8u64) | ((b2 as u64) << 16u64) | ((b3 as u64)
        << 24u64) | ((b4 as u64) << 32u64) | ((b5 as u64) << 40u64) | ((b6 as u64) << 48u64) | ((
    b7 as u64) << 56u64)) ==> (b0 == (v & 0xff) as u8 && b1 == ((v >> 8u64) & 0xff) as u8 && b2
        == ((v >> 16u64) & 0xff) as u8 && b3 == ((v >> 24u64) & 0xff) as u8 && b4 == ((v >> 32u64)
        & 0xff) as u8 && b5 == ((v >> 40u64) & 0xff) as u8 && b6 == ((v >> 48u64) & 0xff) as u8
        && b7 == ((v >> 56u64) & 0xff) as u8)) by (bit_vector);
    assert(u64_le_bytes(v) =~= b);
}

proof fn lemma_i32_value_roundtrip(v: i32)
    ensures
        i32_from_le(i32_le_bytes(v)) == v,
{
    lemma_u32_value_roundtrip(v as u32);
    assert((v as u32) as i32 == v) by (bit_vector);
}

proof fn lemma_i32_bytes_roundtrip(b: Seq<u8>)
    requires
        b.len() == 4,
    ensures
        i32_le_bytes(i32_from_le(b)) == b,
{
    let w = u32_from_le(b);
    lemma_u32_bytes_roundtrip(b);
    assert((w as i32) as u32 == w) by (bit_vector);
}

/// Decoding the encoding of a metadata value gives the value back: what the
/// receiver reads is what the sender wrote.
pub proof fn lemma_wire_roundtrip(m: TextureStorageMetadata)
    ensures
        metadata_wire_bytes(m).len() == METADATA_WIRE_LEN,
        metadata_from_wire(metadata_wire_bytes(m)) == m,
{
    let b = metadata_wire_bytes(m);
    assert(b.subrange(0, 4) =~= i32_le_bytes(m.fourcc));
    assert(b.subrange(4, 8) =~= i32_le_bytes(m.offset));
    assert(b.subrange(8, 16) =~= u64_le_bytes(m.modifiers));
    assert(b.subrange(16, 20) =~= i32_le_bytes(m.stride));
    lemma_i32_value_roundtrip(m.fourcc);
    lemma_i32_value_roundtrip(m.offset);
    lemma_u64_value_roundtrip(m.modifiers);
    lemma_i32_value_roundtrip(m.stride);
}

/// Every 20-byte sequence is the encoding of exactly the metadata value that it
/// decodes to: the wire format wastes no bit pattern and gives no two values
/// the same bytes.
pub proof fn lemma_wire_bytes_determine_metadata(b: Seq<u8>)
    requires
        b.len() == METADATA_WIRE_LEN,
    ensures
        metadata_wire_bytes(metadata_from_wire(b)) == b,
{
    lemma_i32_bytes_roundtrip(b.subrange(0, 4));
    lemma_i32_bytes_roundtrip(b.subrange(4, 8));
    lemma_u64_bytes_roundtrip(b.subrange(8, 16));
    lemma_i32_bytes_roundtrip(b.subrange(16, 20));
    assert(metadata_wire_bytes(metadata_from_wire(b)) =~= b);
}


/// Decoding looks at the first 20 bytes only: bytes after them change nothing.
pub proof fn lemma_wire_ignores_trailing_bytes(b: Seq<u8>, trailing: Seq<u8>)
    requires
        b.len() >= METADATA_WIRE_LEN,
    ensures
        metadata_from_wire(b + trailing) == metadata_from_wire(b),
{
    assert((b + trailing).subrange(0, 4) =~= b.subrange(0, 4));
    assert((b + trailing).subrange(4, 8) =~= b.subrange(4, 8));
    assert((b + trailing).subrange(8, 16) =~= b.subrange(8, 16));
    assert((b + trailing).subrange(16, 20) =~= b.subrange(16, 20));
}

#[verifier::external_type_specification]
#[verifier::external_body]
pub struct ExBincodeErrorKind(bincode::ErrorKind);

/// Why received bytes could not be decoded into metadata.
#[derive(PartialEq, Eq, Structural, Debug, Clone, Copy)]
pub enum WireError {
    /// Fewer bytes arrived than the encoding takes.
    Truncated { len: usize },
}

/// Calls `bincode::serialize` on the four fields as a tuple. bincode's default
/// configuration (unlimited size, fixed-width little-endian integers) writes a
/// tuple as its elements one after the other, an `i32` as the four
/// little-endian bytes of its bits and a `u64` as its eight little-endian
/// bytes; writing into a `Vec` does not fail and no size limit applies, so the
/// call returns `Ok` with exactly those 20 bytes.
#[verifier::external_body]
fn bincode_serialize_fields(fields: (i32, i32, u64, i32)) -> (res: Result<Vec<u8>, Box<bincode::ErrorKind>>)
    ensures
        res is Ok,
        res matches Ok(bytes) ==> bytes@ == fields_wire_bytes(fields.0, fields.1, fields.2, fields.3),
{
    bincode::serialize(&fields)
}

/// Calls `bincode::deserialize` for an `(i32, i32, u64, i32)` tuple. In
/// bincode's default configuration it reads the elements in order from the
/// front of the slice as fixed-width little-endian integers (an `i32` from the
/// bits of a little-endian `u32`), allows trailing bytes, and fails with an
/// unexpected-end-of-input error exactly when the slice holds fewer than the 20
/// bytes that it reads.
#[verifier::external_body]
fn bincode_deserialize_fields(bytes: &[u8]) -> (res: Result<(i32, i32, u64, i32), Box<bincode::ErrorKind>>)
    ensures
        res is Ok <==> bytes@.len() >= 20,
        res matches Ok(f) ==> f == fields_from_wire(bytes@),
{
    bincode::deserialize(bytes)
}

/// Encodes the metadata for sending: the bincode encoding of its fields.
pub fn encode_metadata(meta: &TextureStorageMetadata) -> (bytes: Vec<u8>)
    ensures
        bytes@ == metadata_wire_bytes(*meta),
        bytes@.len() == METADATA_WIRE_LEN,
{
    proof {
        lemma_wire_roundtrip(*meta);
    }
    match bincode_serialize_fields((meta.fourcc, meta.offset, meta.modifiers, meta.stride)) {
        Ok(bytes) => bytes,
        Err(_) => {
            proof {
                assert(false);
            }
            Vec::new()
        },
    }
}

/// Decodes received bytes into metadata. Bytes after the first 20 are
/// ignored; fewer than 20 bytes are an error.
pub fn decode_metadata(bytes: &[u8]) -> (res: Result<TextureStorageMetadata, WireError>)
    ensures
        bytes@.len() >= METADATA_WIRE_LEN ==> res == Ok::<TextureStorageMetadata, WireError>(
            metadata_from_wire(bytes@),
        ),
        bytes@.len() < METADATA_WIRE_LEN ==> res == Err::<TextureStorageMetadata, WireError>(
            WireError::Truncated { len: bytes@.len() as usize },
        ),
{
    match bincode_deserialize_fields(bytes) {
        Ok((fourcc, offset, modifiers, stride)) => Ok(
            TextureStorageMetadata { fourcc, offset, modifiers, stride },
        ),
        Err(_) => Err(WireError::Truncated { len: bytes.len() }),
    }
}

} // verus!
