//! Fixed-size little-endian records of a RIFF/WAVE file, decoded from bytes.
use vstd::prelude::*;

verus! {

broadcast use vstd::array::group_array_axioms;

/// Length in bytes of a chunk header: a four-byte tag and a 32-bit size.
pub const HEADER_LEN: u32 = 8;

/// Length in bytes of a container id.
pub const WAVE_ID_LEN: u32 = 4;

/// Length in bytes of the top header: a chunk header and the container id.
pub const TOP_HEADER_LEN: u32 = 12;

/// Length in bytes of the format descriptor.
pub const FMT_DATA_LEN: u32 = 40;

/// The 16-bit little-endian integer stored at `b[i..i + 2]`.
pub open spec fn u16_le(b: Seq<u8>, i: int) -> int {
    b[i] as int + 256 * b[i + 1] as int
}

/// The 32-bit little-endian integer stored at `b[i..i + 4]`.
pub open spec fn u32_le(b: Seq<u8>, i: int) -> int {
    b[i] as int + 256 * b[i + 1] as int + 65536 * b[i + 2] as int + 16777216 * b[i + 3] as int
}

/// The four-byte array holding `b[i..i + 4]`.
pub open spec fn bytes4(b: Seq<u8>, i: int) -> [u8; 4] {
    choose|a: [u8; 4]| a@ == b.subrange(i, i + 4)
}

/// The sixteen-byte array holding `b[i..i + 16]`.
pub open spec fn bytes16(b: Seq<u8>, i: int) -> [u8; 16] {
    choose|a: [u8; 16]| a@ == b.subrange(i, i + 16)
}

pub open spec fn riff_tag() -> Seq<u8> {
    seq![0x52u8, 0x49u8, 0x46u8, 0x46u8]
}

pub open spec fn wave_tag() -> Seq<u8> {
    seq![0x57u8, 0x41u8, 0x56u8, 0x45u8]
}

pub open spec fn fmt_tag() -> Seq<u8> {
    seq![0x66u8, 0x6du8, 0x74u8, 0x20u8]
}

pub open spec fn data_tag() -> Seq<u8> {
    seq![0x64u8, 0x61u8, 0x74u8, 0x61u8]
}

/// Reads the 16-bit little-endian integer at `b[i..i + 2]`.
pub fn read_u16_le(b: &[u8], i: usize) -> (r: u16)
    requires
        i + 2 <= b@.len(),
    ensures
        r as int == u16_le(b@, i as int),
{
    b[i] as u16 + 256 * (b[i + 1] as u16)
}

/// Reads the 32-bit little-endian integer at `b[i..i + 4]`.
pub fn read_u32_le(b: &[u8], i: usize) -> (r: u32)
    requires
        i + 4 <= b@.len(),
    ensures
        r as int == u32_le(b@, i as int),
{
    b[i] as u32 + 256 * (b[i + 1] as u32) + 65536 * (b[i + 2] as u32) + 16777216 * (b[i + 3] as u32)
}

/// Copies `b[i..i + 4]` into an array.
pub fn read_bytes4(b: &[u8], i: usize) -> (r: [u8; 4])
    requires
        i + 4 <= b@.len(),
    ensures
        r == bytes4(b@, i as int),
        r@ == b@.subrange(i as int, i + 4),
{
    let r = [b[i], b[i + 1], b[i + 2], b[i + 3]];
    assert(r@ =~= b@.subrange(i as int, i + 4));
    r
}

/// Whether the array holds the four given bytes, in order.
pub fn tag_is(t: &[u8; 4], a: u8, b: u8, c: u8, d: u8) -> (r: bool)
    ensures
        r == (t@ == seq![a, b, c, d]),
{
    let r = t[0] == a && t[1] == b && t[2] == c && t[3] == d;
    proof {
        if r {
            assert(t@ =~= seq![a, b, c, d]);
        } else if t@ == seq![a, b, c, d] {
            assert(t@[0] == a && t@[1] == b && t@[2] == c && t@[3] == d);
        }
    }
    r
}

/// A chunk header: a four-byte tag and the size in bytes of the chunk's body.
#[derive(Debug, Clone, Copy)]
pub struct Header {
    pub chunk_id: [u8; 4],
    pub chunk_size: u32,
}

impl Header {
    pub fn chunk_size(&self) -> (r: u32)
        ensures
            r == self.chunk_size,
    {
        self.chunk_size
    }

    /// Decodes the eight bytes of a chunk header.
    pub fn from_bytes(b: &[u8]) -> (r: Header)
        requires
            b@.len() == HEADER_LEN,
        ensures
            r == header_of(b@),
    {
        Header { chunk_id: read_bytes4(b, 0), chunk_size: read_u32_le(b, 4) }
    }
}

/// The chunk header that the eight bytes `b` hold.
pub open spec fn header_of(b: Seq<u8>) -> Header {
    Header { chunk_id: bytes4(b, 0), chunk_size: u32_le(b, 4) as u32 }
}

/// The format descriptor of a WAVE file, as stored in its format chunk.
#[derive(Debug, Clone, Copy)]
pub struct FmtData {
    pub format_tag: u16,
    pub n_channels: u16,
    pub n_samples_per_sec: u32,
    pub n_avg_bytes_per_sec: u32,
    pub n_block_align: u16,
    pub w_bits_per_sample: u16,
    pub cb_size: u16,
    pub w_valid_bits_per_sample: u16,
    pub dw_channel_mask: [u8; 4],
    pub sub_format: [u8; 16],
}

/// The format descriptor that the forty bytes `b` hold.
pub open spec fn fmt_data_of(b: Seq<u8>) -> FmtData {
    FmtData {
        format_tag: u16_le(b, 0) as u16,
        n_channels: u16_le(b, 2) as u16,
        n_samples_per_sec: u32_le(b, 4) as u32,
        n_avg_bytes_per_sec: u32_le(b, 8) as u32,
        n_block_align: u16_le(b, 12) as u16,
        w_bits_per_sample: u16_le(b, 14) as u16,
        cb_size: u16_le(b, 16) as u16,
        w_valid_bits_per_sample: u16_le(b, 18) as u16,
        dw_channel_mask: bytes4(b, 20),
        sub_format: bytes16(b, 24),
    }
}

/// Copies `b[i..i + 16]` into an array.
pub fn read_bytes16(b: &[u8], i: usize) -> (r: [u8; 16])
    requires
        i + 16 <= b@.len(),
    ensures
        r == bytes16(b@, i as int),
{
    let r = [
        b[i], b[i + 1], b[i + 2], b[i + 3], b[i + 4], b[i + 5], b[i + 6], b[i + 7],
        b[i + 8], b[i + 9], b[i + 10], b[i + 11], b[i + 12], b[i + 13], b[i + 14], b[i + 15],
    ];
    assert(r@ =~= b@.subrange(i as int, i + 16));
    r
}

impl FmtData {
    /// Decodes the forty bytes of a format descriptor.
    pub fn from_bytes(b: &[u8]) -> (r: FmtData)
        requires
            b@.len() == FMT_DATA_LEN,
        ensures
            r == fmt_data_of(b@),
    {
        FmtData {
            format_tag: read_u16_le(b, 0),
            n_channels: read_u16_le(b, 2),
            n_samples_per_sec: read_u32_le(b, 4),
            n_avg_bytes_per_sec: read_u32_le(b, 8),
            n_block_align: read_u16_le(b, 12),
            w_bits_per_sample: read_u16_le(b, 14),
            cb_size: read_u16_le(b, 16),
            w_valid_bits_per_sample: read_u16_le(b, 18),
            dw_channel_mask: read_bytes4(b, 20),
            sub_format: read_bytes16(b, 24),
        }
    }
}

} // verus!
