//! The top header of a WAVE file and a walk over the chunks that follow it.
use vstd::prelude::*;
use crate::layout::{
    Header, HEADER_LEN, TOP_HEADER_LEN, WAVE_ID_LEN, bytes4, riff_tag, wave_tag, u32_le,
    read_bytes4, read_u32_le, tag_is,
};

verus! {

/// The four-byte id that follows the top chunk header; "WAVE" in a WAVE file.
pub type WaveId = [u8; 4];

#[derive(Debug, Clone, Copy)]
pub enum ParseTopHeaderError {
    /// Expected chunk id: "RIFF". Contains actual chunk id.
    UnexpectedChunkId([u8; 4]),
    /// Expected wave id: "WAVE". Contains actual wave id.
    UnexpectedWaveId(WaveId),
}

/// A WAVE file whose top header has been read.
#[derive(Debug, Clone, Copy)]
pub struct WaveFile {
    /// Bytes that follow the top chunk header, the container id included.
    pub chunk_size: u32,
}

/// Where a chunk's header starts, counted from the end of the top header, and
/// the size of its body.
#[derive(Debug, Clone, Copy)]
pub struct ChunkInfo {
    pub address: u32,
    pub size: u32,
}

#[derive(Debug, Clone, Copy)]
pub enum GetChunkHeaderAddressError {
    /// There should be one more chunk, but it wouldn't fit
    IncompleteChunkHeader,
}

/// What the twelve bytes `b` at the start of a file say: the declared size of
/// the top chunk, or why the file is no WAVE file.
pub open spec fn top_header_of(b: Seq<u8>) -> Result<WaveFile, ParseTopHeaderError> {
    if b.subrange(0, 4) != riff_tag() {
        Err(ParseTopHeaderError::UnexpectedChunkId(bytes4(b, 0)))
    } else if b.subrange(8, 12) != wave_tag() {
        Err(ParseTopHeaderError::UnexpectedWaveId(bytes4(b, 8)))
    } else {
        Ok(WaveFile { chunk_size: u32_le(b, 4) as u32 })
    }
}

/// Read 12 bytes from the start of the file
pub fn parse_top_header(bytes: &[u8; 12]) -> (r: Result<WaveFile, ParseTopHeaderError>)
    ensures
        r == top_header_of(bytes@),
{
    let b = bytes.as_slice();
    let chunk_id = read_bytes4(b, 0);
    if tag_is(&chunk_id, 0x52, 0x49, 0x46, 0x46) {
        let wave_id = read_bytes4(b, 8);
        if tag_is(&wave_id, 0x57, 0x41, 0x56, 0x45) {
            Ok(WaveFile { chunk_size: read_u32_le(b, 4) })
        } else {
            Err(ParseTopHeaderError::UnexpectedWaveId(wave_id))
        }
    } else {
        Err(ParseTopHeaderError::UnexpectedChunkId(chunk_id))
    }
}

/// Where the chunk after `previous` starts, counted from the end of the top
/// header; the first chunk starts at 0.
pub open spec fn next_chunk_offset(previous: Option<ChunkInfo>) -> int {
    match previous {
        Some(p) => p.address + HEADER_LEN + p.size,
        None => 0,
    }
}

/// Bytes of the top chunk's body that lie at and after `offset`.
pub open spec fn remaining_after(total: u32, offset: int) -> int {
    total - WAVE_ID_LEN - offset
}

/// The file address of the next chunk's header: none where the top chunk ends
/// exactly there, and an error where fewer bytes than a whole header are left.
pub open spec fn chunk_header_address_of(total: u32, previous: Option<ChunkInfo>) -> Result<
    Option<u32>,
    GetChunkHeaderAddressError,
> {
    let next = next_chunk_offset(previous);
    let remaining = remaining_after(total, next);
    if remaining == 0 {
        Ok(None)
    } else if remaining > HEADER_LEN {
        Ok(Some((TOP_HEADER_LEN + next) as u32))
    } else {
        Err(GetChunkHeaderAddressError::IncompleteChunkHeader)
    }
}

impl WaveFile {
    /// Get the address (within the **file**) of the chunk info for the next chunk.
    /// If `None` is returned, that means there is no next chunk.
    pub fn get_chunk_header_address(&self, previous_chunk: Option<ChunkInfo>) -> (r: Result<
        Option<u32>,
        GetChunkHeaderAddressError,
    >)
        ensures
            r == chunk_header_address_of(self.chunk_size, previous_chunk),
            r matches Ok(Some(a)) ==> a >= TOP_HEADER_LEN,
    {
        let next: u64 = match previous_chunk {
            Some(p) => p.address as u64 + HEADER_LEN as u64 + p.size as u64,
            None => 0,
        };
        let used: u64 = WAVE_ID_LEN as u64 + next;
        if used == self.chunk_size as u64 {
            Ok(None)
        } else if used < self.chunk_size as u64 && self.chunk_size as u64 - used > HEADER_LEN as u64 {
            Ok(Some(TOP_HEADER_LEN + next as u32))
        } else {
            Err(GetChunkHeaderAddressError::IncompleteChunkHeader)
        }
    }

    /// The chunk whose header stands at file address `address`.
    pub fn get_chunk_info(address: u32, header: &Header) -> (r: ChunkInfo)
        requires
            address >= TOP_HEADER_LEN,
        ensures
            r.address == address - TOP_HEADER_LEN,
            r.size == header.chunk_size,
    {
        ChunkInfo { address: address - TOP_HEADER_LEN, size: header.chunk_size() }
    }
}

} // verus!
