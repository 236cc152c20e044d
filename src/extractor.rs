//! A state machine that finds the format descriptor and the sample payload of
//! a WAVE file by asking for one byte range at a time.
use vstd::prelude::*;
use crate::layout::{
    FmtData, Header, FMT_DATA_LEN, HEADER_LEN, TOP_HEADER_LEN, WAVE_ID_LEN, data_tag, fmt_data_of,
    fmt_tag, header_of, tag_is,
};
use crate::walker::{ParseTopHeaderError, WaveId, parse_top_header, top_header_of};

verus! {

/// Largest chunk offset at which the scan may stand: the file addresses that it
/// derives from an offset (header, format body, sample payload) stay below 2^32.
pub const MAX_SCAN_OFFSET: u32 = 0xffff_ffeb;

/// What the extractor found: the format descriptor, and the file address and
/// size of the sample payload.
#[derive(Debug, Clone, Copy)]
pub struct MetaDataForI2s {
    pub fmt_data: FmtData,
    pub data_address: u32,
    pub data_size: u32,
}

/// A request for the `size` bytes that start at file address `address`.
#[derive(Debug, Clone, Copy)]
pub struct ReadRequest {
    pub address: u32,
    pub size: u32,
}

#[derive(Debug, Clone, Copy)]
pub enum GetMetaDataForI2sError {
    /// Expected chunk id: "RIFF". Contains actual chunk id.
    UnexpectedChunkId([u8; 4]),
    /// Expected wave id: "WAVE". Contains actual wave id.
    UnexpectedWaveId(WaveId),
    /// There should be one more chunk, but it wouldn't fit
    IncompleteChunkHeader,
    /// The file did not contain both the `fmt` and `data` chunks, which are needed
    MissingChunks,
}

#[derive(Debug, Clone, Copy)]
pub enum GetMetaDataForI2sOutput {
    Done(Result<MetaDataForI2s, GetMetaDataForI2sError>),
    Read(ReadRequest),
}

/// Progress on the format chunk.
#[derive(Debug, Clone, Copy)]
pub enum ReadFmtState {
    ScanningForChunk,
    /// We just detected that the current chunk is a `fmt` chunk
    ReadCurrentChunk { current_chunk_size: u32 },
    ReadFmtData(FmtData),
}

#[derive(Debug, Clone, Copy)]
pub enum GetMetaDataForI2sState {
    ParseTopHeader,
    GetChunks {
        top_header_size: u32,
        current_address_within_data: u32,
        fmt: ReadFmtState,
        /// address within data, size
        data: Option<(u32, u32)>,
    },
    Done(Result<MetaDataForI2s, GetMetaDataForI2sError>),
}

/// The offsets that a state holds leave room for the addresses derived from them.
pub open spec fn state_wf(s: GetMetaDataForI2sState) -> bool {
    match s {
        GetMetaDataForI2sState::GetChunks { current_address_within_data, data, .. } => {
            current_address_within_data <= MAX_SCAN_OFFSET && match data {
                Some((a, _)) => a <= MAX_SCAN_OFFSET,
                None => true,
            }
        },
        _ => true,
    }
}

/// What the extractor asks for, or its result, in state `s`.
pub open spec fn output_of(s: GetMetaDataForI2sState) -> GetMetaDataForI2sOutput {
    match s {
        GetMetaDataForI2sState::ParseTopHeader => GetMetaDataForI2sOutput::Read(
            ReadRequest { address: 0, size: TOP_HEADER_LEN },
        ),
        GetMetaDataForI2sState::GetChunks { current_address_within_data: c, fmt, .. } => {
            match fmt {
                ReadFmtState::ReadCurrentChunk { .. } => GetMetaDataForI2sOutput::Read(
                    ReadRequest { address: (TOP_HEADER_LEN + c + HEADER_LEN) as u32, size: FMT_DATA_LEN },
                ),
                _ => GetMetaDataForI2sOutput::Read(
                    ReadRequest { address: (TOP_HEADER_LEN + c) as u32, size: HEADER_LEN },
                ),
            }
        },
        GetMetaDataForI2sState::Done(r) => GetMetaDataForI2sOutput::Done(r),
    }
}

/// How many bytes the extractor takes in state `s`.
pub open spec fn input_len(s: GetMetaDataForI2sState) -> nat {
    match output_of(s) {
        GetMetaDataForI2sOutput::Read(rq) => rq.size as nat,
        GetMetaDataForI2sOutput::Done(_) => 0,
    }
}

/// The state after a chunk has been handled: done once both chunks are known;
/// else, where the chunk is to be passed over by `advance` body bytes, done
/// where the top chunk ends at the cursor, on to the next chunk where more than
/// a header is left, and cut short otherwise: where one to eight bytes are
/// left, where the top chunk declares fewer bytes than the cursor has passed
/// (no subtraction wraps), or where the next offset would pass
/// `MAX_SCAN_OFFSET`.
pub open spec fn after_chunk(
    total: u32,
    cursor: u32,
    fmt: ReadFmtState,
    data: Option<(u32, u32)>,
    advance: Option<u32>,
) -> GetMetaDataForI2sState {
    let scanning = GetMetaDataForI2sState::GetChunks {
        top_header_size: total,
        current_address_within_data: cursor,
        fmt,
        data,
    };
    match (fmt, data) {
        (ReadFmtState::ReadFmtData(f), Some((a, size))) => GetMetaDataForI2sState::Done(
            Ok(
                MetaDataForI2s {
                    fmt_data: f,
                    data_address: (TOP_HEADER_LEN + a + HEADER_LEN) as u32,
                    data_size: size,
                },
            ),
        ),
        _ => match advance {
            None => scanning,
            Some(sz) => {
                let remaining = total - WAVE_ID_LEN - cursor;
                let next = cursor + HEADER_LEN + sz;
                if remaining == 0 {
                    GetMetaDataForI2sState::Done(Err(GetMetaDataForI2sError::MissingChunks))
                } else if remaining > HEADER_LEN && next <= MAX_SCAN_OFFSET {
                    GetMetaDataForI2sState::GetChunks {
                        top_header_size: total,
                        current_address_within_data: next as u32,
                        fmt,
                        data,
                    }
                } else {
                    GetMetaDataForI2sState::Done(
                        Err(GetMetaDataForI2sError::IncompleteChunkHeader),
                    )
                }
            },
        },
    }
}

/// The state after the extractor in state `s` has taken the bytes `b`.
pub open spec fn step(s: GetMetaDataForI2sState, b: Seq<u8>) -> GetMetaDataForI2sState {
    match s {
        GetMetaDataForI2sState::ParseTopHeader => match top_header_of(b) {
            Ok(w) => GetMetaDataForI2sState::GetChunks {
                top_header_size: w.chunk_size,
                current_address_within_data: 0,
                fmt: ReadFmtState::ScanningForChunk,
                data: None,
            },
            Err(ParseTopHeaderError::UnexpectedChunkId(id)) => GetMetaDataForI2sState::Done(
                Err(GetMetaDataForI2sError::UnexpectedChunkId(id)),
            ),
            Err(ParseTopHeaderError::UnexpectedWaveId(id)) => GetMetaDataForI2sState::Done(
                Err(GetMetaDataForI2sError::UnexpectedWaveId(id)),
            ),
        },
        GetMetaDataForI2sState::GetChunks {
            top_header_size: total,
            current_address_within_data: cursor,
            fmt,
            data,
        } => match fmt {
            ReadFmtState::ReadCurrentChunk { current_chunk_size } => after_chunk(
                total,
                cursor,
                ReadFmtState::ReadFmtData(fmt_data_of(b)),
                data,
                Some(current_chunk_size),
            ),
            _ => {
                let h = header_of(b);
                if h.chunk_id@ == fmt_tag() {
                    after_chunk(
                        total,
                        cursor,
                        ReadFmtState::ReadCurrentChunk { current_chunk_size: h.chunk_size },
                        data,
                        None,
                    )
                } else if h.chunk_id@ == data_tag() {
                    after_chunk(total, cursor, fmt, Some((cursor, h.chunk_size)), Some(h.chunk_size))
                } else {
                    after_chunk(total, cursor, fmt, data, Some(h.chunk_size))
                }
            },
        },
        GetMetaDataForI2sState::Done(_) => s,
    }
}

/// Computes `after_chunk`.
fn finish_chunk(
    total: u32,
    cursor: u32,
    fmt: ReadFmtState,
    data: Option<(u32, u32)>,
    advance: Option<u32>,
) -> (r: GetMetaDataForI2sState)
    requires
        cursor <= MAX_SCAN_OFFSET,
        data matches Some((a, _)) ==> a <= MAX_SCAN_OFFSET,
    ensures
        r == after_chunk(total, cursor, fmt, data, advance),
        state_wf(r),
{
    if let ReadFmtState::ReadFmtData(f) = fmt {
        if let Some((a, size)) = data {
            return GetMetaDataForI2sState::Done(
                Ok(
                    MetaDataForI2s {
                        fmt_data: f,
                        data_address: TOP_HEADER_LEN + a + HEADER_LEN,
                        data_size: size,
                    },
                ),
            );
        }
    }
    match advance {
        None => GetMetaDataForI2sState::GetChunks {
            top_header_size: total,
            current_address_within_data: cursor,
            fmt,
            data,
        },
        Some(sz) => {
            let used: u64 = WAVE_ID_LEN as u64 + cursor as u64;
            let next: u64 = cursor as u64 + HEADER_LEN as u64 + sz as u64;
            if used == total as u64 {
                GetMetaDataForI2sState::Done(Err(GetMetaDataForI2sError::MissingChunks))
            } else if used < total as u64 && total as u64 - used > HEADER_LEN as u64 && next
                <= MAX_SCAN_OFFSET as u64 {
                GetMetaDataForI2sState::GetChunks {
                    top_header_size: total,
                    current_address_within_data: next as u32,
                    fmt,
                    data,
                }
            } else {
                GetMetaDataForI2sState::Done(Err(GetMetaDataForI2sError::IncompleteChunkHeader))
            }
        },
    }
}

/// Computes `step`.
fn next_state(s: GetMetaDataForI2sState, b: &[u8]) -> (r: GetMetaDataForI2sState)
    requires
        state_wf(s),
        !(s is Done),
        b@.len() == input_len(s),
    ensures
        r == step(s, b@),
        state_wf(r),
{
    match s {
        GetMetaDataForI2sState::ParseTopHeader => {
            let top: [u8; 12] = [b[0], b[1], b[2], b[3], b[4], b[5], b[6], b[7], b[8], b[9], b[10], b[11]];
            assert(top@ =~= b@);
            match parse_top_header(&top) {
                Ok(w) => GetMetaDataForI2sState::GetChunks {
                    top_header_size: w.chunk_size,
                    current_address_within_data: 0,
                    fmt: ReadFmtState::ScanningForChunk,
                    data: None,
                },
                Err(ParseTopHeaderError::UnexpectedChunkId(id)) => GetMetaDataForI2sState::Done(
                    Err(GetMetaDataForI2sError::UnexpectedChunkId(id)),
                ),
                Err(ParseTopHeaderError::UnexpectedWaveId(id)) => GetMetaDataForI2sState::Done(
                    Err(GetMetaDataForI2sError::UnexpectedWaveId(id)),
                ),
            }
        },
        GetMetaDataForI2sState::GetChunks {
            top_header_size: total,
            current_address_within_data: cursor,
            fmt,
            data,
        } => match fmt {
            ReadFmtState::ReadCurrentChunk { current_chunk_size } => finish_chunk(
                total,
                cursor,
                ReadFmtState::ReadFmtData(FmtData::from_bytes(b)),
                data,
                Some(current_chunk_size),
            ),
            _ => {
                let h = Header::from_bytes(b);
                if tag_is(&h.chunk_id, 0x66, 0x6d, 0x74, 0x20) {
                    finish_chunk(
                        total,
                        cursor,
                        ReadFmtState::ReadCurrentChunk { current_chunk_size: h.chunk_size() },
                        data,
                        None,
                    )
                } else if tag_is(&h.chunk_id, 0x64, 0x61, 0x74, 0x61) {
                    finish_chunk(
                        total,
                        cursor,
                        fmt,
                        Some((cursor, h.chunk_size())),
                        Some(h.chunk_size()),
                    )
                } else {
                    finish_chunk(total, cursor, fmt, data, Some(h.chunk_size()))
                }
            },
        },
        GetMetaDataForI2sState::Done(_) => s,
    }
}

/// Drives a step-wise computation: `output` tells what the machine wants or
/// what it found, `input` hands it what it asked for.
pub trait StateMachine {
    type Input<'a>;
    type Output;

    fn output(&self) -> Self::Output;

    fn input(&mut self, input: Self::Input<'_>);
}

/// - Make sure the file is a wave file.
/// - Get the `fmt` chunk, which tells you information like the samples per second
/// - Get the address and length of the actual `data` chunk
pub struct GetMetaDataForI2s {
    state: GetMetaDataForI2sState,
}

impl GetMetaDataForI2s {
    #[verifier::type_invariant]
    spec fn inv(&self) -> bool {
        state_wf(self.state)
    }
}

impl View for GetMetaDataForI2s {
    type V = GetMetaDataForI2sState;

    closed spec fn view(&self) -> GetMetaDataForI2sState {
        self.state
    }
}

impl GetMetaDataForI2s {
    /// Helps you pre-allocate memory for a read request
    pub const MAX_READ_LEN: usize = 40;

    pub fn new() -> (r: Self)
        ensures
            r@ == GetMetaDataForI2sState::ParseTopHeader,
    {
        Self { state: GetMetaDataForI2sState::ParseTopHeader }
    }

}

impl StateMachine for GetMetaDataForI2s {
    type Input<'a> = &'a [u8];
    type Output = GetMetaDataForI2sOutput;

    /// What the extractor asks for next, or its result once it is done.
    fn output(&self) -> (r: GetMetaDataForI2sOutput)
        ensures
            r == output_of(self@),
            r matches GetMetaDataForI2sOutput::Read(rq) ==> rq.size <= Self::MAX_READ_LEN,
    {
        proof {
            use_type_invariant(self);
        }
        match self.state {
            GetMetaDataForI2sState::ParseTopHeader => GetMetaDataForI2sOutput::Read(
                ReadRequest { address: 0, size: TOP_HEADER_LEN },
            ),
            GetMetaDataForI2sState::GetChunks { current_address_within_data: c, fmt, .. } => {
                match fmt {
                    ReadFmtState::ReadCurrentChunk { .. } => GetMetaDataForI2sOutput::Read(
                        ReadRequest { address: TOP_HEADER_LEN + c + HEADER_LEN, size: FMT_DATA_LEN },
                    ),
                    _ => GetMetaDataForI2sOutput::Read(
                        ReadRequest { address: TOP_HEADER_LEN + c, size: HEADER_LEN },
                    ),
                }
            },
            GetMetaDataForI2sState::Done(r) => GetMetaDataForI2sOutput::Done(r),
        }
    }

    /// Hands the extractor the bytes that its last request asked for. Once it
    /// is done, or where the length is not the one it asked for, the bytes are
    /// ignored.
    fn input(&mut self, input: &[u8])
        ensures
            !(old(self)@ is Done) && input@.len() == input_len(old(self)@) ==> final(self)@ == step(
                old(self)@,
                input@,
            ),
            old(self)@ is Done || input@.len() != input_len(old(self)@) ==> final(self)@ == old(self)@,
    {
        proof {
            use_type_invariant(&*self);
        }
        let expected: Option<usize> = match self.state {
            GetMetaDataForI2sState::ParseTopHeader => Some(TOP_HEADER_LEN as usize),
            GetMetaDataForI2sState::GetChunks {
                fmt: ReadFmtState::ReadCurrentChunk { .. },
                ..
            } => Some(FMT_DATA_LEN as usize),
            GetMetaDataForI2sState::GetChunks { .. } => Some(HEADER_LEN as usize),
            GetMetaDataForI2sState::Done(_) => None,
        };
        if expected == Some(input.len()) {
            self.state = next_state(self.state, input);
        }
    }
}

} // verus!
