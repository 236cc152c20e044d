//! Locates the format descriptor and the sample payload of a WAVE (RIFF) file
//! through a pull protocol: the extractor asks for byte ranges and is handed
//! exactly those bytes back, one exchange at a time.
pub mod layout;
pub mod walker;
pub mod extractor;
pub mod laws;

pub use layout::{FmtData, Header};
pub use walker::{ChunkInfo, GetChunkHeaderAddressError, ParseTopHeaderError, WaveFile, WaveId,
    parse_top_header};
pub use extractor::{
    GetMetaDataForI2s, GetMetaDataForI2sError, GetMetaDataForI2sOutput, MetaDataForI2s,
    ReadRequest, StateMachine,
};
