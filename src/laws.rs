//! Laws of the top-header parser and of the extractor, stated over a file held
//! in memory and proved from the functions' specifications.
use vstd::prelude::*;
use crate::layout::{
    HEADER_LEN, TOP_HEADER_LEN, WAVE_ID_LEN, data_tag, fmt_data_of, fmt_tag, header_of, riff_tag,
    u32_le, wave_tag, bytes4,
};
use crate::walker::{ParseTopHeaderError, WaveFile, top_header_of};
use crate::extractor::{
    GetMetaDataForI2sError, GetMetaDataForI2sOutput, MetaDataForI2s, GetMetaDataForI2sState, MAX_SCAN_OFFSET,
    ReadFmtState, after_chunk, output_of, step,
};

verus! {

broadcast use vstd::array::group_array_axioms;

/// The `size` bytes of `file` from `address` on; bytes past its end read as zero.
pub open spec fn read_at(file: Seq<u8>, address: int, size: int) -> Seq<u8> {
    Seq::new(size as nat, |k: int| if address + k < file.len() { file[address + k] } else { 0u8 })
}

/// The state that the extractor reaches from `s` when at most `fuel` of its
/// requests are answered from `file`.
pub open spec fn run(s: GetMetaDataForI2sState, file: Seq<u8>, fuel: nat) -> GetMetaDataForI2sState
    decreases fuel,
{
    if fuel == 0 {
        s
    } else {
        match output_of(s) {
            GetMetaDataForI2sOutput::Read(rq) => run(
                step(s, read_at(file, rq.address as int, rq.size as int)),
                file,
                (fuel - 1) as nat,
            ),
            GetMetaDataForI2sOutput::Done(_) => s,
        }
    }
}

proof fn lemma_bytes4(b: Seq<u8>, i: int)
    requires
        0 <= i,
        i + 4 <= b.len(),
    ensures
        bytes4(b, i)@ == b.subrange(i, i + 4),
{
    let a: [u8; 4] = [b[i], b[i + 1], b[i + 2], b[i + 3]];
    assert(a@ =~= b.subrange(i, i + 4));
}

/// A top header that reads "RIFF" and then "WAVE" is accepted, and the
/// declared size of the top chunk is its little-endian size field.
pub proof fn lemma_top_header_accepted(b: Seq<u8>)
    requires
        b.len() == 12,
        b.subrange(0, 4) == riff_tag(),
        b.subrange(8, 12) == wave_tag(),
    ensures
        top_header_of(b) == Ok::<WaveFile, ParseTopHeaderError>(WaveFile { chunk_size: u32_le(b, 4) as u32 }),
        step(GetMetaDataForI2sState::ParseTopHeader, b) == (GetMetaDataForI2sState::GetChunks {
            top_header_size: u32_le(b, 4) as u32,
            current_address_within_data: 0,
            fmt: ReadFmtState::ScanningForChunk,
            data: None,
        }),
{
}

/// A top header whose first four bytes are not "RIFF" is refused with those
/// four bytes, by the parser and by the extractor.
pub proof fn lemma_wrong_chunk_id(b: Seq<u8>)
    requires
        b.len() == 12,
        b.subrange(0, 4) != riff_tag(),
    ensures
        top_header_of(b) matches Err(ParseTopHeaderError::UnexpectedChunkId(id)) && id@ == b.subrange(0, 4),
        step(GetMetaDataForI2sState::ParseTopHeader, b) matches GetMetaDataForI2sState::Done(
            Err(GetMetaDataForI2sError::UnexpectedChunkId(id)),
        ) && id@ == b.subrange(0, 4),
{
    lemma_bytes4(b, 0);
}

/// A top header that reads "RIFF" but whose container id is not "WAVE" is
/// refused with that container id, by the parser and by the extractor.
pub proof fn lemma_wrong_wave_id(b: Seq<u8>)
    requires
        b.len() == 12,
        b.subrange(0, 4) == riff_tag(),
        b.subrange(8, 12) != wave_tag(),
    ensures
        top_header_of(b) matches Err(ParseTopHeaderError::UnexpectedWaveId(id)) && id@ == b.subrange(8, 12),
        step(GetMetaDataForI2sState::ParseTopHeader, b) matches GetMetaDataForI2sState::Done(
            Err(GetMetaDataForI2sError::UnexpectedWaveId(id)),
        ) && id@ == b.subrange(8, 12),
{
    lemma_bytes4(b, 8);
}

/// A file that is only a top header declaring no chunk ends in `MissingChunks`.
pub proof fn lemma_empty_top_chunk(file: Seq<u8>)
    requires
        file.len() == 12,
        file.subrange(0, 4) == riff_tag(),
        file.subrange(8, 12) == wave_tag(),
        u32_le(file, 4) == 4,
    ensures
        run(GetMetaDataForI2sState::ParseTopHeader, file, 2) == GetMetaDataForI2sState::Done(
            Err(GetMetaDataForI2sError::MissingChunks),
        ),
{
    let s0 = GetMetaDataForI2sState::ParseTopHeader;
    let b0 = read_at(file, 0, 12);
    assert(b0 =~= file);
    lemma_top_header_accepted(file);
    let s1 = step(s0, b0);
    let b1 = read_at(file, 12, 8);
    lemma_bytes4(b1, 0);
    assert(b1.subrange(0, 4) =~= seq![0u8, 0u8, 0u8, 0u8]);
    assert(header_of(b1).chunk_id@ != fmt_tag());
    assert(header_of(b1).chunk_id@ != data_tag());
    let s2 = step(s1, b1);
    assert(s2 == GetMetaDataForI2sState::Done(Err(GetMetaDataForI2sError::MissingChunks)));
    assert(run(s2, file, 0) == s2);
    assert(run(s1, file, 1) == run(s2, file, 0));
    assert(run(s0, file, 2) == run(s1, file, 1));
}

/// Where the scan reaches a chunk header of which the top chunk declares only
/// one to eight bytes, before either needed chunk was found, the extractor
/// ends in `IncompleteChunkHeader`, whatever the file holds there.
pub proof fn lemma_truncated_header(total: u32, cursor: u32, file: Seq<u8>)
    requires
        cursor <= MAX_SCAN_OFFSET,
        1 <= total - WAVE_ID_LEN - cursor <= HEADER_LEN,
    ensures
        run(
            GetMetaDataForI2sState::GetChunks {
                top_header_size: total,
                current_address_within_data: cursor,
                fmt: ReadFmtState::ScanningForChunk,
                data: None,
            },
            file,
            2,
        ) == GetMetaDataForI2sState::Done(Err(GetMetaDataForI2sError::IncompleteChunkHeader)),
{
    let s0 = GetMetaDataForI2sState::GetChunks {
        top_header_size: total,
        current_address_within_data: cursor,
        fmt: ReadFmtState::ScanningForChunk,
        data: None,
    };
    let incomplete = GetMetaDataForI2sState::Done(Err(GetMetaDataForI2sError::IncompleteChunkHeader));
    let b0 = read_at(file, 12 + cursor, 8);
    let h = header_of(b0);
    let s1 = step(s0, b0);
    if h.chunk_id@ == fmt_tag() {
        assert(s1 == (GetMetaDataForI2sState::GetChunks {
            top_header_size: total,
            current_address_within_data: cursor,
            fmt: ReadFmtState::ReadCurrentChunk { current_chunk_size: h.chunk_size },
            data: None,
        }));
        let b1 = read_at(file, 20 + cursor, 40);
        assert(step(s1, b1) == incomplete);
        assert(run(step(s1, b1), file, 0) == incomplete);
        assert(run(s1, file, 1) == incomplete);
    } else {
        assert(s1 == incomplete);
        assert(run(s1, file, 1) == incomplete);
    }
    assert(run(s0, file, 2) == run(s1, file, 1));
}

/// Where chunk `k` of a top chunk whose chunks have the body sizes `sizes`
/// starts, counted from the end of the top header.
pub open spec fn chunk_offset(sizes: Seq<u32>, k: int) -> int
    decreases k,
{
    if k <= 0 {
        0
    } else {
        chunk_offset(sizes, k - 1) + HEADER_LEN + sizes[k - 1]
    }
}

/// The tag of chunk `k`.
pub open spec fn chunk_tag(file: Seq<u8>, sizes: Seq<u32>, k: int) -> Seq<u8> {
    file.subrange(12 + chunk_offset(sizes, k), 16 + chunk_offset(sizes, k))
}

/// `file` starts with a top header "RIFF" / "WAVE" whose top chunk holds
/// exactly chunks with the body sizes `sizes`, one after the other; chunk `f`
/// is the format chunk and chunk `d` the data chunk, and no other chunk has
/// either tag. The chunks end early enough in the 32-bit address range for
/// every address derived from them to fit.
#[verifier::opaque]
pub open spec fn is_wave_file(file: Seq<u8>, sizes: Seq<u32>, f: int, d: int) -> bool {
    let n = sizes.len() as int;
    &&& 0 <= f < n
    &&& 0 <= d < n
    &&& f != d
    &&& chunk_offset(sizes, n) <= MAX_SCAN_OFFSET
    &&& file.len() >= 12 + chunk_offset(sizes, n)
    &&& file.subrange(0, 4) == riff_tag()
    &&& file.subrange(8, 12) == wave_tag()
    &&& u32_le(file, 4) == WAVE_ID_LEN + chunk_offset(sizes, n)
    &&& forall|k: int|
        0 <= k < n ==> {
            &&& u32_le(file, 16 + chunk_offset(sizes, k)) == sizes[k]
            &&& (#[trigger] chunk_tag(file, sizes, k) == fmt_tag()) == (k == f)
            &&& (chunk_tag(file, sizes, k) == data_tag()) == (k == d)
        }
}

/// What the extractor finds in such a file: the format descriptor read right
/// after the format chunk's header, and the body of the data chunk.
pub open spec fn expected_meta(file: Seq<u8>, sizes: Seq<u32>, f: int, d: int) -> MetaDataForI2s {
    MetaDataForI2s {
        fmt_data: fmt_data_of(read_at(file, 20 + chunk_offset(sizes, f), 40)),
        data_address: (20 + chunk_offset(sizes, d)) as u32,
        data_size: sizes[d],
    }
}

spec fn scan_state(file: Seq<u8>, sizes: Seq<u32>, f: int, d: int, k: int) -> GetMetaDataForI2sState {
    GetMetaDataForI2sState::GetChunks {
        top_header_size: u32_le(file, 4) as u32,
        current_address_within_data: chunk_offset(sizes, k) as u32,
        fmt: if f < k {
            ReadFmtState::ReadFmtData(fmt_data_of(read_at(file, 20 + chunk_offset(sizes, f), 40)))
        } else {
            ReadFmtState::ScanningForChunk
        },
        data: if d < k {
            Some((chunk_offset(sizes, d) as u32, sizes[d]))
        } else {
            None
        },
    }
}

proof fn lemma_chunk_offset_nonneg(sizes: Seq<u32>, a: int)
    requires
        0 <= a <= sizes.len(),
    ensures
        0 <= chunk_offset(sizes, a),
    decreases a,
{
    if a > 0 {
        lemma_chunk_offset_nonneg(sizes, a - 1);
    }
}

proof fn lemma_chunk_offset_grows(sizes: Seq<u32>, a: int, b: int)
    requires
        0 <= a <= b <= sizes.len(),
    ensures
        0 <= chunk_offset(sizes, a),
        chunk_offset(sizes, a) + HEADER_LEN * (b - a) <= chunk_offset(sizes, b),
    decreases b - a,
{
    lemma_chunk_offset_nonneg(sizes, a);
    if a < b {
        lemma_chunk_offset_grows(sizes, a, b - 1);
    }
}

proof fn lemma_run_done(s: GetMetaDataForI2sState, file: Seq<u8>, fuel: nat)
    requires
        s is Done,
    ensures
        run(s, file, fuel) == s,
{
}

/// The chunk header that the extractor reads at `a`.
proof fn lemma_read_header(file: Seq<u8>, a: int)
    requires
        0 <= a,
        a + 8 <= file.len(),
    ensures
        header_of(read_at(file, a, 8)).chunk_id@ == file.subrange(a, a + 4),
        header_of(read_at(file, a, 8)).chunk_size == u32_le(file, a + 4) as u32,
{
    let b0 = read_at(file, a, 8);
    lemma_bytes4(b0, 0);
    assert(b0.subrange(0, 4) =~= file.subrange(a, a + 4));
}

/// What the layout of the file gives about chunk `k`.
proof fn lemma_chunk_at(file: Seq<u8>, sizes: Seq<u32>, f: int, d: int, k: int)
    requires
        is_wave_file(file, sizes, f, d),
        0 <= k < sizes.len(),
    ensures
        0 <= f < sizes.len(),
        0 <= d < sizes.len(),
        f != d,
        file.len() >= 12,
        file.subrange(0, 4) == riff_tag(),
        file.subrange(8, 12) == wave_tag(),
        chunk_offset(sizes, sizes.len() as int) <= MAX_SCAN_OFFSET,
        u32_le(file, 4) == WAVE_ID_LEN + chunk_offset(sizes, sizes.len() as int),
        0 <= chunk_offset(sizes, k),
        chunk_offset(sizes, k) + HEADER_LEN + sizes[k] == chunk_offset(sizes, k + 1),
        chunk_offset(sizes, k + 1) <= MAX_SCAN_OFFSET,
        header_of(read_at(file, 12 + chunk_offset(sizes, k), 8)).chunk_size == sizes[k],
        (header_of(read_at(file, 12 + chunk_offset(sizes, k), 8)).chunk_id@ == fmt_tag()) == (k == f),
        (header_of(read_at(file, 12 + chunk_offset(sizes, k), 8)).chunk_id@ == data_tag()) == (k == d),
{
    reveal(is_wave_file);
    let n = sizes.len() as int;
    lemma_chunk_offset_grows(sizes, k + 1, n);
    lemma_chunk_offset_nonneg(sizes, k);
    let off = chunk_offset(sizes, k);
    lemma_read_header(file, 12 + off);
    assert(chunk_tag(file, sizes, k) == file.subrange(12 + off, 12 + off + 4));
}

/// From the scan state before chunk `k`, one header read (and a format body
/// read where chunk `k` is the format chunk) leads on to the state before
/// chunk `k + 1`, or to the result once both chunks are known.
#[verifier::rlimit(40)]
proof fn lemma_scan_from(file: Seq<u8>, sizes: Seq<u32>, f: int, d: int, k: int, fuel: nat)
    requires
        is_wave_file(file, sizes, f, d),
        0 <= k <= f || 0 <= k <= d,
        k < sizes.len(),
        fuel >= 2 * (sizes.len() - k) + 2,
    ensures
        run(scan_state(file, sizes, f, d, k), file, fuel) == GetMetaDataForI2sState::Done(
            Ok::<MetaDataForI2s, GetMetaDataForI2sError>(expected_meta(file, sizes, f, d)),
        ),
    decreases sizes.len() - k,
{
    let n = sizes.len() as int;
    let done = GetMetaDataForI2sState::Done(
        Ok::<MetaDataForI2s, GetMetaDataForI2sError>(expected_meta(file, sizes, f, d)),
    );
    let total = u32_le(file, 4) as u32;
    let off = chunk_offset(sizes, k);
    lemma_chunk_at(file, sizes, f, d, k);
    let last = if f < d { d } else { f };
    lemma_chunk_at(file, sizes, f, d, last);
    lemma_chunk_at(file, sizes, f, d, d);
    lemma_chunk_at(file, sizes, f, d, f);
    if k < last {
        lemma_chunk_offset_grows(sizes, k + 1, last);
    }
    lemma_chunk_offset_grows(sizes, last + 1, n);
    assert(total - WAVE_ID_LEN - off > HEADER_LEN || k == last);
    let fmt_k = if f < k {
        ReadFmtState::ReadFmtData(fmt_data_of(read_at(file, 20 + chunk_offset(sizes, f), 40)))
    } else {
        ReadFmtState::ScanningForChunk
    };
    let data_k = if d < k {
        Some((chunk_offset(sizes, d) as u32, sizes[d]))
    } else {
        None
    };
    let s0 = scan_state(file, sizes, f, d, k);
    assert(s0 == GetMetaDataForI2sState::GetChunks {
        top_header_size: total,
        current_address_within_data: off as u32,
        fmt: fmt_k,
        data: data_k,
    });
    let b0 = read_at(file, 12 + off, 8);
    let h = header_of(b0);
    let s1 = step(s0, b0);
    assert(run(s0, file, fuel) == run(s1, file, (fuel - 1) as nat));
    if k == f {
        let s1x = GetMetaDataForI2sState::GetChunks {
            top_header_size: total,
            current_address_within_data: off as u32,
            fmt: ReadFmtState::ReadCurrentChunk { current_chunk_size: sizes[k] },
            data: data_k,
        };
        assert(s1 == after_chunk(total, off as u32, ReadFmtState::ReadCurrentChunk { current_chunk_size: h.chunk_size }, data_k, None));
        assert(s1 == s1x);
        let b1 = read_at(file, 20 + off, 40);
        let s2 = step(s1, b1);
        assert(run(s1, file, (fuel - 1) as nat) == run(s2, file, (fuel - 2) as nat));
        if d < k {
            assert(s2 == done);
            lemma_run_done(s2, file, (fuel - 2) as nat);
        } else {
            assert(s2 == scan_state(file, sizes, f, d, k + 1));
            lemma_scan_from(file, sizes, f, d, k + 1, (fuel - 2) as nat);
        }
    } else if k == d {
        assert(s1 == after_chunk(total, off as u32, fmt_k, Some((off as u32, h.chunk_size)), Some(h.chunk_size)));
        if f < k {
            assert(s1 == done);
            lemma_run_done(s1, file, (fuel - 1) as nat);
        } else {
            assert(s1 == scan_state(file, sizes, f, d, k + 1));
            lemma_scan_from(file, sizes, f, d, k + 1, (fuel - 1) as nat);
        }
    } else {
        assert(s1 == after_chunk(total, off as u32, fmt_k, data_k, Some(h.chunk_size)));
        assert(s1 == scan_state(file, sizes, f, d, k + 1));
        lemma_scan_from(file, sizes, f, d, k + 1, (fuel - 1) as nat);
    }
}

/// Driven over a file made of a top header and a list of chunks among which
/// there is one format chunk and one data chunk, in either order and with any
/// other chunks before, between or after them, the extractor finds the format
/// descriptor right after the format chunk's header and the data chunk's body:
/// its address is the top header's 12 bytes, the chunks before it with their
/// headers, and its own header.
pub proof fn lemma_finds_chunks(file: Seq<u8>, sizes: Seq<u32>, f: int, d: int)
    requires
        is_wave_file(file, sizes, f, d),
    ensures
        run(GetMetaDataForI2sState::ParseTopHeader, file, 2 * sizes.len() + 3)
            == GetMetaDataForI2sState::Done(
            Ok::<MetaDataForI2s, GetMetaDataForI2sError>(expected_meta(file, sizes, f, d)),
        ),
        expected_meta(file, sizes, f, d).data_address == TOP_HEADER_LEN + chunk_offset(sizes, d)
            + HEADER_LEN,
        expected_meta(file, sizes, f, d).data_size == sizes[d],
{
    assert(0 <= d < sizes.len()) by {
        reveal(is_wave_file);
    }
    lemma_chunk_at(file, sizes, f, d, 0);
    lemma_chunk_at(file, sizes, f, d, d);
    let s0 = GetMetaDataForI2sState::ParseTopHeader;
    let b0 = read_at(file, 0, 12);
    assert(b0 =~= file.subrange(0, 12));
    assert(b0.subrange(0, 4) =~= file.subrange(0, 4));
    assert(b0.subrange(8, 12) =~= file.subrange(8, 12));
    lemma_top_header_accepted(b0);
    assert(step(s0, b0) == scan_state(file, sizes, f, d, 0));
    assert(run(s0, file, 2 * sizes.len() + 3) == run(step(s0, b0), file, 2 * sizes.len() + 2));
    lemma_scan_from(file, sizes, f, d, 0, 2 * sizes.len() + 2);
}

} // verus!
