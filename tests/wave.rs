use wave_meta::{
    FmtData, GetChunkHeaderAddressError, GetMetaDataForI2s, GetMetaDataForI2sError,
    GetMetaDataForI2sOutput, Header, MetaDataForI2s, ParseTopHeaderError, StateMachine, WaveFile,
    parse_top_header,
};

fn le32(n: u32) -> [u8; 4] {
    n.to_le_bytes()
}

fn chunk(tag: &[u8; 4], body: &[u8]) -> Vec<u8> {
    let mut v = Vec::new();
    v.extend_from_slice(tag);
    v.extend_from_slice(&le32(body.len() as u32));
    v.extend_from_slice(body);
    v
}

/// A WAVE file whose top chunk holds exactly the given chunks.
fn wave_file(chunks: &[Vec<u8>]) -> Vec<u8> {
    let body: Vec<u8> = chunks.concat();
    let mut v = Vec::new();
    v.extend_from_slice(b"RIFF");
    v.extend_from_slice(&le32(4 + body.len() as u32));
    v.extend_from_slice(b"WAVE");
    v.extend_from_slice(&body);
    v
}

fn fmt_body() -> Vec<u8> {
    let mut v = Vec::new();
    v.extend_from_slice(&1u16.to_le_bytes());
    v.extend_from_slice(&2u16.to_le_bytes());
    v.extend_from_slice(&44100u32.to_le_bytes());
    v.extend_from_slice(&176400u32.to_le_bytes());
    v.extend_from_slice(&4u16.to_le_bytes());
    v.extend_from_slice(&16u16.to_le_bytes());
    v
}

/// Reads `size` bytes at `address`; bytes past the end of the file read as zero.
fn read(file: &[u8], address: u32, size: u32) -> Vec<u8> {
    (address as usize..(address + size) as usize)
        .map(|i| if i < file.len() { file[i] } else { 0 })
        .collect()
}

/// Runs the extractor over `file` and counts the reads it made.
fn drive(file: &[u8]) -> (Result<MetaDataForI2s, GetMetaDataForI2sError>, usize) {
    let mut m = GetMetaDataForI2s::new();
    let mut reads = 0;
    loop {
        match m.output() {
            GetMetaDataForI2sOutput::Read(rq) => {
                assert!(rq.size as usize <= GetMetaDataForI2s::MAX_READ_LEN);
                let bytes = read(file, rq.address, rq.size);
                m.input(&bytes);
                reads += 1;
                assert!(reads < 1000);
            }
            GetMetaDataForI2sOutput::Done(r) => return (r, reads),
        }
    }
}

fn top(tag: &[u8; 4], size: u32, id: &[u8; 4]) -> [u8; 12] {
    let mut b = [0u8; 12];
    b[0..4].copy_from_slice(tag);
    b[4..8].copy_from_slice(&le32(size));
    b[8..12].copy_from_slice(id);
    b
}

#[test]
fn top_header_riff_wave_is_accepted() {
    let w = parse_top_header(&top(b"RIFF", 0x0102_0304, b"WAVE")).unwrap();
    assert_eq!(w.chunk_size, 0x0102_0304);
}

#[test]
fn top_header_wrong_chunk_id_is_reported() {
    match parse_top_header(&top(b"RIFX", 36, b"WAVE")) {
        Err(ParseTopHeaderError::UnexpectedChunkId(id)) => assert_eq!(&id, b"RIFX"),
        other => panic!("unexpected {:?}", other),
    }
    match parse_top_header(&top(b"RIFX", 36, b"AVI ")) {
        Err(ParseTopHeaderError::UnexpectedChunkId(id)) => assert_eq!(&id, b"RIFX"),
        other => panic!("unexpected {:?}", other),
    }
}

#[test]
fn top_header_wrong_wave_id_is_reported() {
    match parse_top_header(&top(b"RIFF", 36, b"AVI ")) {
        Err(ParseTopHeaderError::UnexpectedWaveId(id)) => assert_eq!(&id, b"AVI "),
        other => panic!("unexpected {:?}", other),
    }
}

#[test]
fn header_decodes_little_endian_size() {
    let h = Header::from_bytes(&[b'd', b'a', b't', b'a', 0x78, 0x56, 0x34, 0x12]);
    assert_eq!(&h.chunk_id, b"data");
    assert_eq!(h.chunk_size(), 0x1234_5678);
}

#[test]
fn fmt_data_decodes_every_field() {
    let mut b: Vec<u8> = fmt_body();
    b.extend_from_slice(&22u16.to_le_bytes());
    b.extend_from_slice(&24u16.to_le_bytes());
    b.extend_from_slice(&[3, 0, 0, 0]);
    b.extend_from_slice(&[7u8; 16]);
    assert_eq!(b.len(), 40);
    let f = FmtData::from_bytes(&b);
    assert_eq!(f.format_tag, 1);
    assert_eq!(f.n_channels, 2);
    assert_eq!(f.n_samples_per_sec, 44100);
    assert_eq!(f.n_avg_bytes_per_sec, 176400);
    assert_eq!(f.n_block_align, 4);
    assert_eq!(f.w_bits_per_sample, 16);
    assert_eq!(f.cb_size, 22);
    assert_eq!(f.w_valid_bits_per_sample, 24);
    assert_eq!(f.dw_channel_mask, [3, 0, 0, 0]);
    assert_eq!(f.sub_format, [7u8; 16]);
}

#[test]
fn first_chunk_address_follows_top_header() {
    let w = WaveFile { chunk_size: 4 + 8 + 16 };
    assert_eq!(w.get_chunk_header_address(None).unwrap(), Some(12));
}

#[test]
fn chunk_walk_visits_each_chunk_then_ends() {
    let w = WaveFile { chunk_size: 4 + 8 + 16 + 8 + 2 };
    let first = w.get_chunk_header_address(None).unwrap().unwrap();
    assert_eq!(first, 12);
    let info = WaveFile::get_chunk_info(first, &Header::from_bytes(&[b'f', b'm', b't', b' ', 16, 0, 0, 0]));
    assert_eq!(info.address, 0);
    assert_eq!(info.size, 16);
    let second = w.get_chunk_header_address(Some(info)).unwrap().unwrap();
    assert_eq!(second, 36);
    let info = WaveFile::get_chunk_info(second, &Header::from_bytes(&[b'd', b'a', b't', b'a', 2, 0, 0, 0]));
    assert_eq!(info.address, 24);
    assert_eq!(w.get_chunk_header_address(Some(info)).unwrap(), None);
}

#[test]
fn chunk_walk_reports_truncated_header() {
    let w = WaveFile { chunk_size: 4 + 8 };
    assert!(matches!(
        w.get_chunk_header_address(None),
        Err(GetChunkHeaderAddressError::IncompleteChunkHeader)
    ));
    let w = WaveFile { chunk_size: 4 + 9 };
    assert_eq!(w.get_chunk_header_address(None).unwrap(), Some(12));
}

#[test]
fn chunk_walk_rejects_underflow() {
    let w = WaveFile { chunk_size: 2 };
    assert!(w.get_chunk_header_address(None).is_err());
    let w = WaveFile { chunk_size: 20 };
    let info = WaveFile::get_chunk_info(12, &Header::from_bytes(&[b'x', b'x', b'x', b'x', 100, 0, 0, 0]));
    assert!(w.get_chunk_header_address(Some(info)).is_err());
    let big = WaveFile::get_chunk_info(12, &Header::from_bytes(&[b'x', b'x', b'x', b'x', 0xff, 0xff, 0xff, 0xff]));
    let w = WaveFile { chunk_size: u32::MAX };
    assert!(w.get_chunk_header_address(Some(big)).is_err());
}

#[test]
fn extractor_first_request_is_top_header() {
    let m = GetMetaDataForI2s::new();
    match m.output() {
        GetMetaDataForI2sOutput::Read(rq) => {
            assert_eq!(rq.address, 0);
            assert_eq!(rq.size, 12);
        }
        other => panic!("unexpected {:?}", other),
    }
}

#[test]
fn extractor_output_is_repeatable() {
    let file = wave_file(&[chunk(b"fmt ", &fmt_body()), chunk(b"data", &[0u8; 8])]);
    let mut m = GetMetaDataForI2s::new();
    for _ in 0..4 {
        let a = format!("{:?}", m.output());
        let b = format!("{:?}", m.output());
        assert_eq!(a, b);
        if let GetMetaDataForI2sOutput::Read(rq) = m.output() {
            m.input(&read(&file, rq.address, rq.size));
        }
    }
    let a = format!("{:?}", m.output());
    assert_eq!(a, format!("{:?}", m.output()));
    assert!(matches!(m.output(), GetMetaDataForI2sOutput::Done(Ok(_))));
}

#[test]
fn extractor_scenario_fmt_then_data() {
    let mut file = Vec::new();
    file.extend_from_slice(b"RIFF");
    file.extend_from_slice(&le32(44));
    file.extend_from_slice(b"WAVE");
    file.extend_from_slice(b"fmt ");
    file.extend_from_slice(&le32(16));
    file.extend_from_slice(&fmt_body());
    file.extend_from_slice(b"data");
    file.extend_from_slice(&le32(8));
    file.extend_from_slice(&[1, 2, 3, 4, 5, 6, 7, 8]);
    let (r, reads) = drive(&file);
    let meta = r.unwrap();
    assert_eq!(meta.data_address, 44);
    assert_eq!(meta.data_size, 8);
    assert_eq!(meta.fmt_data.n_channels, 2);
    assert_eq!(meta.fmt_data.n_samples_per_sec, 44100);
    assert_eq!(meta.fmt_data.w_bits_per_sample, 16);
    assert_eq!(reads, 4);
    assert_eq!(&file[44..52], &[1, 2, 3, 4, 5, 6, 7, 8]);
}

#[test]
fn extractor_finds_data_before_fmt() {
    let samples = [9u8; 10];
    let file = wave_file(&[chunk(b"data", &samples), chunk(b"fmt ", &fmt_body())]);
    let (r, _) = drive(&file);
    let meta = r.unwrap();
    assert_eq!(meta.data_address, 20);
    assert_eq!(meta.data_size, 10);
    assert_eq!(meta.fmt_data.n_samples_per_sec, 44100);
    assert_eq!(meta.fmt_data.n_block_align, 4);
}

#[test]
fn extractor_skips_unrelated_chunks() {
    let file = wave_file(&[
        chunk(b"LIST", &[0u8; 26]),
        chunk(b"fmt ", &fmt_body()),
        chunk(b"fact", &[0u8; 4]),
        chunk(b"data", &[5u8; 100]),
        chunk(b"id3 ", &[0u8; 10]),
    ]);
    let (r, _) = drive(&file);
    let meta = r.unwrap();
    let expected = 12 + (8 + 26) + (8 + 16) + (8 + 4) + 8;
    assert_eq!(meta.data_address, expected);
    assert_eq!(meta.data_size, 100);
    assert_eq!(&file[expected as usize..expected as usize + 100], &[5u8; 100][..]);
    assert_eq!(meta.fmt_data.n_channels, 2);

    let file = wave_file(&[
        chunk(b"data", &[5u8; 3]),
        chunk(b"LIST", &[0u8; 7]),
        chunk(b"fmt ", &fmt_body()),
    ]);
    let meta = drive(&file).0.unwrap();
    assert_eq!(meta.data_address, 20);
    assert_eq!(meta.data_size, 3);
    assert_eq!(meta.fmt_data.format_tag, 1);
}

#[test]
fn extractor_empty_top_chunk_is_missing_chunks() {
    let file = top(b"RIFF", 4, b"WAVE");
    let (r, _) = drive(&file);
    assert!(matches!(r, Err(GetMetaDataForI2sError::MissingChunks)));
}

#[test]
fn extractor_without_data_chunk_is_missing_chunks() {
    let file = wave_file(&[chunk(b"fmt ", &fmt_body()), chunk(b"LIST", &[0u8; 4])]);
    let (r, _) = drive(&file);
    assert!(matches!(r, Err(GetMetaDataForI2sError::MissingChunks)));
}

#[test]
fn extractor_truncated_header_is_incomplete() {
    for extra in 1..=8u32 {
        let mut file = wave_file(&[chunk(b"data", &[0u8; 8])]);
        let size = 4 + 16 + extra;
        file[4..8].copy_from_slice(&le32(size));
        file.extend(std::iter::repeat(0u8).take(extra as usize));
        let (r, _) = drive(&file);
        assert!(
            matches!(r, Err(GetMetaDataForI2sError::IncompleteChunkHeader)),
            "{} bytes left",
            extra
        );
    }
}

#[test]
fn extractor_reports_bad_ids() {
    let (r, reads) = drive(&top(b"RIFX", 4, b"WAVE"));
    match r {
        Err(GetMetaDataForI2sError::UnexpectedChunkId(id)) => assert_eq!(&id, b"RIFX"),
        other => panic!("unexpected {:?}", other),
    }
    assert_eq!(reads, 1);
    match drive(&top(b"RIFF", 4, b"AVI ")).0 {
        Err(GetMetaDataForI2sError::UnexpectedWaveId(id)) => assert_eq!(&id, b"AVI "),
        other => panic!("unexpected {:?}", other),
    }
}

#[test]
fn extractor_ignores_input_of_wrong_length_or_after_done() {
    let mut m = GetMetaDataForI2s::new();
    m.input(&[0u8; 8]);
    let before = format!("{:?}", m.output());
    assert!(before.contains("Read"));
    m.input(&top(b"RIFX", 4, b"WAVE"));
    let done = format!("{:?}", m.output());
    m.input(&top(b"RIFF", 4, b"WAVE"));
    assert_eq!(done, format!("{:?}", m.output()));
}

#[test]
fn extractor_format_body_follows_format_header() {
    let file = wave_file(&[chunk(b"LIST", &[0u8; 6]), chunk(b"fmt ", &fmt_body())]);
    let mut m = GetMetaDataForI2s::new();
    let mut requests = Vec::new();
    while let GetMetaDataForI2sOutput::Read(rq) = m.output() {
        requests.push((rq.address, rq.size));
        m.input(&read(&file, rq.address, rq.size));
    }
    assert_eq!(requests, vec![(0, 12), (12, 8), (26, 8), (34, 40), (50, 8)]);
    assert!(matches!(m.output(), GetMetaDataForI2sOutput::Done(Err(GetMetaDataForI2sError::MissingChunks))));
}

#[test]
fn max_read_len_is_format_descriptor_size() {
    assert_eq!(GetMetaDataForI2s::MAX_READ_LEN, 40);
}

#[test]
fn extractor_rejects_top_chunk_smaller_than_its_id() {
    let mut file = top(b"RIFF", 2, b"WAVE").to_vec();
    file.extend_from_slice(&chunk(b"LIST", &[0u8; 4]));
    let (r, _) = drive(&file);
    assert!(matches!(r, Err(GetMetaDataForI2sError::IncompleteChunkHeader)));
}

#[test]
fn extractor_rejects_chunk_past_address_range() {
    let mut file = top(b"RIFF", u32::MAX, b"WAVE").to_vec();
    file.extend_from_slice(b"LIST");
    file.extend_from_slice(&le32(0xffff_fff0));
    let (r, reads) = drive(&file);
    assert!(matches!(r, Err(GetMetaDataForI2sError::IncompleteChunkHeader)));
    assert_eq!(reads, 2);
}
