use tiny_riff::Chunk;
use tiny_riff::ChunkId;
use tiny_riff::RiffError;
use tiny_riff::RiffReader;

// The 14 payload bytes of the single chunk of the minimal buffer:
// the text "smpltest", a little-endian 1, then 0xFF and a pad-like 0.
fn minimal_payload() -> Vec<u8> {
    vec![
        0x73, 0x6D, 0x70, 0x6C, 0x74, 0x65, 0x73, 0x74, 0x01, 0x00, 0x00, 0x00, 0xFF, 0x00,
    ]
}

// A whole minimal buffer: one chunk tagged "RIFF" with the 14-byte payload.
fn minimal_buffer() -> Vec<u8> {
    let mut buf = vec![0x52, 0x49, 0x46, 0x46, 0x0E, 0x00, 0x00, 0x00];
    buf.extend_from_slice(&minimal_payload());
    buf
}

#[test]
fn read_minimal_next_chunk() {
    let test_data = minimal_buffer();
    let mut riff_reader = RiffReader::new(test_data.as_ref());
    let chunk = riff_reader.read_next_chunk().unwrap();
    assert_eq!(chunk.len, 0x0E);
    assert_eq!(
        chunk.id,
        ChunkId::from_ascii([0x52, 0x49, 0x46, 0x46]).unwrap()
    );
    assert_eq!(chunk.data, minimal_payload().as_slice());
}

#[test]
fn read_minimal_get_by_chunk_name() {
    let test_data = minimal_buffer();
    let riff_reader = RiffReader::new(test_data.as_ref());
    let expected_id = ChunkId::from_ascii([0x52, 0x49, 0x46, 0x46]).unwrap();
    let chunk = riff_reader.get_chunk(expected_id).unwrap().unwrap();
    assert_eq!(chunk.len, 0x0E);
    assert_eq!(chunk.id, expected_id);
    assert_eq!(chunk.data, minimal_payload().as_slice());
}

#[test]
fn read_minimal_get_nonexistent_chunk() {
    let test_data = minimal_buffer();
    let riff_reader = RiffReader::new(test_data.as_ref());
    let nonexistent_id = ChunkId::from_ascii([0x41, 0x41, 0x41, 0x41]).unwrap();
    let chunk = riff_reader.get_chunk(nonexistent_id);
    assert_eq!(chunk, None);
}

#[test]
fn read_minimal_attempt_read_past_slice_end() {
    let test_data = minimal_buffer();
    let mut riff_reader = RiffReader::new(test_data.as_ref());
    let _chunk1 = riff_reader.read_next_chunk().unwrap();
    let chunk2 = riff_reader.read_next_chunk();
    assert_eq!(chunk2, Err(RiffError::EndOfData));
}

#[test]
fn reject_non_ascii_id_constructor() {
    let invalid_id = ChunkId::from_ascii([0xDE, 0xAD, 0xBE, 0xEF]);
    assert_eq!(invalid_id, Err(RiffError::InvalidIDNotASCII));
}

#[test]
fn accept_ascii_id_and_read_back() {
    let id = ChunkId::from_ascii([0x52, 0x49, 0x46, 0x46]).unwrap();
    assert_eq!(id.to_ascii(), "RIFF");
    let spaced = ChunkId::from_ascii([0x66, 0x6D, 0x74, 0x20]).unwrap();
    assert_eq!(spaced.to_ascii(), "fmt ");
}

#[test]
fn boundary_byte_values_for_id() {
    // 0x7F is the last ASCII byte; 0x80 the first non-ASCII one.
    assert!(ChunkId::from_ascii([0x7F, 0x7F, 0x7F, 0x7F]).is_ok());
    assert_eq!(
        ChunkId::from_ascii([0x41, 0x41, 0x41, 0x80]),
        Err(RiffError::InvalidIDNotASCII)
    );
}

#[test]
fn empty_buffer_is_end_of_data() {
    let mut reader = RiffReader::new(&[]);
    assert_eq!(reader.read_next_chunk(), Err(RiffError::EndOfData));
}

#[test]
fn short_buffer_is_end_of_data() {
    // Seven bytes: one short of the smallest possible header.
    let data = [0x52, 0x49, 0x46, 0x46, 0x00, 0x00, 0x00];
    let mut reader = RiffReader::new(&data);
    assert_eq!(reader.read_next_chunk(), Err(RiffError::EndOfData));
}

#[test]
fn odd_length_chunk_with_pad() {
    // Tag "test", length 1, payload 0xFF, pad byte 0x00.
    let data = [0x74, 0x65, 0x73, 0x74, 0x01, 0x00, 0x00, 0x00, 0xFF, 0x00];
    let mut reader = RiffReader::new(&data);
    let chunk = reader.read_next_chunk().unwrap();
    assert_eq!(chunk.id, ChunkId::from_ascii([0x74, 0x65, 0x73, 0x74]).unwrap());
    assert_eq!(chunk.len, 1);
    assert_eq!(chunk.data, &[0xFF]);
    // The pad byte was skipped, so the reader is now exhausted.
    assert_eq!(reader.read_next_chunk(), Err(RiffError::EndOfData));
}

#[test]
fn two_chunks_read_in_order_without_gap_or_overlap() {
    // A 20-byte record (tag, length, 12-byte payload, even, no pad)
    // followed directly by a "RIFF" record with a 4-byte payload.
    let mut data = vec![0x61, 0x62, 0x63, 0x64, 0x0C, 0x00, 0x00, 0x00];
    data.extend_from_slice(&[10, 11, 12, 13, 14, 15, 16, 17, 18, 19, 20, 21]);
    data.extend_from_slice(&[0x52, 0x49, 0x46, 0x46, 0x04, 0x00, 0x00, 0x00, 1, 2, 3, 4]);
    let mut reader = RiffReader::new(&data);

    let first = reader.read_next_chunk().unwrap();
    assert_eq!(first.id, ChunkId::from_ascii([0x61, 0x62, 0x63, 0x64]).unwrap());
    assert_eq!(first.len, 12);
    assert_eq!(first.data, &data[8..20]);

    let second = reader.read_next_chunk().unwrap();
    assert_eq!(second.id, ChunkId::from_ascii([0x52, 0x49, 0x46, 0x46]).unwrap());
    assert_eq!(second.len, 4);
    assert_eq!(second.data, &data[28..32]);

    // The second payload starts exactly where the first record ended.
    assert_eq!(reader.read_next_chunk(), Err(RiffError::EndOfData));
}

#[test]
fn truncated_chunk_reports_length_field_and_shortfall() {
    // Tag "test", declared length 100, but only 2 payload bytes present:
    // the length field sits at offset 4 and 2 bytes actually remain.
    let data = [0x74, 0x65, 0x73, 0x74, 0x64, 0x00, 0x00, 0x00, 0xAA, 0xBB];
    let mut reader = RiffReader::new(&data);
    assert_eq!(
        reader.read_next_chunk(),
        Err(RiffError::UnexpectedEndOfData(4, 100, 2))
    );
}

#[test]
fn non_ascii_tag_reports_its_position() {
    let data = [0xC3, 0x28, 0x61, 0x62, 0x00, 0x00, 0x00, 0x00];
    let mut reader = RiffReader::new(&data);
    assert_eq!(
        reader.read_next_chunk(),
        Err(RiffError::EncounteredInvalidIDNotASCII(0))
    );
}

#[test]
fn get_chunk_scans_from_start_regardless_of_position() {
    // Two chunks; move the sequential cursor past both, then look the
    // first one up: the lookup still finds it.
    let data = [
        0x61, 0x62, 0x63, 0x64, 0x02, 0x00, 0x00, 0x00, 0x10, 0x20, // "abcd", len 2
        0x65, 0x66, 0x67, 0x68, 0x01, 0x00, 0x00, 0x00, 0x30, 0x00, // "efgh", len 1, pad
    ];
    let mut reader = RiffReader::new(&data);
    let _ = reader.read_next_chunk().unwrap();
    let _ = reader.read_next_chunk().unwrap();
    assert_eq!(reader.read_next_chunk(), Err(RiffError::EndOfData));

    let first_id = ChunkId::from_ascii([0x61, 0x62, 0x63, 0x64]).unwrap();
    let found = reader.get_chunk(first_id).unwrap().unwrap();
    assert_eq!(found.id, first_id);
    assert_eq!(found.data, &[0x10, 0x20]);

    let second_id = ChunkId::from_ascii([0x65, 0x66, 0x67, 0x68]).unwrap();
    let found = reader.get_chunk(second_id).unwrap().unwrap();
    assert_eq!(found.len, 1);
    assert_eq!(found.data, &[0x30]);
}

#[test]
fn get_chunk_propagates_error_before_possible_match() {
    // The first chunk declares more payload than remains, so looking up
    // any tag fails with that chunk's error instead of "not found".
    let data = [0x61, 0x62, 0x63, 0x64, 0xFF, 0x00, 0x00, 0x00, 0x01];
    let reader = RiffReader::new(&data);
    let wanted = ChunkId::from_ascii([0x65, 0x66, 0x67, 0x68]).unwrap();
    assert_eq!(
        reader.get_chunk(wanted),
        Some(Err(RiffError::UnexpectedEndOfData(4, 255, 1)))
    );
}

#[test]
fn get_chunk_twice_returns_equal_results() {
    let data = minimal_buffer();
    let reader = RiffReader::new(data.as_ref());
    let id = ChunkId::from_ascii([0x52, 0x49, 0x46, 0x46]).unwrap();
    let first: Option<Result<Chunk, RiffError>> = reader.get_chunk(id);
    let second: Option<Result<Chunk, RiffError>> = reader.get_chunk(id);
    assert_eq!(first, second);

    let absent = ChunkId::from_ascii([0x41, 0x41, 0x41, 0x41]).unwrap();
    assert_eq!(reader.get_chunk(absent), reader.get_chunk(absent));
}

#[test]
fn zero_length_chunk_is_well_formed() {
    let data = [0x61, 0x62, 0x63, 0x64, 0x00, 0x00, 0x00, 0x00];
    let mut reader = RiffReader::new(&data);
    let chunk = reader.read_next_chunk().unwrap();
    assert_eq!(chunk.len, 0);
    assert_eq!(chunk.data, &[] as &[u8]);
    assert_eq!(reader.read_next_chunk(), Err(RiffError::EndOfData));
}

#[test]
fn odd_length_chunk_flush_with_buffer_end() {
    // An odd-length payload that ends exactly at the end of the buffer:
    // there is no pad byte to skip, and the reader is simply exhausted.
    let data = [0x61, 0x62, 0x63, 0x64, 0x03, 0x00, 0x00, 0x00, 0x01, 0x02, 0x03];
    let mut reader = RiffReader::new(&data);
    let chunk = reader.read_next_chunk().unwrap();
    assert_eq!(chunk.len, 3);
    assert_eq!(chunk.data, &[0x01, 0x02, 0x03]);
    assert_eq!(reader.read_next_chunk(), Err(RiffError::EndOfData));
}

#[test]
fn length_field_is_little_endian() {
    // Length bytes 0x01 0x01 0x00 0x00 declare 257 payload bytes.
    let mut data = vec![0x61, 0x62, 0x63, 0x64, 0x01, 0x01, 0x00, 0x00];
    data.extend_from_slice(&vec![0x55; 258]);
    let mut reader = RiffReader::new(&data);
    let chunk = reader.read_next_chunk().unwrap();
    assert_eq!(chunk.len, 257);
    assert_eq!(chunk.data.len(), 257);
}
