use byte_source::error::ReadError;
use byte_source::io_reader::IoReader;
use byte_source::stream::VecStream;

#[test]
fn fill_buffer_stages_exactly_the_next_bytes() {
    let stream = VecStream::new(vec![1, 2, 3, 4]);
    let mut reader = IoReader::new(stream);
    reader.fill_buffer(3).unwrap();
    assert_eq!(reader.scratch_slice(), &[1, 2, 3]);
}

#[test]
fn failed_fill_exposes_no_partial_bytes() {
    let stream = VecStream::new(vec![1, 2]);
    let mut reader = IoReader::new(stream);
    assert_eq!(reader.fill_buffer(3), Err(ReadError::UnexpectedEof));
    assert_eq!(reader.scratch_slice(), &[] as &[u8]);
}

#[test]
fn repeated_fills_reuse_capacity() {
    let stream = VecStream::new(vec![1, 2, 3, 4, 5, 6, 7, 8, 9, 10]);
    let mut reader = IoReader::new(stream);
    let copy = reader.forward_read_bytes(6).unwrap();
    assert_eq!(copy, vec![1, 2, 3, 4, 5, 6]);
    let grown = reader.scratch_capacity();
    assert!(grown >= 6);
    reader.fill_buffer(3).unwrap();
    assert_eq!(reader.scratch_slice(), &[7, 8, 9]);
    assert_eq!(reader.scratch_capacity(), grown);
}

#[test]
fn scratch_to_str_decodes_the_staged_bytes() {
    let stream = VecStream::new(vec![b'h', b'e', b'y']);
    let mut reader = IoReader::new(stream);
    reader.fill_buffer(3).unwrap();
    assert_eq!(reader.scratch_to_str().unwrap(), "hey");
    assert_eq!(reader.scratch_slice(), &[] as &[u8]);
}

#[test]
fn scratch_to_str_reports_the_longest_valid_prefix() {
    let stream = VecStream::new(vec![b'o', b'k', 0x80]);
    let mut reader = IoReader::new(stream);
    reader.fill_buffer(3).unwrap();
    assert_eq!(
        reader.scratch_to_str(),
        Err(ReadError::InvalidUtf8 { valid_up_to: 2 })
    );
    assert_eq!(reader.scratch_slice(), &[] as &[u8]);
}

#[test]
fn fill_buffer_past_end_of_stream_reports_eof() {
    let stream = VecStream::new(vec![0x01, 0x02]);
    let mut reader = IoReader::new(stream);
    assert_eq!(reader.fill_buffer(3), Err(ReadError::UnexpectedEof));
}

#[test]
fn forward_read_str_rejects_a_lone_continuation_byte() {
    let stream = VecStream::new(vec![0x80]);
    let mut reader = IoReader::new(stream);
    assert_eq!(
        reader.forward_read_str(1),
        Err(ReadError::InvalidUtf8 { valid_up_to: 0 })
    );
    assert_eq!(reader.scratch_slice(), &[] as &[u8]);
}

#[test]
fn forward_read_str_materializes_and_empties_the_scratch() {
    let stream = VecStream::new(vec![b'h', b'e', b'y', b'!']);
    let mut reader = IoReader::new(stream);
    assert_eq!(reader.forward_read_str(3).unwrap(), "hey");
    assert_eq!(reader.scratch_slice(), &[] as &[u8]);
    assert_eq!(reader.forward_read_str(1).unwrap(), "!");
}

#[test]
fn get_byte_buffer_hands_over_the_scratch_buffer() {
    let stream = VecStream::new(vec![5, 6, 7, 8]);
    let mut reader = IoReader::new(stream);
    let owned = reader.get_byte_buffer(3).unwrap();
    assert_eq!(owned, vec![5, 6, 7]);
    assert_eq!(reader.scratch_slice(), &[] as &[u8]);
    assert_eq!(reader.get_byte_buffer(1).unwrap(), vec![8]);
    assert_eq!(reader.get_byte_buffer(1), Err(ReadError::UnexpectedEof));
}

#[test]
fn forward_read_bytes_copies_the_transient_view() {
    let stream = VecStream::new(vec![3, 1, 4, 1, 5]);
    let mut reader = IoReader::new(stream);
    assert_eq!(reader.forward_read_bytes(2).unwrap(), vec![3, 1]);
    assert_eq!(reader.forward_read_bytes(3).unwrap(), vec![4, 1, 5]);
}

#[test]
fn sequential_reads_bypass_the_scratch_buffer() {
    let stream = VecStream::new(vec![1, 2, 3, 4, 5]);
    let mut reader = IoReader::new(stream);
    let mut out: Vec<u8> = Vec::new();
    reader.read_exact_into(&mut out, 2).unwrap();
    assert_eq!(out, vec![1, 2]);
    assert_eq!(reader.read_into(&mut out, 9).unwrap(), 3);
    assert_eq!(out, vec![1, 2, 3, 4, 5]);
    assert_eq!(reader.scratch_slice(), &[] as &[u8]);
}

#[test]
fn read_exact_into_past_end_fails_without_touching_out() {
    let stream = VecStream::new(vec![1]);
    let mut reader = IoReader::new(stream);
    let mut out: Vec<u8> = vec![9];
    assert_eq!(reader.read_exact_into(&mut out, 2), Err(ReadError::UnexpectedEof));
    assert_eq!(out, vec![9]);
}
