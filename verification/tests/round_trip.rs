use byte_source::io_reader::IoReader;
use byte_source::slice_reader::SliceReader;
use byte_source::stream::VecStream;

#[test]
fn utf8_round_trip_agrees_across_sources() {
    let text = "gr\u{fc}ne \u{3b2}-Str\u{f6}me \u{1f600}";
    let bytes = text.as_bytes();
    let length = bytes.len();

    let mut slice_reader = SliceReader::new(bytes);
    let from_slice = slice_reader.forward_read_str(length).unwrap();

    let mut io_reader = IoReader::new(VecStream::new(bytes.to_vec()));
    let from_stream = io_reader.forward_read_str(length).unwrap();

    assert_eq!(from_slice, text);
    assert_eq!(from_stream, text.to_string());
    assert_eq!(from_slice, from_stream.as_str());
}

#[test]
fn owned_buffer_equals_borrowed_slice() {
    let bytes: Vec<u8> = vec![0, 255, 17, 42, 99, 1];
    let length = 4;

    let mut slice_reader = SliceReader::new(&bytes);
    let borrowed = slice_reader.get_byte_slice(length).unwrap();

    let mut io_reader = IoReader::new(VecStream::new(bytes.clone()));
    let owned = io_reader.get_byte_buffer(length).unwrap();

    assert_eq!(owned.as_slice(), borrowed);
}

#[test]
fn empty_string_round_trips() {
    let bytes: Vec<u8> = Vec::new();
    let mut slice_reader = SliceReader::new(&bytes);
    assert_eq!(slice_reader.forward_read_str(0).unwrap(), "");
    let mut io_reader = IoReader::new(VecStream::new(bytes.clone()));
    assert_eq!(io_reader.forward_read_str(0).unwrap(), "");
}
