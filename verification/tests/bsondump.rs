use bsondump::docbytes::{source, Error, MAX_BSON_SIZE, MIN_BSON_SIZE};

fn record_with_declared_size(size: u32, total_len: usize) -> Vec<u8> {
    let mut data = Vec::with_capacity(total_len);
    data.extend_from_slice(&size.to_le_bytes());
    while data.len() < total_len {
        data.push(0u8);
    }
    data
}

#[test]
fn bounds_are_the_documented_ones() {
    assert_eq!(MIN_BSON_SIZE, 5);
    assert_eq!(MAX_BSON_SIZE, 16793600);
}

#[test]
fn max_bson_size() {
    let size = MAX_BSON_SIZE;
    let data = record_with_declared_size(size, size as usize);
    let mut src = source(data);
    let record = src.next().expect("a record is due").expect("the boundary size is accepted");
    assert_eq!(record.size, size);
    assert_eq!(record.bytes.len(), size as usize);
    assert!(src.next().is_none());
}

#[test]
fn more_than_max_bson_size() {
    let size = MAX_BSON_SIZE + 1;
    let data = record_with_declared_size(size, size as usize);
    let mut src = source(data);
    let err = src.next().expect("an error is due").expect_err("one byte over the ceiling fails");
    assert_eq!(err, Error::TooLargeError(16793601));
    assert_eq!(
        err.message(),
        "invalid BSONSize: 16793601 bytes is larger than than maximum of 16793600 bytes"
    );
    assert!(src.next().is_none(), "an error stops the stream for good");
}

#[test]
fn too_small_size_is_reported_narrowed() {
    let data = record_with_declared_size(4, 4);
    let mut src = source(data);
    let err = src.next().expect("an error is due").expect_err("a 4-byte record is too small");
    assert_eq!(err, Error::TooSmallError(4));
    assert_eq!(err.message(), "invalid BSONSize: 4 bytes is less than 5 bytes");
    assert!(src.next().is_none());
}

#[test]
fn zero_declared_size_is_too_small() {
    let data = record_with_declared_size(0, 8);
    let mut src = source(data);
    let err = src.next().expect("an error is due").expect_err("a zero size is too small");
    assert_eq!(err, Error::TooSmallError(0));
}

#[test]
fn empty_stream_ends_cleanly() {
    let mut src = source(Vec::new());
    assert!(src.next().is_none());
    assert!(src.next().is_none());
}

#[test]
fn partial_size_prefix_is_an_io_error() {
    let mut src = source(vec![7u8, 0u8]);
    let err = src.next().expect("an error is due").expect_err("two bytes cannot hold the prefix");
    assert_eq!(err, Error::IOError);
    assert_eq!(err.message(), "failed to fill whole buffer");
    assert!(src.next().is_none());
}

#[test]
fn short_body_is_an_io_error() {
    let data = record_with_declared_size(10, 8);
    let mut src = source(data);
    let err = src.next().expect("an error is due").expect_err("the body falls short");
    assert_eq!(err, Error::IOError);
    assert!(src.next().is_none());
}

#[test]
fn record_keeps_prefix_and_body_together() {
    let mut data = record_with_declared_size(8, 8);
    data[4] = 0xAA;
    data[7] = 0xBB;
    let expected = data.clone();
    let mut src = source(data);
    let record = src.next().unwrap().unwrap();
    assert_eq!(record.size, 8);
    assert_eq!(record.bytes, expected);
    assert_eq!(record.bytes.len(), 4 + (record.size as usize - 4));
}

#[test]
fn two_records_in_sequence() {
    let mut data = Vec::new();
    data.extend_from_slice(&5u32.to_le_bytes());
    data.push(0u8);
    data.extend_from_slice(&6u32.to_le_bytes());
    data.push(1u8);
    data.push(2u8);
    let mut src = source(data);
    let first = src.next().unwrap().unwrap();
    assert_eq!(first.size, 5);
    assert_eq!(first.bytes, vec![5u8, 0, 0, 0, 0]);
    let second = src.next().unwrap().unwrap();
    assert_eq!(second.size, 6);
    assert_eq!(second.bytes, vec![6u8, 0, 0, 0, 1, 2]);
    assert!(src.next().is_none());
}

/// Builds the two-field document {name: "0123456789abcdef" * 1024,
/// content: Binary(generic, n zero bytes)} as raw wire bytes.
fn two_field_document(binary_payload_len: usize) -> Vec<u8> {
    let name_value = "0123456789abcdef".repeat(1024);
    let total = 4 + (1 + 5 + 4 + name_value.len() + 1) + (1 + 8 + 4 + 1 + binary_payload_len) + 1;
    let mut data = Vec::with_capacity(total);
    data.extend_from_slice(&(total as u32).to_le_bytes());
    data.push(0x02);
    data.extend_from_slice(b"name\0");
    data.extend_from_slice(&((name_value.len() + 1) as u32).to_le_bytes());
    data.extend_from_slice(name_value.as_bytes());
    data.push(0);
    data.push(0x05);
    data.extend_from_slice(b"content\0");
    data.extend_from_slice(&(binary_payload_len as u32).to_le_bytes());
    data.push(0);
    for _ in 0..binary_payload_len {
        data.push(0u8);
    }
    data.push(0);
    assert_eq!(data.len(), total);
    data
}

#[test]
fn two_field_document_at_the_ceiling_is_accepted() {
    let overhead = two_field_document(0).len();
    let payload = MAX_BSON_SIZE as usize - overhead;
    let data = two_field_document(payload);
    assert_eq!(data.len(), MAX_BSON_SIZE as usize);
    let mut src = source(data);
    let record = src.next().unwrap().unwrap();
    assert_eq!(record.size, MAX_BSON_SIZE);
    assert!(
        bson::RawDocumentBuf::from_bytes(record.bytes).is_ok(),
        "the framed bytes are one decodable document"
    );
    assert!(src.next().is_none());
}

#[test]
fn two_field_document_one_byte_over_is_refused() {
    let overhead = two_field_document(0).len();
    let payload = MAX_BSON_SIZE as usize - overhead + 1;
    let data = two_field_document(payload);
    assert_eq!(data.len(), MAX_BSON_SIZE as usize + 1);
    let mut src = source(data);
    let err = src.next().unwrap().expect_err("one byte over the ceiling fails");
    assert_eq!(err, Error::TooLargeError(16793601));
}
