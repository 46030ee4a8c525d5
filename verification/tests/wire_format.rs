use logic::wire::decode_oneof;
use logic::wire::encode_field;
use logic::wire::field_size;
use logic::wire::DecodeError;
use logic::wire::EncodeError;
use logic::wire::Selected;
use protobuf::CodedInputStream;
use protobuf::CodedOutputStream;

fn reference_field(number: u32, payload: &[u8]) -> Vec<u8> {
    let mut out = Vec::new();
    {
        let mut os = CodedOutputStream::vec(&mut out);
        os.write_bytes(number, payload).unwrap();
        os.flush().unwrap();
    }
    out
}

#[test]
fn encodes_a_small_field() {
    let out = encode_field(1, b"ping").unwrap();
    assert_eq!(out, vec![0x0a, 0x04, b'p', b'i', b'n', b'g']);
}

#[test]
fn encodes_an_empty_payload() {
    assert_eq!(encode_field(3, b"").unwrap(), vec![0x1a, 0x00]);
}

#[test]
fn encodes_a_two_byte_tag() {
    // field 16 has the tag 16 * 8 + 2 = 130, which takes two varint bytes
    assert_eq!(encode_field(16, b"x").unwrap(), vec![0x82, 0x01, 0x01, b'x']);
}

#[test]
fn encodes_a_two_byte_length() {
    let payload = vec![7u8; 300];
    let out = encode_field(2, &payload).unwrap();
    assert_eq!(&out[..3], &[0x12, 0xac, 0x02]);
    assert_eq!(&out[3..], &payload[..]);
    assert_eq!(out.len(), 303);
}

#[test]
fn encodes_the_largest_field_number() {
    let out = encode_field(0x1fff_ffff, b"z").unwrap();
    assert_eq!(out, vec![0xfa, 0xff, 0xff, 0xff, 0x0f, 0x01, b'z']);
}

#[test]
fn encoding_agrees_with_the_stream_writer() {
    for number in [1u32, 2, 3, 11, 15, 16, 2047, 2048, 0x1fff_ffff] {
        for len in [0usize, 1, 127, 128, 300, 16383, 16384, 70000] {
            let payload: Vec<u8> = (0..len).map(|i| (i % 251) as u8).collect();
            assert_eq!(encode_field(number, &payload).unwrap(), reference_field(number, &payload));
        }
    }
}

#[test]
fn encoded_field_reads_back_with_the_stream_reader() {
    let out = encode_field(9, b"forum").unwrap();
    let mut is = CodedInputStream::from_bytes(&out);
    let (number, wire_type) = is.read_tag_unpack().unwrap();
    assert_eq!(number, 9);
    assert_eq!(wire_type, protobuf::wire_format::WireType::WireTypeLengthDelimited);
    assert_eq!(is.read_bytes().unwrap(), b"forum".to_vec());
    assert!(is.eof().unwrap());
}

#[test]
fn decodes_the_selected_case() {
    let bytes = vec![0x0a, 0x04, b'p', b'i', b'n', b'g'];
    let selected = decode_oneof(&bytes, 3).unwrap().unwrap();
    assert_eq!(selected, Selected { number: 1, payload: b"ping".to_vec() });
}

#[test]
fn decodes_an_empty_message_as_no_case() {
    assert_eq!(decode_oneof(&[], 3).unwrap(), None);
}

#[test]
fn decodes_what_it_encodes() {
    for number in [1u32, 2, 3] {
        for len in [0usize, 1, 127, 128, 5000] {
            let payload: Vec<u8> = (0..len).map(|i| (i * 7 % 256) as u8).collect();
            let bytes = encode_field(number, &payload).unwrap();
            let selected = decode_oneof(&bytes, 3).unwrap().unwrap();
            assert_eq!(selected.number, number);
            assert_eq!(selected.payload, payload);
        }
    }
}

#[test]
fn a_later_case_replaces_an_earlier_one() {
    let mut bytes = encode_field(1, b"first").unwrap();
    bytes.extend(encode_field(3, b"second").unwrap());
    let selected = decode_oneof(&bytes, 3).unwrap().unwrap();
    assert_eq!(selected, Selected { number: 3, payload: b"second".to_vec() });
}

#[test]
fn truncated_field_is_refused() {
    let bytes = vec![0x0a, 0x04, b'p', b'i'];
    assert_eq!(decode_oneof(&bytes, 3).unwrap_err(), DecodeError::Truncated);
}

#[test]
fn tag_without_length_is_refused() {
    assert_eq!(decode_oneof(&[0x0a], 3).unwrap_err(), DecodeError::Truncated);
}

#[test]
fn unfinished_varint_is_refused() {
    assert_eq!(decode_oneof(&[0x8a], 3).unwrap_err(), DecodeError::Truncated);
}

#[test]
fn overlong_varint_is_refused() {
    let bytes = vec![0x80u8; 11];
    assert_eq!(decode_oneof(&bytes, 3).unwrap_err(), DecodeError::IncorrectVarint);
}

#[test]
fn field_number_zero_is_refused() {
    // tag 2: field number 0, length-delimited
    assert_eq!(decode_oneof(&[0x02, 0x00], 3).unwrap_err(), DecodeError::IncorrectTag);
}

#[test]
fn wire_type_above_five_is_refused() {
    // tag 14: field number 1, wire type 6
    assert_eq!(decode_oneof(&[0x0e, 0x00], 3).unwrap_err(), DecodeError::IncorrectTag);
}

#[test]
fn a_case_that_is_not_length_delimited_is_refused() {
    // tag 8: field number 1, varint
    assert_eq!(decode_oneof(&[0x08, 0x05], 3).unwrap_err(), DecodeError::UnexpectedWireType);
}

#[test]
fn unknown_varint_field_is_skipped() {
    // field 15 as a varint, then the second case
    let mut bytes = vec![0x78, 0xac, 0x02];
    bytes.extend(encode_field(2, b"ok").unwrap());
    let selected = decode_oneof(&bytes, 3).unwrap().unwrap();
    assert_eq!(selected, Selected { number: 2, payload: b"ok".to_vec() });
}

#[test]
fn unknown_fixed_fields_are_skipped() {
    // field 15 as fixed64, field 15 as fixed32, then the first case
    let mut bytes = vec![0x79, 1, 2, 3, 4, 5, 6, 7, 8, 0x7d, 1, 2, 3, 4];
    bytes.extend(encode_field(1, b"ok").unwrap());
    let selected = decode_oneof(&bytes, 3).unwrap().unwrap();
    assert_eq!(selected, Selected { number: 1, payload: b"ok".to_vec() });
}

#[test]
fn unknown_length_delimited_field_is_skipped() {
    let mut bytes = encode_field(4, b"beyond the cases").unwrap();
    bytes.extend(encode_field(1, b"ok").unwrap());
    let selected = decode_oneof(&bytes, 3).unwrap().unwrap();
    assert_eq!(selected, Selected { number: 1, payload: b"ok".to_vec() });
    // with four cases the same field is the selection's predecessor
    let selected = decode_oneof(&bytes, 4).unwrap().unwrap();
    assert_eq!(selected.number, 1);
    let only = encode_field(4, b"beyond the cases").unwrap();
    assert_eq!(decode_oneof(&only, 3).unwrap(), None);
    assert_eq!(decode_oneof(&only, 4).unwrap().unwrap().number, 4);
}

#[test]
fn unknown_group_is_skipped() {
    // field 15 start group, a varint field inside, field 15 end group, then the third case
    let mut bytes = vec![0x7b, 0x08, 0x01, 0x7c];
    bytes.extend(encode_field(3, b"ok").unwrap());
    let selected = decode_oneof(&bytes, 3).unwrap().unwrap();
    assert_eq!(selected, Selected { number: 3, payload: b"ok".to_vec() });
}

#[test]
fn end_group_without_start_is_refused() {
    assert_eq!(decode_oneof(&[0x7c], 3).unwrap_err(), DecodeError::UnexpectedWireType);
}

#[test]
fn truncated_unknown_field_is_refused() {
    assert_eq!(decode_oneof(&[0x79, 1, 2, 3], 3).unwrap_err(), DecodeError::Truncated);
}

#[test]
fn overlong_varint_in_unknown_field_is_refused() {
    let mut bytes = vec![0x78];
    bytes.extend(vec![0xffu8; 11]);
    assert_eq!(decode_oneof(&bytes, 3).unwrap_err(), DecodeError::IncorrectVarint);
}

#[test]
fn ten_byte_varint_is_cut_to_its_low_bits() {
    // a ten-byte varint for the tag 10: the high bytes carry no bits of a 32-bit tag
    let mut bytes = vec![0x8a, 0x80, 0x80, 0x80, 0x80, 0x80, 0x80, 0x80, 0x80, 0x00];
    bytes.extend([0x02, b'h', b'i']);
    let selected = decode_oneof(&bytes, 3).unwrap().unwrap();
    assert_eq!(selected, Selected { number: 1, payload: b"hi".to_vec() });
}

#[test]
fn length_past_the_end_is_refused() {
    assert_eq!(decode_oneof(&[0x0a, 0xff, 0xff, 0x03, 1, 2], 3).unwrap_err(), DecodeError::Truncated);
}

#[test]
fn size_counts_tag_length_and_payload() {
    assert_eq!(field_size(1, 0), Ok(2));
    assert_eq!(field_size(1, 4), Ok(6));
    assert_eq!(field_size(1, 127), Ok(129));
    assert_eq!(field_size(1, 128), Ok(131));
    assert_eq!(field_size(15, 300), Ok(303));
    assert_eq!(field_size(16, 300), Ok(304));
    assert_eq!(field_size(0x1fff_ffff, 16384), Ok(5 + 3 + 16384));
}

#[test]
fn size_agrees_with_the_encoding() {
    for number in [1u32, 15, 16, 2047, 2048, 0x1fff_ffff] {
        for len in [0usize, 1, 127, 128, 16383, 16384, 70000] {
            let payload = vec![0u8; len];
            let size = field_size(number, len).unwrap();
            assert_eq!(size as usize, encode_field(number, &payload).unwrap().len());
            assert_eq!(size, protobuf::rt::bytes_size(number, &payload));
        }
    }
}

#[test]
fn size_beyond_32_bits_is_refused() {
    let most = u32::MAX as usize;
    // one tag byte and five length bytes leave room for this much
    assert_eq!(field_size(1, most - 6), Ok(u32::MAX));
    assert_eq!(field_size(1, most - 5), Err(EncodeError::TooLarge));
    assert_eq!(field_size(1, most), Err(EncodeError::TooLarge));
    assert_eq!(field_size(16, most - 7), Ok(u32::MAX));
    assert_eq!(field_size(16, most - 6), Err(EncodeError::TooLarge));
    if usize::BITS > 32 {
        assert_eq!(field_size(3, most + 1), Err(EncodeError::TooLarge));
        assert_eq!(field_size(3, usize::MAX), Err(EncodeError::TooLarge));
    }
}
