use logic::wire::decode_oneof;
use logic::wire::DecodeError;
use protobuf::error::WireError;
use protobuf::well_known_types::BytesValue;
use protobuf::well_known_types::Empty;
use protobuf::Message;
use protobuf::ProtobufError;

const ALPHABET: [u8; 28] = [
    0x00, 0x01, 0x02, 0x03, 0x04, 0x05, 0x06, 0x07, 0x08, 0x09, 0x0a, 0x0b, 0x0c, 0x0d, 0x0e,
    0x0f, 0x10, 0x12, 0x78, 0x79, 0x7a, 0x7b, 0x7c, 0x7d, 0x7f, 0x80, 0x8a, 0xff,
];

fn kind(e: ProtobufError) -> DecodeError {
    match e {
        ProtobufError::WireError(WireError::IncorrectTag(_)) => DecodeError::IncorrectTag,
        ProtobufError::WireError(WireError::IncorrectVarint) => DecodeError::IncorrectVarint,
        ProtobufError::WireError(WireError::UnexpectedWireType(_)) => {
            DecodeError::UnexpectedWireType
        }
        _ => DecodeError::Truncated,
    }
}

/// A message without fields of its own keeps or skips every field it reads.
fn reference_without_cases(bytes: &[u8]) -> Result<Option<Vec<u8>>, DecodeError> {
    Empty::parse_from_bytes(bytes).map(|_| None).map_err(kind)
}

/// A message with one length-delimited field keeps the last value of it.
fn reference_with_one_case(bytes: &[u8]) -> Result<Vec<u8>, DecodeError> {
    BytesValue::parse_from_bytes(bytes).map(|m| m.value).map_err(kind)
}

fn agree(bytes: &[u8]) {
    let none = decode_oneof(bytes, 0).map(|selected| selected.map(|s| s.payload));
    assert_eq!(none, reference_without_cases(bytes), "no cases, input {:?}", bytes);
    let one = decode_oneof(bytes, 1);
    if let Ok(Some(selected)) = &one {
        assert_eq!(selected.number, 1, "input {:?}", bytes);
    }
    let one = one.map(|selected| selected.map(|s| s.payload).unwrap_or_default());
    assert_eq!(one, reference_with_one_case(bytes), "one case, input {:?}", bytes);
}

fn all_of_length(len: usize) {
    let mut digits = vec![0usize; len];
    loop {
        let bytes: Vec<u8> = digits.iter().map(|d| ALPHABET[*d]).collect();
        agree(&bytes);
        let mut i = 0;
        while i < len && digits[i] + 1 == ALPHABET.len() {
            digits[i] = 0;
            i += 1;
        }
        if i == len {
            return;
        }
        digits[i] += 1;
    }
}

#[test]
fn agrees_with_the_runtime_on_short_inputs() {
    for len in 0..=3 {
        all_of_length(len);
    }
}

#[test]
fn agrees_with_the_runtime_on_every_pair_of_bytes() {
    for a in 0..=255u8 {
        agree(&[a]);
        for b in 0..=255u8 {
            agree(&[a, b]);
        }
    }
}

#[test]
fn agrees_with_the_runtime_on_longer_inputs() {
    let mut state: u64 = 0x2545_f491_4f6c_dd1d;
    let mut next = move || {
        state ^= state << 13;
        state ^= state >> 7;
        state ^= state << 17;
        state
    };
    for _ in 0..60000 {
        let len = 4 + (next() % 20) as usize;
        let bytes: Vec<u8> = (0..len).map(|_| ALPHABET[(next() % 28) as usize]).collect();
        agree(&bytes);
    }
}

#[test]
fn agrees_with_the_runtime_on_well_formed_fields() {
    let mut state: u64 = 0x9e37_79b9_7f4a_7c15;
    let mut next = move || {
        state ^= state << 13;
        state ^= state >> 7;
        state ^= state << 17;
        state
    };
    for _ in 0..20000 {
        let mut bytes = Vec::new();
        for _ in 0..(1 + next() % 4) {
            let number = [1u32, 1, 2, 15, 16, 2047][(next() % 6) as usize];
            match next() % 5 {
                0 => {
                    bytes.extend(logic::wire::encode_field(number, &vec![7; (next() % 200) as usize]).unwrap());
                }
                1 => {
                    bytes.push((number * 8) as u8 & 0x7f);
                    bytes.push((next() % 128) as u8);
                }
                2 => {
                    bytes.push((number * 8 + 5) as u8 & 0x7f);
                    bytes.extend([1, 2, 3, 4]);
                }
                3 => {
                    bytes.push((number * 8 + 1) as u8 & 0x7f);
                    bytes.extend([1, 2, 3, 4, 5, 6, 7, 8]);
                }
                _ => {
                    bytes.push((number * 8 + 3) as u8 & 0x7f);
                    bytes.extend([0x08, 0x01, 0x12, 0x01, 0x00]);
                    bytes.push((number * 8 + 4) as u8 & 0x7f);
                }
            }
        }
        if next() % 4 == 0 {
            let cut = (next() as usize) % (bytes.len() + 1);
            bytes.truncate(cut);
        }
        agree(&bytes);
    }
}
