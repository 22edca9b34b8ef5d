// These scenarios run the library against a stand-in XCDR1 codec written in this
// file from the OMG alignment rules (`stand_in_serialize`, a lenient
// `stand_in_deserialize`), not against Dust DDS: tests cannot derive Dust DDS type
// support. `dust_codec.rs` runs the library against the real Dust DDS codec.

use std::io::{self, Cursor, Read};

use up_wire_omgidl::{
    ExactRead, OmgIdlWire, Outcome, VehicleStatusV1, WireError, MAX_OMG_IDL_PAYLOAD_LEN,
    OMG_IDL_PAYLOAD_FAMILY_COMPACT_ID, OMG_IDL_PAYLOAD_FAMILY_LITERAL_ID, OMG_IDL_WIRE_COMPACT_ID,
    OMG_IDL_WIRE_LITERAL_ID,
};

/// XCDR1 little-endian layout of the final IDL struct, written from the OMG
/// alignment rules: header, u64 at 0, two i32 at 8 and 12, octet at 16,
/// boolean at 17, then two zero bytes to the four-byte boundary.
fn xcdr1_le(value: &VehicleStatusV1) -> Vec<u8> {
    let mut bytes = vec![0x00, 0x01, 0x00, 0x02];
    bytes.extend_from_slice(&value.stamp_ns.to_le_bytes());
    bytes.extend_from_slice(&value.speed_mmps.to_le_bytes());
    bytes.extend_from_slice(&value.steering_mdeg.to_le_bytes());
    bytes.push(value.gear);
    bytes.push(u8::from(value.park_brake));
    bytes.extend_from_slice(&[0, 0]);
    bytes
}

fn stand_in_serialize(value: &VehicleStatusV1) -> Outcome<Vec<u8>> {
    Outcome::Produced(xcdr1_le(value))
}

/// A generic, lenient XCDR1 reader: it takes either little-endian header,
/// ignores the options and anything after the fields.
fn stand_in_deserialize(src: &[u8]) -> Outcome<VehicleStatusV1> {
    if src.len() < 4 {
        return Outcome::Failed(String::from("NotEnoughData"));
    }
    if src[0] != 0x00 || (src[1] != 0x01 && src[1] != 0x03) {
        return Outcome::Failed(String::from("InvalidData"));
    }
    let body = &src[4..];
    if body.len() < 18 {
        return Outcome::Failed(String::from("NotEnoughData"));
    }
    let park_brake = match body[17] {
        0 => false,
        1 => true,
        _ => return Outcome::Failed(String::from("InvalidData")),
    };
    Outcome::Produced(VehicleStatusV1 {
        stamp_ns: u64::from_le_bytes(body[0..8].try_into().expect("eight bytes")),
        speed_mmps: i32::from_le_bytes(body[8..12].try_into().expect("four bytes")),
        steering_mdeg: i32::from_le_bytes(body[12..16].try_into().expect("four bytes")),
        gear: body[16],
        park_brake,
    })
}

fn exact_read<R: Read>(mut reader: R) -> impl FnOnce(usize) -> ExactRead {
    move |payload_len| {
        let mut bytes = vec![0_u8; payload_len];
        if let Err(error) = reader.read_exact(&mut bytes) {
            return ExactRead::FillFailed(format!("{error}"));
        }
        let mut extra = [0_u8; 1];
        let probe = reader.read(&mut extra).map_err(|error| format!("{error}"));
        ExactRead::Filled { bytes, probe }
    }
}

fn encode(value: &VehicleStatusV1) -> Vec<u8> {
    OmgIdlWire::encode_payload_owned(|| stand_in_serialize(value)).expect("encode fixture").to_vec()
}

fn decode(bytes: &[u8]) -> Result<VehicleStatusV1, WireError> {
    OmgIdlWire::decode_payload(bytes, stand_in_deserialize, stand_in_serialize)
}

fn decode_from_reader<R: Read>(reader: R, payload_len: usize) -> Result<VehicleStatusV1, WireError> {
    OmgIdlWire::decode_payload_from_reader(payload_len, exact_read(reader), stand_in_deserialize, stand_in_serialize)
}

fn assert_invalid(result: Result<VehicleStatusV1, WireError>) {
    assert!(matches!(result, Err(WireError::InvalidPayload(_))));
}

#[test]
fn round_trip_and_layout_are_exact() {
    let value = VehicleStatusV1::fixture(42);
    let bytes = encode(&value);
    let layout = OmgIdlWire::payload_layout(|| stand_in_serialize(&value)).expect("layout probe");
    assert_eq!(layout.len, bytes.len());
    assert_eq!(layout.align, 1);
    assert_eq!(decode(&bytes).expect("decode"), value);
}

#[test]
fn direct_encode_uses_prefix_semantics() {
    let value = VehicleStatusV1::fixture(9);
    let expected = encode(&value);
    let mut short = vec![0_u8; expected.len() - 1];
    assert_eq!(
        OmgIdlWire::encode_payload(|| stand_in_serialize(&value), &mut short),
        Err(WireError::BufferTooSmall {
            expected: expected.len(),
            actual: expected.len() - 1,
        })
    );

    let mut large = vec![0xA5; expected.len() + 5];
    OmgIdlWire::encode_payload(|| stand_in_serialize(&value), &mut large)
        .expect("encode into larger destination");
    assert_eq!(&large[..expected.len()], expected.as_slice());
    assert!(large[expected.len()..].iter().all(|byte| *byte == 0xA5));
}

#[test]
fn exact_reader_rejects_short_and_overlong_sources() {
    let bytes = encode(&VehicleStatusV1::fixture(3));
    assert_invalid(decode_from_reader(Cursor::new(&bytes[..bytes.len() - 1]), bytes.len()));

    let mut overlong = bytes.clone();
    overlong.push(0xAA);
    assert_invalid(decode_from_reader(Cursor::new(overlong), bytes.len()));
}

struct PanicReader;

impl Read for PanicReader {
    fn read(&mut self, _buf: &mut [u8]) -> io::Result<usize> {
        panic!("oversized input must be rejected before reading")
    }
}

#[test]
fn oversized_reader_length_is_rejected_before_read_or_allocation() {
    assert_invalid(decode_from_reader(PanicReader, MAX_OMG_IDL_PAYLOAD_LEN + 1));
}

#[test]
fn oversized_contiguous_payload_is_rejected() {
    let oversized = vec![0_u8; MAX_OMG_IDL_PAYLOAD_LEN + 1];
    assert_invalid(decode(&oversized));
}

#[test]
fn wrong_endianness_and_xcdr2_representations_are_rejected() {
    let bytes = encode(&VehicleStatusV1::fixture(5));
    for representation in [[0x00, 0x00], [0x00, 0x06], [0x00, 0x07], [0x00, 0x09]] {
        let mut malformed = bytes.clone();
        malformed[..2].copy_from_slice(&representation);
        assert_invalid(decode(&malformed));
    }
}

#[test]
fn representation_and_padding_count_must_be_canonical_for_the_type() {
    let bytes = encode(&VehicleStatusV1::fixture(5));

    let mut parameter_list_for_final_type = bytes.clone();
    parameter_list_for_final_type[..2].copy_from_slice(&[0x00, 0x03]);
    assert_invalid(decode(&parameter_list_for_final_type));

    let mut wrong_padding_count = bytes;
    wrong_padding_count[3] = 0;
    assert_invalid(decode(&wrong_padding_count));
}

#[test]
fn invalid_options_padding_and_trailing_data_are_rejected() {
    let bytes = encode(&VehicleStatusV1::fixture(5));

    let mut reserved = bytes.clone();
    reserved[2] = 1;
    assert_invalid(decode(&reserved));

    let mut excessive_padding = bytes.clone();
    excessive_padding[3] = 4;
    assert_invalid(decode(&excessive_padding));

    let mut nonzero_padding = bytes.clone();
    let last = nonzero_padding.len() - 1;
    nonzero_padding[last] = 1;
    assert_invalid(decode(&nonzero_padding));

    let mut trailing = bytes;
    trailing.extend_from_slice(&[0, 0, 0, 0]);
    assert_invalid(decode(&trailing));
}

/// A final struct of four `u64` fields, read by the same lenient rules.
#[derive(Debug, Clone, PartialEq)]
struct WrongType {
    first: u64,
    second: u64,
    third: u64,
    fourth: u64,
}

fn deserialize_wrong_type(src: &[u8]) -> Outcome<WrongType> {
    if src.len() < 4 + 32 {
        return Outcome::Failed(String::from("NotEnoughData"));
    }
    let word = |i: usize| u64::from_le_bytes(src[4 + 8 * i..12 + 8 * i].try_into().expect("eight bytes"));
    Outcome::Produced(WrongType { first: word(0), second: word(1), third: word(2), fourth: word(3) })
}

fn serialize_wrong_type(value: &WrongType) -> Outcome<Vec<u8>> {
    let mut bytes = vec![0x00, 0x01, 0x00, 0x00];
    for word in [value.first, value.second, value.third, value.fourth] {
        bytes.extend_from_slice(&word.to_le_bytes());
    }
    Outcome::Produced(bytes)
}

#[test]
fn wrong_payload_type_is_rejected() {
    let bytes = encode(&VehicleStatusV1::fixture(11));
    let result = OmgIdlWire::decode_payload(&bytes, deserialize_wrong_type, serialize_wrong_type);
    assert!(matches!(result, Err(WireError::InvalidPayload(_))));
}

#[test]
fn every_truncation_and_a_deterministic_mutation_corpus_is_panic_free() {
    let bytes = encode(&VehicleStatusV1::fixture(17));
    for end in 0..bytes.len() {
        assert_invalid(decode(&bytes[..end]));
    }

    for index in 0..bytes.len() {
        let mut mutated = bytes.clone();
        mutated[index] ^= 0xFF;
        let _ = decode(&mutated);
    }
}

#[test]
fn identities_are_distinct_experimental_values() {
    assert_ne!(OMG_IDL_WIRE_COMPACT_ID, OMG_IDL_PAYLOAD_FAMILY_COMPACT_ID);
    assert_ne!(OMG_IDL_WIRE_LITERAL_ID, OMG_IDL_PAYLOAD_FAMILY_LITERAL_ID);
    for (compact, literal) in [
        (OMG_IDL_WIRE_COMPACT_ID, OMG_IDL_WIRE_LITERAL_ID),
        (OMG_IDL_PAYLOAD_FAMILY_COMPACT_ID, OMG_IDL_PAYLOAD_FAMILY_LITERAL_ID),
    ] {
        assert!((0x8000..=0xFFFE).contains(&compact));
        assert!(literal.contains("experimental"));
    }
    assert_eq!(OMG_IDL_WIRE_COMPACT_ID, 0xD101);
    assert_eq!(OMG_IDL_PAYLOAD_FAMILY_COMPACT_ID, 0xD102);
}
