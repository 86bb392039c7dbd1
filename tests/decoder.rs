use cleo_vm::parser::{decode_any, ArgType, LOCAL_COUNT};
use cleo_vm::script::Script;
use cleo_vm::variable::VariableType;

fn script(bytes: Vec<u8>) -> Script {
    Script::new(&String::from("test"), bytes)
}

#[test]
fn int32_literal_round_trip() {
    let v: u32 = 0xDEAD_BEEF;
    let mut bytes = vec![0x01];
    bytes.extend_from_slice(&v.to_le_bytes());
    bytes.push(0x77);
    let mut s = script(bytes);
    assert_eq!(s.parse_int(), Some(0xDEAD_BEEF));
    assert_eq!(s.offset(), 5);
}

#[test]
fn int8_literal_round_trip() {
    let mut s = script(vec![0x04, 0xFE]);
    assert_eq!(s.parse_int(), Some(0xFE));
    assert_eq!(s.offset(), 2);
}

#[test]
fn int16_literal_round_trip() {
    let mut s = script(vec![0x05, 0x34, 0x12]);
    assert_eq!(s.parse_int(), Some(0x1234));
    assert_eq!(s.offset(), 3);
}

#[test]
fn float_literal_round_trip() {
    let f: f32 = -2.5;
    let mut bytes = vec![0x06];
    bytes.extend_from_slice(&f.to_bits().to_le_bytes());
    let mut s = script(bytes);
    let bits = s.parse_float().unwrap();
    assert_eq!(f32::from_bits(bits), -2.5);
    assert_eq!(s.offset(), 5);
}

#[test]
fn string_literal_round_trip() {
    let text = "héllo";
    let mut bytes = vec![0x0E, text.len() as u8];
    bytes.extend_from_slice(text.as_bytes());
    bytes.push(0x00);
    let mut s = script(bytes);
    assert_eq!(s.parse_string(), Some(String::from("héllo")));
    assert_eq!(s.offset(), 2 + text.len());
}

#[test]
fn invalid_utf8_string_is_refused_without_advancing() {
    let mut s = script(vec![0x0E, 0x02, 0xC3, 0x28]);
    assert_eq!(s.parse_string(), None);
    assert_eq!(s.offset(), 0);
}

#[test]
fn variable_references_round_trip() {
    let mut s = script(vec![0x02, 0x34, 0x12, 0x03, 0x1F, 0x00]);
    assert_eq!(s.parse_var(), Some(VariableType::Global(0x1234)));
    assert_eq!(s.offset(), 3);
    assert_eq!(s.parse_var(), Some(VariableType::Local(31)));
    assert_eq!(s.offset(), 6);
}

#[test]
fn local_reference_beyond_the_cells_is_refused() {
    let mut s = script(vec![0x03, LOCAL_COUNT as u8, 0x00]);
    assert_eq!(s.parse_var(), None);
    assert_eq!(s.offset(), 0);
}

#[test]
fn tag_mismatch_and_truncation_do_not_advance() {
    let mut s = script(vec![0x06, 0x00, 0x00]);
    assert_eq!(s.parse_int(), None);
    assert_eq!(s.parse_float(), None);
    assert_eq!(s.parse_var(), None);
    assert_eq!(s.parse_string(), None);
    assert_eq!(s.offset(), 0);
    let mut t = script(vec![0x01, 0x01, 0x02]);
    assert_eq!(t.parse_int(), None);
    assert_eq!(t.offset(), 0);
}

#[test]
fn unknown_tag_is_no_argument_and_consumes_nothing() {
    let mut s = script(vec![0x00, 0x04, 0x07]);
    assert!(matches!(s.parse_any_arg(), Some(ArgType::NoArg)));
    assert_eq!(s.offset(), 0);
    match decode_any(&[0x04, 0x07], 0) {
        Some((ArgType::Integer(7), 2)) => {}
        other => panic!("unexpected {:?}", other),
    }
}

#[test]
fn skip_args_counts_operands() {
    let mut s = script(vec![0x04, 0x01, 0x05, 0x01, 0x00, 0x03, 0x00, 0x00, 0x09]);
    assert!(s.skip_args(3));
    assert_eq!(s.offset(), 8);
    assert!(s.skip_args(1));
    assert_eq!(s.offset(), 8);
    let mut t = script(vec![0x04, 0x01]);
    assert!(!t.skip_args(2));
    assert_eq!(t.offset(), 2);
}

#[test]
fn opcode_fetch_reads_little_endian_and_strips_the_not_bit() {
    let mut s = script(vec![0x03, 0x80, 0x0A, 0x00, 0x01]);
    assert_eq!(s.get_opcode(), Some(0x0003));
    assert!(s.not_flag());
    assert_eq!(s.get_opcode(), Some(0x000A));
    assert!(!s.not_flag());
    assert_eq!(s.get_opcode(), None);
    assert_eq!(s.offset(), 4);
}

#[test]
fn longest_string_literal() {
    let text = "x".repeat(255);
    let mut bytes = vec![0x0E, 0xFF];
    bytes.extend_from_slice(text.as_bytes());
    let mut s = script(bytes);
    assert_eq!(s.parse_string(), Some(text));
    assert_eq!(s.offset(), 257);
}

#[test]
fn empty_string_literal() {
    let mut s = script(vec![0x0E, 0x00]);
    assert_eq!(s.parse_string(), Some(String::new()));
    assert_eq!(s.offset(), 2);
}
