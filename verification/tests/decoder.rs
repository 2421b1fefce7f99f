use evm_decode::decoder::{decode_all, decode_next};
use evm_decode::types::{Opcode, Operation};
use std::collections::VecDeque;

fn cursor_of(bytes: &[u8]) -> VecDeque<u8> {
    bytes.iter().copied().collect()
}

fn left_in(cursor: &VecDeque<u8>) -> Vec<u8> {
    cursor.iter().copied().collect()
}

#[test]
fn push1_takes_one_byte() {
    let mut cursor = cursor_of(&[0x60, 0xab]);
    let op = decode_next(&mut cursor);
    assert_eq!(op.opcode, Opcode::PUSH1);
    assert_eq!(op.input, vec![0xab]);
    assert!(cursor.is_empty());
}

#[test]
fn push32_takes_thirty_two_bytes_in_order() {
    let operand: Vec<u8> = (0x00..=0x1fu8).collect();
    let mut stream = vec![0x7f];
    stream.extend_from_slice(&operand);
    let mut cursor = cursor_of(&stream);
    let op = decode_next(&mut cursor);
    assert_eq!(op.opcode, Opcode::PUSH32);
    assert_eq!(op.input, operand);
    assert!(cursor.is_empty());
}

#[test]
fn push_leaves_what_follows_its_operand() {
    let mut cursor = cursor_of(&[0x61, 0x01, 0x02, 0x03, 0x04]);
    let op = decode_next(&mut cursor);
    assert_eq!(op.opcode, Opcode::PUSH2);
    assert_eq!(op.input, vec![0x01, 0x02]);
    assert_eq!(left_in(&cursor), vec![0x03, 0x04]);
}

#[test]
fn truncated_push_with_nothing_left() {
    let mut cursor = cursor_of(&[0x61]);
    let op = decode_next(&mut cursor);
    assert_eq!(op.opcode, Opcode::PUSH2);
    assert!(op.input.is_empty());
    assert!(cursor.is_empty());
}

#[test]
fn truncated_push_with_one_of_two_bytes() {
    let mut cursor = cursor_of(&[0x61, 0x05]);
    let op = decode_next(&mut cursor);
    assert_eq!(op.opcode, Opcode::PUSH2);
    assert_eq!(op.input, vec![0x05]);
    assert!(cursor.is_empty());
}

#[test]
fn non_push_takes_one_byte_whatever_follows() {
    for first in [0x00u8, 0x01, 0x56, 0x80, 0x90, 0xa0, 0xf3, 0xff, 0x0c, 0xfe] {
        for next in [0x00u8, 0x60, 0x7f, 0xff] {
            let mut cursor = cursor_of(&[first, next, next]);
            let op = decode_next(&mut cursor);
            assert_eq!(op.opcode, Opcode::from_byte(first));
            assert!(op.input.is_empty());
            assert_eq!(left_in(&cursor), vec![next, next]);
        }
    }
}

#[test]
fn every_first_byte_takes_its_declared_width() {
    let tail: Vec<u8> = (100..140u8).collect();
    for first in 0..=255u8 {
        let mut stream = vec![first];
        stream.extend_from_slice(&tail);
        let mut cursor = cursor_of(&stream);
        let op = decode_next(&mut cursor);
        let width = if (0x60..=0x7f).contains(&first) { (first - 0x5f) as usize } else { 0 };
        assert_eq!(op.opcode, Opcode::from_byte(first));
        assert_eq!(op.input, tail[..width].to_vec());
        assert_eq!(left_in(&cursor), tail[width..].to_vec());
    }
}

#[test]
fn unassigned_byte_decodes_to_invalid() {
    let mut cursor = cursor_of(&[0xfe, 0x01]);
    let op = decode_next(&mut cursor);
    assert_eq!(op.opcode, Opcode::INVALID);
    assert!(op.input.is_empty());
    assert_eq!(left_in(&cursor), vec![0x01]);
}

#[test]
fn decode_next_step_by_step() {
    // PUSH1 0x80, PUSH1 0x40, MSTORE, STOP
    let mut cursor = cursor_of(&[0x60, 0x80, 0x60, 0x40, 0x52, 0x00]);
    assert!(decode_next(&mut cursor) == Operation { opcode: Opcode::PUSH1, input: vec![0x80] });
    assert!(decode_next(&mut cursor) == Operation { opcode: Opcode::PUSH1, input: vec![0x40] });
    assert!(decode_next(&mut cursor) == Operation::new(Opcode::MSTORE));
    assert!(decode_next(&mut cursor) == Operation::new(Opcode::STOP));
    assert!(cursor.is_empty());
}

#[test]
fn decode_all_of_nothing() {
    let mut cursor = cursor_of(&[]);
    let ops = decode_all(&mut cursor);
    assert!(ops.is_empty());
    assert!(cursor.is_empty());
}

#[test]
fn decode_all_in_order() {
    let mut cursor = cursor_of(&[0x60, 0x80, 0x60, 0x40, 0x52, 0x61, 0xde, 0xad, 0x56, 0xfe]);
    let ops = decode_all(&mut cursor);
    assert!(cursor.is_empty());
    let expected = vec![
        Operation { opcode: Opcode::PUSH1, input: vec![0x80] },
        Operation { opcode: Opcode::PUSH1, input: vec![0x40] },
        Operation::new(Opcode::MSTORE),
        Operation { opcode: Opcode::PUSH2, input: vec![0xde, 0xad] },
        Operation::new(Opcode::JUMP),
        Operation::new(Opcode::INVALID),
    ];
    assert!(ops == expected);
    let listing: Vec<String> = ops.iter().map(|op| op.render()).collect();
    assert_eq!(listing, vec!["PUSH1 0x80", "PUSH1 0x40", "MSTORE", "PUSH2 0xdead", "JUMP", "INVALID"]);
}

#[test]
fn operand_bytes_are_not_decoded_as_opcodes() {
    // The operand of PUSH2 holds the bytes of PUSH1 and ADD.
    let mut cursor = cursor_of(&[0x61, 0x60, 0x01, 0x01]);
    let ops = decode_all(&mut cursor);
    assert_eq!(ops.len(), 2);
    assert!(ops[0] == Operation { opcode: Opcode::PUSH2, input: vec![0x60, 0x01] });
    assert!(ops[1] == Operation::new(Opcode::ADD));
}

#[test]
fn decode_all_uses_every_byte_once() {
    let stream: Vec<u8> = vec![0x60, 0x01, 0x7f]
        .into_iter()
        .chain(0..32u8)
        .chain([0x01, 0x62, 0xaa, 0xbb, 0xcc, 0x00])
        .collect();
    let mut cursor = cursor_of(&stream);
    let ops = decode_all(&mut cursor);
    let total: usize = ops.iter().map(|op| 1 + op.input.len()).sum();
    assert_eq!(total, stream.len());
    let declared: usize = ops.iter().map(|op| 1 + op.opcode.operand_width() as usize).sum();
    assert_eq!(declared, stream.len());
    let mut start = 0;
    for op in &ops {
        assert_eq!(op.opcode, Opcode::from_byte(stream[start]));
        assert_eq!(op.input, stream[start + 1..start + 1 + op.input.len()].to_vec());
        start += 1 + op.input.len();
    }
    assert_eq!(start, stream.len());
}

#[test]
fn decode_all_with_a_truncated_end() {
    let stream = [0x01, 0x60, 0x09, 0x63, 0xaa, 0xbb];
    let mut cursor = cursor_of(&stream);
    let ops = decode_all(&mut cursor);
    assert_eq!(ops.len(), 3);
    assert!(ops[2] == Operation { opcode: Opcode::PUSH4, input: vec![0xaa, 0xbb] });
    let total: usize = ops.iter().map(|op| 1 + op.input.len()).sum();
    assert_eq!(total, stream.len());
    let declared: usize = ops.iter().map(|op| 1 + op.opcode.operand_width() as usize).sum();
    assert_eq!(declared, stream.len() + 2);
    for op in &ops[..2] {
        assert_eq!(op.input.len(), op.opcode.operand_width() as usize);
    }
}

#[test]
fn decode_all_of_every_byte_value() {
    let stream: Vec<u8> = (0..=255u8).collect();
    let mut cursor = cursor_of(&stream);
    let ops = decode_all(&mut cursor);
    assert!(cursor.is_empty());
    let total: usize = ops.iter().map(|op| 1 + op.input.len()).sum();
    assert_eq!(total, 256);
    for op in &ops {
        assert!(op.input.len() <= op.opcode.operand_width() as usize);
    }
}
