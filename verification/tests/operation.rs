use evm_decode::types::{Opcode, Operation};
use std::collections::VecDeque;

fn queue(bytes: &[u8]) -> VecDeque<u8> {
    bytes.iter().copied().collect()
}

fn remaining(bytes: &VecDeque<u8>) -> Vec<u8> {
    bytes.iter().copied().collect()
}

#[test]
fn new_has_no_operand() {
    let op = Operation::new(Opcode::ADD);
    assert_eq!(op.opcode, Opcode::ADD);
    assert!(op.input.is_empty());
}

#[test]
fn with_bytes_zero_changes_nothing() {
    let mut bytes = queue(&[1, 2, 3]);
    let op = Operation::new(Opcode::ADD).with_bytes(0, &mut bytes);
    assert_eq!(op.opcode, Opcode::ADD);
    assert!(op.input.is_empty());
    assert_eq!(remaining(&bytes), vec![1, 2, 3]);
}

#[test]
fn with_bytes_zero_keeps_an_operand_that_is_there() {
    let mut bytes = queue(&[9]);
    let op = Operation { opcode: Opcode::PUSH2, input: vec![7, 8] }.with_bytes(0, &mut bytes);
    assert_eq!(op.opcode, Opcode::PUSH2);
    assert_eq!(op.input, vec![7, 8]);
    assert_eq!(remaining(&bytes), vec![9]);
}

#[test]
fn with_bytes_takes_from_the_front_in_order() {
    let mut bytes = queue(&[0x11, 0x22, 0x33, 0x44]);
    let op = Operation::new(Opcode::PUSH3).with_bytes(3, &mut bytes);
    assert_eq!(op.opcode, Opcode::PUSH3);
    assert_eq!(op.input, vec![0x11, 0x22, 0x33]);
    assert_eq!(remaining(&bytes), vec![0x44]);
}

#[test]
fn with_bytes_replaces_an_earlier_operand() {
    let mut bytes = queue(&[5, 6]);
    let op = Operation { opcode: Opcode::PUSH1, input: vec![1] }.with_bytes(1, &mut bytes);
    assert_eq!(op.input, vec![5]);
    assert_eq!(remaining(&bytes), vec![6]);
}

#[test]
fn with_bytes_takes_all_that_is_left_when_short() {
    let mut bytes = queue(&[0x05]);
    let op = Operation::new(Opcode::PUSH2).with_bytes(2, &mut bytes);
    assert_eq!(op.input, vec![0x05]);
    assert!(bytes.is_empty());
}

#[test]
fn with_bytes_on_an_empty_queue() {
    let mut bytes = queue(&[]);
    let op = Operation::new(Opcode::PUSH32).with_bytes(32, &mut bytes);
    assert_eq!(op.opcode, Opcode::PUSH32);
    assert!(op.input.is_empty());
    assert!(bytes.is_empty());
}

#[test]
fn with_bytes_up_to_the_largest_count() {
    let all: Vec<u8> = (0..=255u8).chain(0..=9u8).collect();
    let mut bytes = queue(&all);
    let op = Operation::new(Opcode::INVALID).with_bytes(255, &mut bytes);
    assert_eq!(op.input, all[..255].to_vec());
    assert_eq!(remaining(&bytes), all[255..].to_vec());
}

#[test]
fn equality_is_by_opcode_and_operand() {
    let a = Operation { opcode: Opcode::PUSH2, input: vec![1, 2] };
    let b = Operation { opcode: Opcode::PUSH2, input: vec![1, 2] };
    let other_opcode = Operation { opcode: Opcode::PUSH3, input: vec![1, 2] };
    let other_byte = Operation { opcode: Opcode::PUSH2, input: vec![1, 3] };
    let shorter = Operation { opcode: Opcode::PUSH2, input: vec![1] };
    assert!(a == b);
    assert!(b == a);
    assert!(a != other_opcode);
    assert!(a != other_byte);
    assert!(a != shorter);
    assert!(shorter != a);
    assert!(Operation::new(Opcode::ADD) == Operation::new(Opcode::ADD));
    assert!(Operation::new(Opcode::ADD) != Operation::new(Opcode::MUL));
}

#[test]
fn render_without_operand_is_the_mnemonic() {
    assert_eq!(Operation::new(Opcode::ADD).render(), "ADD");
    assert_eq!(Operation::new(Opcode::STOP).render(), "STOP");
    assert_eq!(Operation::new(Opcode::INVALID).render(), "INVALID");
    assert_eq!(Operation::new(Opcode::PUSH1).render(), "PUSH1");
}

#[test]
fn render_with_operand_appends_lower_case_hex() {
    let op = Operation { opcode: Opcode::PUSH2, input: vec![0xde, 0xad] };
    assert_eq!(op.render(), "PUSH2 0xdead");
}

#[test]
fn render_keeps_leading_zeros_and_order() {
    let op = Operation { opcode: Opcode::PUSH5, input: vec![1, 2, 3, 15, 16] };
    assert_eq!(op.render(), "PUSH5 0x0102030f10");
    let zero = Operation { opcode: Opcode::PUSH1, input: vec![0] };
    assert_eq!(zero.render(), "PUSH1 0x00");
}

#[test]
fn render_every_byte_value() {
    let digits = "0123456789abcdef".as_bytes();
    for byte in 0..=255u8 {
        let op = Operation { opcode: Opcode::PUSH1, input: vec![byte] };
        let high = digits[(byte / 16) as usize] as char;
        let low = digits[(byte % 16) as usize] as char;
        assert_eq!(op.render(), format!("PUSH1 0x{}{}", high, low));
    }
}

#[test]
fn render_full_width_operand() {
    let input: Vec<u8> = (0..32u8).collect();
    let op = Operation { opcode: Opcode::PUSH32, input };
    assert_eq!(
        op.render(),
        "PUSH32 0x000102030405060708090a0b0c0d0e0f101112131415161718191a1b1c1d1e1f"
    );
}
