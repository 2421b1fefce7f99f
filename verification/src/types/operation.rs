//! A decoded operation: an opcode with the operand bytes that follow it.

use crate::hexfmt::{encode_lower, lower_hex};
use crate::types::opcode::Opcode;
use std::collections::VecDeque;
use vstd::prelude::*;
use vstd::string::*;

verus! {

/// An opcode together with its immediate operand.
pub struct Operation {
    pub opcode: Opcode,
    pub input: Vec<u8>,
}

/// What an `Operation` stands for: its opcode and the sequence of its operand
/// bytes.
pub struct OperationView {
    pub opcode: Opcode,
    pub input: Seq<u8>,
}

impl View for Operation {
    type V = OperationView;

    open spec fn view(&self) -> OperationView {
        OperationView { opcode: self.opcode, input: self.input@ }
    }
}

impl OperationView {
    /// An operand is no longer than the width its opcode declares, so only a
    /// push opcode carries one.
    pub open spec fn well_formed(self) -> bool {
        self.input.len() <= self.opcode.declared_width()
    }

    /// The number of stream bytes that the operation occupies: its opcode
    /// byte and its operand.
    pub open spec fn size(self) -> nat {
        1 + self.input.len()
    }

    /// Whether the operand is shorter than the width its opcode declares.
    pub open spec fn truncated(self) -> bool {
        self.input.len() < self.opcode.declared_width()
    }

    /// The text of the operation: the mnemonic alone where the operand is
    /// empty, else the mnemonic, a space, `0x` and the operand in lower-case
    /// hexadecimal.
    pub open spec fn rendering(self) -> Seq<char> {
        if self.input.len() > 0 {
            self.opcode.name() + " 0x"@ + lower_hex(self.input)
        } else {
            self.opcode.name()
        }
    }
}

impl PartialEq for Operation {
    /// Two operations are equal when their opcodes are and their operands
    /// hold the same bytes in the same order.
    fn eq(&self, other: &Self) -> (equal: bool) {
        if self.opcode != other.opcode || self.input.len() != other.input.len() {
            return false;
        }
        let mut i: usize = 0;
        while i < self.input.len()
            invariant
                i <= self.input@.len(),
                self.input@.len() == other.input@.len(),
                self.input@.take(i as int) == other.input@.take(i as int),
            decreases self.input@.len() - i,
        {
            if self.input[i] != other.input[i] {
                return false;
            }
            assert(self.input@.take(i + 1) =~= self.input@.take(i as int).push(self.input@[i as int]));
            assert(other.input@.take(i + 1) =~= other.input@.take(i as int).push(
                other.input@[i as int],
            ));
            i += 1;
        }
        assert(self.input@ =~= self.input@.take(i as int));
        assert(other.input@ =~= other.input@.take(i as int));
        true
    }
}

impl vstd::std_specs::cmp::PartialEqSpecImpl for Operation {
    open spec fn obeys_eq_spec() -> bool {
        true
    }

    open spec fn eq_spec(&self, other: &Self) -> bool {
        self@ == other@
    }
}

impl Eq for Operation {

}

/// How many bytes leave a queue of `available` bytes when `wanted` are asked
/// for: all that are wanted, or all that are there.
pub open spec fn drained(wanted: nat, available: nat) -> nat {
    if wanted <= available {
        wanted
    } else {
        available
    }
}

impl Operation {
    /// An operation without operand.
    pub fn new(opcode: Opcode) -> (op: Self)
        ensures
            op@ == (OperationView { opcode, input: Seq::empty() }),
    {
        Operation { opcode, input: Vec::new() }
    }

    /// Replaces the operand by up to `num_bytes` bytes taken from the front
    /// of `bytes`, in order; where fewer are left, by all of them. With
    /// `num_bytes == 0` the operation and the queue stay as they are.
    pub fn with_bytes(self, num_bytes: u8, bytes: &mut VecDeque<u8>) -> (op: Self)
        ensures
            op.opcode == self.opcode,
            op.input@ == if num_bytes == 0 {
                self.input@
            } else {
                old(bytes)@.take(drained(num_bytes as nat, old(bytes)@.len()) as int)
            },
            final(bytes)@ == old(bytes)@.skip(drained(num_bytes as nat, old(bytes)@.len()) as int),
    {
        if num_bytes == 0 {
            return self;
        }
        let mut input: Vec<u8> = Vec::new();
        let mut taken: u8 = 0;
        while taken < num_bytes && bytes.len() > 0
            invariant
                taken <= num_bytes,
                taken <= old(bytes)@.len(),
                input@ == old(bytes)@.take(taken as int),
                bytes@ == old(bytes)@.skip(taken as int),
            decreases num_bytes - taken,
        {
            if let Some(byte) = bytes.pop_front() {
                input.push(byte);
                taken += 1;
            }
        }
        Operation { opcode: self.opcode, input }
    }

    /// The text of the operation, for listings.
    pub fn render(&self) -> (text: String)
        ensures
            text@ == self@.rendering(),
    {
        let mut text = self.opcode.mnemonic().to_owned();
        if self.input.len() > 0 {
            let digits = encode_lower(&self.input);
            text.append(" 0x");
            text.append(digits.as_str());
        }
        text
    }
}

} // verus!
