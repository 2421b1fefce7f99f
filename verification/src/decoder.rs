//! The instruction decoder: one operation per step from the front of a byte
//! queue, and what repeated decoding makes of a whole stream.

use crate::types::opcode::Opcode;
use crate::types::operation::{drained, Operation, OperationView};
use std::collections::VecDeque;
use vstd::prelude::*;

verus! {

/// The number of operand bytes that the first operation of `code` takes: the
/// width that its opcode declares, or all the bytes behind the opcode byte
/// where fewer are left.
pub open spec fn operand_len(code: Seq<u8>) -> nat
    recommends
        code.len() > 0,
{
    drained(Opcode::classify(code[0]).declared_width(), (code.len() - 1) as nat)
}

/// The first operation of `code`: the opcode of its first byte, with the
/// operand bytes that follow it.
pub open spec fn first_operation(code: Seq<u8>) -> OperationView
    recommends
        code.len() > 0,
{
    OperationView {
        opcode: Opcode::classify(code[0]),
        input: code.subrange(1, 1 + operand_len(code) as int),
    }
}

/// What is left of `code` behind its first operation.
pub open spec fn after_first(code: Seq<u8>) -> Seq<u8>
    recommends
        code.len() > 0,
{
    code.skip(1 + operand_len(code) as int)
}

/// The operations of a whole stream, in order.
pub open spec fn decoded(code: Seq<u8>) -> Seq<OperationView>
    decreases code.len(),
{
    if code.len() == 0 {
        Seq::empty()
    } else {
        seq![first_operation(code)] + decoded(after_first(code))
    }
}

/// The views of a sequence of operations.
pub open spec fn views(ops: Seq<Operation>) -> Seq<OperationView> {
    ops.map_values(|op: Operation| op@)
}

/// The number of stream bytes that `ops` occupy together.
pub open spec fn total_size(ops: Seq<OperationView>) -> nat
    decreases ops.len(),
{
    if ops.len() == 0 {
        0
    } else {
        ops.first().size() + total_size(ops.drop_first())
    }
}

/// The number of stream bytes that `ops` would occupy if each operand had the
/// width that its opcode declares.
pub open spec fn declared_size(ops: Seq<OperationView>) -> nat
    decreases ops.len(),
{
    if ops.len() == 0 {
        0
    } else {
        1 + ops.first().opcode.declared_width() + declared_size(ops.drop_first())
    }
}

/// The number of operand bytes that the last operation of `ops` lacks.
pub open spec fn shortfall(ops: Seq<OperationView>) -> nat {
    if ops.len() == 0 {
        0
    } else {
        (ops.last().opcode.declared_width() - ops.last().input.len()) as nat
    }
}

/// Decodes the operation at the front of `cursor` and removes its bytes.
///
/// A push opcode takes the bytes that follow it as its operand, up to its
/// declared width; where the stream ends before that, the operand is what was
/// left. Any other opcode takes its own byte and nothing more.
pub fn decode_next(cursor: &mut VecDeque<u8>) -> (op: Operation)
    requires
        old(cursor)@.len() > 0,
    ensures
        op@ == first_operation(old(cursor)@),
        final(cursor)@ == after_first(old(cursor)@),
        op@.well_formed(),
        !op.opcode.is_push() ==> op.input@.len() == 0 && final(cursor)@ == old(cursor)@.skip(1),
{
    let byte = cursor[0];
    cursor.pop_front();
    let opcode = Opcode::from_byte(byte);
    let op = Operation::new(opcode).with_bytes(opcode.operand_width(), cursor);
    proof {
        let code = old(cursor)@;
        let tail = code.subrange(1, code.len() as int);
        let n = operand_len(code) as int;
        assert(tail.take(n) =~= code.subrange(1, 1 + n));
        assert(tail.skip(n) =~= code.skip(1 + n));
        assert(op.input@ =~= code.subrange(1, 1 + n));
    }
    op
}

/// Decodes `cursor` until it is empty and returns the operations in order.
pub fn decode_all(cursor: &mut VecDeque<u8>) -> (ops: Vec<Operation>)
    ensures
        final(cursor)@.len() == 0,
        views(ops@) == decoded(old(cursor)@),
        total_size(views(ops@)) == old(cursor)@.len(),
{
    let mut ops: Vec<Operation> = Vec::new();
    assert(views(ops@) + decoded(cursor@) =~= decoded(cursor@));
    while cursor.len() > 0
        invariant
            decoded(old(cursor)@) == views(ops@) + decoded(cursor@),
        decreases cursor@.len(),
    {
        let ghost code = cursor@;
        let ghost before = ops@;
        let op = decode_next(cursor);
        ops.push(op);
        assert(views(ops@) =~= views(before).push(op@));
        assert(views(ops@) + decoded(cursor@) =~= views(before) + decoded(code));
    }
    assert(views(ops@) + decoded(cursor@) =~= views(ops@));
    proof {
        lemma_decoded_covers(old(cursor)@);
    }
    ops
}

/// Decoding leaves no byte out and takes none twice: the operations of a
/// stream occupy as many bytes as the stream has.
pub proof fn lemma_decoded_covers(code: Seq<u8>)
    ensures
        total_size(decoded(code)) == code.len(),
    decreases code.len(),
{
    if code.len() > 0 {
        lemma_decoded_covers(after_first(code));
        assert(decoded(code).drop_first() =~= decoded(after_first(code)));
    }
}

/// The operations of a stream lie in it one behind the other: the `k`-th
/// starts where the `k` before it end, with its opcode byte first and its
/// operand right behind.
pub proof fn lemma_decoded_partition(code: Seq<u8>, k: int)
    requires
        0 <= k < decoded(code).len(),
    ensures
        total_size(decoded(code).take(k)) < code.len(),
        decoded(code)[k] == first_operation(code.skip(total_size(decoded(code).take(k)) as int)),
        total_size(decoded(code).take(k + 1)) == total_size(decoded(code).take(k))
            + decoded(code)[k].size(),
    decreases k,
{
    let ops = decoded(code);
    let rest = after_first(code);
    assert(ops.drop_first() =~= decoded(rest));
    if k == 0 {
        assert(ops.take(0) =~= Seq::<OperationView>::empty());
        assert(code.skip(0) =~= code);
        assert(ops.take(1).drop_first() =~= Seq::<OperationView>::empty());
    } else {
        lemma_decoded_partition(rest, k - 1);
        let inner = total_size(decoded(rest).take(k - 1));
        assert(ops.take(k).drop_first() =~= decoded(rest).take(k - 1));
        assert(ops.take(k + 1).drop_first() =~= decoded(rest).take(k));
        assert(rest.skip(inner as int) =~= code.skip((ops[0].size() + inner) as int));
    }
}

/// Every operation of a stream is well formed, and only the last one can be
/// truncated.
pub proof fn lemma_truncation_only_at_end(code: Seq<u8>, k: int)
    requires
        0 <= k < decoded(code).len(),
    ensures
        decoded(code)[k].well_formed(),
        k < decoded(code).len() - 1 ==> !decoded(code)[k].truncated(),
    decreases k,
{
    let rest = after_first(code);
    assert(decoded(code).drop_first() =~= decoded(rest));
    if k > 0 {
        lemma_truncation_only_at_end(rest, k - 1);
    }
}

/// With every operand counted at its declared width, the operations of a
/// stream exceed the stream by what the last operand lacks, and by nothing
/// where it is complete.
pub proof fn lemma_declared_size(code: Seq<u8>)
    ensures
        declared_size(decoded(code)) == code.len() + shortfall(decoded(code)),
    decreases code.len(),
{
    if code.len() > 0 {
        let rest = after_first(code);
        lemma_declared_size(rest);
        assert(decoded(code).drop_first() =~= decoded(rest));
        if rest.len() > 0 {
            assert(decoded(code).last() == decoded(rest).last());
        }
    }
}

} // verus!
