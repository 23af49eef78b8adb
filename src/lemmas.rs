use vstd::prelude::*;
use crate::disasm::{ASMError, SpecInstruction, decode, decode_from};
use crate::opcodes::{opcode_of, operand_len, spec_is_push, spec_push_size};

verus! {

/// Decoding a clean prefix `p` (one that ends on an instruction boundary without
/// error) and then going on: from any offset `i` of `p` that decodes cleanly, the
/// decoding of `p + s` is the decoding of `p` from `i`, followed by what `p + s`
/// decodes to from the end of `p`.
proof fn lemma_clean_prefix_from(p: Seq<u8>, s: Seq<u8>, i: int)
    requires
        0 <= i <= p.len(),
        decode_from(p, i).1 is None,
    ensures
        decode_from(p + s, i) == (
            decode_from(p, i).0 + decode_from(p + s, p.len() as int).0,
            decode_from(p + s, p.len() as int).1,
        ),
    decreases p.len() - i,
{
    let c = p + s;
    if i == p.len() {
        assert(decode_from(p, i).0 =~= seq![]);
        assert(decode_from(p, i).0 + decode_from(c, i).0 =~= decode_from(c, i).0);
    } else {
        assert(c[i] == p[i]);
        let op = opcode_of(p[i])->Some_0;
        let end = i + 1 + operand_len(op);
        assert(end <= p.len());
        assert(c.subrange(i + 1, end) =~= p.subrange(i + 1, end));
        lemma_clean_prefix_from(p, s, end);
        assert(decode_from(p, i).0 =~= seq![(i, op, p.subrange(i + 1, end))] + decode_from(p, end).0);
        assert(decode_from(c, i).0 =~= seq![(i, op, c.subrange(i + 1, end))] + decode_from(c, end).0);
        assert(decode_from(c, i).0 =~= decode_from(p, i).0 + decode_from(c, p.len() as int).0);
    }
}

/// An unassigned byte that stands where an instruction begins, after a prefix `p`
/// that decodes cleanly: every instruction of `p` is handed out, then decoding
/// stops with that byte as the unknown opcode.
pub proof fn lemma_unknown_opcode_stops(p: Seq<u8>, b: u8, t: Seq<u8>)
    requires
        decode(p).1 is None,
        opcode_of(b) is None,
    ensures
        decode(p + seq![b] + t) == (decode(p).0, Some(ASMError::OpCodeNotExist(b))),
{
    let s = seq![b] + t;
    assert(p + seq![b] + t =~= p + s);
    lemma_clean_prefix_from(p, s, 0);
    assert((p + s)[p.len() as int] == b);
    assert(decode(p).0 + seq![] =~= decode(p).0);
}

/// A push whose immediate runs past the end of the input, after a prefix `p` that
/// decodes cleanly: every instruction of `p` is handed out, none for the push, and
/// decoding stops with an incomplete push at the push's offset.
pub proof fn lemma_truncated_push_stops(p: Seq<u8>, b: u8, t: Seq<u8>)
    requires
        decode(p).1 is None,
        opcode_of(b) matches Some(op) && spec_is_push(op) && t.len() < spec_push_size(op),
    ensures
        decode(p + seq![b] + t) == (
            decode(p).0,
            Some(ASMError::IncompletePushInstruction(p.len() as u64)),
        ),
{
    let s = seq![b] + t;
    assert(p + seq![b] + t =~= p + s);
    lemma_clean_prefix_from(p, s, 0);
    assert((p + s)[p.len() as int] == b);
    assert(decode(p).0 + seq![] =~= decode(p).0);
}

/// A push followed by exactly as many bytes as its immediate needs decodes to that
/// one instruction, at offset 0, with those bytes as its operand, and no error.
pub proof fn lemma_single_push(b: u8, t: Seq<u8>)
    requires
        opcode_of(b) matches Some(op) && spec_is_push(op) && t.len() == spec_push_size(op),
    ensures
        decode(seq![b] + t) == (seq![(0int, opcode_of(b)->Some_0, t)], None::<ASMError>),
{
    let c = seq![b] + t;
    assert(c[0] == b);
    assert(c.subrange(1, c.len() as int) =~= t);
    assert(decode_from(c, c.len() as int).0 =~= seq![]);
    assert(decode(c).0 =~= seq![(0int, opcode_of(b)->Some_0, t)]);
}

/// Whether every byte of `code` encodes an instruction without an immediate operand.
pub open spec fn only_operandless(code: Seq<u8>) -> bool {
    forall|i: int|
        0 <= i < code.len() ==> (#[trigger] opcode_of(code[i]) matches Some(op) && !spec_is_push(op))
}

/// Decoding from `pc` on, where every byte encodes an instruction without
/// operand: one instruction per byte, at consecutive offsets, with empty operands.
proof fn lemma_operandless_from(code: Seq<u8>, pc: int)
    requires
        only_operandless(code),
        0 <= pc <= code.len(),
    ensures
        decode_from(code, pc).1 is None,
        decode_from(code, pc).0.len() == code.len() - pc,
        forall|k: int|
            0 <= k < code.len() - pc ==> {
                let x = #[trigger] decode_from(code, pc).0[k];
                &&& x.0 == pc + k
                &&& opcode_of(code[pc + k]) == Some(x.1)
                &&& x.2.len() == 0
            },
    decreases code.len() - pc,
{
    if pc < code.len() {
        assert(opcode_of(code[pc]) is Some);
        lemma_operandless_from(code, pc + 1);
        let rest = decode_from(code, pc + 1).0;
        let op = opcode_of(code[pc])->Some_0;
        assert(decode_from(code, pc).0 == seq![(pc, op, code.subrange(pc + 1, pc + 1))] + rest);
        assert forall|k: int| 0 < k < code.len() - pc implies #[trigger] decode_from(code, pc).0[k] == rest[k - 1] by {
        }
    }
}

/// Where every byte encodes an instruction without an immediate operand (PUSH0
/// among them), decoding hands out one instruction per byte at offsets
/// 0, 1, ..., n - 1, each with an empty operand, and ends without error.
pub proof fn lemma_operandless_offsets(code: Seq<u8>)
    requires
        only_operandless(code),
    ensures
        decode(code).1 is None,
        decode(code).0.len() == code.len(),
        forall|k: int|
            0 <= k < code.len() ==> {
                let x = #[trigger] decode(code).0[k];
                &&& x.0 == k
                &&& opcode_of(code[k]) == Some(x.1)
                &&& x.2.len() == 0
            },
{
    lemma_operandless_from(code, 0);
}

/// Whether `x` is the instruction that `code` holds at `x`'s offset: its opcode is
/// the byte there, and its operand is exactly the bytes of its immediate.
pub open spec fn decoded_at(code: Seq<u8>, x: SpecInstruction) -> bool {
    &&& 0 <= x.0 < code.len()
    &&& opcode_of(code[x.0]) == Some(x.1)
    &&& x.0 + 1 + operand_len(x.1) <= code.len()
    &&& x.2 == code.subrange(x.0 + 1, x.0 + 1 + operand_len(x.1))
}

proof fn lemma_shape_from(code: Seq<u8>, pc: int)
    requires
        0 <= pc,
    ensures
        forall|k: int|
            0 <= k < decode_from(code, pc).0.len() ==> decoded_at(code, #[trigger] decode_from(code, pc).0[k])
                && decode_from(code, pc).0[k].0 >= pc,
        forall|k: int|
            0 <= k < decode_from(code, pc).0.len() - 1 ==> {
                let x = #[trigger] decode_from(code, pc).0[k];
                decode_from(code, pc).0[k + 1].0 == x.0 + 1 + operand_len(x.1)
            },
        decode_from(code, pc).0.len() > 0 ==> decode_from(code, pc).0[0].0 == pc,
    decreases code.len() - pc,
{
    let all = decode_from(code, pc).0;
    if pc < code.len() && opcode_of(code[pc]) is Some {
        let op = opcode_of(code[pc])->Some_0;
        let end = pc + 1 + operand_len(op);
        if end <= code.len() {
            lemma_shape_from(code, end);
            let rest = decode_from(code, end).0;
            let head = (pc, op, code.subrange(pc + 1, end));
            assert(all == seq![head] + rest);
            assert(decoded_at(code, head));
            assert forall|k: int| 0 < k < all.len() implies #[trigger] all[k] == rest[k - 1] by {}
        } else {
            assert(all.len() == 0);
        }
    } else {
        assert(all.len() == 0);
    }
}

/// Every instruction handed out is the one the input holds at its offset: its
/// opcode is the byte there and its operand is exactly its immediate (as long as
/// the push's immediate size for a push, empty otherwise); each instruction
/// begins right where the one before it ends, the first one at offset 0.
pub proof fn lemma_instruction_shape(code: Seq<u8>)
    ensures
        forall|k: int| 0 <= k < decode(code).0.len() ==> decoded_at(code, #[trigger] decode(code).0[k]),
        decode(code).0.len() > 0 ==> decode(code).0[0].0 == 0,
        forall|k: int|
            0 <= k < decode(code).0.len() - 1 ==> {
                let x = #[trigger] decode(code).0[k];
                decode(code).0[k + 1].0 == x.0 + 1 + operand_len(x.1)
            },
{
    lemma_shape_from(code, 0);
}

/// Decoding depends on the bytes alone: two decodings of equal inputs give the same
/// instructions and the same error.
pub proof fn lemma_decode_deterministic(a: Seq<u8>, b: Seq<u8>)
    requires
        a == b,
    ensures
        decode(a) == decode(b),
{
}

} // verus!
