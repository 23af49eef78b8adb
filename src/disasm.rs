use vstd::prelude::*;
use vstd::slice::slice_subrange;
use vstd::string::StringSliceAdditionalSpecFns;
use crate::hexcode::{HexError, hex_decode, hex_decoding_ok, hex_encode, lower_hex_text};
use crate::opcodes::{OpCode, opcode_of, operand_len};

verus! {

/// Why decoding stopped before the end of the input.
#[derive(Clone, Copy, Debug, PartialEq, Eq, Structural)]
pub enum ASMError {
    /// The push instruction at this offset declares an immediate operand that runs
    /// past the end of the input.
    IncompletePushInstruction(u64),
    /// The text handed in was not a hex encoding of bytes.
    HexDecodeError(HexError),
    /// The byte at the current offset encodes no instruction; the value is that byte.
    OpCodeNotExist(u8),
}

/// A decoded instruction in the model: its offset, its opcode and its operand bytes.
pub type SpecInstruction = (int, OpCode, Seq<u8>);

/// What decoding `code` from offset `pc` on produces: the instructions in order of
/// offset, and the error that stopped decoding, if any.
pub open spec fn decode_from(code: Seq<u8>, pc: int) -> (Seq<SpecInstruction>, Option<ASMError>)
    decreases code.len() - pc,
{
    if pc < 0 || pc >= code.len() {
        (seq![], None)
    } else {
        match opcode_of(code[pc]) {
            None => (seq![], Some(ASMError::OpCodeNotExist(code[pc]))),
            Some(op) => {
                let end = pc + 1 + operand_len(op);
                if end > code.len() {
                    (seq![], Some(ASMError::IncompletePushInstruction(pc as u64)))
                } else {
                    let rest = decode_from(code, end);
                    (seq![(pc, op, code.subrange(pc + 1, end))] + rest.0, rest.1)
                }
            },
        }
    }
}

/// The decoding of a whole byte sequence, from offset 0.
pub open spec fn decode(code: Seq<u8>) -> (Seq<SpecInstruction>, Option<ASMError>) {
    decode_from(code, 0)
}

/// The model of an instruction handed out by the decoder.
pub open spec fn instruction_view(i: (u64, OpCode, &[u8])) -> SpecInstruction {
    (i.0 as int, i.1, i.2@)
}

/// A lazy, fail-stop decoder over borrowed bytecode. Each call of `next` hands out
/// the next instruction; once the input ends or an error is met it hands out none,
/// and the error stays readable through `error`.
pub struct InstructionIterator<'a> {
    code: &'a [u8],
    pc: u64,
    arg: &'a [u8],
    error: Option<ASMError>,
    started: bool,
}

impl<'a> InstructionIterator<'a> {
    /// The bytes being decoded.
    pub closed spec fn source(&self) -> Seq<u8> {
        self.code@
    }

    /// The error recorded so far.
    pub closed spec fn recorded_error(&self) -> Option<ASMError> {
        self.error
    }

    /// The consistency of the cursor with the bytes.
    pub closed spec fn wf(&self) -> bool {
        &&& self.pc <= self.code@.len()
        &&& !self.started ==> self.pc == 0 && self.error is None
        &&& (self.started && self.error is None && self.pc < self.code@.len()) ==> {
            &&& opcode_of(self.code@[self.pc as int]) matches Some(op)
            &&& self.arg@.len() == operand_len(op)
            &&& self.pc + 1 + self.arg@.len() <= self.code@.len()
        }
    }

    /// What this decoder has still to hand out, and the error it ends with.
    pub closed spec fn remaining(&self) -> (Seq<SpecInstruction>, Option<ASMError>) {
        if !self.started {
            decode(self.code@)
        } else if self.error is Some {
            (seq![], self.error)
        } else if self.pc >= self.code@.len() {
            (seq![], None)
        } else {
            decode_from(self.code@, self.pc + 1 + self.arg@.len())
        }
    }

    /// A decoder positioned before the first instruction of `code`.
    pub fn new(code: &'a [u8]) -> (r: Self)
        ensures
            r.wf(),
            r.source() == code@,
            r.remaining() == decode(code@),
            r.recorded_error() is None,
    {
        InstructionIterator { code, pc: 0, arg: slice_subrange(code, 0, 0), error: None, started: false }
    }

    /// The error that stopped decoding, or `None` while none has been met.
    pub fn error(&self) -> (r: Option<ASMError>)
        ensures
            r == self.recorded_error(),
    {
        self.error
    }

    /// Hands out the next instruction, or `None` at the end of the input or at the
    /// first error, which is then recorded.
    pub fn next(&mut self) -> (r: Option<(u64, OpCode, &'a [u8])>)
        requires
            old(self).wf(),
        ensures
            final(self).wf(),
            final(self).source() == old(self).source(),
            old(self).remaining().0.len() > 0 ==> {
                &&& r matches Some(i)
                &&& instruction_view(i) == old(self).remaining().0[0]
                &&& final(self).remaining() == (old(self).remaining().0.drop_first(), old(self).remaining().1)
                &&& final(self).recorded_error() is None
            },
            old(self).remaining().0.len() == 0 ==> {
                &&& r is None
                &&& final(self).remaining() == old(self).remaining()
                &&& final(self).recorded_error() == old(self).remaining().1
            },
    {
        if self.error.is_some() {
            return None;
        }
        let len = self.code.len() as u64;
        if self.started {
            if self.pc >= len {
                return None;
            }
            self.pc = self.pc + 1 + self.arg.len() as u64;
        } else {
            self.started = true;
        }
        if self.pc >= len {
            return None;
        }
        let pc = self.pc;
        let byte = self.code[pc as usize];
        match OpCode::from_byte(byte) {
            None => {
                self.error = Some(ASMError::OpCodeNotExist(byte));
                None
            },
            Some(op) => {
                if op.is_push() {
                    let a = op.push_size() as u64;
                    if a > len - pc - 1 {
                        self.error = Some(ASMError::IncompletePushInstruction(pc));
                        return None;
                    }
                    self.arg = slice_subrange(self.code, (pc + 1) as usize, (pc + 1 + a) as usize);
                } else {
                    self.arg = slice_subrange(self.code, (pc + 1) as usize, (pc + 1) as usize);
                }
                Some((pc, op, self.arg))
            },
        }
    }
}

/// Decodes all of `code`: the instructions in order of offset, and the error that
/// stopped decoding, if any. Instructions before an error are kept.
pub fn disassemble<'a>(code: &'a [u8]) -> (r: (Vec<(u64, OpCode, &'a [u8])>, Option<ASMError>))
    ensures
        r.0@.map_values(|i: (u64, OpCode, &[u8])| instruction_view(i)) == decode(code@).0,
        r.1 == decode(code@).1,
{
    let mut it = InstructionIterator::new(code);
    let mut out: Vec<(u64, OpCode, &'a [u8])> = Vec::new();
    loop
        invariant
            it.wf(),
            it.source() == code@,
            out@.map_values(|i: (u64, OpCode, &[u8])| instruction_view(i)) + it.remaining().0
                == decode(code@).0,
            it.remaining().1 == decode(code@).1,
        ensures
            it.remaining().0.len() == 0,
            it.recorded_error() == decode(code@).1,
            out@.map_values(|i: (u64, OpCode, &[u8])| instruction_view(i)) + it.remaining().0
                == decode(code@).0,
        decreases it.remaining().0.len(),
    {
        match it.next() {
            Some(i) => {
                out.push(i);
            },
            None => {
                break;
            },
        }
    }
    assert(out@.map_values(|i: (u64, OpCode, &[u8])| instruction_view(i)) + it.remaining().0
        =~= out@.map_values(|i: (u64, OpCode, &[u8])| instruction_view(i)));
    (out, it.error())
}

/// Reads bytecode written as hex text (digits in either case, no prefix).
pub fn decode_hex(text: &str) -> (r: Result<Vec<u8>, ASMError>)
    ensures
        match r {
            Ok(v) => hex_decoding_ok(text.spec_bytes(), Ok(v@)),
            Err(ASMError::HexDecodeError(e)) => hex_decoding_ok(text.spec_bytes(), Err(e)),
            Err(_) => false,
        },
{
    match hex_decode(text.as_bytes()) {
        Ok(v) => Ok(v),
        Err(e) => Err(ASMError::HexDecodeError(e)),
    }
}

/// The display text of an operand: `None` for an empty one, else its bytes in
/// lower-case hex.
pub fn operand_text(arg: &[u8]) -> (r: Option<String>)
    ensures
        arg@.len() == 0 ==> r is None,
        arg@.len() > 0 ==> (r matches Some(s) && s@ == lower_hex_text(arg@)),
{
    if arg.len() == 0 {
        None
    } else {
        Some(hex_encode(arg))
    }
}

} // verus!
