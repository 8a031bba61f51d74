//! Compiled instruction chunks and their opcodes.

use vstd::prelude::*;
use crate::data::Data;
use crate::local::Local;

verus! {

/// A unit of compiled bytecode, immutable once loaded: interleaved opcode
/// and operand bytes, the constant pool, and the local-descriptor table.
///
/// The code generator owes the machine that every operand index embedded in
/// `code` lands inside `constants` or `locals`; the machine does not assume
/// it, and reports an out-of-bounds fault when it is broken.
#[derive(Debug)]
pub struct Chunk {
    pub code: Vec<u8>,
    pub constants: Vec<Data>,
    pub locals: Vec<Local>,
}

impl Chunk {
    /// The chunk with no instructions, no constants and no descriptors.
    pub fn empty() -> (c: Chunk)
        ensures
            c.code@ == Seq::<u8>::empty(),
            c.constants@ == Seq::<Data>::empty(),
            c.locals@ == Seq::<Local>::empty(),
    {
        Chunk { code: Vec::new(), constants: Vec::new(), locals: Vec::new() }
    }
}

/// The four operations of the machine.
#[derive(Debug, Clone, Copy, PartialEq, Eq, Structural)]
pub enum Opcode {
    /// Push a constant from the pool.
    Con,
    /// Bind the value on top of the stack to a descriptor.
    Save,
    /// Push a copy of a binding's value.
    Load,
    /// Sweep anonymous values off the top of the stack.
    Clear,
}

/// The opcode a byte of the instruction stream stands for, if any.
pub open spec fn opcode_spec(byte: u8) -> Option<Opcode> {
    if byte == 0 {
        Some(Opcode::Con)
    } else if byte == 1 {
        Some(Opcode::Save)
    } else if byte == 2 {
        Some(Opcode::Load)
    } else if byte == 3 {
        Some(Opcode::Clear)
    } else {
        None
    }
}

impl Opcode {
    /// Decodes an opcode byte. A byte that names no opcode is a malformed
    /// instruction stream, reported by the dispatcher as a decode fault.
    pub fn from_byte(byte: u8) -> (r: Option<Opcode>)
        ensures
            r == opcode_spec(byte),
    {
        match byte {
            0 => Some(Opcode::Con),
            1 => Some(Opcode::Save),
            2 => Some(Opcode::Load),
            3 => Some(Opcode::Clear),
            _ => None,
        }
    }

    /// The byte that encodes this opcode; inverse of `from_byte`.
    pub fn to_byte(&self) -> (b: u8)
        ensures
            opcode_spec(b) == Some(*self),
    {
        match self {
            Opcode::Con => 0,
            Opcode::Save => 1,
            Opcode::Load => 2,
            Opcode::Clear => 3,
        }
    }
}

} // verus!
