//! Instructions for a virtual machine: an opcode followed by its operands,
//! each in big-endian byte order.
use byteorder::{BigEndian, WriteBytesExt};
use vstd::prelude::*;

verus! {

/// A sequence of encoded instructions.
#[derive(Debug, PartialEq, Eq)]
pub struct Instructions {
    pub data: Vec<u8>,
}

/// What an instruction does.
#[derive(Debug, PartialEq, Eq, Clone, Copy, Structural)]
pub enum Opcode {
    /// Loads a constant, named by a 16-bit index.
    Constant,
}

/// The two bytes of `n`, the more significant first.
pub open spec fn big_endian(n: u16) -> Seq<u8> {
    seq![(n / 256) as u8, (n % 256) as u8]
}

/// The bytes of the operands from position `i` on, after `bytes`: each
/// operand is cut down to the width that the opcode gives it. Operands
/// without a width are dropped.
pub open spec fn with_operands(bytes: Seq<u8>, widths: Seq<u32>, operands: Seq<i32>, i: int)
    -> Seq<u8>
    decreases widths.len() - i,
{
    if 0 <= i < widths.len() && i < operands.len() {
        with_operands(
            if widths[i] == 2 {
                bytes + big_endian(operands[i] as u16)
            } else {
                bytes.push(operands[i] as u8)
            },
            widths,
            operands,
            i + 1,
        )
    } else {
        bytes
    }
}

/// `WriteBytesExt::write_u16::<BigEndian>` on a vector of bytes: adds the
/// two bytes of `n` at the end, the more significant first.
#[verifier::external_body]
fn put_u16(bytes: &mut Vec<u8>, n: u16)
    ensures
        final(bytes)@ == old(bytes)@ + big_endian(n),
{
    bytes.write_u16::<BigEndian>(n).unwrap();
}

impl Opcode {
    /// The byte that stands for the opcode.
    pub open spec fn byte(self) -> u8 {
        match self {
            Opcode::Constant => 0,
        }
    }

    /// The widths in bytes of the operands of the opcode.
    pub open spec fn widths(self) -> Seq<u32> {
        match self {
            Opcode::Constant => seq![2u32],
        }
    }

    /// The encoding of an instruction: the byte of the opcode, then the
    /// operands.
    pub open spec fn encoded(self, operands: Seq<i32>) -> Seq<u8> {
        with_operands(seq![self.byte()], self.widths(), operands, 0)
    }

    /// The widths in bytes of the operands of the opcode.
    pub fn width_lookup(&self) -> (widths: Vec<u32>)
        ensures
            widths@ == self.widths(),
    {
        match self {
            Opcode::Constant => {
                let mut widths: Vec<u32> = Vec::new();
                widths.push(2);
                assert(widths@ =~= seq![2u32]);
                widths
            },
        }
    }

    /// Encodes an instruction with the given operands.
    pub fn make(&self, operands: Vec<i32>) -> (instructions: Instructions)
        ensures
            instructions.data@ == self.encoded(operands@),
    {
        let widths = self.width_lookup();
        let mut instructions: Vec<u8> = Vec::new();
        instructions.push(
            match self {
                Opcode::Constant => 0,
            },
        );
        assert(instructions@ =~= seq![self.byte()]);
        let mut i: usize = 0;
        while i < widths.len() && i < operands.len()
            invariant
                i <= widths.len(),
                i <= operands.len(),
                widths@ == self.widths(),
                with_operands(instructions@, widths@, operands@, i as int) == self.encoded(
                    operands@,
                ),
            decreases widths.len() - i,
        {
            let operand = operands[i];
            if widths[i] == 2 {
                put_u16(&mut instructions, #[verifier::truncate] (operand as u16));
            } else {
                instructions.push(#[verifier::truncate] (operand as u8));
            }
            i = i + 1;
        }
        Instructions { data: instructions }
    }
}

} // verus!
