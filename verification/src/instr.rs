//! The instruction set: operations, addressing modes and the opcode matrix.

use vstd::prelude::*;

verus! {

/// An operation of the processor, documented or not.
#[derive(Copy, Clone, Debug, PartialEq, Eq, Structural)]
pub enum Op {
    Adc,
    Alr,
    Anc,
    And,
    Ane,
    Arr,
    Asl,
    Bcc,
    Bcs,
    Beq,
    Bit,
    Bmi,
    Bne,
    Bpl,
    Brk,
    Bvc,
    Bvs,
    Clc,
    Cld,
    Cli,
    Clv,
    Cmp,
    Cpx,
    Cpy,
    Dcp,
    Dec,
    Dex,
    Dey,
    Eor,
    Inc,
    Inx,
    Iny,
    Isc,
    Jam,
    Jmp,
    Jsr,
    Las,
    Lax,
    Lda,
    Ldx,
    Ldy,
    Lsr,
    Lxa,
    Nop,
    Ora,
    Pha,
    Php,
    Pla,
    Plp,
    Rla,
    Rol,
    Ror,
    Rra,
    Rti,
    Rts,
    Sax,
    Sbc,
    Sbx,
    Sec,
    Sed,
    Sei,
    Sha,
    Shx,
    Shy,
    Slo,
    Sre,
    Sta,
    Stx,
    Sty,
    Tas,
    Tax,
    Tay,
    Tsx,
    Txa,
    Txs,
    Tya,
}

/// The way an instruction finds its operand.
#[derive(Copy, Clone, Debug, PartialEq, Eq, Structural)]
pub enum Am {
    Implied,
    Accumulator,
    Immediate,
    Zero,
    ZeroX,
    ZeroY,
    Absolute,
    AbsoluteX,
    AbsoluteY,
    Indirect,
    IndexedIndirect,
    IndirectIndexed,
    Relative,
}

/// The entry of an eight-row column of the opcode matrix.
pub open spec fn pick(row: u8, r0: Op, r1: Op, r2: Op, r3: Op, r4: Op, r5: Op, r6: Op, r7: Op) -> Op {
    if row == 0 {
        r0
    } else if row == 1 {
        r1
    } else if row == 2 {
        r2
    } else if row == 3 {
        r3
    } else if row == 4 {
        r4
    } else if row == 5 {
        r5
    } else if row == 6 {
        r6
    } else {
        r7
    }
}

/// The operation of an opcode. The matrix has eight rows of thirty-two
/// columns; the two low bits of the column select a group, and within a
/// group the row selects the operation, up to the exceptions listed.
pub open spec fn opcode_op(b: u8) -> Op {
    let row = b / 32;
    let col = b % 32;
    let group = b % 4;
    if group == 1 {
        if b == 0x89 {
            Op::Nop
        } else {
            pick(row, Op::Ora, Op::And, Op::Eor, Op::Adc, Op::Sta, Op::Lda, Op::Cmp, Op::Sbc)
        }
    } else if group == 3 {
        if col == 0x0B {
            pick(row, Op::Anc, Op::Anc, Op::Alr, Op::Arr, Op::Ane, Op::Lxa, Op::Sbx, Op::Sbc)
        } else if b == 0x93 || b == 0x9F {
            Op::Sha
        } else if b == 0x9B {
            Op::Tas
        } else if b == 0xBB {
            Op::Las
        } else {
            pick(row, Op::Slo, Op::Rla, Op::Sre, Op::Rra, Op::Sax, Op::Lax, Op::Dcp, Op::Isc)
        }
    } else if group == 2 {
        if col == 0x12 {
            Op::Jam
        } else if col == 0x02 {
            pick(row, Op::Jam, Op::Jam, Op::Jam, Op::Jam, Op::Nop, Op::Ldx, Op::Nop, Op::Nop)
        } else if col == 0x0A {
            pick(row, Op::Asl, Op::Rol, Op::Lsr, Op::Ror, Op::Txa, Op::Tax, Op::Dex, Op::Nop)
        } else if col == 0x1A {
            pick(row, Op::Nop, Op::Nop, Op::Nop, Op::Nop, Op::Txs, Op::Tsx, Op::Nop, Op::Nop)
        } else if b == 0x9E {
            Op::Shx
        } else {
            pick(row, Op::Asl, Op::Rol, Op::Lsr, Op::Ror, Op::Stx, Op::Ldx, Op::Dec, Op::Inc)
        }
    } else if col == 0x00 {
        pick(row, Op::Brk, Op::Jsr, Op::Rti, Op::Rts, Op::Nop, Op::Ldy, Op::Cpy, Op::Cpx)
    } else if col == 0x04 {
        pick(row, Op::Nop, Op::Bit, Op::Nop, Op::Nop, Op::Sty, Op::Ldy, Op::Cpy, Op::Cpx)
    } else if col == 0x08 {
        pick(row, Op::Php, Op::Plp, Op::Pha, Op::Pla, Op::Dey, Op::Tay, Op::Iny, Op::Inx)
    } else if col == 0x0C {
        pick(row, Op::Nop, Op::Bit, Op::Jmp, Op::Jmp, Op::Sty, Op::Ldy, Op::Cpy, Op::Cpx)
    } else if col == 0x10 {
        pick(row, Op::Bpl, Op::Bmi, Op::Bvc, Op::Bvs, Op::Bcc, Op::Bcs, Op::Bne, Op::Beq)
    } else if col == 0x14 {
        pick(row, Op::Nop, Op::Nop, Op::Nop, Op::Nop, Op::Sty, Op::Ldy, Op::Nop, Op::Nop)
    } else if col == 0x18 {
        pick(row, Op::Clc, Op::Sec, Op::Cli, Op::Sei, Op::Tya, Op::Clv, Op::Cld, Op::Sed)
    } else {
        pick(row, Op::Nop, Op::Nop, Op::Nop, Op::Nop, Op::Shy, Op::Ldy, Op::Nop, Op::Nop)
    }
}

/// The addressing mode of an opcode. It is a matter of the column, but for
/// the rows of the X register (which index by Y), the upper half of the
/// columns without an operand, JSR and the indirect JMP.
pub open spec fn opcode_mode(b: u8) -> Am {
    let row = b / 32;
    let col = b % 32;
    if col == 0x00 {
        if b == 0x20 {
            Am::Absolute
        } else if row < 4 {
            Am::Implied
        } else {
            Am::Immediate
        }
    } else if col == 0x01 || col == 0x03 {
        Am::IndexedIndirect
    } else if col == 0x02 {
        if row < 4 { Am::Implied } else { Am::Immediate }
    } else if 0x04 <= col <= 0x07 {
        Am::Zero
    } else if col == 0x08 || col == 0x12 || col == 0x18 || col == 0x1A {
        Am::Implied
    } else if col == 0x09 || col == 0x0B {
        Am::Immediate
    } else if col == 0x0A {
        if row < 4 { Am::Accumulator } else { Am::Implied }
    } else if col == 0x0C {
        if b == 0x6C { Am::Indirect } else { Am::Absolute }
    } else if 0x0D <= col <= 0x0F {
        Am::Absolute
    } else if col == 0x10 {
        Am::Relative
    } else if col == 0x11 || col == 0x13 {
        Am::IndirectIndexed
    } else if col == 0x14 || col == 0x15 {
        Am::ZeroX
    } else if col == 0x16 || col == 0x17 {
        if row == 4 || row == 5 { Am::ZeroY } else { Am::ZeroX }
    } else if col == 0x19 || col == 0x1B {
        Am::AbsoluteY
    } else if col == 0x1C || col == 0x1D {
        Am::AbsoluteX
    } else {
        if row == 4 || row == 5 { Am::AbsoluteY } else { Am::AbsoluteX }
    }
}

/// The instruction that an opcode byte stands for.
pub open spec fn decoding(b: u8) -> (Op, Am) {
    (opcode_op(b), opcode_mode(b))
}

/// Whether some opcode stands for the operation `op` in the mode `am`.
pub open spec fn is_instruction(op: Op, am: Am) -> bool {
    exists|b: u8| decoding(b) == (op, am)
}

impl Op {
    /// The pure stores: they put a register on the bus and read nothing.
    pub open spec fn is_store(self) -> bool {
        self == Op::Sta || self == Op::Stx || self == Op::Sty || self == Op::Sax || self == Op::Sha
            || self == Op::Shx || self == Op::Shy || self == Op::Tas
    }

    /// The operations that take a byte from memory and only look at it.
    pub open spec fn is_load(self) -> bool {
        self == Op::Lda || self == Op::Ldx || self == Op::Ldy || self == Op::Lax || self == Op::Las
            || self == Op::Ora || self == Op::And || self == Op::Eor || self == Op::Adc || self
            == Op::Sbc || self == Op::Cmp || self == Op::Cpx || self == Op::Cpy || self == Op::Bit
            || self == Op::Anc || self == Op::Alr || self == Op::Arr || self == Op::Ane || self
            == Op::Lxa || self == Op::Sbx || self == Op::Nop
    }

    /// The operations that read a byte, change it and write it back.
    pub open spec fn spec_is_rmw(self) -> bool {
        self == Op::Asl || self == Op::Lsr || self == Op::Rol || self == Op::Ror || self == Op::Inc
            || self == Op::Dec || self == Op::Slo || self == Op::Rla || self == Op::Sre || self
            == Op::Rra || self == Op::Dcp || self == Op::Isc
    }

    /// What `reads_operand` computes.
    pub open spec fn spec_reads_operand(self) -> bool {
        self.is_load() || self.spec_is_rmw()
    }

    /// What `writes_operand` computes.
    pub open spec fn spec_writes_operand(self) -> bool {
        self.is_store() || self.spec_is_rmw()
    }

    /// Whether the operation takes its operand from memory.
    #[verifier::when_used_as_spec(spec_reads_operand)]
    pub fn reads_operand(self) -> (r: bool)
        ensures
            r == self.spec_reads_operand(),
    {
        match self {
            Op::Lda | Op::Ldx | Op::Ldy | Op::Lax | Op::Las | Op::Ora | Op::And | Op::Eor | Op::Adc | Op::Sbc | Op::Cmp | Op::Cpx | Op::Cpy | Op::Bit | Op::Anc | Op::Alr | Op::Arr | Op::Ane | Op::Lxa | Op::Sbx | Op::Nop | Op::Asl | Op::Lsr | Op::Rol | Op::Ror | Op::Inc | Op::Dec | Op::Slo | Op::Rla | Op::Sre | Op::Rra | Op::Dcp | Op::Isc => true,
            _ => false,
        }
    }

    /// Whether the operation puts a byte into memory.
    #[verifier::when_used_as_spec(spec_writes_operand)]
    pub fn writes_operand(self) -> (r: bool)
        ensures
            r == self.spec_writes_operand(),
    {
        match self {
            Op::Sta | Op::Stx | Op::Sty | Op::Sax | Op::Sha | Op::Shx | Op::Shy | Op::Tas | Op::Asl | Op::Lsr | Op::Rol | Op::Ror | Op::Inc | Op::Dec | Op::Slo | Op::Rla | Op::Sre | Op::Rra | Op::Dcp | Op::Isc => true,
            _ => false,
        }
    }

    /// Whether the operation reads a byte, changes it and writes it back.
    #[verifier::when_used_as_spec(spec_is_rmw)]
    pub fn is_rmw(self) -> (r: bool)
        ensures
            r == self.spec_is_rmw(),
    {
        match self {
            Op::Asl | Op::Lsr | Op::Rol | Op::Ror | Op::Inc | Op::Dec | Op::Slo | Op::Rla | Op::Sre | Op::Rra | Op::Dcp | Op::Isc => true,
            _ => false,
        }
    }
}

/// Decodes an opcode byte. Every byte stands for an instruction.
pub fn decode(b: u8) -> (r: (Op, Am))
    ensures
        r == decoding(b),
        is_instruction(r.0, r.1),
{
    let r = match b {
        0x00 => (Op::Brk, Am::Implied),
        0x01 => (Op::Ora, Am::IndexedIndirect),
        0x02 => (Op::Jam, Am::Implied),
        0x03 => (Op::Slo, Am::IndexedIndirect),
        0x04 => (Op::Nop, Am::Zero),
        0x05 => (Op::Ora, Am::Zero),
        0x06 => (Op::Asl, Am::Zero),
        0x07 => (Op::Slo, Am::Zero),
        0x08 => (Op::Php, Am::Implied),
        0x09 => (Op::Ora, Am::Immediate),
        0x0A => (Op::Asl, Am::Accumulator),
        0x0B => (Op::Anc, Am::Immediate),
        0x0C => (Op::Nop, Am::Absolute),
        0x0D => (Op::Ora, Am::Absolute),
        0x0E => (Op::Asl, Am::Absolute),
        0x0F => (Op::Slo, Am::Absolute),
        0x10 => (Op::Bpl, Am::Relative),
        0x11 => (Op::Ora, Am::IndirectIndexed),
        0x12 => (Op::Jam, Am::Implied),
        0x13 => (Op::Slo, Am::IndirectIndexed),
        0x14 => (Op::Nop, Am::ZeroX),
        0x15 => (Op::Ora, Am::ZeroX),
        0x16 => (Op::Asl, Am::ZeroX),
        0x17 => (Op::Slo, Am::ZeroX),
        0x18 => (Op::Clc, Am::Implied),
        0x19 => (Op::Ora, Am::AbsoluteY),
        0x1A => (Op::Nop, Am::Implied),
        0x1B => (Op::Slo, Am::AbsoluteY),
        0x1C => (Op::Nop, Am::AbsoluteX),
        0x1D => (Op::Ora, Am::AbsoluteX),
        0x1E => (Op::Asl, Am::AbsoluteX),
        0x1F => (Op::Slo, Am::AbsoluteX),
        0x20 => (Op::Jsr, Am::Absolute),
        0x21 => (Op::And, Am::IndexedIndirect),
        0x22 => (Op::Jam, Am::Implied),
        0x23 => (Op::Rla, Am::IndexedIndirect),
        0x24 => (Op::Bit, Am::Zero),
        0x25 => (Op::And, Am::Zero),
        0x26 => (Op::Rol, Am::Zero),
        0x27 => (Op::Rla, Am::Zero),
        0x28 => (Op::Plp, Am::Implied),
        0x29 => (Op::And, Am::Immediate),
        0x2A => (Op::Rol, Am::Accumulator),
        0x2B => (Op::Anc, Am::Immediate),
        0x2C => (Op::Bit, Am::Absolute),
        0x2D => (Op::And, Am::Absolute),
        0x2E => (Op::Rol, Am::Absolute),
        0x2F => (Op::Rla, Am::Absolute),
        0x30 => (Op::Bmi, Am::Relative),
        0x31 => (Op::And, Am::IndirectIndexed),
        0x32 => (Op::Jam, Am::Implied),
        0x33 => (Op::Rla, Am::IndirectIndexed),
        0x34 => (Op::Nop, Am::ZeroX),
        0x35 => (Op::And, Am::ZeroX),
        0x36 => (Op::Rol, Am::ZeroX),
        0x37 => (Op::Rla, Am::ZeroX),
        0x38 => (Op::Sec, Am::Implied),
        0x39 => (Op::And, Am::AbsoluteY),
        0x3A => (Op::Nop, Am::Implied),
        0x3B => (Op::Rla, Am::AbsoluteY),
        0x3C => (Op::Nop, Am::AbsoluteX),
        0x3D => (Op::And, Am::AbsoluteX),
        0x3E => (Op::Rol, Am::AbsoluteX),
        0x3F => (Op::Rla, Am::AbsoluteX),
        0x40 => (Op::Rti, Am::Implied),
        0x41 => (Op::Eor, Am::IndexedIndirect),
        0x42 => (Op::Jam, Am::Implied),
        0x43 => (Op::Sre, Am::IndexedIndirect),
        0x44 => (Op::Nop, Am::Zero),
        0x45 => (Op::Eor, Am::Zero),
        0x46 => (Op::Lsr, Am::Zero),
        0x47 => (Op::Sre, Am::Zero),
        0x48 => (Op::Pha, Am::Implied),
        0x49 => (Op::Eor, Am::Immediate),
        0x4A => (Op::Lsr, Am::Accumulator),
        0x4B => (Op::Alr, Am::Immediate),
        0x4C => (Op::Jmp, Am::Absolute),
        0x4D => (Op::Eor, Am::Absolute),
        0x4E => (Op::Lsr, Am::Absolute),
        0x4F => (Op::Sre, Am::Absolute),
        0x50 => (Op::Bvc, Am::Relative),
        0x51 => (Op::Eor, Am::IndirectIndexed),
        0x52 => (Op::Jam, Am::Implied),
        0x53 => (Op::Sre, Am::IndirectIndexed),
        0x54 => (Op::Nop, Am::ZeroX),
        0x55 => (Op::Eor, Am::ZeroX),
        0x56 => (Op::Lsr, Am::ZeroX),
        0x57 => (Op::Sre, Am::ZeroX),
        0x58 => (Op::Cli, Am::Implied),
        0x59 => (Op::Eor, Am::AbsoluteY),
        0x5A => (Op::Nop, Am::Implied),
        0x5B => (Op::Sre, Am::AbsoluteY),
        0x5C => (Op::Nop, Am::AbsoluteX),
        0x5D => (Op::Eor, Am::AbsoluteX),
        0x5E => (Op::Lsr, Am::AbsoluteX),
        0x5F => (Op::Sre, Am::AbsoluteX),
        0x60 => (Op::Rts, Am::Implied),
        0x61 => (Op::Adc, Am::IndexedIndirect),
        0x62 => (Op::Jam, Am::Implied),
        0x63 => (Op::Rra, Am::IndexedIndirect),
        0x64 => (Op::Nop, Am::Zero),
        0x65 => (Op::Adc, Am::Zero),
        0x66 => (Op::Ror, Am::Zero),
        0x67 => (Op::Rra, Am::Zero),
        0x68 => (Op::Pla, Am::Implied),
        0x69 => (Op::Adc, Am::Immediate),
        0x6A => (Op::Ror, Am::Accumulator),
        0x6B => (Op::Arr, Am::Immediate),
        0x6C => (Op::Jmp, Am::Indirect),
        0x6D => (Op::Adc, Am::Absolute),
        0x6E => (Op::Ror, Am::Absolute),
        0x6F => (Op::Rra, Am::Absolute),
        0x70 => (Op::Bvs, Am::Relative),
        0x71 => (Op::Adc, Am::IndirectIndexed),
        0x72 => (Op::Jam, Am::Implied),
        0x73 => (Op::Rra, Am::IndirectIndexed),
        0x74 => (Op::Nop, Am::ZeroX),
        0x75 => (Op::Adc, Am::ZeroX),
        0x76 => (Op::Ror, Am::ZeroX),
        0x77 => (Op::Rra, Am::ZeroX),
        0x78 => (Op::Sei, Am::Implied),
        0x79 => (Op::Adc, Am::AbsoluteY),
        0x7A => (Op::Nop, Am::Implied),
        0x7B => (Op::Rra, Am::AbsoluteY),
        0x7C => (Op::Nop, Am::AbsoluteX),
        0x7D => (Op::Adc, Am::AbsoluteX),
        0x7E => (Op::Ror, Am::AbsoluteX),
        0x7F => (Op::Rra, Am::AbsoluteX),
        0x80 => (Op::Nop, Am::Immediate),
        0x81 => (Op::Sta, Am::IndexedIndirect),
        0x82 => (Op::Nop, Am::Immediate),
        0x83 => (Op::Sax, Am::IndexedIndirect),
        0x84 => (Op::Sty, Am::Zero),
        0x85 => (Op::Sta, Am::Zero),
        0x86 => (Op::Stx, Am::Zero),
        0x87 => (Op::Sax, Am::Zero),
        0x88 => (Op::Dey, Am::Implied),
        0x89 => (Op::Nop, Am::Immediate),
        0x8A => (Op::Txa, Am::Implied),
        0x8B => (Op::Ane, Am::Immediate),
        0x8C => (Op::Sty, Am::Absolute),
        0x8D => (Op::Sta, Am::Absolute),
        0x8E => (Op::Stx, Am::Absolute),
        0x8F => (Op::Sax, Am::Absolute),
        0x90 => (Op::Bcc, Am::Relative),
        0x91 => (Op::Sta, Am::IndirectIndexed),
        0x92 => (Op::Jam, Am::Implied),
        0x93 => (Op::Sha, Am::IndirectIndexed),
        0x94 => (Op::Sty, Am::ZeroX),
        0x95 => (Op::Sta, Am::ZeroX),
        0x96 => (Op::Stx, Am::ZeroY),
        0x97 => (Op::Sax, Am::ZeroY),
        0x98 => (Op::Tya, Am::Implied),
        0x99 => (Op::Sta, Am::AbsoluteY),
        0x9A => (Op::Txs, Am::Implied),
        0x9B => (Op::Tas, Am::AbsoluteY),
        0x9C => (Op::Shy, Am::AbsoluteX),
        0x9D => (Op::Sta, Am::AbsoluteX),
        0x9E => (Op::Shx, Am::AbsoluteY),
        0x9F => (Op::Sha, Am::AbsoluteY),
        0xA0 => (Op::Ldy, Am::Immediate),
        0xA1 => (Op::Lda, Am::IndexedIndirect),
        0xA2 => (Op::Ldx, Am::Immediate),
        0xA3 => (Op::Lax, Am::IndexedIndirect),
        0xA4 => (Op::Ldy, Am::Zero),
        0xA5 => (Op::Lda, Am::Zero),
        0xA6 => (Op::Ldx, Am::Zero),
        0xA7 => (Op::Lax, Am::Zero),
        0xA8 => (Op::Tay, Am::Implied),
        0xA9 => (Op::Lda, Am::Immediate),
        0xAA => (Op::Tax, Am::Implied),
        0xAB => (Op::Lxa, Am::Immediate),
        0xAC => (Op::Ldy, Am::Absolute),
        0xAD => (Op::Lda, Am::Absolute),
        0xAE => (Op::Ldx, Am::Absolute),
        0xAF => (Op::Lax, Am::Absolute),
        0xB0 => (Op::Bcs, Am::Relative),
        0xB1 => (Op::Lda, Am::IndirectIndexed),
        0xB2 => (Op::Jam, Am::Implied),
        0xB3 => (Op::Lax, Am::IndirectIndexed),
        0xB4 => (Op::Ldy, Am::ZeroX),
        0xB5 => (Op::Lda, Am::ZeroX),
        0xB6 => (Op::Ldx, Am::ZeroY),
        0xB7 => (Op::Lax, Am::ZeroY),
        0xB8 => (Op::Clv, Am::Implied),
        0xB9 => (Op::Lda, Am::AbsoluteY),
        0xBA => (Op::Tsx, Am::Implied),
        0xBB => (Op::Las, Am::AbsoluteY),
        0xBC => (Op::Ldy, Am::AbsoluteX),
        0xBD => (Op::Lda, Am::AbsoluteX),
        0xBE => (Op::Ldx, Am::AbsoluteY),
        0xBF => (Op::Lax, Am::AbsoluteY),
        0xC0 => (Op::Cpy, Am::Immediate),
        0xC1 => (Op::Cmp, Am::IndexedIndirect),
        0xC2 => (Op::Nop, Am::Immediate),
        0xC3 => (Op::Dcp, Am::IndexedIndirect),
        0xC4 => (Op::Cpy, Am::Zero),
        0xC5 => (Op::Cmp, Am::Zero),
        0xC6 => (Op::Dec, Am::Zero),
        0xC7 => (Op::Dcp, Am::Zero),
        0xC8 => (Op::Iny, Am::Implied),
        0xC9 => (Op::Cmp, Am::Immediate),
        0xCA => (Op::Dex, Am::Implied),
        0xCB => (Op::Sbx, Am::Immediate),
        0xCC => (Op::Cpy, Am::Absolute),
        0xCD => (Op::Cmp, Am::Absolute),
        0xCE => (Op::Dec, Am::Absolute),
        0xCF => (Op::Dcp, Am::Absolute),
        0xD0 => (Op::Bne, Am::Relative),
        0xD1 => (Op::Cmp, Am::IndirectIndexed),
        0xD2 => (Op::Jam, Am::Implied),
        0xD3 => (Op::Dcp, Am::IndirectIndexed),
        0xD4 => (Op::Nop, Am::ZeroX),
        0xD5 => (Op::Cmp, Am::ZeroX),
        0xD6 => (Op::Dec, Am::ZeroX),
        0xD7 => (Op::Dcp, Am::ZeroX),
        0xD8 => (Op::Cld, Am::Implied),
        0xD9 => (Op::Cmp, Am::AbsoluteY),
        0xDA => (Op::Nop, Am::Implied),
        0xDB => (Op::Dcp, Am::AbsoluteY),
        0xDC => (Op::Nop, Am::AbsoluteX),
        0xDD => (Op::Cmp, Am::AbsoluteX),
        0xDE => (Op::Dec, Am::AbsoluteX),
        0xDF => (Op::Dcp, Am::AbsoluteX),
        0xE0 => (Op::Cpx, Am::Immediate),
        0xE1 => (Op::Sbc, Am::IndexedIndirect),
        0xE2 => (Op::Nop, Am::Immediate),
        0xE3 => (Op::Isc, Am::IndexedIndirect),
        0xE4 => (Op::Cpx, Am::Zero),
        0xE5 => (Op::Sbc, Am::Zero),
        0xE6 => (Op::Inc, Am::Zero),
        0xE7 => (Op::Isc, Am::Zero),
        0xE8 => (Op::Inx, Am::Implied),
        0xE9 => (Op::Sbc, Am::Immediate),
        0xEA => (Op::Nop, Am::Implied),
        0xEB => (Op::Sbc, Am::Immediate),
        0xEC => (Op::Cpx, Am::Absolute),
        0xED => (Op::Sbc, Am::Absolute),
        0xEE => (Op::Inc, Am::Absolute),
        0xEF => (Op::Isc, Am::Absolute),
        0xF0 => (Op::Beq, Am::Relative),
        0xF1 => (Op::Sbc, Am::IndirectIndexed),
        0xF2 => (Op::Jam, Am::Implied),
        0xF3 => (Op::Isc, Am::IndirectIndexed),
        0xF4 => (Op::Nop, Am::ZeroX),
        0xF5 => (Op::Sbc, Am::ZeroX),
        0xF6 => (Op::Inc, Am::ZeroX),
        0xF7 => (Op::Isc, Am::ZeroX),
        0xF8 => (Op::Sed, Am::Implied),
        0xF9 => (Op::Sbc, Am::AbsoluteY),
        0xFA => (Op::Nop, Am::Implied),
        0xFB => (Op::Isc, Am::AbsoluteY),
        0xFC => (Op::Nop, Am::AbsoluteX),
        0xFD => (Op::Sbc, Am::AbsoluteX),
        0xFE => (Op::Inc, Am::AbsoluteX),
        0xFF => (Op::Isc, Am::AbsoluteX),
    };
    assert(decoding(b) == r);
    r
}

} // verus!
