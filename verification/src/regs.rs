//! The register file and the status register.
//!
//! Every operation of the arithmetic and logic kernel exists twice: as a
//! specification function from register file to register file, stated over
//! numbers, and as the executable method whose contract equates it with that
//! function.

use vstd::prelude::*;
use crate::bits::{bit, byte_add, hi, lo, join, masked, single_bit};
use crate::bits::{bool_byte, byte_dec, byte_inc, complement, high_byte, low_byte, make_word, set_mask, shift_left, shift_right};
use crate::bits::{lemma_join_split, lemma_masked_other, lemma_masked_same, lemma_top_bit};

verus! {

/// The carry bit of the status register.
pub const FLAG_C: u8 = 1;

/// The zero bit of the status register.
pub const FLAG_Z: u8 = 2;

/// The interrupt-disable bit of the status register.
pub const FLAG_I: u8 = 4;

/// The decimal bit of the status register.
pub const FLAG_D: u8 = 8;

/// The break bit of the status register.
pub const FLAG_B: u8 = 16;

/// The unused bit of the status register.
pub const FLAG_O: u8 = 32;

/// The overflow bit of the status register.
pub const FLAG_V: u8 = 64;

/// The negative bit of the status register.
pub const FLAG_N: u8 = 128;

/// The processor status register, packed as the hardware packs it.
#[derive(Copy, Clone, Debug, PartialEq, Eq, Structural)]
pub struct P(pub u8);

impl P {
    /// Whether any bit of the mask `m` is set.
    pub open spec fn flag(self, m: u8) -> bool {
        self.0 & m != 0
    }

    /// The register with the bits of `m` written to `to`.
    pub open spec fn with_flag(self, m: u8, to: bool) -> P {
        P(masked(self.0, m, to))
    }

    /// What a pulled byte becomes as a status register: the unused bit is
    /// forced on and the break bit is forced off.
    pub open spec fn pulled(b: u8) -> P {
        P(b).with_flag(FLAG_O, true).with_flag(FLAG_B, false)
    }

    /// The byte that a push of the status register writes: the unused bit is
    /// on and the break bit is `b`.
    pub open spec fn pushed(self, b: bool) -> u8 {
        self.with_flag(FLAG_B, b).with_flag(FLAG_O, true).0
    }

    /// The status register after a reset of the flags: only the unused bit.
    pub fn new() -> (r: P)
        ensures
            r == P(FLAG_O),
    {
        proof {
            assert(0u8 | 32u8 == 32u8) by (bit_vector);
        }
        P(0).with_o(true)
    }

    /// The status register that a pulled byte gives.
    pub fn from_pull_byte(b: u8) -> (r: P)
        ensures
            r == P::pulled(b),
            r.o(),
            !r.b(),
    {
        proof {
            let p = P(b).with_flag(FLAG_O, true);
            lemma_masked_same(p.0, FLAG_B, false);
            lemma_masked_same(b, FLAG_O, true);
            lemma_masked_other(p.0, FLAG_B, FLAG_O, false);
        }
        P(b).with_o(true).with_b(false)
    }

    /// The byte that goes to the stack, with the break bit as given.
    pub fn to_push_byte(self, b: bool) -> (r: u8)
        ensures
            r == self.pushed(b),
            P(r).o(),
            P(r).b() == b,
    {
        proof {
            let p = self.with_flag(FLAG_B, b);
            lemma_masked_same(p.0, FLAG_O, true);
            lemma_masked_same(self.0, FLAG_B, b);
            lemma_masked_other(p.0, FLAG_O, FLAG_B, true);
        }
        self.with_b(b).with_o(true).0
    }

    /// What `c` computes.
    pub open spec fn spec_c(self) -> bool {
        self.flag(FLAG_C)
    }

    /// The carry flag.
    #[verifier::when_used_as_spec(spec_c)]
    pub fn c(self) -> (r: bool)
        ensures
            r == self.flag(FLAG_C),
    {
        self.0 & FLAG_C != 0
    }

    /// What `z` computes.
    pub open spec fn spec_z(self) -> bool {
        self.flag(FLAG_Z)
    }

    /// The zero flag.
    #[verifier::when_used_as_spec(spec_z)]
    pub fn z(self) -> (r: bool)
        ensures
            r == self.flag(FLAG_Z),
    {
        self.0 & FLAG_Z != 0
    }

    /// What `i` computes.
    pub open spec fn spec_i(self) -> bool {
        self.flag(FLAG_I)
    }

    /// The interrupt-disable flag.
    #[verifier::when_used_as_spec(spec_i)]
    pub fn i(self) -> (r: bool)
        ensures
            r == self.flag(FLAG_I),
    {
        self.0 & FLAG_I != 0
    }

    /// What `d` computes.
    pub open spec fn spec_d(self) -> bool {
        self.flag(FLAG_D)
    }

    /// The decimal flag.
    #[verifier::when_used_as_spec(spec_d)]
    pub fn d(self) -> (r: bool)
        ensures
            r == self.flag(FLAG_D),
    {
        self.0 & FLAG_D != 0
    }

    /// What `b` computes.
    pub open spec fn spec_b(self) -> bool {
        self.flag(FLAG_B)
    }

    /// The break flag.
    #[verifier::when_used_as_spec(spec_b)]
    pub fn b(self) -> (r: bool)
        ensures
            r == self.flag(FLAG_B),
    {
        self.0 & FLAG_B != 0
    }

    /// What `o` computes.
    pub open spec fn spec_o(self) -> bool {
        self.flag(FLAG_O)
    }

    /// The unused flag.
    #[verifier::when_used_as_spec(spec_o)]
    pub fn o(self) -> (r: bool)
        ensures
            r == self.flag(FLAG_O),
    {
        self.0 & FLAG_O != 0
    }

    /// What `v` computes.
    pub open spec fn spec_v(self) -> bool {
        self.flag(FLAG_V)
    }

    /// The overflow flag.
    #[verifier::when_used_as_spec(spec_v)]
    pub fn v(self) -> (r: bool)
        ensures
            r == self.flag(FLAG_V),
    {
        self.0 & FLAG_V != 0
    }

    /// What `n` computes.
    pub open spec fn spec_n(self) -> bool {
        self.flag(FLAG_N)
    }

    /// The negative flag.
    #[verifier::when_used_as_spec(spec_n)]
    pub fn n(self) -> (r: bool)
        ensures
            r == self.flag(FLAG_N),
    {
        self.0 & FLAG_N != 0
    }

    /// Writes the carry flag and leaves the others.
    pub fn set_c(&mut self, to: bool)
        ensures
            *final(self) == old(self).with_flag(FLAG_C, to),
    {
        self.0 = set_mask(self.0, FLAG_C, to);
    }

    /// Writes the zero flag and leaves the others.
    pub fn set_z(&mut self, to: bool)
        ensures
            *final(self) == old(self).with_flag(FLAG_Z, to),
    {
        self.0 = set_mask(self.0, FLAG_Z, to);
    }

    /// Writes the interrupt-disable flag and leaves the others.
    pub fn set_i(&mut self, to: bool)
        ensures
            *final(self) == old(self).with_flag(FLAG_I, to),
    {
        self.0 = set_mask(self.0, FLAG_I, to);
    }

    /// Writes the decimal flag and leaves the others.
    pub fn set_d(&mut self, to: bool)
        ensures
            *final(self) == old(self).with_flag(FLAG_D, to),
    {
        self.0 = set_mask(self.0, FLAG_D, to);
    }

    /// Writes the break flag and leaves the others.
    pub fn set_b(&mut self, to: bool)
        ensures
            *final(self) == old(self).with_flag(FLAG_B, to),
    {
        self.0 = set_mask(self.0, FLAG_B, to);
    }

    /// Writes the unused flag and leaves the others.
    pub fn set_o(&mut self, to: bool)
        ensures
            *final(self) == old(self).with_flag(FLAG_O, to),
    {
        self.0 = set_mask(self.0, FLAG_O, to);
    }

    /// Writes the overflow flag and leaves the others.
    pub fn set_v(&mut self, to: bool)
        ensures
            *final(self) == old(self).with_flag(FLAG_V, to),
    {
        self.0 = set_mask(self.0, FLAG_V, to);
    }

    /// Writes the negative flag and leaves the others.
    pub fn set_n(&mut self, to: bool)
        ensures
            *final(self) == old(self).with_flag(FLAG_N, to),
    {
        self.0 = set_mask(self.0, FLAG_N, to);
    }

    /// What `with_c` computes.
    pub open spec fn spec_with_c(self, to: bool) -> P {
        self.with_flag(FLAG_C, to)
    }

    /// The register with the carry flag written.
    #[verifier::when_used_as_spec(spec_with_c)]
    pub fn with_c(self, to: bool) -> (r: P)
        ensures
            r == self.with_flag(FLAG_C, to),
    {
        P(set_mask(self.0, FLAG_C, to))
    }

    /// What `with_z` computes.
    pub open spec fn spec_with_z(self, to: bool) -> P {
        self.with_flag(FLAG_Z, to)
    }

    /// The register with the zero flag written.
    #[verifier::when_used_as_spec(spec_with_z)]
    pub fn with_z(self, to: bool) -> (r: P)
        ensures
            r == self.with_flag(FLAG_Z, to),
    {
        P(set_mask(self.0, FLAG_Z, to))
    }

    /// What `with_i` computes.
    pub open spec fn spec_with_i(self, to: bool) -> P {
        self.with_flag(FLAG_I, to)
    }

    /// The register with the interrupt-disable flag written.
    #[verifier::when_used_as_spec(spec_with_i)]
    pub fn with_i(self, to: bool) -> (r: P)
        ensures
            r == self.with_flag(FLAG_I, to),
    {
        P(set_mask(self.0, FLAG_I, to))
    }

    /// What `with_d` computes.
    pub open spec fn spec_with_d(self, to: bool) -> P {
        self.with_flag(FLAG_D, to)
    }

    /// The register with the decimal flag written.
    #[verifier::when_used_as_spec(spec_with_d)]
    pub fn with_d(self, to: bool) -> (r: P)
        ensures
            r == self.with_flag(FLAG_D, to),
    {
        P(set_mask(self.0, FLAG_D, to))
    }

    /// What `with_b` computes.
    pub open spec fn spec_with_b(self, to: bool) -> P {
        self.with_flag(FLAG_B, to)
    }

    /// The register with the break flag written.
    #[verifier::when_used_as_spec(spec_with_b)]
    pub fn with_b(self, to: bool) -> (r: P)
        ensures
            r == self.with_flag(FLAG_B, to),
    {
        P(set_mask(self.0, FLAG_B, to))
    }

    /// What `with_o` computes.
    pub open spec fn spec_with_o(self, to: bool) -> P {
        self.with_flag(FLAG_O, to)
    }

    /// The register with the unused flag written.
    #[verifier::when_used_as_spec(spec_with_o)]
    pub fn with_o(self, to: bool) -> (r: P)
        ensures
            r == self.with_flag(FLAG_O, to),
    {
        P(set_mask(self.0, FLAG_O, to))
    }

    /// What `with_v` computes.
    pub open spec fn spec_with_v(self, to: bool) -> P {
        self.with_flag(FLAG_V, to)
    }

    /// The register with the overflow flag written.
    #[verifier::when_used_as_spec(spec_with_v)]
    pub fn with_v(self, to: bool) -> (r: P)
        ensures
            r == self.with_flag(FLAG_V, to),
    {
        P(set_mask(self.0, FLAG_V, to))
    }

    /// What `with_n` computes.
    pub open spec fn spec_with_n(self, to: bool) -> P {
        self.with_flag(FLAG_N, to)
    }

    /// The register with the negative flag written.
    #[verifier::when_used_as_spec(spec_with_n)]
    pub fn with_n(self, to: bool) -> (r: P)
        ensures
            r == self.with_flag(FLAG_N, to),
    {
        P(set_mask(self.0, FLAG_N, to))
    }

}

/// A flag that was written reads back as written, and writing one flag leaves
/// every other flag as it was.
pub proof fn lemma_flag_write(p: P, m: u8, k: u8, to: bool)
    requires
        single_bit(m),
        single_bit(k),
    ensures
        p.with_flag(m, to).flag(m) == to,
        m != k ==> p.with_flag(m, to).flag(k) == p.flag(k),
{
    lemma_masked_same(p.0, m, to);
    if m != k {
        lemma_masked_other(p.0, m, k, to);
    }
}

/// The sum `a + b + c` as the adder delivers it: the low eight bits, the carry
/// out of bit 7, and the signed overflow (both operands have one sign and the
/// result has the other).
pub open spec fn add_with_carry(a: u8, b: u8, c: bool) -> (u8, bool, bool) {
    let sum = a + b + bit(c);
    let s = (sum % 256) as u8;
    (s, sum >= 256, (a >= 128) == (b >= 128) && (a >= 128) != (s >= 128))
}

/// Subtraction as the hardware does it: the sum with the complement of `b`.
pub open spec fn sub_with_borrow(a: u8, b: u8, c: bool) -> (u8, bool, bool) {
    add_with_carry(a, (255 - b) as u8, c)
}

/// The adder: sum, carry out and signed overflow of `a + b + c`.
pub fn adc(a: u8, b: u8, c: bool) -> (r: (u8, bool, bool))
    ensures
        r == add_with_carry(a, b, c),
{
    let sum: u16 = a as u16 + b as u16 + bool_byte(c) as u16;
    let s: u8 = low_byte(sum);
    let v: bool = ((a >= 128) == (b >= 128)) && ((a >= 128) != (s >= 128));
    (s, sum >= 256, v)
}

/// The adder fed with the complement of `b`: difference, carry out (no
/// borrow) and signed overflow of `a - b - (1 - c)`.
pub fn sbc(a: u8, b: u8, c: bool) -> (r: (u8, bool, bool))
    ensures
        r == sub_with_borrow(a, b, c),
{
    adc(a, complement(b), c)
}

/// The register file.
#[derive(Copy, Clone, Debug, PartialEq, Eq, Structural)]
pub struct Core {
    /// The accumulator.
    pub a: u8,
    /// The status register.
    pub p: P,
    /// The program counter.
    pub pc: u16,
    /// The stack pointer, an offset into the page `$0100`.
    pub s: u8,
    /// The index register X.
    pub x: u8,
    /// The index register Y.
    pub y: u8,
}

impl Core {
    /// The register file with the flags of the mask `m` written.
    pub open spec fn flagged(self, m: u8, to: bool) -> Core {
        Core { p: self.p.with_flag(m, to), ..self }
    }

    /// The register file with N and Z taken from the byte `v`.
    pub open spec fn flags_from(self, v: u8) -> Core {
        self.flagged(FLAG_N, v >= 128).flagged(FLAG_Z, v == 0)
    }

    /// The register file with `v` in the accumulator and N and Z taken from it.
    pub open spec fn load_a(self, v: u8) -> Core {
        Core { a: v, ..self }.flags_from(v)
    }

    /// The register file with `v` in X and N and Z taken from it.
    pub open spec fn load_x(self, v: u8) -> Core {
        Core { x: v, ..self }.flags_from(v)
    }

    /// The register file with `v` in Y and N and Z taken from it.
    pub open spec fn load_y(self, v: u8) -> Core {
        Core { y: v, ..self }.flags_from(v)
    }

    /// ADC: add the operand and the carry to A. Decimal mode has no effect.
    pub open spec fn adc(self, b: u8) -> Core {
        let r = add_with_carry(self.a, b, self.p.c());
        self.load_a(r.0).flagged(FLAG_C, r.1).flagged(FLAG_V, r.2)
    }

    /// SBC: subtract the operand and the borrow from A: add its complement.
    pub open spec fn sbc(self, b: u8) -> Core {
        let r = sub_with_borrow(self.a, b, self.p.c());
        self.load_a(r.0).flagged(FLAG_C, r.1).flagged(FLAG_V, r.2)
    }

    /// AND: aND the operand into A.
    pub open spec fn and(self, b: u8) -> Core {
        self.load_a(self.a & b)
    }

    /// ORA: oR the operand into A.
    pub open spec fn ora(self, b: u8) -> Core {
        self.load_a(self.a | b)
    }

    /// EOR: exclusive-OR the operand into A.
    pub open spec fn eor(self, b: u8) -> Core {
        self.load_a(self.a ^ b)
    }

    /// ANC: aND the operand into A, and copy bit 7 of A to C.
    pub open spec fn anc(self, b: u8) -> Core {
        self.and(b).flagged(FLAG_C, (self.a & b) >= 128)
    }

    /// ANE: a becomes `(A | magic) & X & operand`.
    pub open spec fn ane(self, b: u8, magic: u8) -> Core {
        self.load_a((self.a | magic) & self.x & b)
    }

    /// LXA: a and X become `(A | magic) & operand`.
    pub open spec fn lxa(self, b: u8, magic: u8) -> Core {
        self.lax((self.a | magic) & b)
    }

    /// LAX: load A and X.
    pub open spec fn lax(self, b: u8) -> Core {
        Core { a: b, x: b, ..self }.flags_from(b)
    }

    /// LAS: a, X and S become the operand AND S.
    pub open spec fn las(self, b: u8) -> Core {
        let v = b & self.s;
        Core { a: v, x: v, s: v, ..self }.flags_from(v)
    }

    /// Shift left: the top bit goes to C.
    pub open spec fn asl(self, data: u8) -> (Core, u8) {
        let out = ((data * 2) % 256) as u8;
        (self.flagged(FLAG_C, data >= 128).flags_from(out), out)
    }

    /// Shift right: the low bit goes to C.
    pub open spec fn lsr(self, data: u8) -> (Core, u8) {
        let out = (data / 2) as u8;
        (self.flagged(FLAG_C, data % 2 == 1).flags_from(out), out)
    }

    /// Rotate left through C.
    pub open spec fn rol(self, data: u8) -> (Core, u8) {
        let out = ((data * 2) % 256 + bit(self.p.c())) as u8;
        (self.flagged(FLAG_C, data >= 128).flags_from(out), out)
    }

    /// Rotate right through C.
    pub open spec fn ror(self, data: u8) -> (Core, u8) {
        let out = (data / 2 + 128 * bit(self.p.c())) as u8;
        (self.flagged(FLAG_C, data % 2 == 1).flags_from(out), out)
    }

    /// ALR: aND the operand into A, then shift A right.
    pub open spec fn alr(self, b: u8) -> Core {
        let t = self.and(b).lsr(self.a & b);
        Core { a: t.1, ..t.0 }
    }

    /// AND, then rotate right; V is bit 7 xor bit 6 of the conjunction and C
    /// is its bit 7.
    pub open spec fn arr(self, b: u8) -> Core {
        let and = self.a & b;
        let out = (and / 2 + 128 * bit(self.p.c())) as u8;
        Core { a: out, ..self }.flagged(FLAG_V, (and >= 128) != (and % 128 >= 64)).flagged(
            FLAG_C,
            and >= 128,
        ).flags_from(out)
    }

    /// BIT: N and V are bits 7 and 6 of the operand, Z says that the
    /// accumulator and the operand share no bit.
    pub open spec fn bit_test(self, b: u8) -> Core {
        self.flagged(FLAG_N, b >= 128).flagged(FLAG_V, b % 128 >= 64).flagged(
            FLAG_Z,
            self.a & b == 0,
        )
    }

    /// The comparison of the register value `reg` with `b`: C says that
    /// `reg` is not below `b`, N and Z come from the difference modulo 256.
    pub open spec fn compare(self, reg: u8, b: u8) -> Core {
        self.flagged(FLAG_C, reg >= b).flags_from(byte_add(reg, -b))
    }

    /// INC: add one to the operand; the result is returned for the bus.
    pub open spec fn inc(self, data: u8) -> (Core, u8) {
        (self.flags_from(byte_add(data, 1)), byte_add(data, 1))
    }

    /// DEC: take one from the operand; the result is returned for the bus.
    pub open spec fn dec(self, data: u8) -> (Core, u8) {
        (self.flags_from(byte_add(data, -1)), byte_add(data, -1))
    }

    /// DCP: take one from the operand, then compare A with the result.
    pub open spec fn dcp(self, data: u8) -> (Core, u8) {
        let t = self.dec(data);
        (t.0.compare(self.a, t.1), t.1)
    }

    /// ISC: add one to the operand, then subtract the result from A.
    pub open spec fn isc(self, data: u8) -> (Core, u8) {
        let t = self.inc(data);
        (t.0.sbc(t.1), t.1)
    }

    /// SLO: shift the operand left, then OR the result into A.
    pub open spec fn slo(self, data: u8) -> (Core, u8) {
        let t = self.asl(data);
        (t.0.ora(t.1), t.1)
    }

    /// RLA: rotate the operand left, then AND the result into A.
    pub open spec fn rla(self, data: u8) -> (Core, u8) {
        let t = self.rol(data);
        (t.0.and(t.1), t.1)
    }

    /// SRE: shift the operand right, then exclusive-OR the result into A.
    pub open spec fn sre(self, data: u8) -> (Core, u8) {
        let t = self.lsr(data);
        (t.0.eor(t.1), t.1)
    }

    /// RRA: rotate the operand right, then add the result to A.
    pub open spec fn rra(self, data: u8) -> (Core, u8) {
        let t = self.ror(data);
        (t.0.adc(t.1), t.1)
    }

    /// SBX: X becomes `(A & X) - b`; C says that there was no borrow.
    pub open spec fn sbx(self, b: u8) -> Core {
        let v = self.a & self.x;
        self.load_x(byte_add(v, -b)).flagged(FLAG_C, v >= b)
    }

    /// The byte that the unstable stores write for the register value `reg`:
    /// `reg` and the high byte of the base address plus one. After a page
    /// cross `addr` already has that high byte.
    pub open spec fn store_high_value(reg: u8, addr: u16, wrap: bool) -> u8 {
        reg & (if wrap { hi(addr) } else { byte_add(hi(addr), 1) })
    }

    /// The address that the unstable stores write to: after a page cross its
    /// high byte is the stored value.
    pub open spec fn store_high_addr(reg: u8, addr: u16, wrap: bool) -> u16 {
        if wrap { join(lo(addr), Core::store_high_value(reg, addr, wrap)) } else { addr }
    }

    /// The value and the address of an unstable store.
    pub open spec fn store_high(reg: u8, addr: u16, wrap: bool) -> (u8, u16) {
        (Core::store_high_value(reg, addr, wrap), Core::store_high_addr(reg, addr, wrap))
    }

    /// TAS: s becomes `A & X`; the store is that of SHA.
    /// TAS: S becomes `A & X`.
    pub open spec fn tas(self) -> Core {
        Core { s: self.a & self.x, ..self }
    }

    /// Takes N and Z from a byte.
    pub fn set_flags(&mut self, from: u8)
        ensures
            *final(self) == old(self).flags_from(from),
    {
        self.p.set_n(from >= 0x80);
        self.p.set_z(from == 0);
    }

    /// Takes N and Z from A.
    pub fn set_a_flags(&mut self)
        ensures
            *final(self) == old(self).flags_from(old(self).a),
    {
        self.set_flags(self.a);
    }

    /// Takes N and Z from X.
    pub fn set_x_flags(&mut self)
        ensures
            *final(self) == old(self).flags_from(old(self).x),
    {
        self.set_flags(self.x);
    }

    /// Takes N and Z from Y.
    pub fn set_y_flags(&mut self)
        ensures
            *final(self) == old(self).flags_from(old(self).y),
    {
        self.set_flags(self.y);
    }

    /// Add the operand and the carry to A. Decimal mode has no effect.
    pub fn exec_adc(&mut self, b: u8)
        ensures
            *final(self) == old(self).adc(b),
    {
        let r = adc(self.a, b, self.p.c());
        self.a = r.0;
        self.set_a_flags();
        self.p.set_c(r.1);
        self.p.set_v(r.2);
    }

    /// AND the operand into A, and copy bit 7 of A to C.
    pub fn exec_anc(&mut self, b: u8)
        ensures
            *final(self) == old(self).anc(b),
    {
        self.exec_and(b);
        self.p.set_c(self.a >= 0x80);
    }

    /// AND the operand into A.
    pub fn exec_and(&mut self, b: u8)
        ensures
            *final(self) == old(self).and(b),
    {
        self.a = self.a & b;
        self.set_a_flags();
    }

    /// A becomes `(A | magic) & X & operand`.
    pub fn exec_ane(&mut self, b: u8, magic: u8)
        ensures
            *final(self) == old(self).ane(b, magic),
    {
        self.a = (self.a | magic) & self.x & b;
        self.set_a_flags();
    }

    /// AND the operand into A, then shift A right.
    pub fn exec_alr(&mut self, b: u8)
        ensures
            *final(self) == old(self).alr(b),
    {
        self.exec_and(b);
        let a: u8 = self.a;
        self.a = self.exec_lsr(a);
    }

    /// AND the operand into A, then rotate A right, with C and V from the conjunction.
    pub fn exec_arr(&mut self, b: u8)
        ensures
            *final(self) == old(self).arr(b),
    {
        let and: u8 = self.a & b;
        proof {
            lemma_top_bit(and);
        }
        let v: bool = (and & 0x80 != 0) != (and & 0x40 != 0);
        proof {
            lemma_flag_write(self.p, FLAG_V, FLAG_C, v);
        }
        self.p.set_v(v);
        let ror: u8 = shift_right(and) + bool_byte(self.p.c()) * 128;
        self.p.set_c(and >= 0x80);
        self.a = ror;
        self.set_a_flags();
    }

    /// Shift the operand left; the result is returned for the bus.
    pub fn exec_asl(&mut self, data: u8) -> (r: u8)
        ensures
            (*final(self), r) == old(self).asl(data),
    {
        self.p.set_c(data >= 0x80);
        let out: u8 = shift_left(data);
        self.set_flags(out);
        out
    }

    /// Whether BCC branches: C is clear.
    pub fn exec_bcc(&self) -> (r: bool)
        ensures
            r == !self.p.c(),
    {
        !self.p.c()
    }

    /// Whether BCS branches: C is set.
    pub fn exec_bcs(&self) -> (r: bool)
        ensures
            r == self.p.c(),
    {
        self.p.c()
    }

    /// Whether BEQ branches: Z is set.
    pub fn exec_beq(&self) -> (r: bool)
        ensures
            r == self.p.z(),
    {
        self.p.z()
    }

    /// Test the operand against A.
    pub fn exec_bit(&mut self, b: u8)
        ensures
            *final(self) == old(self).bit_test(b),
    {
        proof {
            lemma_top_bit(b);
        }
        self.p.set_n(b & 0x80 != 0);
        self.p.set_v(b & 0x40 != 0);
        self.p.set_z(self.a & b == 0);
    }

    /// Whether BMI branches: N is set.
    pub fn exec_bmi(&self) -> (r: bool)
        ensures
            r == self.p.n(),
    {
        self.p.n()
    }

    /// Whether BNE branches: Z is clear.
    pub fn exec_bne(&self) -> (r: bool)
        ensures
            r == !self.p.z(),
    {
        !self.p.z()
    }

    /// Whether BPL branches: N is clear.
    pub fn exec_bpl(&self) -> (r: bool)
        ensures
            r == !self.p.n(),
    {
        !self.p.n()
    }

    /// Whether BVC branches: V is clear.
    pub fn exec_bvc(&self) -> (r: bool)
        ensures
            r == !self.p.v(),
    {
        !self.p.v()
    }

    /// Whether BVS branches: V is set.
    pub fn exec_bvs(&self) -> (r: bool)
        ensures
            r == self.p.v(),
    {
        self.p.v()
    }

    /// Clear C.
    pub fn exec_clc(&mut self)
        ensures
            *final(self) == old(self).flagged(FLAG_C, false),
    {
        self.p.set_c(false);
    }

    /// Clear D.
    pub fn exec_cld(&mut self)
        ensures
            *final(self) == old(self).flagged(FLAG_D, false),
    {
        self.p.set_d(false);
    }

    /// Clear I.
    pub fn exec_cli(&mut self)
        ensures
            *final(self) == old(self).flagged(FLAG_I, false),
    {
        self.p.set_i(false);
    }

    /// Clear V.
    pub fn exec_clv(&mut self)
        ensures
            *final(self) == old(self).flagged(FLAG_V, false),
    {
        self.p.set_v(false);
    }

    /// Compare A with the operand.
    pub fn exec_cmp(&mut self, b: u8)
        ensures
            *final(self) == old(self).compare(old(self).a, b),
    {
        let r = sbc(self.a, b, true);
        self.p.set_c(r.1);
        self.set_flags(r.0);
    }

    /// Compare X with the operand.
    pub fn exec_cpx(&mut self, b: u8)
        ensures
            *final(self) == old(self).compare(old(self).x, b),
    {
        let r = sbc(self.x, b, true);
        self.p.set_c(r.1);
        self.set_flags(r.0);
    }

    /// Compare Y with the operand.
    pub fn exec_cpy(&mut self, b: u8)
        ensures
            *final(self) == old(self).compare(old(self).y, b),
    {
        let r = sbc(self.y, b, true);
        self.p.set_c(r.1);
        self.set_flags(r.0);
    }

    /// Take one from the operand, then compare A with the result.
    pub fn exec_dcp(&mut self, data: u8) -> (r: u8)
        ensures
            (*final(self), r) == old(self).dcp(data),
    {
        let out: u8 = self.exec_dec(data);
        self.exec_cmp(out);
        out
    }

    /// Take one from the operand; the result is returned for the bus.
    pub fn exec_dec(&mut self, data: u8) -> (r: u8)
        ensures
            (*final(self), r) == old(self).dec(data),
    {
        let out: u8 = byte_dec(data);
        self.set_flags(out);
        out
    }

    /// Take one from X.
    pub fn exec_dex(&mut self)
        ensures
            *final(self) == old(self).load_x(byte_add(old(self).x, -1)),
    {
        self.x = byte_dec(self.x);
        self.set_x_flags();
    }

    /// Take one from Y.
    pub fn exec_dey(&mut self)
        ensures
            *final(self) == old(self).load_y(byte_add(old(self).y, -1)),
    {
        self.y = byte_dec(self.y);
        self.set_y_flags();
    }

    /// Exclusive-OR the operand into A.
    pub fn exec_eor(&mut self, b: u8)
        ensures
            *final(self) == old(self).eor(b),
    {
        self.a = self.a ^ b;
        self.set_a_flags();
    }

    /// Add one to the operand; the result is returned for the bus.
    pub fn exec_inc(&mut self, data: u8) -> (r: u8)
        ensures
            (*final(self), r) == old(self).inc(data),
    {
        let out: u8 = byte_inc(data);
        self.set_flags(out);
        out
    }

    /// Add one to X.
    pub fn exec_inx(&mut self)
        ensures
            *final(self) == old(self).load_x(byte_add(old(self).x, 1)),
    {
        self.x = byte_inc(self.x);
        self.set_x_flags();
    }

    /// Add one to Y.
    pub fn exec_iny(&mut self)
        ensures
            *final(self) == old(self).load_y(byte_add(old(self).y, 1)),
    {
        self.y = byte_inc(self.y);
        self.set_y_flags();
    }

    /// Add one to the operand, then subtract the result from A.
    pub fn exec_isc(&mut self, data: u8) -> (r: u8)
        ensures
            (*final(self), r) == old(self).isc(data),
    {
        let out: u8 = self.exec_inc(data);
        self.exec_sbc(out);
        out
    }

    /// A, X and S become the operand AND S.
    pub fn exec_las(&mut self, data: u8)
        ensures
            *final(self) == old(self).las(data),
    {
        self.a = data & self.s;
        self.x = self.a;
        self.s = self.a;
        self.set_a_flags();
    }

    /// Load A and X.
    pub fn exec_lax(&mut self, data: u8)
        ensures
            *final(self) == old(self).lax(data),
    {
        self.a = data;
        self.x = data;
        self.set_a_flags();
    }

    /// Load A.
    pub fn exec_lda(&mut self, b: u8)
        ensures
            *final(self) == old(self).load_a(b),
    {
        self.a = b;
        self.set_a_flags();
    }

    /// Load X.
    pub fn exec_ldx(&mut self, b: u8)
        ensures
            *final(self) == old(self).load_x(b),
    {
        self.x = b;
        self.set_x_flags();
    }

    /// Load Y.
    pub fn exec_ldy(&mut self, b: u8)
        ensures
            *final(self) == old(self).load_y(b),
    {
        self.y = b;
        self.set_y_flags();
    }

    /// Shift the operand right; the result is returned for the bus.
    pub fn exec_lsr(&mut self, data: u8) -> (r: u8)
        ensures
            (*final(self), r) == old(self).lsr(data),
    {
        proof {
            lemma_top_bit(data);
        }
        self.p.set_c(data & 1 != 0);
        let out: u8 = shift_right(data);
        self.set_flags(out);
        out
    }

    /// A and X become `(A | magic) & operand`.
    pub fn exec_lxa(&mut self, data: u8, magic: u8)
        ensures
            *final(self) == old(self).lxa(data, magic),
    {
        let v: u8 = (self.a | magic) & data;
        self.exec_lax(v);
    }

    /// OR the operand into A.
    pub fn exec_ora(&mut self, b: u8)
        ensures
            *final(self) == old(self).ora(b),
    {
        self.a = self.a | b;
        self.set_a_flags();
    }

    /// Take the pulled byte into A.
    pub fn exec_pla(&mut self, data: u8)
        ensures
            *final(self) == old(self).load_a(data),
    {
        self.a = data;
        self.set_a_flags();
    }

    /// Take the pulled byte as the status register.
    pub fn exec_plp(&mut self, data: u8)
        ensures
            *final(self) == (Core { p: P::pulled(data), ..*old(self) }),
    {
        self.p = P::from_pull_byte(data);
    }

    /// Rotate the operand left, then AND the result into A.
    pub fn exec_rla(&mut self, b: u8) -> (r: u8)
        ensures
            (*final(self), r) == old(self).rla(b),
    {
        let out: u8 = self.exec_rol(b);
        self.exec_and(out);
        out
    }

    /// Rotate the operand left through C; the result is returned for the bus.
    pub fn exec_rol(&mut self, data: u8) -> (r: u8)
        ensures
            (*final(self), r) == old(self).rol(data),
    {
        let new_c: bool = data >= 0x80;
        let out: u8 = shift_left(data) + bool_byte(self.p.c());
        self.p.set_c(new_c);
        self.set_flags(out);
        out
    }

    /// Rotate the operand right through C; the result is returned for the bus.
    pub fn exec_ror(&mut self, data: u8) -> (r: u8)
        ensures
            (*final(self), r) == old(self).ror(data),
    {
        proof {
            lemma_top_bit(data);
        }
        let new_c: bool = data & 0x1 != 0;
        let out: u8 = shift_right(data) + bool_byte(self.p.c()) * 128;
        self.p.set_c(new_c);
        self.set_flags(out);
        out
    }

    /// Rotate the operand right, then add the result to A.
    pub fn exec_rra(&mut self, b: u8) -> (r: u8)
        ensures
            (*final(self), r) == old(self).rra(b),
    {
        let out: u8 = self.exec_ror(b);
        self.exec_adc(out);
        out
    }

    /// Subtract the operand and the borrow from A: add its complement.
    pub fn exec_sbc(&mut self, b: u8)
        ensures
            *final(self) == old(self).sbc(b),
    {
        let r = sbc(self.a, b, self.p.c());
        self.a = r.0;
        self.set_a_flags();
        self.p.set_c(r.1);
        self.p.set_v(r.2);
    }

    /// Set C.
    pub fn exec_sec(&mut self)
        ensures
            *final(self) == old(self).flagged(FLAG_C, true),
    {
        self.p.set_c(true);
    }

    /// Set D.
    pub fn exec_sed(&mut self)
        ensures
            *final(self) == old(self).flagged(FLAG_D, true),
    {
        self.p.set_d(true);
    }

    /// Set I.
    pub fn exec_sei(&mut self)
        ensures
            *final(self) == old(self).flagged(FLAG_I, true),
    {
        self.p.set_i(true);
    }

    /// X becomes `(A & X)` minus the operand, with C as in a comparison.
    pub fn exec_sbx(&mut self, b: u8)
        ensures
            *final(self) == old(self).sbx(b),
    {
        let r = sbc(self.a & self.x, b, true);
        self.x = r.0;
        self.set_x_flags();
        self.p.set_c(r.1);
    }

    /// The value and the address of the store of `A & X & (high + 1)`.
    pub fn exec_sha(&mut self, addr: u16, wrap: bool) -> (r: (u8, u16))
        ensures
            *final(self) == *old(self),
            r == Core::store_high((old(self).a & old(self).x), addr, wrap),
    {
        store_high_byte(self.a & self.x, addr, wrap)
    }

    /// The value and the address of the store of `X & (high + 1)`.
    pub fn exec_shx(&mut self, addr: u16, wrap: bool) -> (r: (u8, u16))
        ensures
            *final(self) == *old(self),
            r == Core::store_high(old(self).x, addr, wrap),
    {
        store_high_byte(self.x, addr, wrap)
    }

    /// The value and the address of the store of `Y & (high + 1)`.
    pub fn exec_shy(&mut self, addr: u16, wrap: bool) -> (r: (u8, u16))
        ensures
            *final(self) == *old(self),
            r == Core::store_high(old(self).y, addr, wrap),
    {
        store_high_byte(self.y, addr, wrap)
    }

    /// Shift the operand left, then OR the result into A.
    pub fn exec_slo(&mut self, b: u8) -> (r: u8)
        ensures
            (*final(self), r) == old(self).slo(b),
    {
        let out: u8 = self.exec_asl(b);
        self.exec_ora(out);
        out
    }

    /// Shift the operand right, then exclusive-OR the result into A.
    pub fn exec_sre(&mut self, b: u8) -> (r: u8)
        ensures
            (*final(self), r) == old(self).sre(b),
    {
        let out: u8 = self.exec_lsr(b);
        self.exec_eor(out);
        out
    }

    /// S becomes `A & X`; the store is that of SHA.
    pub fn exec_tas(&mut self, addr: u16, wrap: bool) -> (r: (u8, u16))
        ensures
            *final(self) == old(self).tas(),
            r == Core::store_high((old(self).a & old(self).x), addr, wrap),
    {
        self.s = self.a & self.x;
        self.exec_sha(addr, wrap)
    }

    /// Copy A to X.
    pub fn exec_tax(&mut self)
        ensures
            *final(self) == old(self).load_x(old(self).a),
    {
        self.x = self.a;
        self.set_x_flags();
    }

    /// Copy A to Y.
    pub fn exec_tay(&mut self)
        ensures
            *final(self) == old(self).load_y(old(self).a),
    {
        self.y = self.a;
        self.set_y_flags();
    }

    /// Copy S to X.
    pub fn exec_tsx(&mut self)
        ensures
            *final(self) == old(self).load_x(old(self).s),
    {
        self.x = self.s;
        self.set_x_flags();
    }

    /// Copy X to A.
    pub fn exec_txa(&mut self)
        ensures
            *final(self) == old(self).load_a(old(self).x),
    {
        self.a = self.x;
        self.set_a_flags();
    }

    /// Copy X to S; no flag changes.
    pub fn exec_txs(&mut self)
        ensures
            *final(self) == (Core { s: old(self).x, ..*old(self) }),
    {
        self.s = self.x;
    }

    /// Copy Y to A.
    pub fn exec_tya(&mut self)
        ensures
            *final(self) == old(self).load_a(old(self).y),
    {
        self.a = self.y;
        self.set_a_flags();
    }
}

/// The value and the address of an unstable store of the register value `reg`.
fn store_high_byte(reg: u8, addr: u16, wrap: bool) -> (r: (u8, u16))
    ensures
        r == Core::store_high(reg, addr, wrap),
{
    let high: u8 = high_byte(addr);
    let out: u8 = reg & (if wrap { high } else { byte_inc(high) });
    let page: u8 = if wrap { out } else { high };
    proof {
        lemma_join_split(0, 0, addr);
    }
    (out, make_word(low_byte(addr), page))
}

} // verus!
