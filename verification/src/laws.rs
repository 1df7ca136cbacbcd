//! What holds of the processor in every state.
//!
//! The statements are over the register file and over the transition
//! function of the sequencer; the executable code is held to both by its
//! contracts.

use vstd::prelude::*;
use crate::bits::{bit, byte_add, hi, join, lo, page_differs, same_page, word, word_add};
use crate::bits::lemma_masks_commute;
use crate::instr::{opcode_mode, opcode_op, Am, Op};
use crate::regs::{add_with_carry, lemma_flag_write, sub_with_borrow, Core, P};
use crate::regs::{FLAG_B, FLAG_C, FLAG_D, FLAG_I, FLAG_N, FLAG_O, FLAG_V, FLAG_Z};
use crate::step::{lemma_apply_op_frame, lemma_begin_instruction, lemma_dispatch_orderly, lemma_step_wf};
use crate::step::{stack_addr, Brk, Pins, State};

verus! {

/// An addition undone by the subtraction of the same operand gives back the
/// accumulator, when the subtraction starts with the complement of the carry
/// that the addition started with. The carry that comes out of the
/// subtraction is then the complement of the one that came out of the
/// addition.
pub proof fn lemma_adc_sbc_round_trip(a: u8, b: u8, c: bool)
    ensures
        sub_with_borrow(add_with_carry(a, b, c).0, b, !c).0 == a,
        sub_with_borrow(add_with_carry(a, b, c).0, b, !c).1 == !add_with_carry(a, b, c).1,
{
}

/// Subtraction with the carry as the complement of a borrow: the difference
/// is `a - b - (1 - c)` modulo 256 and the carry out says that no borrow
/// was needed.
pub proof fn lemma_sub_with_borrow(a: u8, b: u8, c: bool)
    ensures
        sub_with_borrow(a, b, c).0 == byte_add(a, bit(c) - 1 - b),
        sub_with_borrow(a, b, c).1 == (a + bit(c) - 1 >= b),
{
}

/// The round trip on the register file: ADC, the carry set to the
/// complement of what it was before the ADC, SBC of the same operand.
pub proof fn lemma_adc_sbc_restores_accumulator(core: Core, b: u8)
    ensures
        core.adc(b).flagged(FLAG_C, !core.p.c()).sbc(b).a == core.a,
{
    let t = core.adc(b).flagged(FLAG_C, !core.p.c());
    lemma_flag_write(core.adc(b).p, FLAG_C, FLAG_C, !core.p.c());
    lemma_adc_sbc_round_trip(core.a, b, core.p.c());
}

/// The decimal flag has no effect on addition and subtraction: with the
/// flag set or clear, ADC and SBC leave the same accumulator, and what they
/// leave in the status register differs in the decimal flag alone.
pub proof fn lemma_decimal_has_no_effect(core: Core, b: u8, d: bool)
    ensures
        core.flagged(FLAG_D, d).adc(b) == core.adc(b).flagged(FLAG_D, d),
        core.flagged(FLAG_D, d).sbc(b) == core.sbc(b).flagged(FLAG_D, d),
{
    lemma_flag_write(core.p, FLAG_D, FLAG_C, d);
    let r = add_with_carry(core.a, b, core.p.c());
    lemma_decimal_commutes(core.p, d, r.0 >= 128, r.0 == 0, r.1, r.2);
    let t = sub_with_borrow(core.a, b, core.p.c());
    lemma_decimal_commutes(core.p, d, t.0 >= 128, t.0 == 0, t.1, t.2);
}

proof fn lemma_decimal_commutes(p: P, d: bool, n: bool, z: bool, c: bool, v: bool)
    ensures
        p.with_flag(FLAG_D, d).with_flag(FLAG_N, n).with_flag(FLAG_Z, z).with_flag(
            FLAG_C,
            c,
        ).with_flag(FLAG_V, v) == p.with_flag(FLAG_N, n).with_flag(FLAG_Z, z).with_flag(
            FLAG_C,
            c,
        ).with_flag(FLAG_V, v).with_flag(FLAG_D, d),
{
    lemma_masks_commute(p.0, FLAG_D, FLAG_N, d, n);
    let f1 = p.with_flag(FLAG_N, n);
    lemma_masks_commute(f1.0, FLAG_D, FLAG_Z, d, z);
    let f2 = f1.with_flag(FLAG_Z, z);
    lemma_masks_commute(f2.0, FLAG_D, FLAG_C, d, c);
    let f3 = f2.with_flag(FLAG_C, c);
    lemma_masks_commute(f3.0, FLAG_D, FLAG_V, d, v);
}

/// After an index was added to `base`, an unstable store writes the
/// register value ANDed with the high byte of `base` plus one, page cross or
/// not. Without a page cross it writes to the sum; with one, to the address
/// whose low byte is that of the sum and whose high byte is the value.
pub proof fn lemma_unstable_store(reg: u8, base: u16, index: u8)
    ensures
        ({
            let sum = word_add(base, index as int);
            let crossed = page_differs(base, sum);
            let value = reg & byte_add(hi(base), 1);
            &&& Core::store_high_value(reg, sum, crossed) == value
            &&& Core::store_high_addr(reg, sum, crossed) == (if crossed {
                join(lo(sum), value)
            } else {
                sum
            })
        }),
{
    let sum = word_add(base, index as int);
    if page_differs(base, sum) {
        assert(hi(sum) == byte_add(hi(base), 1)) by {
            if base + index >= 65536 {
                assert(sum == base + index - 65536);
            } else {
                assert(sum == base + index);
            }
        }
    }
}

/// Whether N and Z say what the accumulator holds: N its bit 7, Z that it
/// is zero.
pub open spec fn flags_follow_a(core: Core) -> bool {
    core.p.n() == (core.a >= 128) && core.p.z() == (core.a == 0)
}

/// N and Z taken from a byte say what the byte holds, and writing C or V
/// afterwards does not touch them.
pub proof fn lemma_flags_from(core: Core, v: u8, c: bool, o: bool)
    ensures
        core.flags_from(v).p.n() == (v >= 128),
        core.flags_from(v).p.z() == (v == 0),
        core.flags_from(v).flagged(FLAG_C, c).p.n() == (v >= 128),
        core.flags_from(v).flagged(FLAG_C, c).p.z() == (v == 0),
        core.flags_from(v).flagged(FLAG_C, c).flagged(FLAG_V, o).p.n() == (v >= 128),
        core.flags_from(v).flagged(FLAG_C, c).flagged(FLAG_V, o).p.z() == (v == 0),
{
    let f1 = core.p.with_flag(FLAG_N, v >= 128);
    let f2 = f1.with_flag(FLAG_Z, v == 0);
    let f3 = f2.with_flag(FLAG_C, c);
    lemma_flag_write(core.p, FLAG_N, FLAG_N, v >= 128);
    lemma_flag_write(f1, FLAG_Z, FLAG_N, v == 0);
    lemma_flag_write(f1, FLAG_Z, FLAG_Z, v == 0);
    lemma_flag_write(f2, FLAG_C, FLAG_N, c);
    lemma_flag_write(f2, FLAG_C, FLAG_Z, c);
    lemma_flag_write(f3, FLAG_V, FLAG_N, o);
    lemma_flag_write(f3, FLAG_V, FLAG_Z, o);
}

/// After every operation that writes the accumulator, N is bit 7 of the
/// accumulator and Z says that it is zero.
pub proof fn lemma_accumulator_flags(core: Core, b: u8, magic: u8)
    ensures
        flags_follow_a(core.adc(b)),
        flags_follow_a(core.sbc(b)),
        flags_follow_a(core.and(b)),
        flags_follow_a(core.ora(b)),
        flags_follow_a(core.eor(b)),
        flags_follow_a(core.anc(b)),
        flags_follow_a(core.ane(b, magic)),
        flags_follow_a(core.alr(b)),
        flags_follow_a(core.arr(b)),
        flags_follow_a(core.las(b)),
        flags_follow_a(core.lax(b)),
        flags_follow_a(core.lxa(b, magic)),
        flags_follow_a(core.load_a(b)),
        flags_follow_a(core.slo(b).0),
        flags_follow_a(core.rla(b).0),
        flags_follow_a(core.sre(b).0),
        flags_follow_a(core.rra(b).0),
        flags_follow_a(core.isc(b).0),
{
    lemma_loads_follow(core, b, magic);
    lemma_sums_follow(core, b);
    lemma_sums_follow(core.ror(b).0, core.ror(b).1);
    lemma_sums_follow(core.inc(b).0, core.inc(b).1);
    lemma_loads_follow(core.asl(b).0, core.asl(b).1, magic);
    lemma_loads_follow(core.rol(b).0, core.rol(b).1, magic);
    lemma_loads_follow(core.lsr(b).0, core.lsr(b).1, magic);
}

proof fn lemma_loads_follow(core: Core, b: u8, magic: u8)
    ensures
        flags_follow_a(core.and(b)),
        flags_follow_a(core.ora(b)),
        flags_follow_a(core.eor(b)),
        flags_follow_a(core.anc(b)),
        flags_follow_a(core.ane(b, magic)),
        flags_follow_a(core.alr(b)),
        flags_follow_a(core.arr(b)),
        flags_follow_a(core.las(b)),
        flags_follow_a(core.lax(b)),
        flags_follow_a(core.lxa(b, magic)),
        flags_follow_a(core.load_a(b)),
{
    lemma_flags_from(Core { a: core.a & b, ..core }, core.a & b, (core.a & b) >= 128, false);
    lemma_flags_from(Core { a: core.a | b, ..core }, core.a | b, false, false);
    lemma_flags_from(Core { a: core.a ^ b, ..core }, core.a ^ b, false, false);
    lemma_flags_from(Core { a: b, ..core }, b, false, false);
    lemma_flags_from(Core { a: b, x: b, ..core }, b, false, false);
    let e = (core.a | magic) & core.x & b;
    lemma_flags_from(Core { a: e, ..core }, e, false, false);
    let l = (core.a | magic) & b;
    lemma_flags_from(Core { a: l, x: l, ..core }, l, false, false);
    let s = b & core.s;
    lemma_flags_from(Core { a: s, x: s, s: s, ..core }, s, false, false);
    let t = core.and(b).lsr(core.a & b);
    lemma_flags_from(core.and(b).flagged(FLAG_C, (core.a & b) % 2 == 1), t.1, false, false);
    let and = core.a & b;
    let out = (and / 2 + 128 * bit(core.p.c())) as u8;
    lemma_flags_from(
        Core { a: out, ..core }.flagged(FLAG_V, (and >= 128) != (and % 128 >= 64)).flagged(
            FLAG_C,
            and >= 128,
        ),
        out,
        false,
        false,
    );
}

proof fn lemma_sums_follow(core: Core, b: u8)
    ensures
        flags_follow_a(core.adc(b)),
        flags_follow_a(core.sbc(b)),
{
    let r = add_with_carry(core.a, b, core.p.c());
    lemma_flags_from(Core { a: r.0, ..core }, r.0, r.1, r.2);
    let d = sub_with_borrow(core.a, b, core.p.c());
    lemma_flags_from(Core { a: d.0, ..core }, d.0, d.1, d.2);
}

/// A shift or a rotate of the accumulator leaves its result there, with N
/// and Z to match.
pub proof fn lemma_accumulator_shift_flags(s: State, b: Pins)
    requires
        s.am == Am::Accumulator,
        s.cycle == 1,
        s.op == Op::Asl || s.op == Op::Lsr || s.op == Op::Rol || s.op == Op::Ror,
    ensures
        flags_follow_a(s.dispatch(b).0.core),
        s.op == Op::Asl ==> s.dispatch(b).0.core.a == s.core.asl(s.core.a).1,
        s.op == Op::Lsr ==> s.dispatch(b).0.core.a == s.core.lsr(s.core.a).1,
        s.op == Op::Rol ==> s.dispatch(b).0.core.a == s.core.rol(s.core.a).1,
        s.op == Op::Ror ==> s.dispatch(b).0.core.a == s.core.ror(s.core.a).1,
{
    reveal(State::apply_op);
    let c = s.core;
    let a = c.a;
    lemma_flags_from(c.flagged(FLAG_C, a >= 128), c.asl(a).1, false, false);
    lemma_flags_from(c.flagged(FLAG_C, a >= 128), c.rol(a).1, false, false);
    lemma_flags_from(c.flagged(FLAG_C, a % 2 == 1), c.lsr(a).1, false, false);
    lemma_flags_from(c.flagged(FLAG_C, a % 2 == 1), c.ror(a).1, false, false);
}

/// BIT puts bit 7 of the operand in N and bit 6 in V, whatever the
/// accumulator holds, and leaves the registers alone.
pub proof fn lemma_bit_flags(core: Core, b: u8)
    ensures
        core.bit_test(b).p.n() == (b >= 128),
        core.bit_test(b).p.v() == (b % 128 >= 64),
        core.bit_test(b).p.z() == (core.a & b == 0),
        core.bit_test(b) == (Core { p: core.bit_test(b).p, ..core }),
{
    let f1 = core.p.with_flag(FLAG_N, b >= 128);
    let f2 = f1.with_flag(FLAG_V, b % 128 >= 64);
    lemma_flag_write(core.p, FLAG_N, FLAG_N, b >= 128);
    lemma_flag_write(f1, FLAG_V, FLAG_N, b % 128 >= 64);
    lemma_flag_write(f1, FLAG_V, FLAG_V, b % 128 >= 64);
    lemma_flag_write(f2, FLAG_Z, FLAG_N, core.a & b == 0);
    lemma_flag_write(f2, FLAG_Z, FLAG_V, core.a & b == 0);
    lemma_flag_write(f2, FLAG_Z, FLAG_Z, core.a & b == 0);
}

/// A pushed status byte has the unused bit set and the break bit as asked;
/// a pulled one has the unused bit set and the break bit clear. Neither
/// touches another flag.
pub proof fn lemma_push_pull_bits(p: P, b: bool, d: u8, k: u8)
    requires
        crate::bits::single_bit(k),
        k != FLAG_B,
        k != FLAG_O,
    ensures
        P(p.pushed(b)).b() == b,
        P(p.pushed(b)).o(),
        P(p.pushed(b)).flag(k) == p.flag(k),
        !P::pulled(d).b(),
        P::pulled(d).o(),
        P::pulled(d).flag(k) == P(d).flag(k),
{
    let f1 = p.with_flag(FLAG_B, b);
    lemma_flag_write(p, FLAG_B, FLAG_B, b);
    lemma_flag_write(p, FLAG_B, k, b);
    lemma_flag_write(f1, FLAG_O, FLAG_O, true);
    lemma_flag_write(f1, FLAG_O, FLAG_B, true);
    lemma_flag_write(f1, FLAG_O, k, true);
    let g1 = P(d).with_flag(FLAG_O, true);
    lemma_flag_write(P(d), FLAG_O, FLAG_O, true);
    lemma_flag_write(P(d), FLAG_O, k, true);
    lemma_flag_write(g1, FLAG_B, FLAG_B, false);
    lemma_flag_write(g1, FLAG_B, FLAG_O, false);
    lemma_flag_write(g1, FLAG_B, k, false);
}

/// The status byte goes to the stack in cycle 3 of an interrupt sequence
/// and in cycle 1 of PHP. BRK and PHP write it with the break bit set, IRQ
/// and NMI with the break bit clear, and a reset writes nothing.
pub proof fn lemma_pushed_break_bit(s: State, b: Pins)
    ensures
        s.op == Op::Brk && s.am == Am::Implied && s.cycle == 3 && s.brk != Brk::Res ==> {
            let out = s.dispatch(b).1;
            &&& !out.rw
            &&& out.addr == stack_addr(s.core.s)
            &&& P(out.data).b() == (s.brk == Brk::Brk)
            &&& P(out.data).o()
        },
        s.op == Op::Brk && s.am == Am::Implied && s.cycle == 3 && s.brk == Brk::Res ==> {
            let out = s.dispatch(b).1;
            &&& out.rw
            &&& out.data == b.data
        },
        s.op == Op::Php && s.am == Am::Implied && s.cycle == 1 ==> {
            let out = s.dispatch(b).1;
            &&& !out.rw
            &&& out.addr == stack_addr(s.core.s)
            &&& P(out.data).b()
            &&& P(out.data).o()
        },
{
    reveal(State::apply_op);
    lemma_push_pull_bits(s.core.p, true, 0, 1);
    lemma_push_pull_bits(s.core.p, false, 0, 1);
}

/// Whatever byte PLP or RTI pulls, the status register then has the break
/// bit clear and the unused bit set.
pub proof fn lemma_pulled_status(s: State, b: Pins)
    ensures
        s.op == Op::Plp && s.am == Am::Implied && s.cycle == 3 ==> {
            let p = s.dispatch(b).0.core.p;
            p == P::pulled(b.data) && !p.b() && p.o()
        },
        s.op == Op::Rti && s.am == Am::Implied && s.cycle == 3 ==> {
            let p = s.dispatch(b).0.core.p;
            p == P::pulled(b.data) && !p.b() && p.o()
        },
{
    reveal(State::apply_op);
    lemma_push_pull_bits(s.core.p, true, b.data, 1);
}

/// The state after the cycle that finds `b` on the bus.
#[verifier::opaque]
pub open spec fn after(s: State, b: Pins) -> State {
    s.step(b).0
}

/// The bus as the cycle that finds `b` on it leaves it.
#[verifier::opaque]
pub open spec fn driven(s: State, b: Pins) -> Pins {
    s.step(b).1
}

/// The state after the first `k` cycles, of which the `i`-th finds `bs[i]`
/// on the bus.
pub open spec fn run(s: State, bs: Seq<Pins>, k: nat) -> State
    recommends
        k <= bs.len(),
    decreases k,
{
    if k == 0 {
        s
    } else {
        after(run(s, bs, (k - 1) as nat), bs[k - 1])
    }
}

/// Any number of cycles leaves the sequencer in an instruction of the
/// matrix and within its schedule.
pub proof fn lemma_run_wf(s: State, bs: Seq<Pins>, k: nat)
    requires
        s.wf(),
        k <= bs.len(),
    ensures
        run(s, bs, k).wf(),
    decreases k,
{
    reveal(after);
    if k > 0 {
        lemma_run_wf(s, bs, (k - 1) as nat);
        lemma_step_wf(run(s, bs, (k - 1) as nat), bs[k - 1]);
    }
}

/// Whether the cycle that starts in `s` begins the instruction of the opcode
/// on the bus: the last cycle was an opcode fetch and no interrupt takes
/// its place.
pub open spec fn begins_opcode(s: State) -> bool {
    s.cycle == 0 && !s.res_scheduled && !s.nmi_scheduled && !(s.irq_scheduled && !s.core.p.i())
}

/// SYNC is high on the opcode fetch and on no other cycle, and the cycle
/// counter is zero after exactly those cycles. An opcode fetch reads at the
/// program counter.
pub proof fn lemma_sync_marks_fetch(s: State, b: Pins)
    requires
        s.wf(),
    ensures
        s.step(b).1.sync == (s.step(b).0.cycle == 0),
        s.step(b).1.sync ==> s.step(b).1.rw && s.step(b).1.addr == s.step(b).0.core.pc,
{
    let t = if s.cycle == 0 { s.begin(b) } else { s };
    if s.cycle == 0 {
        lemma_begin_instruction(s, b);
    }
    if !(t.op == Op::Jam && t.am == Am::Implied) {
        lemma_dispatch_orderly(t, b);
    }
}

/// The processor drives the address, the direction and SYNC. The interrupt
/// and reset lines are the host's, and so is the data on a read.
pub proof fn lemma_host_lines(s: State, b: Pins)
    requires
        s.wf(),
    ensures
        s.step(b).1.irq == b.irq,
        s.step(b).1.nmi == b.nmi,
        s.step(b).1.res == b.res,
        s.step(b).1.rw ==> s.step(b).1.data == b.data,
{
    let t = if s.cycle == 0 { s.begin(b) } else { s };
    if s.cycle == 0 {
        lemma_begin_instruction(s, b);
    }
    if !(t.op == Op::Jam && t.am == Am::Implied) {
        lemma_dispatch_orderly(t, b);
    }
}

/// The latches after a cycle. IRQ and RES are the levels of their lines. An
/// NMI is pending when the line rose in this cycle, or when one was pending
/// and this cycle did not begin its sequence.
pub proof fn lemma_latches(s: State, b: Pins)
    requires
        s.wf(),
    ensures
        after(s, b).irq_scheduled == b.irq,
        after(s, b).res_scheduled == b.res,
        after(s, b).last_nmi == b.nmi,
        after(s, b).nmi_scheduled == ((s.nmi_scheduled && !(s.cycle == 0 && !s.res_scheduled))
            || (!s.last_nmi && b.nmi)),
{
    reveal(after);
    let t = if s.cycle == 0 { s.begin(b) } else { s };
    if s.cycle == 0 {
        lemma_begin_instruction(s, b);
    }
    if !(t.op == Op::Jam && t.am == Am::Implied) {
        lemma_dispatch_orderly(t, b);
    }
}

/// What begins at an instruction boundary. With the reset line seen high,
/// the reset sequence; else with an NMI pending, the NMI sequence, and the
/// NMI is pending no more; else with the IRQ line seen high and the I flag
/// clear, the IRQ sequence. In all three the program counter stays on the
/// opcode that was fetched. Otherwise that opcode is decoded and the program
/// counter moves on.
pub proof fn lemma_interrupt_window(s: State, b: Pins)
    requires
        s.cycle == 0,
    ensures
        s.res_scheduled ==> {
            let t = s.begin(b);
            t.op == Op::Brk && t.am == Am::Implied && t.brk == Brk::Res && t.core == s.core
        },
        !s.res_scheduled && s.nmi_scheduled ==> {
            let t = s.begin(b);
            t.op == Op::Brk && t.am == Am::Implied && t.brk == Brk::Nmi && !t.nmi_scheduled
                && t.core == s.core
        },
        !s.res_scheduled && !s.nmi_scheduled && s.irq_scheduled && !s.core.p.i() ==> {
            let t = s.begin(b);
            t.op == Op::Brk && t.am == Am::Implied && t.brk == Brk::Irq && t.core == s.core
        },
        begins_opcode(s) ==> {
            let t = s.begin(b);
            t.op == opcode_op(b.data) && t.am == opcode_mode(b.data) && t.brk == Brk::Brk
                && t.core.pc == word_add(s.core.pc, 1)
        },
{
}

/// While the NMI line stays high after it was seen high, no further NMI
/// becomes pending, however many cycles pass.
pub proof fn lemma_nmi_held(s: State, bs: Seq<Pins>, k: nat)
    requires
        s.wf(),
        s.last_nmi,
        !s.nmi_scheduled,
        k <= bs.len(),
        forall|i: int| 0 <= i < k ==> (#[trigger] bs[i]).nmi,
    ensures
        !run(s, bs, k).nmi_scheduled,
        run(s, bs, k).last_nmi,
    decreases k,
{
    if k > 0 {
        lemma_nmi_held(s, bs, (k - 1) as nat);
        lemma_run_wf(s, bs, (k - 1) as nat);
        lemma_latches(run(s, bs, (k - 1) as nat), bs[k - 1]);
    }
}

/// A rising edge of the NMI line makes one NMI pending, and the pending NMI
/// is taken at the next instruction boundary whatever the line does then,
/// unless a reset is asked for.
pub proof fn lemma_nmi_edge(s: State, b: Pins, c: Pins)
    requires
        s.wf(),
        !s.last_nmi,
        b.nmi,
        !b.res,
    ensures
        after(s, b).nmi_scheduled,
        after(s, b).cycle == 0 ==> after(s, b).begin(c).brk == Brk::Nmi && !after(s, b).begin(
            c,
        ).nmi_scheduled,
{
    lemma_latches(s, b);
}

/// An IRQ is a matter of the level alone: at every instruction boundary
/// that follows a cycle with the line high, with the I flag clear, no NMI
/// pending and no reset asked for, the IRQ sequence begins.
pub proof fn lemma_irq_level(s: State, b: Pins, c: Pins)
    requires
        s.wf(),
        b.irq,
        !b.res,
        after(s, b).cycle == 0,
        !after(s, b).core.p.i(),
        !after(s, b).nmi_scheduled,
    ensures
        after(s, b).begin(c).op == Op::Brk,
        after(s, b).begin(c).brk == Brk::Irq,
        after(s, b).begin(c).irq_scheduled,
{
    lemma_latches(s, b);
}

/// Whether the processor hangs in a JAM.
pub open spec fn jammed(s: State) -> bool {
    s.op == Op::Jam && s.am == Am::Implied && 1 <= s.cycle <= 4
}

/// A jammed processor stays jammed: it reads and never fetches an opcode.
pub proof fn lemma_jam_holds(s: State, b: Pins)
    requires
        jammed(s),
    ensures
        jammed(after(s, b)),
        s.step(b).1.rw,
        !s.step(b).1.sync,
        s.cycle == 4 ==> s.step(b).1.addr == 0xFFFF,
        after(s, b).core == s.core,
{
    reveal(after);
}

/// However many cycles pass, a jammed processor is still jammed.
pub proof fn lemma_jam_forever(s: State, bs: Seq<Pins>, k: nat)
    requires
        jammed(s),
        k <= bs.len(),
    ensures
        jammed(run(s, bs, k)),
        run(s, bs, k).cycle != 0,
        run(s, bs, k).core == s.core,
    decreases k,
{
    if k > 0 {
        lemma_jam_forever(s, bs, (k - 1) as nat);
        lemma_jam_holds(run(s, bs, (k - 1) as nat), bs[k - 1]);
    }
}

/// The state and the bus after a push of each byte of `data`, in order.
pub open spec fn pushes(s: State, b: Pins, data: Seq<u8>) -> (State, Pins)
    decreases data.len(),
{
    if data.len() == 0 {
        (s, b)
    } else {
        let r = pushes(s, b, data.drop_last());
        r.0.push(r.1, data.last())
    }
}

/// Every push writes into the page `$0100..=$01FF`, and the stack pointer
/// is down by the number of pushes modulo 256: after 256 pushes it is where
/// it was.
pub proof fn lemma_stack_wrap(s: State, b: Pins, data: Seq<u8>)
    ensures
        pushes(s, b, data).0.core.s == byte_add(s.core.s, -data.len()),
        data.len() == 256 ==> pushes(s, b, data).0.core.s == s.core.s,
        data.len() > 0 ==> 0x100 <= pushes(s, b, data).1.addr <= 0x1FF && !pushes(
            s,
            b,
            data,
        ).1.rw,
    decreases data.len(),
{
    if data.len() > 0 {
        lemma_stack_wrap(s, b, data.drop_last());
    }
}

/// The stack lies in the page `$0100..=$01FF` wherever the stack pointer is,
/// and a pull undoes a push.
pub proof fn lemma_stack_page(s: State, b: Pins, d: u8)
    ensures
        0x100 <= stack_addr(s.core.s) <= 0x1FF,
        0x100 <= s.push(b, d).1.addr <= 0x1FF,
        0x100 <= s.pull(b).1.addr <= 0x1FF,
        s.push(b, d).0.pull(b).0.core.s == s.core.s,
        s.push(b, d).0.pull(b).1.addr == s.push(b, d).1.addr,
{
}

/// The first cycle of an instruction with an operand: the opcode on the bus
/// is taken in, and the byte after it is read.
pub proof fn lemma_first_cycle(s: State, b: Pins)
    requires
        begins_opcode(s),
        opcode_mode(b.data) != Am::Implied,
        opcode_mode(b.data) != Am::Accumulator,
    ensures
        after(s, b).op == opcode_op(b.data),
        after(s, b).am == opcode_mode(b.data),
        after(s, b).cycle == 1,
        after(s, b).core == (Core { pc: word_add(s.core.pc, 2), ..s.core }),
        driven(s, b) == b.read(word_add(s.core.pc, 1)),
{
    reveal(after);
    reveal(driven);
}

proof fn lemma_jump_goes(s: State)
    requires
        s.op == Op::Jmp,
    ensures
        s.apply_op() == s.with_pc(s.addr),
{
    reveal(State::apply_op);
}

proof fn lemma_next_in_page(addr: u16)
    ensures
        same_page(addr, word_add(addr, 1)) == join(byte_add(lo(addr), 1), hi(addr)),
{
    assert(lo(word_add(addr, 1)) == byte_add(lo(addr), 1)) by {
        if addr == 0xFFFF {
        } else {
            assert((addr + 1) % 256 == (addr % 256 + 1) % 256);
        }
    }
}

proof fn lemma_indirect_cycles(s: State, b: Pins)
    requires
        s.op == Op::Jmp,
        s.am == Am::Indirect,
        1 <= s.cycle <= 4,
    ensures
        after(s, b).op == s.op,
        after(s, b).am == s.am,
        s.cycle < 4 ==> after(s, b).cycle == s.cycle + 1,
        s.cycle == 1 ==> after(s, b).addr == word(b.data),
        s.cycle == 2 ==> after(s, b).addr == join(lo(s.addr), b.data) && driven(s, b).addr
            == join(lo(s.addr), b.data),
        s.cycle == 3 ==> after(s, b).addr == word(b.data) && driven(s, b).addr == join(
            byte_add(lo(s.addr), 1),
            hi(s.addr),
        ),
        s.cycle == 4 ==> after(s, b).cycle == 0 && after(s, b).core.pc == join(
            lo(s.addr),
            b.data,
        ) && driven(s, b) == b.read_sync(join(lo(s.addr), b.data)),
{
    reveal(after);
    reveal(driven);
    lemma_next_in_page(s.addr);
    lemma_jump_goes(s.with_addr(join(lo(s.addr), b.data)));
    assert(s.dispatch(b) == s.step_indirect(b));
}

/// The indirect jump takes five cycles. It reads the low byte of the
/// target at the pointer and the high byte at the next address in the page
/// of the pointer: where the pointer is the last byte of a page, at the
/// first byte of that page and not of the next.
pub proof fn lemma_jmp_indirect(s: State, b0: Pins, b1: Pins, b2: Pins, b3: Pins, b4: Pins)
    requires
        begins_opcode(s),
        b0.data == 0x6C,
    ensures
        ({
            let t1 = after(s, b0);
            let t2 = after(t1, b1);
            let t3 = after(t2, b2);
            let t4 = after(t3, b3);
            let t5 = after(t4, b4);
            let pointer = join(b1.data, b2.data);
            &&& t1.cycle != 0 && t2.cycle != 0 && t3.cycle != 0 && t4.cycle != 0 && t5.cycle == 0
            &&& driven(t2, b2).addr == pointer
            &&& driven(t3, b3).addr == join(byte_add(b1.data, 1), b2.data)
            &&& b1.data == 0xFF ==> driven(t3, b3).addr == join(0, b2.data)
            &&& t5.core.pc == join(b3.data, b4.data)
            &&& driven(t4, b4).sync
            &&& driven(t4, b4).addr == join(b3.data, b4.data)
        }),
{
    let t1 = after(s, b0);
    let t2 = after(t1, b1);
    let t3 = after(t2, b2);
    let t4 = after(t3, b3);
    assert(crate::instr::decoding(0x6C) == (Op::Jmp, Am::Indirect));
    lemma_first_cycle(s, b0);
    lemma_indirect_cycles(t1, b1);
    lemma_indirect_cycles(t2, b2);
    lemma_indirect_cycles(t3, b3);
    lemma_indirect_cycles(t4, b4);
}

/// The index register that an indexed absolute mode adds.
pub open spec fn index_of(am: Am, core: Core) -> u8 {
    if am == Am::AbsoluteX { core.x } else { core.y }
}

pub(crate) proof fn lemma_indexed_cycles(s: State, b: Pins, first: int)
    requires
        (s.am == Am::AbsoluteX || s.am == Am::AbsoluteY) && first == 2 || s.am
            == Am::IndirectIndexed && first == 3,
        first <= s.cycle <= first + 4,
        s.op.is_load() || s.op.is_store() || s.op.is_rmw(),
    ensures
        after(s, b).op == s.op,
        after(s, b).am == s.am,
        after(s, b).wrap == (if s.cycle == first {
            page_differs(
                join(lo(s.addr), b.data),
                word_add(
                    join(lo(s.addr), b.data),
                    (if s.am == Am::IndirectIndexed {
                        s.core.y
                    } else {
                        index_of(s.am, s.core)
                    }) as int,
                ),
            )
        } else {
            s.wrap
        }),
        s.cycle == first ==> after(s, b).addr == word_add(
            join(lo(s.addr), b.data),
            (if s.am == Am::IndirectIndexed { s.core.y } else { index_of(s.am, s.core) }) as int,
        ),
        s.cycle == first ==> after(s, b).cycle == (if (s.op.is_load() && after(s, b).wrap)
            || s.op.is_rmw() {
            first + 1
        } else {
            first + 2
        }),
        s.cycle == first + 1 ==> after(s, b).cycle == first + 2,
        s.cycle == first + 2 ==> after(s, b).cycle == (if s.op.is_rmw() {
            first + 3
        } else if s.op.is_store() {
            first + 4
        } else {
            0
        }),
        s.cycle == first + 3 ==> after(s, b).cycle == first + 4,
        s.cycle == first + 4 ==> after(s, b).cycle == 0,
{
    reveal(after);
    lemma_apply_op_frame();
}

/// Absolute indexed by X or Y. An operation that only reads takes four
/// cycles when base plus index stays in the page of the base and five when
/// it leaves it. A store takes five and a read-modify-write operation seven,
/// page cross or not.
pub proof fn lemma_absolute_index_timing(
    s: State,
    b0: Pins,
    b1: Pins,
    b2: Pins,
    b3: Pins,
    b4: Pins,
    b5: Pins,
    b6: Pins,
)
    requires
        begins_opcode(s),
        opcode_mode(b0.data) == Am::AbsoluteX || opcode_mode(b0.data) == Am::AbsoluteY,
    ensures
        ({
            let op = opcode_op(b0.data);
            let base = join(b1.data, b2.data);
            let sum = word_add(base, index_of(opcode_mode(b0.data), s.core) as int);
            let crossed = page_differs(base, sum);
            let t1 = after(s, b0);
            let t2 = after(t1, b1);
            let t3 = after(t2, b2);
            let t4 = after(t3, b3);
            let t5 = after(t4, b4);
            let t6 = after(t5, b5);
            let t7 = after(t6, b6);
            &&& t1.cycle != 0 && t2.cycle != 0 && t3.cycle != 0
            &&& t3.addr == sum && t3.wrap == crossed
            &&& op.is_load() && !crossed ==> t4.cycle == 0
            &&& op.is_load() && crossed ==> t4.cycle != 0 && t5.cycle == 0
            &&& op.is_store() ==> t4.cycle != 0 && t5.cycle == 0
            &&& op.is_rmw() ==> t4.cycle != 0 && t5.cycle != 0 && t6.cycle != 0 && t7.cycle == 0
        }),
{
    let t1 = after(s, b0);
    let t2 = after(t1, b1);
    let t3 = after(t2, b2);
    let t4 = after(t3, b3);
    let t5 = after(t4, b4);
    let t6 = after(t5, b5);
    lemma_first_cycle(s, b0);
    lemma_operand_kinds(b0.data);
    lemma_second_cycle(t1, b1);
    lemma_indexed_cycles(t2, b2, 2);
    if t3.cycle != 0 {
        lemma_indexed_cycles(t3, b3, 2);
        if t4.cycle != 0 {
            lemma_indexed_cycles(t4, b4, 2);
            if t5.cycle != 0 {
                lemma_indexed_cycles(t5, b5, 2);
                if t6.cycle != 0 {
                    lemma_indexed_cycles(t6, b6, 2);
                }
            }
        }
    }
}

/// An operation that takes an operand from memory or gives one is exactly
/// one of three: it only reads, it only writes, or it does both; the jumps
/// alone do neither.
pub proof fn lemma_operand_kinds(b: u8)
    ensures
        ({
            let op = opcode_op(b);
            let am = opcode_mode(b);
            &&& !(op.is_load() && op.is_store())
            &&& !(op.is_load() && op.is_rmw())
            &&& !(op.is_store() && op.is_rmw())
            &&& am == Am::Zero || am == Am::ZeroX || am == Am::ZeroY || am == Am::AbsoluteX
                || am == Am::AbsoluteY || am == Am::IndexedIndirect || am == Am::IndirectIndexed
                ==> op.is_load() || op.is_store() || op.is_rmw()
            &&& am == Am::Absolute ==> op.is_load() || op.is_store() || op.is_rmw() || op
                == Op::Jmp || op == Op::Jsr
            &&& am == Am::Indirect ==> op == Op::Jmp
        }),
{
}

pub(crate) proof fn lemma_second_cycle(s: State, b: Pins)
    requires
        s.am == Am::AbsoluteX || s.am == Am::AbsoluteY || s.am == Am::IndirectIndexed,
        s.cycle == 1,
    ensures
        after(s, b).op == s.op,
        after(s, b).am == s.am,
        after(s, b).cycle == 2,
        after(s, b).core.x == s.core.x,
        after(s, b).core.y == s.core.y,
        s.am != Am::IndirectIndexed ==> after(s, b).addr == word(b.data),
        s.am == Am::IndirectIndexed ==> after(s, b).data == b.data,
{
    reveal(after);
}

pub(crate) proof fn lemma_pointer_low(s: State, b: Pins)
    requires
        s.am == Am::IndirectIndexed,
        s.cycle == 2,
    ensures
        after(s, b).op == s.op,
        after(s, b).am == s.am,
        after(s, b).cycle == 3,
        after(s, b).core.y == s.core.y,
        after(s, b).addr == word(b.data),
{
    reveal(after);
}

/// `(zp),Y`. An operation that only reads takes five cycles when pointer
/// plus Y stays in the page of the pointer and six when it leaves it. A
/// store takes six and a read-modify-write operation eight, page cross or
/// not.
pub proof fn lemma_indirect_indexed_timing(
    s: State,
    b0: Pins,
    b1: Pins,
    b2: Pins,
    b3: Pins,
    b4: Pins,
    b5: Pins,
    b6: Pins,
    b7: Pins,
)
    requires
        begins_opcode(s),
        opcode_mode(b0.data) == Am::IndirectIndexed,
    ensures
        ({
            let op = opcode_op(b0.data);
            let base = join(b2.data, b3.data);
            let sum = word_add(base, s.core.y as int);
            let crossed = page_differs(base, sum);
            let t1 = after(s, b0);
            let t2 = after(t1, b1);
            let t3 = after(t2, b2);
            let t4 = after(t3, b3);
            let t5 = after(t4, b4);
            let t6 = after(t5, b5);
            let t7 = after(t6, b6);
            let t8 = after(t7, b7);
            &&& t1.cycle != 0 && t2.cycle != 0 && t3.cycle != 0 && t4.cycle != 0
            &&& t4.addr == sum && t4.wrap == crossed
            &&& op.is_load() && !crossed ==> t5.cycle == 0
            &&& op.is_load() && crossed ==> t5.cycle != 0 && t6.cycle == 0
            &&& op.is_store() ==> t5.cycle != 0 && t6.cycle == 0
            &&& op.is_rmw() ==> t5.cycle != 0 && t6.cycle != 0 && t7.cycle != 0 && t8.cycle == 0
        }),
{
    let t1 = after(s, b0);
    let t2 = after(t1, b1);
    let t3 = after(t2, b2);
    let t4 = after(t3, b3);
    let t5 = after(t4, b4);
    let t6 = after(t5, b5);
    let t7 = after(t6, b6);
    lemma_first_cycle(s, b0);
    lemma_operand_kinds(b0.data);
    lemma_second_cycle(t1, b1);
    lemma_pointer_low(t2, b2);
    lemma_indexed_cycles(t3, b3, 3);
    if t4.cycle != 0 {
        lemma_indexed_cycles(t4, b4, 3);
        if t5.cycle != 0 {
            lemma_indexed_cycles(t5, b5, 3);
            if t6.cycle != 0 {
                lemma_indexed_cycles(t6, b6, 3);
                if t7.cycle != 0 {
                    lemma_indexed_cycles(t7, b7, 3);
                }
            }
        }
    }
}

proof fn lemma_brk_cycle(s: State, b: Pins)
    requires
        (if s.cycle == 0 { s.begin(b) } else { s }).op == Op::Brk,
        (if s.cycle == 0 { s.begin(b) } else { s }).am == Am::Implied,
    ensures
        after(s, b) == (if s.cycle == 0 { s.begin(b) } else { s }).step_brk(b).0.latch(b),
        driven(s, b) == (if s.cycle == 0 { s.begin(b) } else { s }).step_brk(b).1,
{
    reveal(after);
    reveal(driven);
}

/// The address that an interrupt sequence pushes: a BRK steps over the byte
/// that follows it; an interrupt returns to the opcode that it displaced.
pub open spec fn return_address(kind: Brk, opcode_at: u16) -> u16 {
    if kind == Brk::Brk { word_add(opcode_at, 2) } else { opcode_at }
}

/// The seven cycles of BRK, IRQ and NMI, from the instruction boundary on.
/// `s` is the state at the boundary, its program counter on the opcode that
/// was fetched. The sequence reads the next byte (BRK) or the same byte
/// again (IRQ, NMI), pushes the return address and the status byte, reads
/// the vector, sets the I flag and fetches the opcode at the vector.
pub proof fn lemma_interrupt_sequence(
    s: State,
    b0: Pins,
    b1: Pins,
    b2: Pins,
    b3: Pins,
    b4: Pins,
    b5: Pins,
    b6: Pins,
)
    requires
        s.cycle == 0,
        !s.res_scheduled,
        s.begin(b0).op == Op::Brk,
    ensures
        ({
            let kind = s.begin(b0).brk;
            let ret = return_address(kind, s.core.pc);
            let t1 = after(s, b0);
            let t2 = after(t1, b1);
            let t3 = after(t2, b2);
            let t4 = after(t3, b3);
            let t5 = after(t4, b4);
            let t6 = after(t5, b5);
            let t7 = after(t6, b6);
            let target = join(b5.data, b6.data);
            &&& kind != Brk::Res
            &&& kind == Brk::Nmi <==> s.nmi_scheduled
            &&& driven(s, b0) == b0.read(if kind == Brk::Brk { word_add(s.core.pc, 1) } else { s.core.pc })
            &&& driven(t1, b1) == b1.write(stack_addr(s.core.s), hi(ret))
            &&& driven(t2, b2) == b2.write(stack_addr(byte_add(s.core.s, -1)), lo(ret))
            &&& driven(t3, b3) == b3.write(
                stack_addr(byte_add(s.core.s, -2)),
                s.core.p.pushed(kind == Brk::Brk),
            )
            &&& driven(t4, b4) == b4.read(kind.vector())
            &&& driven(t5, b5) == b5.read(word_add(kind.vector(), 1))
            &&& driven(t6, b6) == b6.read_sync(target)
            &&& kind.vector() == (if kind == Brk::Nmi { 0xFFFAu16 } else { 0xFFFEu16 })
            &&& t7.cycle == 0
            &&& t7.core == (Core {
                pc: target,
                s: byte_add(s.core.s, -3),
                ..s.core
            }).flagged(FLAG_I, true)
        }),
{
    let t = s.begin(b0);
    lemma_brk_opcode(b0.data);
    lemma_brk_cycle(s, b0);
    let t1 = after(s, b0);
    assert(t1 == t.step_brk(b0).0.latch(b0));
    assert(t1.op == Op::Brk && t1.am == Am::Implied && t1.cycle == 1 && t1.brk == t.brk);
    assert(t1.core == (Core { pc: return_address(t.brk, s.core.pc), ..s.core })) by {
        assert(word_add(word_add(s.core.pc, 1), 1) == word_add(s.core.pc, 2));
    }
    lemma_brk_pushes(t1, b1, b2, b3);
    let t4 = after(after(after(t1, b1), b2), b3);
    lemma_brk_vector(t4, b4, b5, b6);
}

/// Only the opcode `$00` is a BRK.
pub proof fn lemma_brk_opcode(b: u8)
    ensures
        opcode_op(b) == Op::Brk ==> b == 0 && opcode_mode(b) == Am::Implied,
{
}

proof fn lemma_brk_pushes(s: State, b1: Pins, b2: Pins, b3: Pins)
    requires
        s.op == Op::Brk,
        s.am == Am::Implied,
        s.cycle == 1,
        s.brk != Brk::Res,
    ensures
        ({
            let t2 = after(s, b1);
            let t3 = after(t2, b2);
            let t4 = after(t3, b3);
            &&& driven(s, b1) == b1.write(stack_addr(s.core.s), hi(s.core.pc))
            &&& driven(t2, b2) == b2.write(stack_addr(byte_add(s.core.s, -1)), lo(s.core.pc))
            &&& driven(t3, b3) == b3.write(
                stack_addr(byte_add(s.core.s, -2)),
                s.core.p.pushed(s.brk == Brk::Brk),
            )
            &&& t4.op == Op::Brk && t4.am == Am::Implied && t4.cycle == 4 && t4.brk == s.brk
            &&& t4.core == (Core { s: byte_add(s.core.s, -3), ..s.core })
        }),
{
    let t2 = after(s, b1);
    let t3 = after(t2, b2);
    lemma_brk_cycle(s, b1);
    lemma_brk_cycle(t2, b2);
    lemma_brk_cycle(t3, b3);
    assert(byte_add(byte_add(s.core.s, -1), -1) == byte_add(s.core.s, -2));
    assert(byte_add(byte_add(s.core.s, -2), -1) == byte_add(s.core.s, -3));
}

proof fn lemma_brk_vector(s: State, b4: Pins, b5: Pins, b6: Pins)
    requires
        s.op == Op::Brk,
        s.am == Am::Implied,
        s.cycle == 4,
    ensures
        ({
            let t5 = after(s, b4);
            let t6 = after(t5, b5);
            let t7 = after(t6, b6);
            let target = join(b5.data, b6.data);
            &&& driven(s, b4) == b4.read(s.brk.vector())
            &&& driven(t5, b5) == b5.read(word_add(s.brk.vector(), 1))
            &&& driven(t6, b6) == b6.read_sync(target)
            &&& t7.cycle == 0
            &&& t7.core == (Core { pc: target, ..s.core }).flagged(FLAG_I, true)
        }),
{
    let t5 = after(s, b4);
    let t6 = after(t5, b5);
    lemma_brk_cycle(s, b4);
    lemma_brk_cycle(t5, b5);
    lemma_brk_cycle(t6, b6);
    assert(lo(word(b5.data)) == b5.data);
}

proof fn lemma_reset_reads(s: State, b1: Pins, b2: Pins, b3: Pins)
    requires
        s.op == Op::Brk,
        s.am == Am::Implied,
        s.cycle == 1,
        s.brk == Brk::Res,
    ensures
        ({
            let t2 = after(s, b1);
            let t3 = after(t2, b2);
            let t4 = after(t3, b3);
            &&& driven(s, b1) == b1.read(stack_addr(s.core.s))
            &&& driven(t2, b2) == b2.read(stack_addr(byte_add(s.core.s, -1)))
            &&& driven(t3, b3) == b3.read(stack_addr(byte_add(s.core.s, -2)))
            &&& t4.op == Op::Brk && t4.am == Am::Implied && t4.cycle == 4 && t4.brk == s.brk
            &&& t4.core == (Core { s: byte_add(s.core.s, -3), ..s.core })
        }),
{
    let t2 = after(s, b1);
    let t3 = after(t2, b2);
    lemma_brk_cycle(s, b1);
    lemma_brk_cycle(t2, b2);
    lemma_brk_cycle(t3, b3);
    assert(byte_add(byte_add(s.core.s, -1), -1) == byte_add(s.core.s, -2));
    assert(byte_add(byte_add(s.core.s, -2), -1) == byte_add(s.core.s, -3));
}

/// A reset that the line asked for. From the instruction boundary on, the
/// processor reads the opcode again, reads three stack slots and writes
/// none, takes the vector at `$FFFC`, sets the I flag and fetches the opcode
/// at the vector. The stack pointer is three down; A, X, Y and the other
/// flags are as they were.
pub proof fn lemma_reset_on_line(
    s: State,
    b0: Pins,
    b1: Pins,
    b2: Pins,
    b3: Pins,
    b4: Pins,
    b5: Pins,
    b6: Pins,
)
    requires
        s.cycle == 0,
        s.res_scheduled,
    ensures
        ({
            let t1 = after(s, b0);
            let t2 = after(t1, b1);
            let t3 = after(t2, b2);
            let t4 = after(t3, b3);
            let t5 = after(t4, b4);
            let t6 = after(t5, b5);
            let t7 = after(t6, b6);
            let target = join(b5.data, b6.data);
            &&& driven(s, b0) == b0.read(s.core.pc)
            &&& driven(t1, b1) == b1.read(stack_addr(s.core.s))
            &&& driven(t2, b2) == b2.read(stack_addr(byte_add(s.core.s, -1)))
            &&& driven(t3, b3) == b3.read(stack_addr(byte_add(s.core.s, -2)))
            &&& driven(t4, b4) == b4.read(0xFFFC)
            &&& driven(t5, b5) == b5.read(0xFFFD)
            &&& driven(t6, b6) == b6.read_sync(target)
            &&& t7.cycle == 0
            &&& t7.core == (Core {
                pc: target,
                s: byte_add(s.core.s, -3),
                ..s.core
            }).flagged(FLAG_I, true)
        }),
{
    lemma_brk_cycle(s, b0);
    let t1 = after(s, b0);
    assert(t1 == s.begin(b0).step_brk(b0).0.latch(b0));
    lemma_reset_reads(t1, b1, b2, b3);
    let t4 = after(after(after(t1, b1), b2), b3);
    lemma_brk_vector(t4, b4, b5, b6);
}

/// The reset sequence of a processor that was started in it. It reads
/// three stack slots and writes none, takes the vector at `$FFFC`, and
/// fetches the opcode there with the I flag set and the stack pointer at
/// `$FD`.
pub proof fn lemma_reset_sequence(b1: Pins, b2: Pins, b3: Pins, b4: Pins, b5: Pins, b6: Pins)
    ensures
        ({
            let t1 = State::reset();
            let t2 = after(t1, b1);
            let t3 = after(t2, b2);
            let t4 = after(t3, b3);
            let t5 = after(t4, b4);
            let t6 = after(t5, b5);
            let t7 = after(t6, b6);
            let target = join(b5.data, b6.data);
            &&& driven(t1, b1) == b1.read(0x0100)
            &&& driven(t2, b2) == b2.read(0x01FF)
            &&& driven(t3, b3) == b3.read(0x01FE)
            &&& driven(t4, b4) == b4.read(0xFFFC)
            &&& driven(t5, b5) == b5.read(0xFFFD)
            &&& driven(t6, b6) == b6.read_sync(target)
            &&& t7.cycle == 0
            &&& t7.core == (Core { a: 0, p: P(0x24), pc: target, s: 0xFD, x: 0, y: 0 })
        }),
{
    let t1 = State::reset();
    lemma_reset_reads(t1, b1, b2, b3);
    let t4 = after(after(after(t1, b1), b2), b3);
    lemma_brk_vector(t4, b4, b5, b6);
    assert(0x20u8 | 4u8 == 0x24u8) by (bit_vector);
}

pub(crate) proof fn lemma_relative_cycle(s: State, b: Pins)
    requires
        s.am == Am::Relative,
        1 <= s.cycle <= 3,
    ensures
        after(s, b) == s.step_relative(b).0.latch(b),
        driven(s, b) == s.step_relative(b).1,
{
    reveal(after);
    reveal(driven);
}

/// Whether the branch operation `op` is taken under the flags `p`.
pub open spec fn branch_taken(op: Op, p: P) -> bool {
    match op {
        Op::Bcc => !p.c(),
        Op::Bcs => p.c(),
        Op::Beq => p.z(),
        Op::Bne => !p.z(),
        Op::Bmi => p.n(),
        Op::Bpl => !p.n(),
        Op::Bvc => !p.v(),
        _ => p.v(),
    }
}

/// A branch that is not taken takes two cycles and goes on behind its
/// offset. One that is taken takes three when the target is in the page of
/// the next instruction and four when it is not, reads in the old page
/// first, and goes on at the target. It changes no register.
pub proof fn lemma_branch_timing(s: State, b0: Pins, b1: Pins, b2: Pins, b3: Pins)
    requires
        begins_opcode(s),
        opcode_mode(b0.data) == Am::Relative,
    ensures
        ({
            let next = word_add(s.core.pc, 2);
            let target = word_add(next, crate::bits::signed(b1.data));
            let taken = branch_taken(opcode_op(b0.data), s.core.p);
            let crossed = page_differs(next, target);
            let t1 = after(s, b0);
            let t2 = after(t1, b1);
            let t3 = after(t2, b2);
            let t4 = after(t3, b3);
            &&& t1.cycle != 0
            &&& !taken ==> t2.cycle == 0 && t2.core == (Core { pc: next, ..s.core })
            &&& taken ==> t2.cycle != 0 && driven(t1, b1) == b1.read(next)
            &&& taken && !crossed ==> t3.cycle == 0 && t3.core == (Core { pc: target, ..s.core })
            &&& taken && crossed ==> t3.cycle != 0 && driven(t2, b2) == b2.read(
                same_page(next, target),
            ) && t4.cycle == 0 && t4.core == (Core { pc: target, ..s.core })
        }),
{
    let t1 = after(s, b0);
    let t2 = after(t1, b1);
    let t3 = after(t2, b2);
    lemma_first_cycle(s, b0);
    lemma_relative_cycle(t1, b1);
    lemma_branch_decides(t1.with_addr(word_add(t1.core.pc, crate::bits::signed(b1.data))), b0.data);
    if t2.cycle != 0 {
        lemma_relative_cycle(t2, b2);
        if t3.cycle != 0 {
            lemma_relative_cycle(t3, b3);
        }
    }
}

pub(crate) proof fn lemma_branch_decides(s: State, opcode: u8)
    requires
        opcode_mode(opcode) == Am::Relative,
        s.op == opcode_op(opcode),
    ensures
        s.apply_op() == s.with_data(crate::step::decision(branch_taken(s.op, s.core.p))),
{
    reveal(State::apply_op);
}

/// A read-modify-write operation writes twice. In the cycle that finds the
/// operand on the bus it writes the operand back as it was; in the next it
/// writes the result to the same address.
pub proof fn lemma_rmw_double_write(s: State, b: Pins, c: Pins)
    requires
        s.op.is_rmw(),
        s.cycle < 254,
    ensures
        ({
            let first = s.operand_read(b);
            let second = first.0.operand_write(c);
            &&& first.1 == b.write(s.addr, b.data)
            &&& second.1 == c.write(s.addr, first.0.data)
            &&& first.0.data == s.with_data(b.data).apply_op().data
            &&& second.0.cycle == s.cycle + 2
        }),
{
    reveal(State::apply_op);
}

} // verus!
