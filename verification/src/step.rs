//! The sequencer as a transition function.
//!
//! One bus cycle takes a state of the sequencer and the bus as the host left
//! it, and gives the next state and the bus as the processor drives it.
//! Everything here is specification: the executable sequencer is held to it.

use vstd::prelude::*;
use crate::bits::{byte_add, hi, join, lo, page_differs, same_page, signed, word, word_add};
use crate::instr::{decoding, is_instruction, Am, Op};
use crate::regs::{Core, FLAG_C, FLAG_D, FLAG_I, FLAG_V, P};

verus! {

/// The constant that stands for the analog behaviour of ANE and LXA.
pub const UNSTABLE_MAGIC: u8 = 0xEE;

/// What a seven-cycle interrupt sequence serves.
#[derive(Copy, Clone, Debug, PartialEq, Eq, Structural)]
pub enum Brk {
    Brk,
    Irq,
    Nmi,
    Res,
}

impl Brk {
    /// What `push` computes.
    pub open spec fn spec_push(self) -> bool {
        self != Brk::Res
    }

    /// What `b` computes.
    pub open spec fn spec_b(self) -> bool {
        self == Brk::Brk
    }

    /// What `vector` computes.
    pub open spec fn spec_vector(self) -> u16 {
        match self {
            Brk::Nmi => 0xFFFA,
            Brk::Res => 0xFFFC,
            Brk::Brk | Brk::Irq => 0xFFFE,
        }
    }

    /// What `skip_id_byte` computes.
    pub open spec fn spec_skip_id_byte(self) -> bool {
        self == Brk::Brk
    }

    /// Whether the three stack cycles of the sequence write. A reset only
    /// reads.
    #[verifier::when_used_as_spec(spec_push)]
    pub fn push(self) -> (r: bool)
        ensures
            r == (self != Brk::Res),
    {
        !matches!(self, Brk::Res)
    }

    /// The break bit in the status byte that the sequence pushes.
    #[verifier::when_used_as_spec(spec_b)]
    pub fn b(self) -> (r: bool)
        ensures
            r == (self == Brk::Brk),
    {
        matches!(self, Brk::Brk)
    }

    /// The address of the low byte of the vector that the sequence takes.
    #[verifier::when_used_as_spec(spec_vector)]
    pub fn vector(self) -> (r: u16)
        ensures
            r == self.spec_vector(),
            r < 0xFFFF,
    {
        match self {
            Brk::Brk => 0xFFFE,
            Brk::Irq => 0xFFFE,
            Brk::Nmi => 0xFFFA,
            Brk::Res => 0xFFFC,
        }
    }

    /// Whether the sequence steps over the byte that follows the opcode.
    #[verifier::when_used_as_spec(spec_skip_id_byte)]
    pub fn skip_id_byte(self) -> (r: bool)
        ensures
            r == (self == Brk::Brk),
    {
        matches!(self, Brk::Brk)
    }
}

/// What the bus carries in one cycle.
pub struct Pins {
    /// The address that the processor reads or writes.
    pub addr: u16,
    /// The byte read or written.
    pub data: u8,
    /// The interrupt request line, active while high.
    pub irq: bool,
    /// The non-maskable interrupt line, active when it rises.
    pub nmi: bool,
    /// The reset line.
    pub res: bool,
    /// The direction: a read when high.
    pub rw: bool,
    /// High on the fetch of an opcode.
    pub sync: bool,
}

impl Pins {
    /// The bus driven for a read of `addr` that fetches no opcode.
    pub open spec fn read(self, addr: u16) -> Pins {
        Pins { addr, rw: true, sync: false, ..self }
    }

    /// The bus driven for the fetch of the opcode at `addr`.
    pub open spec fn read_sync(self, addr: u16) -> Pins {
        Pins { addr, rw: true, sync: true, ..self }
    }

    /// The bus driven for a write of `data` to `addr`.
    pub open spec fn write(self, addr: u16, data: u8) -> Pins {
        Pins { addr, data, rw: false, sync: false, ..self }
    }
}

/// The address of the stack slot that the stack pointer `s` names.
pub open spec fn stack_addr(s: u8) -> u16 {
    (0x100 + s) as u16
}

/// The byte that stands for a branch decision.
pub open spec fn decision(taken: bool) -> u8 {
    if taken { 1 } else { 0 }
}

/// The state of the sequencer between two bus cycles.
pub struct State {
    /// The register file.
    pub core: Core,
    /// The operation of the instruction under way.
    pub op: Op,
    /// Its addressing mode.
    pub am: Am,
    /// What the interrupt sequence serves, when one is under way.
    pub brk: Brk,
    /// The cycle of the instruction that comes next. Zero after the fetch of
    /// an opcode, which the next cycle takes in.
    pub cycle: u8,
    /// The address being put together.
    pub addr: u16,
    /// The operand, or the byte to write.
    pub data: u8,
    /// Whether the index led out of the page of the base address.
    pub wrap: bool,
    /// The level of the IRQ line in the last cycle.
    pub irq_scheduled: bool,
    /// The level of the NMI line in the last cycle.
    pub last_nmi: bool,
    /// Whether an NMI is pending.
    pub nmi_scheduled: bool,
    /// The level of the reset line in the last cycle.
    pub res_scheduled: bool,
}

/// The last value that the cycle counter takes in an instruction.
pub open spec fn last_cycle(op: Op, am: Am) -> u8 {
    match am {
        Am::Implied => match op {
            Op::Brk => 6,
            Op::Jam => 4,
            Op::Rti | Op::Rts => 5,
            Op::Pha | Op::Php => 2,
            Op::Pla | Op::Plp => 3,
            _ => 1,
        },
        Am::Accumulator | Am::Immediate => 1,
        Am::Zero => 4,
        Am::ZeroX | Am::ZeroY => 5,
        Am::Absolute => 5,
        Am::AbsoluteX | Am::AbsoluteY => 6,
        Am::Indirect => 4,
        Am::IndexedIndirect | Am::IndirectIndexed => 7,
        Am::Relative => 3,
    }
}

impl State {
    /// The state in which the processor comes out of reset: the reset
    /// sequence has had its first cycle.
    pub open spec fn reset() -> State {
        State {
            core: Core { a: 0, p: P(0x20), pc: 0, s: 0, x: 0, y: 0 },
            op: Op::Brk,
            am: Am::Implied,
            brk: Brk::Res,
            cycle: 1,
            addr: 0,
            data: 0,
            wrap: false,
            irq_scheduled: false,
            last_nmi: false,
            nmi_scheduled: false,
            res_scheduled: false,
        }
    }

    /// The state with the registers `core` in which the next cycle fetches
    /// an opcode.
    pub open spec fn seeded(core: Core) -> State {
        State {
            core,
            op: Op::Nop,
            am: Am::Implied,
            brk: Brk::Brk,
            cycle: 1,
            addr: 0,
            data: 0,
            wrap: false,
            irq_scheduled: false,
            last_nmi: false,
            nmi_scheduled: false,
            res_scheduled: false,
        }
    }

    /// The instruction is one of the matrix and the cycle counter is within
    /// its schedule.
    pub open spec fn wf(self) -> bool {
        is_instruction(self.op, self.am) && self.cycle <= last_cycle(self.op, self.am)
    }

    /// The state with the cycle counter `n` further.
    pub open spec fn ahead(self, n: u8) -> State {
        State { cycle: (self.cycle + n) as u8, ..self }
    }

    /// The state with the cycle counter one further.
    pub open spec fn next(self) -> State {
        self.ahead(1)
    }

    /// The state with the cycle counter two further.
    pub open spec fn skip(self) -> State {
        self.ahead(2)
    }

    /// The state with other registers.
    pub open spec fn with_core(self, core: Core) -> State {
        State { core, ..self }
    }

    /// The state with another program counter.
    pub open spec fn with_pc(self, pc: u16) -> State {
        State { core: Core { pc, ..self.core }, ..self }
    }

    /// The state with another operand.
    pub open spec fn with_data(self, data: u8) -> State {
        State { data, ..self }
    }

    /// The state with another address.
    pub open spec fn with_addr(self, addr: u16) -> State {
        State { addr, ..self }
    }

    /// The result of a read-modify-write operation taken in.
    pub open spec fn with_result(self, r: (Core, u8)) -> State {
        State { core: r.0, data: r.1, ..self }
    }

    /// The value and the address of an unstable store taken in.
    pub open spec fn with_store(self, r: (u8, u16)) -> State {
        State { data: r.0, addr: r.1, ..self }
    }

    /// A read at the program counter, which then moves on.
    pub open spec fn fetch(self, b: Pins) -> (State, Pins) {
        (self.with_pc(word_add(self.core.pc, 1)), b.read(self.core.pc))
    }

    /// A write to the stack; the stack pointer goes down.
    pub open spec fn push(self, b: Pins, data: u8) -> (State, Pins) {
        (
            self.with_core(Core { s: byte_add(self.core.s, -1), ..self.core }),
            b.write(stack_addr(self.core.s), data),
        )
    }

    /// A stack cycle of an interrupt sequence: a push, or under reset a read
    /// of the slot.
    pub open spec fn push_brk(self, b: Pins, data: u8) -> (State, Pins) {
        if self.brk.push() {
            self.push(b, data)
        } else {
            (
                self.with_core(Core { s: byte_add(self.core.s, -1), ..self.core }),
                b.read(stack_addr(self.core.s)),
            )
        }
    }

    /// The stack pointer goes up and the slot it names is read.
    pub open spec fn pull(self, b: Pins) -> (State, Pins) {
        (
            self.with_core(Core { s: byte_add(self.core.s, 1), ..self.core }),
            b.read(stack_addr(byte_add(self.core.s, 1))),
        )
    }

    /// The fetch of the next opcode, which ends the instruction.
    pub open spec fn sync(self, b: Pins) -> (State, Pins) {
        (State { cycle: 0, ..self }, b.read_sync(self.core.pc))
    }

    /// The effect of the operation on the registers and on the scratch
    /// values. The operand is in `data`; a result for the bus is left there.
    #[verifier::opaque]
    pub open spec fn apply_op(self) -> State {
        let c = self.core;
        let d = self.data;
        match self.op {
            Op::Adc => self.with_core(c.adc(d)),
            Op::Alr => self.with_core(c.alr(d)),
            Op::Anc => self.with_core(c.anc(d)),
            Op::And => self.with_core(c.and(d)),
            Op::Ane => self.with_core(c.ane(d, UNSTABLE_MAGIC)),
            Op::Arr => self.with_core(c.arr(d)),
            Op::Asl => self.with_result(c.asl(d)),
            Op::Bcc => self.with_data(decision(!c.p.c())),
            Op::Bcs => self.with_data(decision(c.p.c())),
            Op::Beq => self.with_data(decision(c.p.z())),
            Op::Bit => self.with_core(c.bit_test(d)),
            Op::Bmi => self.with_data(decision(c.p.n())),
            Op::Bne => self.with_data(decision(!c.p.z())),
            Op::Bpl => self.with_data(decision(!c.p.n())),
            Op::Bvc => self.with_data(decision(!c.p.v())),
            Op::Bvs => self.with_data(decision(c.p.v())),
            Op::Clc => self.with_core(c.flagged(FLAG_C, false)),
            Op::Cld => self.with_core(c.flagged(FLAG_D, false)),
            Op::Cli => self.with_core(c.flagged(FLAG_I, false)),
            Op::Clv => self.with_core(c.flagged(FLAG_V, false)),
            Op::Cmp => self.with_core(c.compare(c.a, d)),
            Op::Cpx => self.with_core(c.compare(c.x, d)),
            Op::Cpy => self.with_core(c.compare(c.y, d)),
            Op::Dcp => self.with_result(c.dcp(d)),
            Op::Dec => self.with_result(c.dec(d)),
            Op::Dex => self.with_core(c.load_x(byte_add(c.x, -1))),
            Op::Dey => self.with_core(c.load_y(byte_add(c.y, -1))),
            Op::Eor => self.with_core(c.eor(d)),
            Op::Inc => self.with_result(c.inc(d)),
            Op::Inx => self.with_core(c.load_x(byte_add(c.x, 1))),
            Op::Iny => self.with_core(c.load_y(byte_add(c.y, 1))),
            Op::Isc => self.with_result(c.isc(d)),
            Op::Jmp => self.with_pc(self.addr),
            Op::Las => self.with_core(c.las(d)),
            Op::Lax => self.with_core(c.lax(d)),
            Op::Lda => self.with_core(c.load_a(d)),
            Op::Ldx => self.with_core(c.load_x(d)),
            Op::Ldy => self.with_core(c.load_y(d)),
            Op::Lsr => self.with_result(c.lsr(d)),
            Op::Lxa => self.with_core(c.lxa(d, UNSTABLE_MAGIC)),
            Op::Ora => self.with_core(c.ora(d)),
            Op::Pha => self.with_data(c.a),
            Op::Php => self.with_data(c.p.pushed(true)),
            Op::Pla => self.with_core(c.load_a(d)),
            Op::Plp => self.with_core(Core { p: P::pulled(d), ..c }),
            Op::Rla => self.with_result(c.rla(d)),
            Op::Rol => self.with_result(c.rol(d)),
            Op::Ror => self.with_result(c.ror(d)),
            Op::Rra => self.with_result(c.rra(d)),
            Op::Sax => self.with_data(c.a & c.x),
            Op::Sbc => self.with_core(c.sbc(d)),
            Op::Sbx => self.with_core(c.sbx(d)),
            Op::Sec => self.with_core(c.flagged(FLAG_C, true)),
            Op::Sed => self.with_core(c.flagged(FLAG_D, true)),
            Op::Sei => self.with_core(c.flagged(FLAG_I, true)),
            Op::Sha => self.with_store(Core::store_high(c.a & c.x, self.addr, self.wrap)),
            Op::Shx => self.with_store(Core::store_high(c.x, self.addr, self.wrap)),
            Op::Shy => self.with_store(Core::store_high(c.y, self.addr, self.wrap)),
            Op::Slo => self.with_result(c.slo(d)),
            Op::Sre => self.with_result(c.sre(d)),
            Op::Sta => self.with_data(c.a),
            Op::Stx => self.with_data(c.x),
            Op::Sty => self.with_data(c.y),
            Op::Tas => self.with_core(c.tas()).with_store(
                Core::store_high(c.a & c.x, self.addr, self.wrap),
            ),
            Op::Tax => self.with_core(c.load_x(c.a)),
            Op::Tay => self.with_core(c.load_y(c.a)),
            Op::Tsx => self.with_core(c.load_x(c.s)),
            Op::Txa => self.with_core(c.load_a(c.x)),
            Op::Txs => self.with_core(Core { s: c.x, ..c }),
            Op::Tya => self.with_core(c.load_a(c.y)),
            Op::Brk | Op::Jam | Op::Jsr | Op::Nop | Op::Rti | Op::Rts => self,
        }
    }

    /// The cycle in which the effective address is known and nothing has
    /// been done with it: a reading operation reads there; a store operates
    /// and writes; a jump goes there.
    pub open spec fn operand_ready(self, b: Pins) -> (State, Pins) {
        if self.op.reads_operand() {
            (self.next(), b.read(self.addr))
        } else {
            let t = self.apply_op();
            if self.op.writes_operand() {
                (t.ahead(3), b.write(t.addr, t.data))
            } else {
                t.sync(b)
            }
        }
    }

    /// The cycle in which the operand is on the bus. A read-modify-write
    /// operation writes it back unchanged and operates; a store that had to
    /// wait for the address operates and writes; a reading operation
    /// operates and is done.
    pub open spec fn operand_read(self, b: Pins) -> (State, Pins) {
        let t = self.with_data(b.data).apply_op();
        if self.op.is_rmw() {
            (t.next(), b.write(self.addr, b.data))
        } else if self.op.writes_operand() {
            (t.skip(), b.write(t.addr, t.data))
        } else {
            t.sync(b)
        }
    }

    /// The cycle in which a read-modify-write operation writes its result.
    pub open spec fn operand_write(self, b: Pins) -> (State, Pins) {
        (self.next(), b.write(self.addr, self.data))
    }

    /// The cycles after the one in which the effective address was ready,
    /// counted from it.
    pub open spec fn operand_tail(self, b: Pins, k: int) -> (State, Pins) {
        if k == 1 {
            self.operand_read(b)
        } else if k == 2 {
            self.operand_write(b)
        } else {
            self.sync(b)
        }
    }

    /// The cycle that adds the index to the base address in `addr`. It reads
    /// in the page of the base. The read counts as that of the operand
    /// unless the sum left the page under a reading operation, or the
    /// operation is a read-modify-write one.
    pub open spec fn add_index(self, b: Pins, index: u8) -> (State, Pins) {
        let sum = word_add(self.addr, index as int);
        let crossed = page_differs(self.addr, sum);
        let t = State { addr: sum, wrap: crossed, ..self };
        let again = (self.op.reads_operand() && crossed) || self.op.is_rmw();
        (if again { t.next() } else { t.skip() }, b.read(same_page(self.addr, sum)))
    }

    /// No operand: a read of the next byte, which is not used, with the
    /// operation; then the next opcode.
    pub open spec fn step_implied(self, b: Pins) -> (State, Pins) {
        if self.cycle == 0 {
            (self.apply_op().next(), b.read(self.core.pc))
        } else {
            self.sync(b)
        }
    }

    /// The operand is the accumulator, and the result goes back to it.
    pub open spec fn step_accumulator(self, b: Pins) -> (State, Pins) {
        if self.cycle == 0 {
            (self.next(), b.read(self.core.pc))
        } else {
            let t = self.with_data(self.core.a).apply_op();
            t.with_core(Core { a: t.data, ..t.core }).sync(b)
        }
    }

    /// The operand is the byte behind the opcode.
    pub open spec fn step_immediate(self, b: Pins) -> (State, Pins) {
        if self.cycle == 0 {
            let r = self.fetch(b);
            (r.0.next(), r.1)
        } else {
            self.with_data(b.data).apply_op().sync(b)
        }
    }

    /// The operand is in the zero page at the byte behind the opcode.
    pub open spec fn step_zero(self, b: Pins) -> (State, Pins) {
        if self.cycle == 0 {
            let r = self.fetch(b);
            (r.0.next(), r.1)
        } else if self.cycle == 1 {
            self.with_addr(word(b.data)).operand_ready(b)
        } else {
            self.operand_tail(b, self.cycle - 1)
        }
    }

    /// Zero page indexed: the sum stays in the zero page.
    pub open spec fn step_zero_index(self, b: Pins, index: u8) -> (State, Pins) {
        if self.cycle == 0 {
            let r = self.fetch(b);
            (r.0.next(), r.1)
        } else if self.cycle == 1 {
            (self.with_addr(word(byte_add(b.data, index as int))).next(), b.read(word(b.data)))
        } else if self.cycle == 2 {
            self.operand_ready(b)
        } else {
            self.operand_tail(b, self.cycle - 2)
        }
    }

    /// The operand is at the address behind the opcode, low byte first.
    pub open spec fn step_absolute(self, b: Pins) -> (State, Pins) {
        if self.cycle == 0 {
            let r = self.fetch(b);
            (r.0.next(), r.1)
        } else if self.cycle == 1 {
            let r = self.with_addr(word(b.data)).fetch(b);
            (r.0.next(), r.1)
        } else if self.cycle == 2 {
            self.with_addr(join(lo(self.addr), b.data)).operand_ready(b)
        } else {
            self.operand_tail(b, self.cycle - 2)
        }
    }

    /// The operand is at the address behind the opcode plus an index.
    pub open spec fn step_absolute_index(self, b: Pins, index: u8) -> (State, Pins) {
        if self.cycle == 0 {
            let r = self.fetch(b);
            (r.0.next(), r.1)
        } else if self.cycle == 1 {
            let r = self.with_addr(word(b.data)).fetch(b);
            (r.0.next(), r.1)
        } else if self.cycle == 2 {
            self.with_addr(join(lo(self.addr), b.data)).add_index(b, index)
        } else if self.cycle == 3 {
            (self.next(), b.read(self.addr))
        } else {
            self.operand_tail(b, self.cycle - 3)
        }
    }

    /// `(zp,X)`: the pointer is found in the zero page at the operand plus X.
    pub open spec fn step_indexed_indirect(self, b: Pins) -> (State, Pins) {
        if self.cycle == 0 {
            let r = self.fetch(b);
            (r.0.next(), r.1)
        } else if self.cycle == 1 {
            (self.with_data(b.data).next(), b.read(word(b.data)))
        } else if self.cycle == 2 {
            let at = byte_add(self.data, self.core.x as int);
            (self.with_data(at).next(), b.read(word(at)))
        } else if self.cycle == 3 {
            let at = byte_add(self.data, 1);
            (self.with_addr(word(b.data)).with_data(at).next(), b.read(word(at)))
        } else if self.cycle == 4 {
            self.with_addr(join(lo(self.addr), b.data)).operand_ready(b)
        } else {
            self.operand_tail(b, self.cycle - 4)
        }
    }

    /// `(zp),Y`: the pointer is found in the zero page at the operand, and Y
    /// is added to it.
    pub open spec fn step_indirect_indexed(self, b: Pins) -> (State, Pins) {
        if self.cycle == 0 {
            let r = self.fetch(b);
            (r.0.next(), r.1)
        } else if self.cycle == 1 {
            (self.with_data(b.data).next(), b.read(word(b.data)))
        } else if self.cycle == 2 {
            (self.with_addr(word(b.data)).next(), b.read(word(byte_add(self.data, 1))))
        } else if self.cycle == 3 {
            self.with_addr(join(lo(self.addr), b.data)).add_index(b, self.core.y)
        } else if self.cycle == 4 {
            (self.next(), b.read(self.addr))
        } else {
            self.operand_tail(b, self.cycle - 4)
        }
    }

    /// The indirect jump. The high byte of the target is read in the page of
    /// the pointer, also where the pointer is the last byte of its page.
    pub open spec fn step_indirect(self, b: Pins) -> (State, Pins) {
        if self.cycle == 0 {
            let r = self.fetch(b);
            (r.0.next(), r.1)
        } else if self.cycle == 1 {
            let r = self.with_addr(word(b.data)).fetch(b);
            (r.0.next(), r.1)
        } else if self.cycle == 2 {
            let pointer = join(lo(self.addr), b.data);
            (self.with_addr(pointer).next(), b.read(pointer))
        } else if self.cycle == 3 {
            (
                self.with_addr(word(b.data)).next(),
                b.read(same_page(self.addr, word_add(self.addr, 1))),
            )
        } else {
            self.with_addr(join(lo(self.addr), b.data)).apply_op().sync(b)
        }
    }

    /// A branch: two cycles when not taken, three when taken within the
    /// page, four when the target lies in another page.
    pub open spec fn step_relative(self, b: Pins) -> (State, Pins) {
        if self.cycle == 0 {
            let r = self.fetch(b);
            (r.0.next(), r.1)
        } else if self.cycle == 1 {
            let target = word_add(self.core.pc, signed(b.data));
            let t = self.with_addr(target).apply_op();
            if t.data == 0 {
                t.sync(b)
            } else if page_differs(self.core.pc, target) {
                (t.next(), b.read(self.core.pc))
            } else {
                (t.skip(), b.read(self.core.pc))
            }
        } else if self.cycle == 2 {
            (self.next(), b.read(same_page(self.core.pc, self.addr)))
        } else {
            self.with_pc(self.addr).sync(b)
        }
    }

    /// PHA and PHP: a read of the next byte, then the push.
    pub open spec fn step_push(self, b: Pins) -> (State, Pins) {
        if self.cycle == 0 {
            (self.next(), b.read(self.core.pc))
        } else if self.cycle == 1 {
            let t = self.apply_op();
            let r = t.push(b, t.data);
            (r.0.next(), r.1)
        } else {
            self.sync(b)
        }
    }

    /// PLA and PLP: a read of the next byte, a read of the stack slot, the
    /// pull, and the operation on what was pulled.
    pub open spec fn step_pull(self, b: Pins) -> (State, Pins) {
        if self.cycle == 0 {
            (self.next(), b.read(self.core.pc))
        } else if self.cycle == 1 {
            (self.next(), b.read(stack_addr(self.core.s)))
        } else if self.cycle == 2 {
            let r = self.pull(b);
            (r.0.next(), r.1)
        } else {
            self.with_data(b.data).apply_op().sync(b)
        }
    }

    /// The seven cycles of BRK, IRQ, NMI and reset.
    pub open spec fn step_brk(self, b: Pins) -> (State, Pins) {
        if self.cycle == 0 {
            if self.brk.skip_id_byte() {
                let r = self.fetch(b);
                (r.0.next(), r.1)
            } else {
                (self.next(), b.read(self.core.pc))
            }
        } else if self.cycle == 1 {
            let r = self.push_brk(b, hi(self.core.pc));
            (r.0.next(), r.1)
        } else if self.cycle == 2 {
            let r = self.push_brk(b, lo(self.core.pc));
            (r.0.next(), r.1)
        } else if self.cycle == 3 {
            let r = self.push_brk(b, self.core.p.pushed(self.brk.b()));
            (r.0.next(), r.1)
        } else if self.cycle == 4 {
            (self.next(), b.read(self.brk.vector()))
        } else if self.cycle == 5 {
            (self.with_pc(word(b.data)).next(), b.read(word_add(self.brk.vector(), 1)))
        } else {
            self.with_core(
                Core { pc: join(lo(self.core.pc), b.data), ..self.core }.flagged(FLAG_I, true),
            ).sync(b)
        }
    }

    /// JSR: the low byte of the target, a read of the stack slot, the
    /// return address pushed, the high byte of the target.
    pub open spec fn step_jsr(self, b: Pins) -> (State, Pins) {
        if self.cycle == 0 {
            let r = self.fetch(b);
            (r.0.next(), r.1)
        } else if self.cycle == 1 {
            (self.with_data(b.data).next(), b.read(stack_addr(self.core.s)))
        } else if self.cycle == 2 {
            let r = self.push(b, hi(self.core.pc));
            (r.0.next(), r.1)
        } else if self.cycle == 3 {
            let r = self.push(b, lo(self.core.pc));
            (r.0.next(), r.1)
        } else if self.cycle == 4 {
            let r = self.fetch(b);
            (r.0.next(), r.1)
        } else {
            self.with_pc(join(self.data, b.data)).sync(b)
        }
    }

    /// RTS: the return address pulled, and one read there to step over the
    /// last byte of the JSR.
    pub open spec fn step_rts(self, b: Pins) -> (State, Pins) {
        if self.cycle == 0 {
            (self.next(), b.read(self.core.pc))
        } else if self.cycle == 1 {
            (self.next(), b.read(stack_addr(self.core.s)))
        } else if self.cycle == 2 {
            let r = self.pull(b);
            (r.0.next(), r.1)
        } else if self.cycle == 3 {
            let r = self.with_data(b.data).pull(b);
            (r.0.next(), r.1)
        } else if self.cycle == 4 {
            let r = self.with_pc(join(self.data, b.data)).fetch(b);
            (r.0.next(), r.1)
        } else {
            self.sync(b)
        }
    }

    /// RTI: the status register pulled, then the program counter.
    pub open spec fn step_rti(self, b: Pins) -> (State, Pins) {
        if self.cycle == 0 {
            (self.next(), b.read(self.core.pc))
        } else if self.cycle == 1 {
            (self.next(), b.read(stack_addr(self.core.s)))
        } else if self.cycle == 2 {
            let r = self.pull(b);
            (r.0.next(), r.1)
        } else if self.cycle == 3 {
            let r = self.with_core(Core { p: P::pulled(b.data), ..self.core }).pull(b);
            (r.0.next(), r.1)
        } else if self.cycle == 4 {
            let r = self.with_pc(word(b.data)).pull(b);
            (r.0.next(), r.1)
        } else {
            self.with_pc(join(lo(self.core.pc), b.data)).sync(b)
        }
    }

    /// The hang. After four cycles the processor reads `$FFFF` for ever and
    /// fetches no opcode again.
    pub open spec fn step_jam(self, b: Pins) -> (State, Pins) {
        if self.cycle == 0 {
            (self.next(), b.read(self.core.pc))
        } else if self.cycle == 1 {
            (self.next(), b.read(0xFFFF))
        } else if self.cycle == 2 || self.cycle == 3 {
            (self.next(), b.read(0xFFFE))
        } else {
            (self, b.read(0xFFFF))
        }
    }

    /// The start of an instruction. The byte on the bus is the opcode that
    /// the last cycle fetched. A reset that the line asks for, else a pending
    /// NMI, else a pending IRQ that the I flag does not hold off, takes its
    /// place, and the program counter then stays on it.
    pub open spec fn begin(self, b: Pins) -> State {
        if self.res_scheduled {
            State { op: Op::Brk, am: Am::Implied, brk: Brk::Res, ..self }
        } else if self.nmi_scheduled {
            State { nmi_scheduled: false, op: Op::Brk, am: Am::Implied, brk: Brk::Nmi, ..self }
        } else if self.irq_scheduled && !self.core.p.i() {
            State { op: Op::Brk, am: Am::Implied, brk: Brk::Irq, ..self }
        } else {
            State {
                op: decoding(b.data).0,
                am: decoding(b.data).1,
                brk: Brk::Brk,
                ..self
            }.with_pc(word_add(self.core.pc, 1))
        }
    }

    /// The cycle of the instruction that the state is in.
    pub open spec fn dispatch(self, b: Pins) -> (State, Pins) {
        match self.am {
            Am::Implied => match self.op {
                Op::Brk => self.step_brk(b),
                Op::Jam => self.step_jam(b),
                Op::Rti => self.step_rti(b),
                Op::Rts => self.step_rts(b),
                Op::Pha | Op::Php => self.step_push(b),
                Op::Pla | Op::Plp => self.step_pull(b),
                _ => self.step_implied(b),
            },
            Am::Accumulator => self.step_accumulator(b),
            Am::Immediate => self.step_immediate(b),
            Am::Zero => self.step_zero(b),
            Am::ZeroX => self.step_zero_index(b, self.core.x),
            Am::ZeroY => self.step_zero_index(b, self.core.y),
            Am::Absolute => if self.op == Op::Jsr {
                self.step_jsr(b)
            } else {
                self.step_absolute(b)
            },
            Am::AbsoluteX => self.step_absolute_index(b, self.core.x),
            Am::AbsoluteY => self.step_absolute_index(b, self.core.y),
            Am::Indirect => self.step_indirect(b),
            Am::IndexedIndirect => self.step_indexed_indirect(b),
            Am::IndirectIndexed => self.step_indirect_indexed(b),
            Am::Relative => self.step_relative(b),
        }
    }

    /// The lines of the host taken in at the end of a cycle: IRQ and RES by
    /// their level, NMI by its rising edge.
    pub open spec fn latch(self, b: Pins) -> State {
        State {
            irq_scheduled: b.irq,
            nmi_scheduled: self.nmi_scheduled || (!self.last_nmi && b.nmi),
            last_nmi: b.nmi,
            res_scheduled: b.res,
            ..self
        }
    }

    /// One bus cycle.
    pub open spec fn step(self, b: Pins) -> (State, Pins) {
        let s = if self.cycle == 0 { self.begin(b) } else { self };
        let r = s.dispatch(b);
        (r.0.latch(r.1), r.1)
    }
}

/// What an operation leaves alone: the instruction under way, the cycle
/// counter, the page-cross mark and the interrupt latches.
pub open spec fn same_instruction(s: State, t: State) -> bool {
    &&& t.op == s.op
    &&& t.am == s.am
    &&& t.brk == s.brk
    &&& t.cycle == s.cycle
    &&& t.wrap == s.wrap
    &&& t.irq_scheduled == s.irq_scheduled
    &&& t.last_nmi == s.last_nmi
    &&& t.nmi_scheduled == s.nmi_scheduled
    &&& t.res_scheduled == s.res_scheduled
}

/// An operation changes registers, `data` and `addr`, and nothing else.
pub proof fn lemma_apply_op_frame()
    ensures
        forall|s: State| same_instruction(s, #[trigger] s.apply_op()),
{
    reveal(State::apply_op);
}

/// What every cycle of an instruction keeps to. It stays in the instruction
/// and within `n` cycles, and leaves the interrupt latches alone. On the bus
/// it leaves the lines of the host alone, and the data on a read. It raises
/// SYNC exactly when it fetches the next opcode, which it reads at the
/// program counter, and the cycle counter is then zero, and only then.
pub open spec fn orderly(s: State, b: Pins, r: (State, Pins), n: int) -> bool {
    &&& r.0.op == s.op
    &&& r.0.am == s.am
    &&& r.0.brk == s.brk
    &&& r.0.cycle <= n
    &&& r.0.irq_scheduled == s.irq_scheduled
    &&& r.0.last_nmi == s.last_nmi
    &&& r.0.nmi_scheduled == s.nmi_scheduled
    &&& r.0.res_scheduled == s.res_scheduled
    &&& r.1.irq == b.irq
    &&& r.1.nmi == b.nmi
    &&& r.1.res == b.res
    &&& (r.1.rw ==> r.1.data == b.data)
    &&& r.1.sync == (r.0.cycle == 0)
    &&& (r.1.sync ==> r.1.rw && r.1.addr == r.0.core.pc)
}

proof fn lemma_tail_orderly(s: State, b: Pins, base: int)
    requires
        base - 1 <= s.cycle <= base + 3,
        0 <= base,
        base + 3 < 256,
    ensures
        s.cycle == base ==> orderly(s, b, s.operand_ready(b), base + 3),
        s.cycle > base ==> orderly(s, b, s.operand_tail(b, s.cycle - base), base + 3),
        forall|i: u8| base == s.cycle + 1 ==> orderly(s, b, #[trigger] s.add_index(b, i), base + 3),
{
    lemma_apply_op_frame();
}

proof fn lemma_zero_orderly(s: State, b: Pins)
    requires
        s.cycle <= 5,
    ensures
        s.cycle <= 4 ==> orderly(s, b, s.step_zero(b), 4),
        forall|i: u8| orderly(s, b, #[trigger] s.step_zero_index(b, i), 5),
{
    lemma_apply_op_frame();
    if 1 <= s.cycle <= 4 {
        let t = if s.cycle == 1 { s.with_addr(word(b.data)) } else { s };
        lemma_tail_orderly(t, b, 1);
    }
    if s.cycle >= 2 {
        lemma_tail_orderly(s, b, 2);
    }
}

proof fn lemma_absolute_orderly(s: State, b: Pins)
    requires
        s.cycle <= 6,
    ensures
        s.cycle <= 5 ==> orderly(s, b, s.step_absolute(b), 5),
        forall|i: u8| orderly(s, b, #[trigger] s.step_absolute_index(b, i), 6),
{
    lemma_apply_op_frame();
    if 2 <= s.cycle <= 5 {
        let t = if s.cycle == 2 { s.with_addr(join(lo(s.addr), b.data)) } else { s };
        lemma_tail_orderly(t, b, 2);
    }
    if s.cycle == 2 {
        lemma_tail_orderly(s.with_addr(join(lo(s.addr), b.data)), b, 3);
    } else if s.cycle >= 4 {
        lemma_tail_orderly(s, b, 3);
    }
}

proof fn lemma_pointer_orderly(s: State, b: Pins)
    requires
        s.cycle <= 7,
    ensures
        orderly(s, b, s.step_indexed_indirect(b), 7),
        orderly(s, b, s.step_indirect_indexed(b), 7),
{
    lemma_apply_op_frame();
    if s.cycle >= 4 {
        let t = if s.cycle == 4 { s.with_addr(join(lo(s.addr), b.data)) } else { s };
        lemma_tail_orderly(t, b, 4);
    }
    if s.cycle == 3 {
        lemma_tail_orderly(s.with_addr(join(lo(s.addr), b.data)), b, 4);
    }
}

proof fn lemma_short_orderly(s: State, b: Pins)
    requires
        s.cycle <= 1,
    ensures
        orderly(s, b, s.step_implied(b), 1),
        orderly(s, b, s.step_accumulator(b), 1),
        orderly(s, b, s.step_immediate(b), 1),
{
    lemma_apply_op_frame();
}

proof fn lemma_jump_orderly(s: State, b: Pins)
    ensures
        s.cycle <= 3 ==> orderly(s, b, s.step_relative(b), 3),
        s.cycle <= 4 ==> orderly(s, b, s.step_indirect(b), 4),
        s.cycle <= 5 ==> orderly(s, b, s.step_jsr(b), 5),
        s.cycle <= 5 ==> orderly(s, b, s.step_rts(b), 5),
{
    lemma_apply_op_frame();
}

proof fn lemma_stack_orderly(s: State, b: Pins)
    ensures
        s.cycle <= 2 ==> orderly(s, b, s.step_push(b), 2),
        s.cycle <= 3 ==> orderly(s, b, s.step_pull(b), 3),
        s.cycle <= 5 ==> orderly(s, b, s.step_rti(b), 5),
        s.cycle <= 6 ==> orderly(s, b, s.step_brk(b), 6),
{
    lemma_apply_op_frame();
}

/// Every cycle of every instruction is orderly, but that a hang fetches
/// nothing: its cycle counter is not zero though it may stand still.
pub proof fn lemma_dispatch_orderly(s: State, b: Pins)
    requires
        s.cycle <= last_cycle(s.op, s.am),
        !(s.op == Op::Jam && s.am == Am::Implied),
    ensures
        orderly(s, b, s.dispatch(b), last_cycle(s.op, s.am) as int),
{
    match s.am {
        Am::Implied => {
            lemma_stack_orderly(s, b);
            lemma_jump_orderly(s, b);
            if s.cycle <= 1 {
                lemma_short_orderly(s, b);
            }
        },
        Am::Accumulator | Am::Immediate => {
            lemma_short_orderly(s, b);
        },
        Am::Zero | Am::ZeroX | Am::ZeroY => {
            lemma_zero_orderly(s, b);
        },
        Am::Absolute => {
            lemma_jump_orderly(s, b);
            lemma_absolute_orderly(s, b);
        },
        Am::AbsoluteX | Am::AbsoluteY => {
            lemma_absolute_orderly(s, b);
        },
        Am::IndexedIndirect | Am::IndirectIndexed => {
            lemma_pointer_orderly(s, b);
        },
        Am::Indirect | Am::Relative => {
            lemma_jump_orderly(s, b);
        },
    }
}

/// The instruction that begins is one of the matrix.
pub proof fn lemma_begin_instruction(s: State, b: Pins)
    ensures
        is_instruction(s.begin(b).op, s.begin(b).am),
{
    let t = s.begin(b);
    if s.res_scheduled || s.nmi_scheduled || (s.irq_scheduled && !s.core.p.i()) {
        assert(decoding(0x00) == (t.op, t.am));
    } else {
        assert(decoding(b.data) == (t.op, t.am));
    }
}

/// A cycle leaves the sequencer in an instruction of the matrix and within
/// its schedule.
pub proof fn lemma_step_wf(s: State, b: Pins)
    requires
        s.wf(),
    ensures
        s.step(b).0.wf(),
{
    let t = if s.cycle == 0 { s.begin(b) } else { s };
    if s.cycle == 0 {
        lemma_begin_instruction(s, b);
    }
    if !(t.op == Op::Jam && t.am == Am::Implied) {
        lemma_dispatch_orderly(t, b);
    }
}

} // verus!
