//! A cycle-accurate model of the 6502 as it sits in the NES: no decimal
//! arithmetic, and the undocumented opcodes included.
//!
//! The processor is a state machine that the host advances one bus cycle at
//! a time through [`M6502::clock`]. All that passes between the two is the
//! [`Bus`] record.

use vstd::prelude::*;
use crate::bits::single_bit;
use crate::bits::{byte_dec, byte_inc, byte_plus, crosses_page, high_byte, in_page, low_byte, make_word, set_mask, widen, word_inc, word_offset, word_plus};
use crate::bits::{lemma_masked_other, lemma_masked_same};
use crate::instr::{decode, Am, Op};
use crate::regs::{Core, P};
use crate::step::{lemma_step_wf, same_instruction, Brk, Pins, State, UNSTABLE_MAGIC};

pub mod bits;
pub mod instr;
pub mod laws;
pub mod regs;
pub mod step;
pub mod timing;

verus! {

/// The bit of the interrupt request line in the packed lines of the bus.
pub const PIN_IRQ: u8 = 1;

/// The bit of the non-maskable interrupt line in the packed lines of the bus.
pub const PIN_NMI: u8 = 2;

/// The bit of the reset line in the packed lines of the bus.
pub const PIN_RES: u8 = 4;

/// The bit of the read/write line in the packed lines of the bus.
pub const PIN_RW: u8 = 8;

/// The bit of the opcode fetch line in the packed lines of the bus.
pub const PIN_SYNC: u8 = 16;

/// The bus record. The address and the data are open fields; the five lines
/// are packed in a byte of their own.
#[derive(Copy, Clone, Debug, PartialEq, Eq, Structural)]
pub struct Bus {
    /// The address that the processor reads or writes.
    pub addr: u16,
    /// The byte read or written. On a read the host puts it there.
    pub data: u8,
    flags: u8,
}

impl View for Bus {
    type V = Pins;

    closed spec fn view(&self) -> Pins {
        Pins {
            addr: self.addr,
            data: self.data,
            irq: self.flags & PIN_IRQ != 0,
            nmi: self.flags & PIN_NMI != 0,
            res: self.flags & PIN_RES != 0,
            rw: self.flags & PIN_RW != 0,
            sync: self.flags & PIN_SYNC != 0,
        }
    }
}

impl Bus {
    /// A bus at rest: address and data zero, every line low.
    pub fn new() -> (r: Bus)
        ensures
            r@ == (Pins {
                addr: 0,
                data: 0,
                irq: false,
                nmi: false,
                res: false,
                rw: false,
                sync: false,
            }),
    {
        proof {
            assert(forall|m: u8| 0u8 & m == 0) by (bit_vector);
        }
        Bus { addr: 0, data: 0, flags: 0 }
    }

    /// Drives a read of `addr` that fetches no opcode.
    pub fn read(&mut self, addr: u16)
        ensures
            final(self)@ == old(self)@.read(addr),
    {
        self.addr = addr;
        self.set_rw(true);
        self.set_sync(false);
    }

    /// Drives the fetch of the opcode at `addr`.
    pub fn read_sync(&mut self, addr: u16)
        ensures
            final(self)@ == old(self)@.read_sync(addr),
    {
        self.addr = addr;
        self.set_rw(true);
        self.set_sync(true);
    }

    /// Drives a write of `data` to `addr`.
    pub fn write(&mut self, addr: u16, data: u8)
        ensures
            final(self)@ == old(self)@.write(addr, data),
    {
        self.addr = addr;
        self.data = data;
        self.set_rw(false);
        self.set_sync(false);
    }

    /// Writes the line of the mask `m` and leaves the others.
    fn set_line(&mut self, m: u8, to: bool)
        requires
            single_bit(m),
        ensures
            final(self)@.addr == old(self)@.addr,
            final(self)@.data == old(self)@.data,
            final(self)@.irq == (if m == PIN_IRQ { to } else { old(self)@.irq }),
            final(self)@.nmi == (if m == PIN_NMI { to } else { old(self)@.nmi }),
            final(self)@.res == (if m == PIN_RES { to } else { old(self)@.res }),
            final(self)@.rw == (if m == PIN_RW { to } else { old(self)@.rw }),
            final(self)@.sync == (if m == PIN_SYNC { to } else { old(self)@.sync }),
    {
        proof {
            lemma_masked_same(self.flags, m, to);
            if m != PIN_IRQ {
                lemma_masked_other(self.flags, m, PIN_IRQ, to);
            }
            if m != PIN_NMI {
                lemma_masked_other(self.flags, m, PIN_NMI, to);
            }
            if m != PIN_RES {
                lemma_masked_other(self.flags, m, PIN_RES, to);
            }
            if m != PIN_RW {
                lemma_masked_other(self.flags, m, PIN_RW, to);
            }
            if m != PIN_SYNC {
                lemma_masked_other(self.flags, m, PIN_SYNC, to);
            }
        }
        self.flags = set_mask(self.flags, m, to);
    }

    /// The interrupt request line.
    pub fn irq(self) -> (r: bool)
        ensures
            r == self@.irq,
    {
        self.flags & PIN_IRQ != 0
    }

    /// The non-maskable interrupt line.
    pub fn nmi(self) -> (r: bool)
        ensures
            r == self@.nmi,
    {
        self.flags & PIN_NMI != 0
    }

    /// The reset line.
    pub fn res(self) -> (r: bool)
        ensures
            r == self@.res,
    {
        self.flags & PIN_RES != 0
    }

    /// The direction of the transfer: a read when set.
    pub fn rw(self) -> (r: bool)
        ensures
            r == self@.rw,
    {
        self.flags & PIN_RW != 0
    }

    /// The mark of an opcode fetch.
    pub fn sync(self) -> (r: bool)
        ensures
            r == self@.sync,
    {
        self.flags & PIN_SYNC != 0
    }

    /// Writes the interrupt request line and leaves the others.
    pub fn set_irq(&mut self, to: bool)
        ensures
            final(self)@ == (Pins { irq: to, ..old(self)@ }),
    {
        self.set_line(PIN_IRQ, to);
    }

    /// Writes the non-maskable interrupt line and leaves the others.
    pub fn set_nmi(&mut self, to: bool)
        ensures
            final(self)@ == (Pins { nmi: to, ..old(self)@ }),
    {
        self.set_line(PIN_NMI, to);
    }

    /// Writes the reset line and leaves the others.
    pub fn set_res(&mut self, to: bool)
        ensures
            final(self)@ == (Pins { res: to, ..old(self)@ }),
    {
        self.set_line(PIN_RES, to);
    }

    /// Writes the read/write line and leaves the others.
    pub fn set_rw(&mut self, to: bool)
        ensures
            final(self)@ == (Pins { rw: to, ..old(self)@ }),
    {
        self.set_line(PIN_RW, to);
    }

    /// Writes the opcode fetch line and leaves the others.
    pub fn set_sync(&mut self, to: bool)
        ensures
            final(self)@ == (Pins { sync: to, ..old(self)@ }),
    {
        self.set_line(PIN_SYNC, to);
    }
}

/// The processor: the register file, the instruction under way and the
/// interrupt latches.
#[derive(Copy, Clone, Debug, PartialEq, Eq)]
pub struct M6502 {
    core: Core,
    am: Am,
    brk: Brk,
    cycle: u8,
    op: Op,
    addr: u16,
    data: u8,
    wrap: bool,
    irq_scheduled: bool,
    last_nmi: bool,
    nmi_scheduled: bool,
    res_scheduled: bool,
}

impl View for M6502 {
    type V = State;

    closed spec fn view(&self) -> State {
        State {
            core: self.core,
            op: self.op,
            am: self.am,
            brk: self.brk,
            cycle: self.cycle,
            addr: self.addr,
            data: self.data,
            wrap: self.wrap,
            irq_scheduled: self.irq_scheduled,
            last_nmi: self.last_nmi,
            nmi_scheduled: self.nmi_scheduled,
            res_scheduled: self.res_scheduled,
        }
    }
}

impl M6502 {
    /// A processor that comes out of reset: its first cycles take the reset
    /// vector.
    pub fn start() -> (r: Self)
        ensures
            r@ == State::reset(),
            r@.wf(),
    {
        proof {
            assert(crate::instr::decoding(0x00) == (Op::Brk, Am::Implied));
        }
        let core = Core { a: 0, p: P::new(), pc: 0, s: 0, x: 0, y: 0 };
        Self {
            core,
            am: Am::Implied,
            brk: Brk::Res,
            cycle: 1,
            op: Op::Brk,
            addr: 0,
            data: 0,
            wrap: false,
            irq_scheduled: false,
            last_nmi: false,
            nmi_scheduled: false,
            res_scheduled: false,
        }
    }

    /// A processor with the registers `core` whose next cycle fetches the
    /// opcode at the program counter.
    pub fn new(core: Core) -> (r: Self)
        ensures
            r@ == State::seeded(core),
            r@.wf(),
    {
        proof {
            assert(crate::instr::decoding(0xEA) == (Op::Nop, Am::Implied));
        }
        Self {
            core,
            am: Am::Implied,
            brk: Brk::Brk,
            cycle: 1,
            op: Op::Nop,
            addr: 0,
            data: 0,
            wrap: false,
            irq_scheduled: false,
            last_nmi: false,
            nmi_scheduled: false,
            res_scheduled: false,
        }
    }

    /// The register file as it stands.
    pub fn registers(self) -> (r: Core)
        ensures
            r == self@.core,
    {
        self.core
    }

    /// Advances the processor by one bus cycle.
    pub fn clock(&mut self, bus: &mut Bus)
        requires
            old(self)@.wf(),
        ensures
            (final(self)@, final(bus)@) == old(self)@.step(old(bus)@),
            final(self)@.wf(),
    {
        proof {
            lemma_step_wf(self@, bus@);
        }
        if self.cycle == 0 {
            self.finish_sync(bus);
        }
        self.do_step(bus);
        self.latch_interrupts(bus);
    }

    fn finish_sync(&mut self, bus: &Bus)
        ensures
            final(self)@ == old(self)@.begin(bus@),
    {
        if self.res_scheduled {
            self.op = Op::Brk;
            self.am = Am::Implied;
            self.brk = Brk::Res;
        } else if self.nmi_scheduled {
            self.nmi_scheduled = false;
            self.op = Op::Brk;
            self.am = Am::Implied;
            self.brk = Brk::Nmi;
        } else if self.irq_scheduled && !self.core.p.i() {
            self.op = Op::Brk;
            self.am = Am::Implied;
            self.brk = Brk::Irq;
        } else {
            let d = decode(bus.data);
            self.op = d.0;
            self.am = d.1;
            self.brk = Brk::Brk;
            self.core.pc = word_inc(self.core.pc);
        }
    }

    fn do_step(&mut self, bus: &mut Bus)
        requires
            old(self)@.cycle <= crate::step::last_cycle(old(self)@.op, old(self)@.am),
        ensures
            (final(self)@, final(bus)@) == old(self)@.dispatch(old(bus)@),
    {
        match self.am {
            Am::Implied => match self.op {
                Op::Brk => self.exec_brk(bus),
                Op::Jam => self.exec_jam(bus),
                Op::Rti => self.exec_rti(bus),
                Op::Rts => self.exec_rts(bus),
                Op::Pha | Op::Php => self.exec_push(bus),
                Op::Pla | Op::Plp => self.exec_pull(bus),
                _ => self.exec_implied(bus),
            },
            Am::Accumulator => self.exec_accumulator(bus),
            Am::Immediate => self.exec_immediate(bus),
            Am::Zero => self.exec_zero(bus),
            Am::ZeroX => self.exec_zero_x(bus),
            Am::ZeroY => self.exec_zero_y(bus),
            Am::Absolute => match self.op {
                Op::Jsr => self.exec_jsr(bus),
                _ => self.exec_absolute(bus),
            },
            Am::AbsoluteX => self.exec_absolute_x(bus),
            Am::AbsoluteY => self.exec_absolute_y(bus),
            Am::Indirect => self.exec_indirect(bus),
            Am::IndexedIndirect => self.exec_indexed_indirect(bus),
            Am::IndirectIndexed => self.exec_indirect_indexed(bus),
            Am::Relative => self.exec_relative(bus),
        }
    }

    fn latch_interrupts(&mut self, bus: &Bus)
        ensures
            final(self)@ == old(self)@.latch(bus@),
    {
        self.irq_scheduled = bus.irq();
        self.nmi_scheduled = self.nmi_scheduled || (!self.last_nmi && bus.nmi());
        self.last_nmi = bus.nmi();
        self.res_scheduled = bus.res();
    }

    fn next(&mut self)
        requires
            old(self)@.cycle < 255,
        ensures
            final(self)@ == old(self)@.next(),
    {
        self.cycle += 1;
    }

    fn skip(&mut self)
        requires
            old(self)@.cycle < 254,
        ensures
            final(self)@ == old(self)@.skip(),
    {
        self.cycle += 2;
    }

    fn goto(&mut self, cycle: u8)
        ensures
            final(self)@ == (State { cycle, ..old(self)@ }),
    {
        self.cycle = cycle;
    }

    fn fetch(&mut self, bus: &mut Bus)
        ensures
            (final(self)@, final(bus)@) == old(self)@.fetch(old(bus)@),
    {
        bus.read(self.core.pc);
        self.core.pc = word_inc(self.core.pc);
    }

    fn push(&mut self, data: u8, bus: &mut Bus)
        ensures
            (final(self)@, final(bus)@) == old(self)@.push(old(bus)@, data),
    {
        bus.write(widen(self.core.s) + 0x100, data);
        self.core.s = byte_dec(self.core.s);
    }

    fn push_brk(&mut self, data: u8, bus: &mut Bus)
        ensures
            (final(self)@, final(bus)@) == old(self)@.push_brk(old(bus)@, data),
    {
        if self.brk.push() {
            self.push(data, bus);
        } else {
            bus.read(widen(self.core.s) + 0x100);
            self.core.s = byte_dec(self.core.s);
        }
    }

    fn pull(&mut self, bus: &mut Bus)
        ensures
            (final(self)@, final(bus)@) == old(self)@.pull(old(bus)@),
    {
        self.core.s = byte_inc(self.core.s);
        bus.read(widen(self.core.s) + 0x100);
    }

    fn sync(&mut self, bus: &mut Bus)
        ensures
            (final(self)@, final(bus)@) == old(self)@.sync(old(bus)@),
    {
        bus.read_sync(self.core.pc);
        self.goto(0);
    }

    /// Applies the operation of the instruction under way.
    fn run_op(&mut self)
        ensures
            final(self)@ == old(self)@.apply_op(),
            same_instruction(old(self)@, final(self)@),
    {
        proof {
            reveal(State::apply_op);
        }
        let d: u8 = self.data;
        match self.op {
            Op::Adc => self.core.exec_adc(d),
            Op::Alr => self.core.exec_alr(d),
            Op::Anc => self.core.exec_anc(d),
            Op::And => self.core.exec_and(d),
            Op::Ane => self.core.exec_ane(d, UNSTABLE_MAGIC),
            Op::Arr => self.core.exec_arr(d),
            Op::Asl => {
                self.data = self.core.exec_asl(d);
            },
            Op::Bcc => {
                self.data = branch_byte(self.core.exec_bcc());
            },
            Op::Bcs => {
                self.data = branch_byte(self.core.exec_bcs());
            },
            Op::Beq => {
                self.data = branch_byte(self.core.exec_beq());
            },
            Op::Bit => self.core.exec_bit(d),
            Op::Bmi => {
                self.data = branch_byte(self.core.exec_bmi());
            },
            Op::Bne => {
                self.data = branch_byte(self.core.exec_bne());
            },
            Op::Bpl => {
                self.data = branch_byte(self.core.exec_bpl());
            },
            Op::Bvc => {
                self.data = branch_byte(self.core.exec_bvc());
            },
            Op::Bvs => {
                self.data = branch_byte(self.core.exec_bvs());
            },
            Op::Clc => self.core.exec_clc(),
            Op::Cld => self.core.exec_cld(),
            Op::Cli => self.core.exec_cli(),
            Op::Clv => self.core.exec_clv(),
            Op::Cmp => self.core.exec_cmp(d),
            Op::Cpx => self.core.exec_cpx(d),
            Op::Cpy => self.core.exec_cpy(d),
            Op::Dcp => {
                self.data = self.core.exec_dcp(d);
            },
            Op::Dec => {
                self.data = self.core.exec_dec(d);
            },
            Op::Dex => self.core.exec_dex(),
            Op::Dey => self.core.exec_dey(),
            Op::Eor => self.core.exec_eor(d),
            Op::Inc => {
                self.data = self.core.exec_inc(d);
            },
            Op::Inx => self.core.exec_inx(),
            Op::Iny => self.core.exec_iny(),
            Op::Isc => {
                self.data = self.core.exec_isc(d);
            },
            Op::Jmp => {
                self.core.pc = self.addr;
            },
            Op::Las => self.core.exec_las(d),
            Op::Lax => self.core.exec_lax(d),
            Op::Lda => self.core.exec_lda(d),
            Op::Ldx => self.core.exec_ldx(d),
            Op::Ldy => self.core.exec_ldy(d),
            Op::Lsr => {
                self.data = self.core.exec_lsr(d);
            },
            Op::Lxa => self.core.exec_lxa(d, UNSTABLE_MAGIC),
            Op::Ora => self.core.exec_ora(d),
            Op::Pha => {
                self.data = self.core.a;
            },
            Op::Php => {
                self.data = self.core.p.to_push_byte(true);
            },
            Op::Pla => self.core.exec_pla(d),
            Op::Plp => self.core.exec_plp(d),
            Op::Rla => {
                self.data = self.core.exec_rla(d);
            },
            Op::Rol => {
                self.data = self.core.exec_rol(d);
            },
            Op::Ror => {
                self.data = self.core.exec_ror(d);
            },
            Op::Rra => {
                self.data = self.core.exec_rra(d);
            },
            Op::Sax => {
                self.data = self.core.a & self.core.x;
            },
            Op::Sbc => self.core.exec_sbc(d),
            Op::Sbx => self.core.exec_sbx(d),
            Op::Sec => self.core.exec_sec(),
            Op::Sed => self.core.exec_sed(),
            Op::Sei => self.core.exec_sei(),
            Op::Sha => {
                let r = self.core.exec_sha(self.addr, self.wrap);
                self.data = r.0;
                self.addr = r.1;
            },
            Op::Shx => {
                let r = self.core.exec_shx(self.addr, self.wrap);
                self.data = r.0;
                self.addr = r.1;
            },
            Op::Shy => {
                let r = self.core.exec_shy(self.addr, self.wrap);
                self.data = r.0;
                self.addr = r.1;
            },
            Op::Slo => {
                self.data = self.core.exec_slo(d);
            },
            Op::Sre => {
                self.data = self.core.exec_sre(d);
            },
            Op::Sta => {
                self.data = self.core.a;
            },
            Op::Stx => {
                self.data = self.core.x;
            },
            Op::Sty => {
                self.data = self.core.y;
            },
            Op::Tas => {
                let r = self.core.exec_tas(self.addr, self.wrap);
                self.data = r.0;
                self.addr = r.1;
            },
            Op::Tax => self.core.exec_tax(),
            Op::Tay => self.core.exec_tay(),
            Op::Tsx => self.core.exec_tsx(),
            Op::Txa => self.core.exec_txa(),
            Op::Txs => self.core.exec_txs(),
            Op::Tya => self.core.exec_tya(),
            Op::Brk | Op::Jam | Op::Jsr | Op::Nop | Op::Rti | Op::Rts => {},
        }
    }

    fn operand_ready(&mut self, bus: &mut Bus)
        requires
            old(self)@.cycle < 252,
        ensures
            (final(self)@, final(bus)@) == old(self)@.operand_ready(old(bus)@),
    {
        if self.op.reads_operand() {
            bus.read(self.addr);
            self.next();
        } else {
            let landing: u8 = self.cycle + 3;
            self.run_op();
            if self.op.writes_operand() {
                bus.write(self.addr, self.data);
                self.goto(landing);
            } else {
                self.sync(bus);
            }
        }
    }

    fn operand_read(&mut self, bus: &mut Bus)
        requires
            old(self)@.cycle < 252,
        ensures
            (final(self)@, final(bus)@) == old(self)@.operand_read(old(bus)@),
    {
        self.data = bus.data;
        if self.op.is_rmw() {
            bus.write(self.addr, self.data);
            self.run_op();
            self.next();
        } else {
            self.run_op();
            if self.op.writes_operand() {
                bus.write(self.addr, self.data);
                self.skip();
            } else {
                self.sync(bus);
            }
        }
    }

    fn operand_write(&mut self, bus: &mut Bus)
        requires
            old(self)@.cycle < 252,
        ensures
            (final(self)@, final(bus)@) == old(self)@.operand_write(old(bus)@),
    {
        bus.write(self.addr, self.data);
        self.next();
    }

    fn add_index(&mut self, index: u8, bus: &mut Bus)
        requires
            old(self)@.cycle < 252,
        ensures
            (final(self)@, final(bus)@) == old(self)@.add_index(old(bus)@, index),
    {
        let sum: u16 = word_plus(self.addr, index);
        let crossed: bool = crosses_page(self.addr, sum);
        let in_base_page: u16 = in_page(self.addr, sum);
        self.addr = sum;
        self.wrap = crossed;
        bus.read(in_base_page);
        let again: bool = (self.op.reads_operand() && crossed) || self.op.is_rmw();
        if !again {
            self.skip();
        } else {
            self.next();
        }
    }

    fn exec_absolute(&mut self, bus: &mut Bus)
        requires
            old(self)@.cycle <= 5,
        ensures
            (final(self)@, final(bus)@) == old(self)@.step_absolute(old(bus)@),
    {
        match self.cycle {
            0 => {
                self.fetch(bus);
                self.next();
            },
            1 => {
                self.addr = widen(bus.data);
                self.fetch(bus);
                self.next();
            },
            2 => {
                self.addr = make_word(low_byte(self.addr), bus.data);
                self.operand_ready(bus);
            },
            3 => self.operand_read(bus),
            4 => self.operand_write(bus),
            _ => self.sync(bus),
        }
    }

    fn exec_absolute_x(&mut self, bus: &mut Bus)
        requires
            old(self)@.cycle <= 6,
        ensures
            (final(self)@, final(bus)@) == old(self)@.step_absolute_index(
                old(bus)@,
                old(self)@.core.x,
            ),
    {
        self.exec_absolute_index(self.core.x, bus);
    }

    fn exec_absolute_y(&mut self, bus: &mut Bus)
        requires
            old(self)@.cycle <= 6,
        ensures
            (final(self)@, final(bus)@) == old(self)@.step_absolute_index(
                old(bus)@,
                old(self)@.core.y,
            ),
    {
        self.exec_absolute_index(self.core.y, bus);
    }

    fn exec_accumulator(&mut self, bus: &mut Bus)
        requires
            old(self)@.cycle <= 1,
        ensures
            (final(self)@, final(bus)@) == old(self)@.step_accumulator(old(bus)@),
    {
        match self.cycle {
            0 => {
                bus.read(self.core.pc);
                self.next();
            },
            _ => {
                self.data = self.core.a;
                self.run_op();
                self.core.a = self.data;
                self.sync(bus);
            },
        }
    }

    fn exec_immediate(&mut self, bus: &mut Bus)
        requires
            old(self)@.cycle <= 1,
        ensures
            (final(self)@, final(bus)@) == old(self)@.step_immediate(old(bus)@),
    {
        match self.cycle {
            0 => {
                self.fetch(bus);
                self.next();
            },
            _ => {
                self.data = bus.data;
                self.run_op();
                self.sync(bus);
            },
        }
    }

    fn exec_implied(&mut self, bus: &mut Bus)
        requires
            old(self)@.cycle <= 1,
        ensures
            (final(self)@, final(bus)@) == old(self)@.step_implied(old(bus)@),
    {
        match self.cycle {
            0 => {
                bus.read(self.core.pc);
                self.run_op();
                self.next();
            },
            _ => self.sync(bus),
        }
    }

    fn exec_indexed_indirect(&mut self, bus: &mut Bus)
        requires
            old(self)@.cycle <= 7,
        ensures
            (final(self)@, final(bus)@) == old(self)@.step_indexed_indirect(old(bus)@),
    {
        match self.cycle {
            0 => {
                self.fetch(bus);
                self.next();
            },
            1 => {
                self.data = bus.data;
                bus.read(widen(self.data));
                self.next();
            },
            2 => {
                self.data = byte_plus(self.data, self.core.x);
                bus.read(widen(self.data));
                self.next();
            },
            3 => {
                self.addr = widen(bus.data);
                self.data = byte_inc(self.data);
                bus.read(widen(self.data));
                self.next();
            },
            4 => {
                self.addr = make_word(low_byte(self.addr), bus.data);
                self.operand_ready(bus);
            },
            5 => self.operand_read(bus),
            6 => self.operand_write(bus),
            _ => self.sync(bus),
        }
    }

    fn exec_indirect(&mut self, bus: &mut Bus)
        requires
            old(self)@.cycle <= 4,
        ensures
            (final(self)@, final(bus)@) == old(self)@.step_indirect(old(bus)@),
    {
        match self.cycle {
            0 => {
                self.fetch(bus);
                self.next();
            },
            1 => {
                self.addr = widen(bus.data);
                self.fetch(bus);
                self.next();
            },
            2 => {
                self.addr = make_word(low_byte(self.addr), bus.data);
                bus.read(self.addr);
                self.next();
            },
            3 => {
                bus.read(in_page(self.addr, word_inc(self.addr)));
                self.addr = widen(bus.data);
                self.next();
            },
            _ => {
                self.addr = make_word(low_byte(self.addr), bus.data);
                self.run_op();
                self.sync(bus);
            },
        }
    }

    fn exec_indirect_indexed(&mut self, bus: &mut Bus)
        requires
            old(self)@.cycle <= 7,
        ensures
            (final(self)@, final(bus)@) == old(self)@.step_indirect_indexed(old(bus)@),
    {
        match self.cycle {
            0 => {
                self.fetch(bus);
                self.next();
            },
            1 => {
                self.data = bus.data;
                bus.read(widen(self.data));
                self.next();
            },
            2 => {
                self.addr = widen(bus.data);
                bus.read(widen(byte_inc(self.data)));
                self.next();
            },
            3 => {
                self.addr = make_word(low_byte(self.addr), bus.data);
                self.add_index(self.core.y, bus);
            },
            4 => {
                bus.read(self.addr);
                self.next();
            },
            5 => self.operand_read(bus),
            6 => self.operand_write(bus),
            _ => self.sync(bus),
        }
    }

    fn exec_pull(&mut self, bus: &mut Bus)
        requires
            old(self)@.cycle <= 3,
        ensures
            (final(self)@, final(bus)@) == old(self)@.step_pull(old(bus)@),
    {
        match self.cycle {
            0 => {
                bus.read(self.core.pc);
                self.next();
            },
            1 => {
                bus.read(widen(self.core.s) + 0x100);
                self.next();
            },
            2 => {
                self.pull(bus);
                self.next();
            },
            _ => {
                self.data = bus.data;
                self.run_op();
                self.sync(bus);
            },
        }
    }

    fn exec_push(&mut self, bus: &mut Bus)
        requires
            old(self)@.cycle <= 2,
        ensures
            (final(self)@, final(bus)@) == old(self)@.step_push(old(bus)@),
    {
        match self.cycle {
            0 => {
                bus.read(self.core.pc);
                self.next();
            },
            1 => {
                self.run_op();
                self.push(self.data, bus);
                self.next();
            },
            _ => self.sync(bus),
        }
    }

    fn exec_relative(&mut self, bus: &mut Bus)
        requires
            old(self)@.cycle <= 3,
        ensures
            (final(self)@, final(bus)@) == old(self)@.step_relative(old(bus)@),
    {
        match self.cycle {
            0 => {
                self.fetch(bus);
                self.next();
            },
            1 => {
                let from: u16 = self.core.pc;
                let target: u16 = word_offset(from, bus.data);
                let wrap: bool = crosses_page(from, target);
                self.addr = target;
                self.run_op();
                let take: bool = self.data != 0;
                if take && wrap {
                    bus.read(from);
                    self.next();
                } else if take {
                    bus.read(from);
                    self.skip();
                } else {
                    self.sync(bus);
                }
            },
            2 => {
                bus.read(in_page(self.core.pc, self.addr));
                self.next();
            },
            _ => {
                self.core.pc = self.addr;
                self.sync(bus);
            },
        }
    }

    fn exec_zero(&mut self, bus: &mut Bus)
        requires
            old(self)@.cycle <= 4,
        ensures
            (final(self)@, final(bus)@) == old(self)@.step_zero(old(bus)@),
    {
        match self.cycle {
            0 => {
                self.fetch(bus);
                self.next();
            },
            1 => {
                self.addr = widen(bus.data);
                self.operand_ready(bus);
            },
            2 => self.operand_read(bus),
            3 => self.operand_write(bus),
            _ => self.sync(bus),
        }
    }

    fn exec_zero_x(&mut self, bus: &mut Bus)
        requires
            old(self)@.cycle <= 5,
        ensures
            (final(self)@, final(bus)@) == old(self)@.step_zero_index(old(bus)@, old(self)@.core.x),
    {
        self.exec_zero_index(self.core.x, bus);
    }

    fn exec_zero_y(&mut self, bus: &mut Bus)
        requires
            old(self)@.cycle <= 5,
        ensures
            (final(self)@, final(bus)@) == old(self)@.step_zero_index(old(bus)@, old(self)@.core.y),
    {
        self.exec_zero_index(self.core.y, bus);
    }

    fn exec_absolute_index(&mut self, index: u8, bus: &mut Bus)
        requires
            old(self)@.cycle <= 6,
        ensures
            (final(self)@, final(bus)@) == old(self)@.step_absolute_index(old(bus)@, index),
    {
        match self.cycle {
            0 => {
                self.fetch(bus);
                self.next();
            },
            1 => {
                self.addr = widen(bus.data);
                self.fetch(bus);
                self.next();
            },
            2 => {
                self.addr = make_word(low_byte(self.addr), bus.data);
                self.add_index(index, bus);
            },
            3 => {
                bus.read(self.addr);
                self.next();
            },
            4 => self.operand_read(bus),
            5 => self.operand_write(bus),
            _ => self.sync(bus),
        }
    }

    fn exec_zero_index(&mut self, index: u8, bus: &mut Bus)
        requires
            old(self)@.cycle <= 5,
        ensures
            (final(self)@, final(bus)@) == old(self)@.step_zero_index(old(bus)@, index),
    {
        match self.cycle {
            0 => {
                self.fetch(bus);
                self.next();
            },
            1 => {
                self.addr = widen(byte_plus(bus.data, index));
                bus.read(widen(bus.data));
                self.next();
            },
            2 => self.operand_ready(bus),
            3 => self.operand_read(bus),
            4 => self.operand_write(bus),
            _ => self.sync(bus),
        }
    }

    fn exec_brk(&mut self, bus: &mut Bus)
        requires
            old(self)@.cycle <= 6,
        ensures
            (final(self)@, final(bus)@) == old(self)@.step_brk(old(bus)@),
    {
        match self.cycle {
            0 => {
                if self.brk.skip_id_byte() {
                    self.fetch(bus);
                } else {
                    bus.read(self.core.pc);
                }
                self.next();
            },
            1 => {
                self.push_brk(high_byte(self.core.pc), bus);
                self.next();
            },
            2 => {
                self.push_brk(low_byte(self.core.pc), bus);
                self.next();
            },
            3 => {
                self.push_brk(self.core.p.to_push_byte(self.brk.b()), bus);
                self.next();
            },
            4 => {
                bus.read(self.brk.vector());
                self.next();
            },
            5 => {
                self.core.pc = widen(bus.data);
                bus.read(self.brk.vector() + 1);
                self.next();
            },
            _ => {
                self.core.pc = make_word(low_byte(self.core.pc), bus.data);
                self.core.p.set_i(true);
                self.sync(bus);
            },
        }
    }

    fn exec_jam(&mut self, bus: &mut Bus)
        requires
            old(self)@.cycle <= 4,
        ensures
            (final(self)@, final(bus)@) == old(self)@.step_jam(old(bus)@),
    {
        match self.cycle {
            0 => {
                bus.read(self.core.pc);
                self.next();
            },
            1 => {
                bus.read(0xFFFF);
                self.next();
            },
            2 => {
                bus.read(0xFFFE);
                self.next();
            },
            3 => {
                bus.read(0xFFFE);
                self.next();
            },
            _ => {
                bus.read(0xFFFF);
            },
        }
    }

    fn exec_jsr(&mut self, bus: &mut Bus)
        requires
            old(self)@.cycle <= 5,
        ensures
            (final(self)@, final(bus)@) == old(self)@.step_jsr(old(bus)@),
    {
        match self.cycle {
            0 => {
                self.fetch(bus);
                self.next();
            },
            1 => {
                self.data = bus.data;
                bus.read(widen(self.core.s) + 0x100);
                self.next();
            },
            2 => {
                self.push(high_byte(self.core.pc), bus);
                self.next();
            },
            3 => {
                self.push(low_byte(self.core.pc), bus);
                self.next();
            },
            4 => {
                self.fetch(bus);
                self.next();
            },
            _ => {
                self.core.pc = make_word(self.data, bus.data);
                self.sync(bus);
            },
        }
    }

    fn exec_rti(&mut self, bus: &mut Bus)
        requires
            old(self)@.cycle <= 5,
        ensures
            (final(self)@, final(bus)@) == old(self)@.step_rti(old(bus)@),
    {
        match self.cycle {
            0 => {
                bus.read(self.core.pc);
                self.next();
            },
            1 => {
                bus.read(widen(self.core.s) + 0x100);
                self.next();
            },
            2 => {
                self.pull(bus);
                self.next();
            },
            3 => {
                self.core.p = P::from_pull_byte(bus.data);
                self.pull(bus);
                self.next();
            },
            4 => {
                self.core.pc = widen(bus.data);
                self.pull(bus);
                self.next();
            },
            _ => {
                self.core.pc = make_word(low_byte(self.core.pc), bus.data);
                self.sync(bus);
            },
        }
    }

    fn exec_rts(&mut self, bus: &mut Bus)
        requires
            old(self)@.cycle <= 5,
        ensures
            (final(self)@, final(bus)@) == old(self)@.step_rts(old(bus)@),
    {
        match self.cycle {
            0 => {
                bus.read(self.core.pc);
                self.next();
            },
            1 => {
                bus.read(widen(self.core.s) + 0x100);
                self.next();
            },
            2 => {
                self.pull(bus);
                self.next();
            },
            3 => {
                self.data = bus.data;
                self.pull(bus);
                self.next();
            },
            4 => {
                self.core.pc = make_word(self.data, bus.data);
                self.fetch(bus);
                self.next();
            },
            _ => self.sync(bus),
        }
    }
}

/// The byte by which a branch operation hands on its decision.
fn branch_byte(taken: bool) -> (r: u8)
    ensures
        r == crate::step::decision(taken),
{
    if taken { 1 } else { 0 }
}

} // verus!
