//! How many cycles an instruction takes.
//!
//! The number is stated as the data sheet states it, by operation and
//! addressing mode, and proved of the sequencer: counted from the cycle that
//! takes the opcode in, the fetch of the next opcode comes after exactly
//! that many cycles, whatever the host puts on the bus.

use vstd::prelude::*;
use crate::bits::{join, page_differs, signed, word_add};
use crate::instr::{opcode_mode, opcode_op, Am, Op};
use crate::laws::{after, begins_opcode, branch_taken, index_of, run};
use crate::laws::{
    lemma_branch_decides,
    lemma_first_cycle,
    lemma_indexed_cycles,
    lemma_operand_kinds,
    lemma_pointer_low,
    lemma_relative_cycle,
    lemma_second_cycle,
};
use crate::step::{last_cycle, lemma_apply_op_frame, Pins, State};

verus! {

/// The cycles that an operation spends on its operand once the address is
/// known: one to read, one to write, and for a read-modify-write operation
/// one to read and two to write.
pub open spec fn operand_cycles(op: Op) -> int {
    if op.is_rmw() {
        3
    } else {
        1
    }
}

/// The cycles that an indexed mode adds for the index: none for a reading
/// operation whose sum stays in the page, one otherwise.
pub open spec fn index_cycles(op: Op, crossed: bool) -> int {
    if op.is_load() && !crossed {
        0
    } else {
        1
    }
}

/// The number of cycles of an instruction, the opcode fetch included.
/// `crossed` says that the index or the branch offset led out of the page,
/// `taken` that the branch is taken. A JAM has no such number.
pub open spec fn cycles(op: Op, am: Am, crossed: bool, taken: bool) -> int {
    match am {
        Am::Implied => match op {
            Op::Brk => 7,
            Op::Rti | Op::Rts => 6,
            Op::Pha | Op::Php => 3,
            Op::Pla | Op::Plp => 4,
            _ => 2,
        },
        Am::Accumulator | Am::Immediate => 2,
        Am::Zero => 2 + operand_cycles(op),
        Am::ZeroX | Am::ZeroY => 3 + operand_cycles(op),
        Am::Absolute => if op == Op::Jsr {
            6
        } else if op == Op::Jmp {
            3
        } else {
            3 + operand_cycles(op)
        },
        Am::AbsoluteX | Am::AbsoluteY => 3 + index_cycles(op, crossed) + operand_cycles(op),
        Am::Indirect => 5,
        Am::IndexedIndirect => 5 + operand_cycles(op),
        Am::IndirectIndexed => 4 + index_cycles(op, crossed) + operand_cycles(op),
        Am::Relative => if !taken {
            2
        } else if crossed {
            4
        } else {
            3
        },
    }
}

/// Whether the instruction that begins in `s` leaves the page: with its
/// index, or with its branch. The operand bytes are what the host answers
/// in the cycles after the first.
pub open spec fn leaves_page(s: State, bs: Seq<Pins>) -> bool
    recommends
        bs.len() >= 4,
{
    let am = opcode_mode(bs[0].data);
    if am == Am::AbsoluteX || am == Am::AbsoluteY {
        let base = join(bs[1].data, bs[2].data);
        page_differs(base, word_add(base, index_of(am, s.core) as int))
    } else if am == Am::IndirectIndexed {
        let base = join(bs[2].data, bs[3].data);
        page_differs(base, word_add(base, s.core.y as int))
    } else if am == Am::Relative {
        let next = word_add(s.core.pc, 2);
        page_differs(next, word_add(next, signed(bs[1].data)))
    } else {
        false
    }
}

/// The number of cycles of the instruction that begins in `s` when the
/// host answers with `bs`.
pub open spec fn cycles_of(s: State, bs: Seq<Pins>) -> int
    recommends
        bs.len() >= 4,
{
    let op = opcode_op(bs[0].data);
    cycles(op, opcode_mode(bs[0].data), leaves_page(s, bs), branch_taken(op, s.core.p))
}

/// The cycles that are left of the operand's part of an instruction, `k`
/// cycles after the one in which the address was ready.
pub open spec fn left_of_operand(op: Op, k: int) -> int {
    if k == 0 {
        if op.is_rmw() {
            4
        } else if op.is_load() || op.is_store() {
            2
        } else {
            1
        }
    } else if k == 1 {
        if op.is_rmw() {
            3
        } else if op.is_store() {
            2
        } else {
            1
        }
    } else if k == 2 {
        2
    } else {
        1
    }
}

/// The cycles that are left of the instruction under way, the fetch of the
/// next opcode included, in a state from which that no longer depends on
/// what the host answers. Zero where it still does, and in a JAM.
pub open spec fn left(s: State) -> int {
    let c = s.cycle as int;
    match s.am {
        Am::Implied => match s.op {
            Op::Brk => 7 - c,
            Op::Rti | Op::Rts => 6 - c,
            Op::Pha | Op::Php => 3 - c,
            Op::Pla | Op::Plp => 4 - c,
            Op::Jam => 0,
            _ => 2 - c,
        },
        Am::Accumulator | Am::Immediate => 2 - c,
        Am::Zero => left_of_operand(s.op, c - 1),
        Am::ZeroX | Am::ZeroY => if c == 1 {
            1 + left_of_operand(s.op, 0)
        } else {
            left_of_operand(s.op, c - 2)
        },
        Am::Absolute => if s.op == Op::Jsr {
            6 - c
        } else if c == 1 {
            1 + left_of_operand(s.op, 0)
        } else {
            left_of_operand(s.op, c - 2)
        },
        Am::AbsoluteX | Am::AbsoluteY => if c <= 2 {
            0
        } else if c == 3 {
            1 + left_of_operand(s.op, 1)
        } else {
            left_of_operand(s.op, c - 3)
        },
        Am::Indirect => 5 - c,
        Am::IndexedIndirect => if c <= 3 {
            4 - c + left_of_operand(s.op, 0)
        } else {
            left_of_operand(s.op, c - 4)
        },
        Am::IndirectIndexed => if c <= 3 {
            0
        } else if c == 4 {
            1 + left_of_operand(s.op, 1)
        } else {
            left_of_operand(s.op, c - 4)
        },
        Am::Relative => if c == 2 {
            2
        } else if c == 3 {
            1
        } else {
            0
        },
    }
}

/// Whether `s` is within an instruction and the rest of it is counted.
pub open spec fn counting(s: State) -> bool {
    1 <= s.cycle <= last_cycle(s.op, s.am) && left(s) >= 1
}

/// Whether a cycle took one off what is left, or, where one was left,
/// fetched the next opcode.
pub open spec fn counts_down(s: State, t: State) -> bool {
    &&& t.op == s.op
    &&& t.am == s.am
    &&& left(s) == 1 ==> t.cycle == 0
    &&& left(s) > 1 ==> counting(t) && left(t) == left(s) - 1
}

proof fn lemma_countdown_stack(s: State, b: Pins)
    requires
        counting(s),
        s.am == Am::Implied,
    ensures
        counts_down(s, after(s, b)),
{
    reveal(after);
    lemma_apply_op_frame();
}

proof fn lemma_countdown_short(s: State, b: Pins)
    requires
        counting(s),
        s.am == Am::Accumulator || s.am == Am::Immediate || s.am == Am::Indirect || s.am
            == Am::Relative || (s.am == Am::Absolute && s.op == Op::Jsr),
    ensures
        counts_down(s, after(s, b)),
{
    reveal(after);
    lemma_apply_op_frame();
}

proof fn lemma_countdown_zero(s: State, b: Pins)
    requires
        counting(s),
        s.am == Am::Zero || s.am == Am::ZeroX || s.am == Am::ZeroY,
    ensures
        counts_down(s, after(s, b)),
{
    reveal(after);
    lemma_apply_op_frame();
}

proof fn lemma_countdown_absolute(s: State, b: Pins)
    requires
        counting(s),
        s.am == Am::Absolute && s.op != Op::Jsr || s.am == Am::AbsoluteX || s.am
            == Am::AbsoluteY,
    ensures
        counts_down(s, after(s, b)),
{
    reveal(after);
    lemma_apply_op_frame();
}

proof fn lemma_countdown_pointer(s: State, b: Pins)
    requires
        counting(s),
        s.am == Am::IndexedIndirect || s.am == Am::IndirectIndexed,
    ensures
        counts_down(s, after(s, b)),
{
    reveal(after);
    lemma_apply_op_frame();
}

/// Every cycle from which the rest of the instruction is counted takes one
/// off what is left; the last one fetches the next opcode.
pub proof fn lemma_countdown(s: State, b: Pins)
    requires
        counting(s),
    ensures
        counts_down(s, after(s, b)),
{
    match s.am {
        Am::Implied => lemma_countdown_stack(s, b),
        Am::Zero | Am::ZeroX | Am::ZeroY => lemma_countdown_zero(s, b),
        Am::AbsoluteX | Am::AbsoluteY => lemma_countdown_absolute(s, b),
        Am::Absolute => {
            if s.op == Op::Jsr {
                lemma_countdown_short(s, b)
            } else {
                lemma_countdown_absolute(s, b)
            }
        },
        Am::IndexedIndirect | Am::IndirectIndexed => lemma_countdown_pointer(s, b),
        _ => lemma_countdown_short(s, b),
    }
}

/// From a state in which `left` cycles are counted, the next opcode is
/// fetched after exactly that many, and not before.
pub proof fn lemma_countdown_run(s: State, bs: Seq<Pins>, from: nat, i: nat)
    requires
        counting(run(s, bs, from)),
        i <= left(run(s, bs, from)),
        from + i <= bs.len(),
    ensures
        i < left(run(s, bs, from)) ==> counting(run(s, bs, from + i)) && left(
            run(s, bs, from + i),
        ) == left(run(s, bs, from)) - i,
        i == left(run(s, bs, from)) ==> run(s, bs, from + i).cycle == 0,
    decreases i,
{
    if i > 0 {
        lemma_countdown_run(s, bs, from, (i - 1) as nat);
        let before = run(s, bs, (from + i - 1) as nat);
        assert(run(s, bs, from + i) == after(before, bs[from + i - 1]));
        lemma_countdown(before, bs[from + i - 1]);
    }
}

/// The first cycle of an instruction without an operand.
proof fn lemma_first_cycle_implied(s: State, b: Pins)
    requires
        begins_opcode(s),
        opcode_mode(b.data) == Am::Implied || opcode_mode(b.data) == Am::Accumulator,
    ensures
        after(s, b).op == opcode_op(b.data),
        after(s, b).am == opcode_mode(b.data),
        after(s, b).cycle == 1,
{
    reveal(after);
    lemma_apply_op_frame();
}

/// An instruction takes the number of cycles that the data sheet gives for
/// it. `s` is the state in which the opcode has been fetched and no
/// interrupt takes its place, and `bs` is what the host puts on the bus
/// from then on, the opcode first. The next opcode is fetched in the cycle
/// with that number, and in none before.
pub proof fn lemma_instruction_length(s: State, bs: Seq<Pins>)
    requires
        begins_opcode(s),
        bs.len() >= 8,
        opcode_op(bs[0].data) != Op::Jam,
    ensures
        2 <= cycles_of(s, bs) <= 8,
        run(s, bs, cycles_of(s, bs) as nat).cycle == 0,
        forall|k: nat| 1 <= k < cycles_of(s, bs) ==> (#[trigger] run(s, bs, k)).cycle != 0,
{
    let op = opcode_op(bs[0].data);
    let am = opcode_mode(bs[0].data);
    let n = cycles_of(s, bs);
    lemma_operand_kinds(bs[0].data);
    lemma_opcode_in_schedule(bs[0].data);
    let t1 = run(s, bs, 1);
    assert(t1 == after(s, bs[0])) by {
        assert(run(s, bs, 0) == s);
    }
    if am == Am::Implied || am == Am::Accumulator {
        lemma_first_cycle_implied(s, bs[0]);
    } else {
        lemma_first_cycle(s, bs[0]);
    }
    let from: nat = if am == Am::AbsoluteX || am == Am::AbsoluteY {
        3
    } else if am == Am::IndirectIndexed {
        4
    } else if am == Am::Relative {
        2
    } else {
        1
    };
    let t2 = run(s, bs, 2);
    let t3 = run(s, bs, 3);
    let t4 = run(s, bs, 4);
    assert(t2 == after(t1, bs[1]));
    assert(t3 == after(t2, bs[2]));
    assert(t4 == after(t3, bs[3]));
    if am == Am::AbsoluteX || am == Am::AbsoluteY {
        lemma_second_cycle(t1, bs[1]);
        lemma_indexed_cycles(t2, bs[2], 2);
    } else if am == Am::IndirectIndexed {
        lemma_second_cycle(t1, bs[1]);
        lemma_pointer_low(t2, bs[2]);
        lemma_indexed_cycles(t3, bs[3], 3);
    } else if am == Am::Relative {
        lemma_relative_cycle(t1, bs[1]);
        lemma_branch_decides(
            t1.with_addr(word_add(t1.core.pc, signed(bs[1].data))),
            bs[0].data,
        );
    }
    let start = run(s, bs, from);
    if start.cycle == 0 {
        assert(am == Am::Relative && n == 2);
    } else {
        assert(counting(start));
        assert(left(start) == n - from);
        assert forall|k: nat| 1 <= k < n implies (#[trigger] run(s, bs, k)).cycle != 0 by {
            if k >= from {
                lemma_countdown_run(s, bs, from, (k - from) as nat);
            }
        }
        lemma_countdown_run(s, bs, from, (n - from) as nat);
    }
}

/// What the opcode matrix pairs: an operation has the addressing modes of
/// its kind.
pub proof fn lemma_opcode_in_schedule(b: u8)
    ensures
        ({
            let op = opcode_op(b);
            let am = opcode_mode(b);
            &&& am == Am::Relative <==> op == Op::Bcc || op == Op::Bcs || op == Op::Beq || op
                == Op::Bne || op == Op::Bmi || op == Op::Bpl || op == Op::Bvc || op == Op::Bvs
            &&& op == Op::Brk || op == Op::Rti || op == Op::Rts || op == Op::Pha || op == Op::Php
                || op == Op::Pla || op == Op::Plp || op == Op::Jam ==> am == Am::Implied
            &&& op == Op::Jsr ==> am == Am::Absolute
            &&& op == Op::Jmp ==> am == Am::Absolute || am == Am::Indirect
            &&& am == Am::Accumulator ==> op == Op::Asl || op == Op::Lsr || op == Op::Rol || op
                == Op::Ror
        }),
{
}

} // verus!
