use m6502::instr::{decode, Am, Op};
use m6502::step::Brk;
use m6502::Bus;

#[test]
fn a_new_bus_is_at_rest() {
    let bus = Bus::new();
    assert_eq!((bus.addr, bus.data), (0, 0));
    assert!(!bus.irq() && !bus.nmi() && !bus.res() && !bus.rw() && !bus.sync());
}

#[test]
fn read_write_and_fetch_drive_the_bus() {
    let mut bus = Bus::new();
    bus.data = 0x55;
    bus.read(0x1234);
    assert_eq!((bus.addr, bus.data, bus.rw(), bus.sync()), (0x1234, 0x55, true, false));
    bus.read_sync(0x8000);
    assert_eq!((bus.addr, bus.data, bus.rw(), bus.sync()), (0x8000, 0x55, true, true));
    bus.write(0x0200, 0xAA);
    assert_eq!((bus.addr, bus.data, bus.rw(), bus.sync()), (0x0200, 0xAA, false, false));
    bus.read_sync(0x8001);
    bus.read(0x8002);
    assert_eq!((bus.addr, bus.rw(), bus.sync()), (0x8002, true, false));
}

#[test]
fn each_line_is_written_alone() {
    for mask in 0..32u8 {
        let mut bus = Bus::new();
        bus.addr = 0xBEEF;
        bus.data = 0x42;
        bus.set_irq(mask & 1 != 0);
        bus.set_nmi(mask & 2 != 0);
        bus.set_res(mask & 4 != 0);
        bus.set_rw(mask & 8 != 0);
        bus.set_sync(mask & 16 != 0);
        let lines = |b: Bus| [b.irq(), b.nmi(), b.res(), b.rw(), b.sync()];
        let before = lines(bus);
        assert_eq!(
            before,
            [mask & 1 != 0, mask & 2 != 0, mask & 4 != 0, mask & 8 != 0, mask & 16 != 0]
        );
        for line in 0..5 {
            for to in [false, true] {
                let mut b = bus;
                match line {
                    0 => b.set_irq(to),
                    1 => b.set_nmi(to),
                    2 => b.set_res(to),
                    3 => b.set_rw(to),
                    _ => b.set_sync(to),
                }
                let mut expected = before;
                expected[line] = to;
                assert_eq!(lines(b), expected);
                assert_eq!((b.addr, b.data), (0xBEEF, 0x42));
            }
        }
        bus.read(0x0001);
        assert_eq!((bus.irq(), bus.nmi(), bus.res()), (before[0], before[1], before[2]));
        bus.write(0x0001, 0);
        assert_eq!((bus.irq(), bus.nmi(), bus.res()), (before[0], before[1], before[2]));
    }
}

#[test]
fn the_interrupt_kinds() {
    assert_eq!(Brk::Brk.vector(), 0xFFFE);
    assert_eq!(Brk::Irq.vector(), 0xFFFE);
    assert_eq!(Brk::Nmi.vector(), 0xFFFA);
    assert_eq!(Brk::Res.vector(), 0xFFFC);
    assert!(Brk::Brk.push() && Brk::Irq.push() && Brk::Nmi.push() && !Brk::Res.push());
    assert!(Brk::Brk.b() && !Brk::Irq.b() && !Brk::Nmi.b() && !Brk::Res.b());
    assert!(Brk::Brk.skip_id_byte());
    assert!(!Brk::Irq.skip_id_byte() && !Brk::Nmi.skip_id_byte() && !Brk::Res.skip_id_byte());
}

#[test]
fn decode_knows_the_documented_opcodes() {
    assert_eq!(decode(0x00), (Op::Brk, Am::Implied));
    assert_eq!(decode(0x20), (Op::Jsr, Am::Absolute));
    assert_eq!(decode(0x4C), (Op::Jmp, Am::Absolute));
    assert_eq!(decode(0x6C), (Op::Jmp, Am::Indirect));
    assert_eq!(decode(0x69), (Op::Adc, Am::Immediate));
    assert_eq!(decode(0xA9), (Op::Lda, Am::Immediate));
    assert_eq!(decode(0xA2), (Op::Ldx, Am::Immediate));
    assert_eq!(decode(0xB6), (Op::Ldx, Am::ZeroY));
    assert_eq!(decode(0xBE), (Op::Ldx, Am::AbsoluteY));
    assert_eq!(decode(0x96), (Op::Stx, Am::ZeroY));
    assert_eq!(decode(0x91), (Op::Sta, Am::IndirectIndexed));
    assert_eq!(decode(0x81), (Op::Sta, Am::IndexedIndirect));
    assert_eq!(decode(0x0A), (Op::Asl, Am::Accumulator));
    assert_eq!(decode(0xD0), (Op::Bne, Am::Relative));
    assert_eq!(decode(0xEA), (Op::Nop, Am::Implied));
    assert_eq!(decode(0xFE), (Op::Inc, Am::AbsoluteX));
    assert_eq!(decode(0x24), (Op::Bit, Am::Zero));
    assert_eq!(decode(0x9A), (Op::Txs, Am::Implied));
}

#[test]
fn decode_knows_the_undocumented_opcodes() {
    for b in [0x02u8, 0x12, 0x22, 0x32, 0x42, 0x52, 0x62, 0x72, 0x92, 0xB2, 0xD2, 0xF2] {
        assert_eq!(decode(b), (Op::Jam, Am::Implied));
    }
    assert_eq!((0..=255u8).filter(|&b| decode(b).0 == Op::Jam).count(), 12);
    assert_eq!(decode(0x0B), (Op::Anc, Am::Immediate));
    assert_eq!(decode(0x2B), (Op::Anc, Am::Immediate));
    assert_eq!(decode(0x4B), (Op::Alr, Am::Immediate));
    assert_eq!(decode(0x6B), (Op::Arr, Am::Immediate));
    assert_eq!(decode(0x8B), (Op::Ane, Am::Immediate));
    assert_eq!(decode(0xAB), (Op::Lxa, Am::Immediate));
    assert_eq!(decode(0xCB), (Op::Sbx, Am::Immediate));
    assert_eq!(decode(0xEB), (Op::Sbc, Am::Immediate));
    assert_eq!(decode(0x89), (Op::Nop, Am::Immediate));
    assert_eq!(decode(0x93), (Op::Sha, Am::IndirectIndexed));
    assert_eq!(decode(0x9F), (Op::Sha, Am::AbsoluteY));
    assert_eq!(decode(0x9B), (Op::Tas, Am::AbsoluteY));
    assert_eq!(decode(0x9C), (Op::Shy, Am::AbsoluteX));
    assert_eq!(decode(0x9E), (Op::Shx, Am::AbsoluteY));
    assert_eq!(decode(0xBB), (Op::Las, Am::AbsoluteY));
    assert_eq!(decode(0x97), (Op::Sax, Am::ZeroY));
    assert_eq!(decode(0xB7), (Op::Lax, Am::ZeroY));
    assert_eq!(decode(0xBF), (Op::Lax, Am::AbsoluteY));
    assert_eq!(decode(0x1C), (Op::Nop, Am::AbsoluteX));
    assert_eq!(decode(0xC7), (Op::Dcp, Am::Zero));
    assert_eq!(decode(0xFF), (Op::Isc, Am::AbsoluteX));
}

#[test]
fn operations_read_write_or_do_both() {
    let rmw = [
        Op::Asl, Op::Lsr, Op::Rol, Op::Ror, Op::Inc, Op::Dec, Op::Slo, Op::Rla, Op::Sre, Op::Rra,
        Op::Dcp, Op::Isc,
    ];
    let stores = [Op::Sta, Op::Stx, Op::Sty, Op::Sax, Op::Sha, Op::Shx, Op::Shy, Op::Tas];
    for op in rmw {
        assert!(op.is_rmw() && op.reads_operand() && op.writes_operand());
    }
    for op in stores {
        assert!(!op.is_rmw() && !op.reads_operand() && op.writes_operand());
    }
    for op in [
        Op::Lda, Op::Ldx, Op::Ldy, Op::Lax, Op::Las, Op::Ora, Op::And, Op::Eor, Op::Adc, Op::Sbc,
        Op::Cmp, Op::Cpx, Op::Cpy, Op::Bit, Op::Nop, Op::Anc, Op::Alr, Op::Arr, Op::Ane, Op::Lxa,
        Op::Sbx,
    ] {
        assert!(!op.is_rmw() && op.reads_operand() && !op.writes_operand());
    }
    for op in [Op::Jmp, Op::Jsr, Op::Brk, Op::Rts, Op::Rti, Op::Bne, Op::Pha, Op::Clc, Op::Jam] {
        assert!(!op.is_rmw() && !op.reads_operand() && !op.writes_operand());
    }
    // Every opcode with an operand in memory reads it, writes it or both.
    for b in 0..=255u8 {
        let (op, am) = decode(b);
        let in_memory = !matches!(
            am,
            Am::Implied | Am::Accumulator | Am::Immediate | Am::Relative | Am::Indirect
        ) && op != Op::Jmp && op != Op::Jsr;
        if in_memory {
            assert!(op.reads_operand() || op.writes_operand());
        }
    }
}
