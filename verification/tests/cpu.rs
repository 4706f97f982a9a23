use nes::buscpu;
use nes::cartridge::Cartridge;
use nes::console::Console;
use nes::cpu;
use nes::cpu::decode::{decode, Instruction};
use nes::cpu::trace::trace_line;
use nes::cpu::{AddrMode, CpuFlag};
use nes::error::NesError;

const C: u8 = 0x01;
const Z: u8 = 0x02;
const I: u8 = 0x04;
const B: u8 = 0x10;
const U: u8 = 0x20;
const V: u8 = 0x40;
const N: u8 = 0x80;

/// A console with `program` at 0x8000, the reset vector pointing there,
/// the interrupt vector at 0x9000 and the break vector at 0xA000, after a
/// reset.
fn console_with(program: &[u8]) -> Console {
    let mut rom = vec![0x4e, 0x45, 0x53, 0x1a, 2, 1, 0, 0];
    rom.resize(16, 0);
    let mut prg = vec![0xeau8; 0x8000];
    prg[..program.len()].copy_from_slice(program);
    prg[0x7ffa] = 0x00;
    prg[0x7ffb] = 0x90;
    prg[0x7ffc] = 0x00;
    prg[0x7ffd] = 0x80;
    prg[0x7ffe] = 0x00;
    prg[0x7fff] = 0xa0;
    rom.extend(prg);
    rom.extend(vec![0u8; 0x2000]);
    let mut c = Console::new();
    c.cartridge = Cartridge::from_ines(&rom).unwrap();
    cpu::reset(&mut c).unwrap();
    c
}

/// Waits out the pending cycles, then runs one instruction.
fn run_one(c: &mut Console) -> Result<(), NesError> {
    while c.cpu.cycles > 0 {
        cpu::clock(c)?;
    }
    cpu::clock(c)
}

fn run(c: &mut Console, n: usize) {
    for _ in 0..n {
        run_one(c).unwrap();
        assert_eq!(c.cpu.status & B, 0, "B is set after an instruction");
    }
}

#[test]
fn reset_state() {
    let mut c = console_with(&[]);
    assert_eq!((c.cpu.ac, c.cpu.x, c.cpu.y), (0, 0, 0));
    assert_eq!(c.cpu.sp, 0xfd);
    assert_eq!(c.cpu.status, 0x24);
    assert_eq!(c.cpu.pc, 0x8000);
    assert_eq!(c.cpu.cycles, 8);

    c.cpu.ac = 9;
    c.cpu.x = 8;
    c.cpu.y = 7;
    c.cpu.sp = 0x10;
    c.cpu.status = 0xff;
    c.cpu.pc = 0x1234;
    c.cartridge.rom.prgmem[0x7ffc] = 0xcd;
    c.cartridge.rom.prgmem[0x7ffd] = 0xab;
    assert_eq!(cpu::reset(&mut c), Ok(()));
    assert_eq!((c.cpu.ac, c.cpu.x, c.cpu.y), (0, 0, 0));
    assert_eq!(c.cpu.sp, 0xfd);
    assert_eq!(c.cpu.status, 0x24);
    assert_eq!(c.cpu.pc, 0xabcd);
    assert_eq!(c.cpu.cycles, 8);
}

#[test]
fn reset_fails_without_a_cartridge() {
    let mut c = Console::new();
    assert_eq!(cpu::reset(&mut c), Err(NesError::BusError));
}

#[test]
fn clock_waits_out_pending_cycles() {
    let mut c = console_with(&[0xa9, 0x42]);
    for left in (0..8).rev() {
        assert_eq!(cpu::clock(&mut c), Ok(()));
        assert_eq!(c.cpu.cycles, left);
        assert_eq!(c.cpu.pc, 0x8000);
        assert_eq!(c.cpu.ac, 0);
    }
    assert_eq!(cpu::clock(&mut c), Ok(()));
    assert_eq!(c.cpu.ac, 0x42);
    assert_eq!(c.cpu.pc, 0x8002);
    assert_eq!(c.cpu.cycles, 2);
    assert_eq!(c.cpu.addr_mode, AddrMode::Imm);
}

#[test]
fn flag_masks() {
    let flags = [
        CpuFlag::C,
        CpuFlag::Z,
        CpuFlag::I,
        CpuFlag::D,
        CpuFlag::B,
        CpuFlag::U,
        CpuFlag::V,
        CpuFlag::N,
    ];
    let masks: Vec<u8> = flags.iter().map(|f| f.mask()).collect();
    assert_eq!(masks, vec![0x01, 0x02, 0x04, 0x08, 0x10, 0x20, 0x40, 0x80]);
    let mut c = console_with(&[]);
    c.cpu.status = 0;
    for (i, f) in flags.iter().enumerate() {
        c.cpu.set_flag(*f, true);
        assert!(c.cpu.get_flag(*f));
        assert_eq!(c.cpu.status, (0xffu16 >> (7 - i)) as u8);
    }
    c.cpu.set_flag(CpuFlag::Z, false);
    assert_eq!(c.cpu.status, 0xfd);
    assert!(!c.cpu.get_flag(CpuFlag::Z));
}

#[test]
fn loads_and_stores() {
    // LDA #$42; STA $10; LDX #$00; STX $0211; LDY #$80; STY $12,X
    let mut c = console_with(&[
        0xa9, 0x42, 0x85, 0x10, 0xa2, 0x00, 0x8e, 0x11, 0x02, 0xa0, 0x80, 0x94, 0x12,
    ]);
    run(&mut c, 1);
    assert_eq!(c.cpu.ac, 0x42);
    assert_eq!(c.cpu.status, 0x24);
    run(&mut c, 1);
    assert_eq!(c.bus_cpu.ram[0x10], 0x42);
    run(&mut c, 1);
    assert_eq!(c.cpu.x, 0);
    assert_eq!(c.cpu.status, 0x24 | Z);
    run(&mut c, 1);
    assert_eq!(c.bus_cpu.ram[0x211], 0);
    run(&mut c, 1);
    assert_eq!(c.cpu.y, 0x80);
    assert_eq!(c.cpu.status, 0x24 | N);
    run(&mut c, 1);
    assert_eq!(c.bus_cpu.ram[0x12], 0x80);
    assert_eq!(c.cpu.pc, 0x800d);
}

#[test]
fn adc_sets_carry_and_overflow() {
    // LDA #$50; ADC #$50; ADC #$90; ADC #$ff
    let mut c = console_with(&[0xa9, 0x50, 0x69, 0x50, 0x69, 0x90, 0x69, 0xff]);
    run(&mut c, 2);
    assert_eq!(c.cpu.ac, 0xa0);
    assert_eq!(c.cpu.status, 0x24 | V | N);
    // the instruction costs one cycle more than its base
    assert_eq!(c.cpu.cycles, 3);
    run(&mut c, 1);
    assert_eq!(c.cpu.ac, 0x30);
    assert_eq!(c.cpu.status, 0x24 | V | C);
    run(&mut c, 1);
    assert_eq!(c.cpu.ac, 0x30);
    assert_eq!(c.cpu.status, 0x24 | C);
}

#[test]
fn sbc_borrows() {
    // SEC; LDA #$50; SBC #$f0; SBC #$60; SEC; LDA #$80; SBC #$01
    let mut c = console_with(&[
        0x38, 0xa9, 0x50, 0xe9, 0xf0, 0xe9, 0x60, 0x38, 0xa9, 0x80, 0xe9, 0x01,
    ]);
    run(&mut c, 3);
    assert_eq!(c.cpu.ac, 0x60);
    assert_eq!(c.cpu.status, 0x24);
    run(&mut c, 1);
    // 0x60 - 0x60 - 1
    assert_eq!(c.cpu.ac, 0xff);
    assert_eq!(c.cpu.status, 0x24 | N);
    run(&mut c, 3);
    assert_eq!(c.cpu.ac, 0x7f);
    assert_eq!(c.cpu.status, 0x24 | C | V);
    // the undocumented opcode 0xEB subtracts too
    let mut c = console_with(&[0x38, 0xa9, 0x05, 0xeb, 0x03]);
    run(&mut c, 3);
    assert_eq!(c.cpu.ac, 0x02);
    assert_eq!(c.cpu.status, 0x24 | C);
}

#[test]
fn logic_and_bit() {
    // LDA #$f0; AND #$3c; ORA #$03; EOR #$ff; BIT $10
    let mut c = console_with(&[0xa9, 0xf0, 0x29, 0x3c, 0x09, 0x03, 0x49, 0xff, 0x24, 0x10]);
    c.bus_cpu.ram[0x10] = 0xc3;
    run(&mut c, 2);
    assert_eq!(c.cpu.ac, 0x30);
    run(&mut c, 1);
    assert_eq!(c.cpu.ac, 0x33);
    run(&mut c, 1);
    assert_eq!(c.cpu.ac, 0xcc);
    assert_eq!(c.cpu.status, 0x24 | N);
    run(&mut c, 1);
    assert_eq!(c.cpu.ac, 0xcc);
    assert_eq!(c.cpu.status, 0x24 | N | V);
    c.cpu.pc = 0x8008;
    c.bus_cpu.ram[0x10] = 0x03;
    run(&mut c, 1);
    assert_eq!(c.cpu.status, 0x24 | Z);
}

#[test]
fn compares() {
    // LDA #$40; CMP #$40; CMP #$41; CMP #$3f; LDX #$10; CPX #$20; LDY #$ff; CPY #$00
    let mut c = console_with(&[
        0xa9, 0x40, 0xc9, 0x40, 0xc9, 0x41, 0xc9, 0x3f, 0xa2, 0x10, 0xe0, 0x20, 0xa0, 0xff, 0xc0,
        0x00,
    ]);
    run(&mut c, 2);
    assert_eq!(c.cpu.status, 0x24 | C | Z);
    assert_eq!(c.cpu.cycles, 3);
    run(&mut c, 1);
    assert_eq!(c.cpu.status, 0x24 | N);
    run(&mut c, 1);
    assert_eq!(c.cpu.status, 0x24 | C);
    run(&mut c, 2);
    assert_eq!(c.cpu.status, 0x24 | N);
    assert_eq!(c.cpu.cycles, 2);
    run(&mut c, 2);
    assert_eq!(c.cpu.status, 0x24 | C | N);
    assert_eq!(c.cpu.ac, 0x40);
}

#[test]
fn shifts_on_the_accumulator_and_on_memory() {
    // LDA #$81; ASL A; ROL A; LSR A; ROR A; ASL $10; ROR $10; LSR $0211; ROL $0211
    let mut c = console_with(&[
        0xa9, 0x81, 0x0a, 0x2a, 0x4a, 0x6a, 0x06, 0x10, 0x66, 0x10, 0x4e, 0x11, 0x02, 0x2e, 0x11,
        0x02,
    ]);
    c.bus_cpu.ram[0x10] = 0xc0;
    c.bus_cpu.ram[0x211] = 0x01;
    run(&mut c, 2);
    assert_eq!(c.cpu.ac, 0x02);
    assert_eq!(c.cpu.status, 0x24 | C);
    run(&mut c, 1);
    assert_eq!(c.cpu.ac, 0x05);
    assert_eq!(c.cpu.status, 0x24);
    run(&mut c, 1);
    assert_eq!(c.cpu.ac, 0x02);
    assert_eq!(c.cpu.status, 0x24 | C);
    run(&mut c, 1);
    assert_eq!(c.cpu.ac, 0x81);
    assert_eq!(c.cpu.status, 0x24 | N);
    run(&mut c, 1);
    assert_eq!(c.bus_cpu.ram[0x10], 0x80);
    assert_eq!(c.cpu.ac, 0x81);
    assert_eq!(c.cpu.status, 0x24 | C | N);
    run(&mut c, 1);
    assert_eq!(c.bus_cpu.ram[0x10], 0xc0);
    assert_eq!(c.cpu.status, 0x24 | N);
    run(&mut c, 1);
    assert_eq!(c.bus_cpu.ram[0x211], 0x00);
    assert_eq!(c.cpu.status, 0x24 | C | Z);
    run(&mut c, 1);
    assert_eq!(c.bus_cpu.ram[0x211], 0x01);
    assert_eq!(c.cpu.status, 0x24);
}

#[test]
fn increments_and_transfers() {
    // LDX #$ff; INX; DEX; TXA; TAY; INY; DEY; TXS; TSX; INC $10; DEC $11; TYA
    let mut c = console_with(&[
        0xa2, 0xff, 0xe8, 0xca, 0x8a, 0xa8, 0xc8, 0x88, 0x9a, 0xba, 0xe6, 0x10, 0xc6, 0x11, 0x98,
    ]);
    c.bus_cpu.ram[0x10] = 0xff;
    c.bus_cpu.ram[0x11] = 0x00;
    run(&mut c, 2);
    assert_eq!(c.cpu.x, 0);
    assert_eq!(c.cpu.status, 0x24 | Z);
    run(&mut c, 1);
    assert_eq!(c.cpu.x, 0xff);
    assert_eq!(c.cpu.status, 0x24 | N);
    run(&mut c, 2);
    assert_eq!((c.cpu.ac, c.cpu.y), (0xff, 0xff));
    run(&mut c, 1);
    assert_eq!(c.cpu.y, 0);
    run(&mut c, 1);
    assert_eq!(c.cpu.y, 0xff);
    c.cpu.status = 0x24;
    run(&mut c, 1);
    assert_eq!(c.cpu.sp, 0xff);
    assert_eq!(c.cpu.status, 0x24);
    run(&mut c, 1);
    assert_eq!(c.cpu.status, 0x24 | N);
    run(&mut c, 1);
    assert_eq!(c.bus_cpu.ram[0x10], 0);
    assert_eq!(c.cpu.status, 0x24 | Z);
    run(&mut c, 1);
    assert_eq!(c.bus_cpu.ram[0x11], 0xff);
    assert_eq!(c.cpu.status, 0x24 | N);
    run(&mut c, 1);
    assert_eq!(c.cpu.ac, 0xff);
}

#[test]
fn flag_instructions() {
    // SEC; SED; SEI; CLC; CLD; CLI; CLV
    let mut c = console_with(&[0x38, 0xf8, 0x78, 0x18, 0xd8, 0x58, 0xb8]);
    c.cpu.status = U | V;
    run(&mut c, 3);
    assert_eq!(c.cpu.status, U | V | C | 0x08 | I);
    run(&mut c, 4);
    assert_eq!(c.cpu.status, U);
}

#[test]
fn branches() {
    // BNE +2; (skipped) NOP NOP; BEQ +2 (not taken); BCC -2
    let mut c = console_with(&[0xd0, 0x02, 0xea, 0xea, 0xf0, 0x02, 0x90, 0xfe]);
    run(&mut c, 1);
    assert_eq!(c.cpu.pc, 0x8004);
    assert_eq!(c.cpu.cycles, 3);
    run(&mut c, 1);
    assert_eq!(c.cpu.pc, 0x8006);
    assert_eq!(c.cpu.cycles, 2);
    run(&mut c, 1);
    assert_eq!(c.cpu.pc, 0x8006);
    assert_eq!(c.cpu.cycles, 3);

    // opcode, the flag it looks at, whether it branches when the flag is set
    let cases: [(u8, u8, bool); 8] = [
        (0x90, C, false),
        (0xb0, C, true),
        (0xf0, Z, true),
        (0x30, N, true),
        (0xd0, Z, false),
        (0x10, N, false),
        (0x50, V, false),
        (0x70, V, true),
    ];
    for (opcode, flag, on_set) in cases {
        for set in [false, true] {
            let mut c = console_with(&[opcode, 0x10]);
            c.cpu.status = if set { U | flag } else { U };
            run(&mut c, 1);
            let taken = set == on_set;
            assert_eq!(c.cpu.pc, if taken { 0x8012 } else { 0x8002 }, "{:#x}", opcode);
            assert_eq!(c.cpu.cycles, if taken { 3 } else { 2 });
        }
    }
}

#[test]
fn jumps_and_subroutines() {
    // JSR $8010 ... at $8010: RTS ; then JMP $8020
    let mut program = vec![0x20, 0x10, 0x80, 0x4c, 0x20, 0x80];
    program.resize(0x10, 0xea);
    program.push(0x60);
    let mut c = console_with(&program);
    run(&mut c, 1);
    assert_eq!(c.cpu.pc, 0x8010);
    assert_eq!(c.cpu.sp, 0xfb);
    assert_eq!(c.bus_cpu.ram[0x1fd], 0x80);
    assert_eq!(c.bus_cpu.ram[0x1fc], 0x02);
    run(&mut c, 1);
    assert_eq!(c.cpu.pc, 0x8003);
    assert_eq!(c.cpu.sp, 0xfd);
    run(&mut c, 1);
    assert_eq!(c.cpu.pc, 0x8020);
    assert_eq!(c.cpu.cycles, 3);
}

#[test]
fn indirect_jump_wraps_within_the_page() {
    // JMP ($02ff); JMP ($0300)
    let mut c = console_with(&[0x6c, 0xff, 0x02]);
    c.bus_cpu.ram[0x2ff] = 0x34;
    c.bus_cpu.ram[0x200] = 0x12;
    c.bus_cpu.ram[0x300] = 0x56;
    run(&mut c, 1);
    assert_eq!(c.cpu.pc, 0x1234);
    assert_eq!(c.cpu.cycles, 5);

    let mut c = console_with(&[0x6c, 0x00, 0x03]);
    c.bus_cpu.ram[0x300] = 0x78;
    c.bus_cpu.ram[0x301] = 0x06;
    run(&mut c, 1);
    assert_eq!(c.cpu.pc, 0x0678);
}

#[test]
fn stack_instructions() {
    // PHP; PLA; LDA #$ff; PHA; PLP; PHA
    let mut c = console_with(&[0x08, 0x68, 0xa9, 0xff, 0x48, 0x28, 0x48]);
    run(&mut c, 1);
    // B is set in the copy on the stack only
    assert_eq!(c.bus_cpu.ram[0x1fd], 0x24 | B);
    assert_eq!(c.cpu.status, 0x24);
    assert_eq!(c.cpu.sp, 0xfc);
    run(&mut c, 1);
    assert_eq!(c.cpu.ac, 0x34);
    assert_eq!(c.cpu.sp, 0xfd);
    run(&mut c, 2);
    assert_eq!(c.bus_cpu.ram[0x1fd], 0xff);
    run(&mut c, 1);
    assert_eq!(c.cpu.status, 0xff & !B);
    assert_eq!(c.cpu.status & U, U);
    // the stack pointer wraps
    c.cpu.sp = 0x00;
    run(&mut c, 1);
    assert_eq!(c.bus_cpu.ram[0x100], 0xff);
    assert_eq!(c.cpu.sp, 0xff);
}

#[test]
fn plp_sets_the_unused_flag() {
    // LDA #$00; PHA; PLP
    let mut c = console_with(&[0xa9, 0x00, 0x48, 0x28]);
    run(&mut c, 3);
    assert_eq!(c.cpu.status, U);
}

#[test]
fn brk_and_rti() {
    let mut program = vec![0x00, 0xff, 0xea];
    program.resize(0x2000, 0xea);
    program.push(0x40); // RTI at 0xA000
    let mut c = console_with(&program);
    c.cpu.status = U | C;
    run(&mut c, 1);
    assert_eq!(c.cpu.pc, 0xa000);
    assert_eq!(c.cpu.sp, 0xfa);
    assert_eq!(c.bus_cpu.ram[0x1fd], 0x80);
    assert_eq!(c.bus_cpu.ram[0x1fc], 0x02);
    // the copy on the stack has B set, and I as it was before
    assert_eq!(c.bus_cpu.ram[0x1fb], U | C | B);
    assert_eq!(c.cpu.status, U | C | I);
    assert_eq!(c.cpu.cycles, 7);
    run(&mut c, 1);
    assert_eq!(c.cpu.pc, 0x8002);
    assert_eq!(c.cpu.sp, 0xfd);
    assert_eq!(c.cpu.status, U | C);
}

#[test]
fn rti_clears_break_and_sets_unused() {
    let mut c = console_with(&[0x40]);
    c.cpu.sp = 0xfa;
    c.bus_cpu.ram[0x1fb] = 0xdf;
    c.bus_cpu.ram[0x1fc] = 0x21;
    c.bus_cpu.ram[0x1fd] = 0x43;
    run(&mut c, 1);
    assert_eq!(c.cpu.status, 0xef);
    assert_eq!(c.cpu.pc, 0x4321);
}

#[test]
fn interrupts() {
    let mut c = console_with(&[0xea]);
    c.cpu.pc = 0x8123;
    c.cpu.status = U | N | B;
    c.cpu.cycles = 0;
    assert_eq!(cpu::nmi(&mut c), Ok(()));
    assert_eq!(c.cpu.pc, 0x9000);
    assert_eq!(c.cpu.cycles, 8);
    assert_eq!(c.cpu.sp, 0xfa);
    assert_eq!(c.bus_cpu.ram[0x1fd], 0x81);
    assert_eq!(c.bus_cpu.ram[0x1fc], 0x23);
    assert_eq!(c.bus_cpu.ram[0x1fb], U | N | B);
    assert_eq!(c.cpu.status, U | N | I);

    // an interrupt request is ignored while I is set
    let before = c.cpu;
    assert_eq!(cpu::irq(&mut c), Ok(()));
    assert_eq!(c.cpu, before);
    c.cpu.set_flag(CpuFlag::I, false);
    assert_eq!(cpu::irq(&mut c), Ok(()));
    assert_eq!(c.cpu.pc, 0xa000);
    // eight more cycles on top of the eight that were waiting
    assert_eq!(c.cpu.cycles, 16);
    assert_eq!(c.cpu.sp, 0xf7);
    assert_eq!(c.bus_cpu.ram[0x1fa], 0x90);
    assert_eq!(c.bus_cpu.ram[0x1f9], 0x00);
    assert_eq!(c.bus_cpu.ram[0x1f8], U | N);
    assert_eq!(c.cpu.status, U | N | I);
    // the count of cycles stops at 255
    c.cpu.cycles = 250;
    assert_eq!(cpu::nmi(&mut c), Ok(()));
    assert_eq!(c.cpu.cycles, 255);
}

#[test]
fn zero_page_addressing_wraps() {
    // LDX #$02; LDA $ff,X; LDY #$03; LDX $fe,Y
    let mut c = console_with(&[0xa2, 0x02, 0xb5, 0xff, 0xa0, 0x03, 0xb6, 0xfe]);
    c.bus_cpu.ram[0x01] = 0x77;
    c.bus_cpu.ram[0x101] = 0x88;
    run(&mut c, 2);
    assert_eq!(c.cpu.ac, 0x77);
    assert_eq!(c.cpu.addr, 0x0001);
    run(&mut c, 2);
    assert_eq!(c.cpu.x, 0x77);
}

#[test]
fn absolute_indexed_addressing() {
    // LDX #$01; LDY #$ff; LDA $01ff,X; LDA $0101,Y
    let mut c = console_with(&[0xa2, 0x01, 0xa0, 0xff, 0xbd, 0xff, 0x01, 0xb9, 0x01, 0x01]);
    c.bus_cpu.ram[0x200] = 0x5a;
    run(&mut c, 3);
    assert_eq!(c.cpu.addr, 0x0200);
    assert_eq!(c.cpu.ac, 0x5a);
    c.cpu.ac = 0;
    run(&mut c, 1);
    assert_eq!(c.cpu.addr, 0x0200);
    assert_eq!(c.cpu.ac, 0x5a);
}

#[test]
fn indirect_addressing() {
    // LDX #$05; LDA ($fb,X); LDY #$10; LDA ($ff),Y
    let mut c = console_with(&[0xa2, 0x05, 0xa1, 0xfb, 0xa0, 0x10, 0xb1, 0xff]);
    c.bus_cpu.ram[0x00] = 0x02;
    c.bus_cpu.ram[0x01] = 0x03;
    c.bus_cpu.ram[0xff] = 0xf8;
    c.bus_cpu.ram[0x0302] = 0xaa;
    c.bus_cpu.ram[0x0308] = 0xbb;
    run(&mut c, 2);
    // the pointer lies at 0x00 and 0x01
    assert_eq!(c.cpu.addr, 0x0302);
    assert_eq!(c.cpu.ac, 0xaa);
    run(&mut c, 2);
    // the pointer lies at 0xff and 0x00: 0x02f8 + 0x10
    assert_eq!(c.cpu.addr, 0x0308);
    assert_eq!(c.cpu.ac, 0xbb);
}

#[test]
fn relative_addressing_sign_extends() {
    let mut c = console_with(&[0x90, 0x80]);
    run(&mut c, 1);
    assert_eq!(c.cpu.addr, 0xff80);
    assert_eq!(c.cpu.pc, 0x7f82);
}

#[test]
fn undocumented_loads_and_stores() {
    // LAX $10; SAX $11; LDA #$f0; LDX #$3c; SAX $12
    let mut c = console_with(&[0xa7, 0x10, 0x87, 0x11, 0xa9, 0xf0, 0xa2, 0x3c, 0x87, 0x12]);
    c.bus_cpu.ram[0x10] = 0x8f;
    run(&mut c, 1);
    assert_eq!((c.cpu.ac, c.cpu.x), (0x8f, 0x8f));
    assert_eq!(c.cpu.status, 0x24 | N);
    run(&mut c, 1);
    assert_eq!(c.bus_cpu.ram[0x11], 0x8f);
    run(&mut c, 3);
    assert_eq!(c.bus_cpu.ram[0x12], 0x30);
    assert_eq!(c.cpu.status, 0x24);
}

#[test]
fn undocumented_read_modify_write() {
    // DCP $10; ISB $11; SLO $12; RLA $13; SRE $14; RRA $15
    let mut c = console_with(&[
        0xc7, 0x10, 0xe7, 0x11, 0x07, 0x12, 0x27, 0x13, 0x47, 0x14, 0x67, 0x15,
    ]);
    c.bus_cpu.ram[0x10] = 0x05;
    c.bus_cpu.ram[0x11] = 0x0f;
    c.bus_cpu.ram[0x12] = 0x81;
    c.bus_cpu.ram[0x13] = 0xc1;
    c.bus_cpu.ram[0x14] = 0x03;
    c.bus_cpu.ram[0x15] = 0x03;
    c.cpu.ac = 0x04;
    run(&mut c, 1);
    assert_eq!(c.bus_cpu.ram[0x10], 0x04);
    assert_eq!(c.cpu.status, 0x24 | C | Z);
    c.cpu.ac = 0x20;
    run(&mut c, 1);
    assert_eq!(c.bus_cpu.ram[0x11], 0x10);
    assert_eq!(c.cpu.ac, 0x10);
    assert_eq!(c.cpu.status, 0x24 | C);
    run(&mut c, 1);
    assert_eq!(c.bus_cpu.ram[0x12], 0x02);
    assert_eq!(c.cpu.ac, 0x12);
    assert_eq!(c.cpu.status, 0x24 | C);
    run(&mut c, 1);
    // 0xc1 rotated left through a set carry
    assert_eq!(c.bus_cpu.ram[0x13], 0x83);
    assert_eq!(c.cpu.ac, 0x02);
    assert_eq!(c.cpu.status, 0x24 | C);
    run(&mut c, 1);
    assert_eq!(c.bus_cpu.ram[0x14], 0x01);
    assert_eq!(c.cpu.ac, 0x03);
    assert_eq!(c.cpu.status, 0x24 | C);
    run(&mut c, 1);
    // 0x03 rotated right through a set carry is 0x81, carry out 1
    assert_eq!(c.bus_cpu.ram[0x15], 0x81);
    assert_eq!(c.cpu.ac, 0x85);
    assert_eq!(c.cpu.status, 0x24 | N);
}

#[test]
fn dcp_compares_after_the_decrement() {
    for (ac, cell, flags) in [(0x04u8, 0x06u8, N), (0x05, 0x06, C | Z), (0x06, 0x06, C), (0x00, 0x00, 0)]
    {
        for before in [U, U | C, U | Z | N] {
            let mut c = console_with(&[0xc7, 0x10]);
            c.bus_cpu.ram[0x10] = cell;
            c.cpu.ac = ac;
            c.cpu.status = before;
            run(&mut c, 1);
            assert_eq!(c.bus_cpu.ram[0x10], cell.wrapping_sub(1));
            assert_eq!(c.cpu.status, U | flags);
            assert_eq!(c.cpu.ac, ac);
        }
    }
}

#[test]
fn undocumented_no_operations_skip_their_operands() {
    // NOP; DOP; TOP; NOP(0x1a); XXX(0x02)
    let mut c = console_with(&[0xea, 0x04, 0xff, 0x0c, 0xff, 0xff, 0x1a, 0x02]);
    let before = c.cpu;
    run(&mut c, 1);
    assert_eq!(c.cpu.pc, 0x8001);
    run(&mut c, 1);
    assert_eq!(c.cpu.pc, 0x8003);
    run(&mut c, 1);
    assert_eq!(c.cpu.pc, 0x8006);
    run(&mut c, 1);
    assert_eq!(c.cpu.pc, 0x8007);
    run(&mut c, 1);
    assert_eq!(c.cpu.pc, 0x8008);
    assert_eq!((c.cpu.ac, c.cpu.x, c.cpu.y, c.cpu.sp), (before.ac, before.x, before.y, before.sp));
    assert_eq!(c.cpu.status, before.status);
}

#[test]
fn bus_errors_reach_the_caller() {
    // LDA $4000
    let mut c = console_with(&[0xad, 0x00, 0x40]);
    assert_eq!(run_one(&mut c), Err(NesError::BusError));
    // STA $4018
    let mut c = console_with(&[0x8d, 0x18, 0x40]);
    assert_eq!(run_one(&mut c), Err(NesError::BusError));
}

#[test]
fn store_to_0x4014_starts_the_sprite_transfer() {
    // LDA #$03; STA $4014
    let mut c = console_with(&[0xa9, 0x03, 0x8d, 0x14, 0x40]);
    for i in 0..256usize {
        c.bus_cpu.ram[0x300 + i] = (255 - i) as u8;
    }
    run(&mut c, 2);
    assert_eq!(c.ppu.oam[0], 255);
    assert_eq!(c.ppu.oam[255], 0);
    assert_eq!(c.cpu.cycles, 255);
}

#[test]
fn break_flag_stays_clear() {
    // a loop that pushes, pulls, interrupts itself and adds
    let mut program = vec![
        0xa9, 0xff, 0x48, 0x28, 0x08, 0x68, 0x69, 0x01, 0x00, 0xea, 0x4c, 0x00, 0x80,
    ];
    program.resize(0x2000, 0xea);
    program.push(0x40);
    let mut c = console_with(&program);
    for _ in 0..2000 {
        assert_eq!(cpu::clock(&mut c), Ok(()));
        assert_eq!(c.cpu.status & B, 0);
    }
    cpu::nmi(&mut c).unwrap();
    assert_eq!(c.cpu.status & B, 0);
}

#[test]
fn decode_table() {
    let d = decode(0xa9);
    assert_eq!(d.instruction, Instruction::Lda);
    assert_eq!(d.addr_mode, AddrMode::Imm);
    assert_eq!((d.cycles, d.bytes, d.instruction_str), (2, 2, "LDA"));
    let d = decode(0x6c);
    assert_eq!(d.instruction, Instruction::Jmp);
    assert_eq!(d.addr_mode, AddrMode::Ind);
    assert_eq!((d.cycles, d.bytes, d.instruction_str), (5, 3, "JMP"));
    let d = decode(0x91);
    assert_eq!(d.instruction, Instruction::Sta);
    assert_eq!(d.addr_mode, AddrMode::Idy);
    assert_eq!((d.cycles, d.bytes), (6, 2));
    let d = decode(0x1e);
    assert_eq!(d.instruction, Instruction::Asl);
    assert_eq!(d.addr_mode, AddrMode::Abx);
    assert_eq!((d.cycles, d.bytes), (7, 3));
    let d = decode(0x00);
    assert_eq!((d.instruction, d.cycles, d.bytes), (Instruction::Brk, 7, 1));
    let d = decode(0xc3);
    assert_eq!(d.instruction, Instruction::Dcp);
    assert_eq!(d.addr_mode, AddrMode::Idx);
    assert_eq!((d.cycles, d.bytes, d.instruction_str), (8, 2, "DCP"));
    let d = decode(0x0c);
    assert_eq!(d.instruction, Instruction::Top);
    assert_eq!(d.addr_mode, AddrMode::Imp);
    assert_eq!((d.cycles, d.bytes), (4, 3));
    let d = decode(0x02);
    assert_eq!(d.instruction, Instruction::Xxx);
    assert_eq!(d.addr_mode, AddrMode::Xxx);
    assert_eq!((d.cycles, d.bytes, d.instruction_str), (2, 1, "XXX"));
    let official = (0..=255u8)
        .filter(|op| {
            !matches!(
                decode(*op).instruction,
                Instruction::Xxx
                    | Instruction::Dcp
                    | Instruction::Dop
                    | Instruction::Isb
                    | Instruction::Lax
                    | Instruction::Rla
                    | Instruction::Rra
                    | Instruction::Sax
                    | Instruction::Slo
                    | Instruction::Sre
                    | Instruction::Top
            )
        })
        .count();
    // 151 documented opcodes, six more no-operations and one more SBC
    assert_eq!(official, 158);
    for op in 0..=255u8 {
        let d = decode(op);
        assert_eq!(d.instruction_str, d.instruction.mnemonic());
        assert!((2..=8).contains(&d.cycles));
        assert!((1..=3).contains(&d.bytes));
    }
}

fn formatted(pc: u16, bytes: &[u8], mnemonic: &str, regs: [u8; 5]) -> String {
    let mut inst_bytes = String::new();
    for b in bytes {
        inst_bytes.push_str(&format!(" {:02X}", b));
    }
    while inst_bytes.len() < 8 {
        inst_bytes.push(' ');
    }
    format!(
        "{:04X}  {:?} \t{} \tA:{:02X} X:{:02X} Y:{:02X} P:{:02X} SP:{:02X}",
        pc, inst_bytes, mnemonic, regs[0], regs[1], regs[2], regs[3], regs[4]
    )
    .replace('"', "")
}

#[test]
fn trace_line_format() {
    assert_eq!(
        trace_line(0xc000, &vec![0x4c, 0xf5, 0xc5], "JMP", 0x00, 0x00, 0x00, 0x24, 0xfd),
        "C000   4C F5 C5 \tJMP \tA:00 X:00 Y:00 P:24 SP:FD"
    );
    assert_eq!(
        trace_line(0x00ab, &vec![0xa9, 0x0f], "LDA", 0x1a, 0xb2, 0x3c, 0xed, 0x09),
        "00AB   A9 0F   \tLDA \tA:1A X:B2 Y:3C P:ED SP:09"
    );
    assert_eq!(
        trace_line(0xffff, &vec![0xea], "NOP", 0xff, 0xff, 0xff, 0xff, 0xff),
        "FFFF   EA      \tNOP \tA:FF X:FF Y:FF P:FF SP:FF"
    );
    assert_eq!(
        trace_line(0x0000, &vec![], "", 0, 0, 0, 0, 0),
        "0000           \t \tA:00 X:00 Y:00 P:00 SP:00"
    );
    for (pc, bytes, regs) in [
        (0x8000u16, vec![0x20u8, 0x10, 0x80], [1u8, 2, 3, 4, 5]),
        (0x1234, vec![0x85, 0x10], [0xde, 0xad, 0xbe, 0xef, 0x42]),
        (0xfedc, vec![0x60], [0x9a, 0x78, 0x56, 0x34, 0x12]),
    ] {
        assert_eq!(
            trace_line(pc, &bytes, "OPC", regs[0], regs[1], regs[2], regs[3], regs[4]),
            formatted(pc, &bytes, "OPC", regs)
        );
    }
}

#[test]
fn step_traces_instructions() {
    // LDA #$42; STA $0200; JMP $8000
    let mut c = console_with(&[0xa9, 0x42, 0x8d, 0x00, 0x02, 0x4c, 0x00, 0x80]);
    // the first step after a reset only waits out the reset's cycles
    let first = cpu::step(&mut c).unwrap();
    assert_eq!(first, "8000   A9 42   \tLDA \tA:00 X:00 Y:00 P:24 SP:FD");
    assert_eq!(c.cpu.pc, 0x8000);
    assert_eq!(c.cpu.cycles, 0);
    let lines: Vec<String> = (0..4).map(|_| cpu::step(&mut c).unwrap()).collect();
    assert_eq!(
        lines,
        vec![
            "8000   A9 42   \tLDA \tA:00 X:00 Y:00 P:24 SP:FD",
            "8002   8D 00 02 \tSTA \tA:42 X:00 Y:00 P:24 SP:FD",
            "8005   4C 00 80 \tJMP \tA:42 X:00 Y:00 P:24 SP:FD",
            "8000   A9 42   \tLDA \tA:42 X:00 Y:00 P:24 SP:FD",
        ]
    );
    assert_eq!(c.bus_cpu.ram[0x200], 0x42);
    assert_eq!(c.cpu.cycles, 0);
}

#[test]
fn step_fails_where_the_opcode_cannot_be_read() {
    let mut c = console_with(&[]);
    c.cpu.pc = 0x4000;
    c.cpu.cycles = 0;
    assert_eq!(cpu::step(&mut c), Err(NesError::BusError));
}

#[test]
fn helpers_read_through_the_bus() {
    let mut c = console_with(&[0x11, 0x22, 0x33]);
    assert_eq!(cpu::pc_fetch_byte(&mut c), Ok(0x11));
    assert_eq!(c.cpu.pc, 0x8001);
    assert_eq!(cpu::pc_fetch_word(&mut c), Ok(0x3322));
    assert_eq!(c.cpu.pc, 0x8003);
    assert_eq!(cpu::fetch_word(&mut c, 0xfffc), Ok(0x8000));
    buscpu::write(&mut c, 0x0123, 0x45).unwrap();
    c.cpu.addr = 0x0123;
    c.cpu.is_imp = false;
    assert_eq!(cpu::fetch_data(&mut c), Ok(()));
    assert_eq!(c.cpu.data, 0x45);
    c.cpu.is_imp = true;
    c.cpu.addr = 0x4000;
    assert_eq!(cpu::fetch_data(&mut c), Ok(()));
    assert_eq!(c.cpu.data, 0x45);
    cpu::push(&mut c, 0x99);
    assert_eq!(c.cpu.sp, 0xfc);
    assert_eq!(cpu::pull(&mut c), 0x99);
    assert_eq!(c.cpu.sp, 0xfd);
}
