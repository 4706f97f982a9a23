use vstd::prelude::*;
use crate::buscpu;
use crate::console::ConsoleView;
use crate::cpu::addressing::spec_addressing;
use crate::cpu::alu::keeps_break_clear;
use crate::cpu::decode::{spec_execute, Instruction};
use crate::cpu::instructions::{spec_plp, spec_rti};
use crate::cpu::{
    break_clear, spec_clock, spec_interrupt, spec_irq, spec_nmi, spec_reset, status_with,
    unused_set, AddrMode, Cpu, CpuFlag,
};
use crate::error::NesError;
use crate::ppu;

verus! {

/// Whether two processor states differ at most in the cycles that are left
/// to wait.
pub open spec fn same_registers(before: Cpu, after: Cpu) -> bool {
    after == (Cpu { cycles: after.cycles, ..before })
}

/// Setting or clearing a flag leaves B and U as they are, unless it is the
/// flag itself, which is then as it was asked for.
pub proof fn lemma_flag_update(status: u8, flag: CpuFlag, val: bool)
    ensures
        flag != CpuFlag::B ==> break_clear(status_with(status, flag, val)) == break_clear(status),
        flag == CpuFlag::B ==> break_clear(status_with(status, flag, val)) == !val,
        flag != CpuFlag::U ==> unused_set(status_with(status, flag, val)) == unused_set(status),
        flag == CpuFlag::U ==> unused_set(status_with(status, flag, val)) == val,
{
    let mask = flag.spec_mask();
    assert((mask == 0x01 || mask == 0x02 || mask == 0x04 || mask == 0x08 || mask == 0x20 || mask
        == 0x40 || mask == 0x80) ==> ((status | mask) & 0x10 == status & 0x10) && ((status & !mask)
        & 0x10 == status & 0x10)) by (bit_vector);
    assert((mask == 0x01 || mask == 0x02 || mask == 0x04 || mask == 0x08 || mask == 0x10 || mask
        == 0x40 || mask == 0x80) ==> ((status | mask) & 0x20 == status & 0x20) && ((status & !mask)
        & 0x20 == status & 0x20)) by (bit_vector);
    assert((status & !0x10u8) & 0x10 == 0 && (status | 0x10u8) & 0x10 != 0 && (status & !0x20u8)
        & 0x20 == 0 && (status | 0x20u8) & 0x20 != 0) by (bit_vector);
}

/// A read on the bus leaves the processor's registers alone.
pub proof fn lemma_read_keeps_registers(v: ConsoleView, addr: u16)
    ensures
        buscpu::spec_read(v, addr).0.cpu == v.cpu,
{
    reveal(buscpu::spec_read);
}

/// A sprite memory transfer leaves the processor's registers alone.
pub proof fn lemma_oam_dma_keeps_registers(v: ConsoleView, page: u16, n: nat)
    ensures
        ppu::spec_oam_dma(v, page, n).0.cpu == v.cpu,
    decreases n,
{
    if n > 0 {
        lemma_oam_dma_keeps_registers(v, page, (n - 1) as nat);
        let before = ppu::spec_oam_dma(v, page, (n - 1) as nat).0;
        lemma_read_keeps_registers(before, (page + n - 1) as u16);
    }
}

/// A write on the bus changes no register of the processor; it may change
/// the cycles that are left to wait.
pub proof fn lemma_write_keeps_registers(v: ConsoleView, addr: u16, data: u8)
    ensures
        same_registers(v.cpu, buscpu::spec_write(v, addr, data).0.cpu),
{
    reveal(buscpu::spec_write);
    lemma_oam_dma_keeps_registers(
        ConsoleView { cpu: Cpu { cycles: ppu::OAM_DMA_CYCLES, ..v.cpu }, ..v },
        (data * 256) as u16,
        256,
    );
}

/// What the laws of the bus and of the flags say, for every state at once.
pub proof fn lemma_frames()
    ensures
        forall|v: ConsoleView, addr: u16| (#[trigger] buscpu::spec_read(v, addr)).0.cpu == v.cpu,
        forall|v: ConsoleView, addr: u16, data: u8|
            same_registers(v.cpu, (#[trigger] buscpu::spec_write(v, addr, data)).0.cpu),
        forall|status: u8, flag: CpuFlag, val: bool|
            flag != CpuFlag::B ==> break_clear(#[trigger] status_with(status, flag, val))
                == break_clear(status),
        forall|status: u8, flag: CpuFlag, val: bool|
            flag == CpuFlag::B && !val ==> break_clear(#[trigger] status_with(status, flag, val)),
        forall|status: u8, flag: CpuFlag, val: bool|
            flag != CpuFlag::U ==> unused_set(#[trigger] status_with(status, flag, val))
                == unused_set(status),
        forall|status: u8, flag: CpuFlag, val: bool|
            flag == CpuFlag::U && val ==> unused_set(#[trigger] status_with(status, flag, val)),
{
    assert forall|v: ConsoleView, addr: u16|
        (#[trigger] buscpu::spec_read(v, addr)).0.cpu == v.cpu by {
        lemma_read_keeps_registers(v, addr);
    }
    assert forall|v: ConsoleView, addr: u16, data: u8|
        same_registers(v.cpu, (#[trigger] buscpu::spec_write(v, addr, data)).0.cpu) by {
        lemma_write_keeps_registers(v, addr, data);
    }
    assert forall|status: u8, flag: CpuFlag, val: bool|
        flag != CpuFlag::B implies break_clear(#[trigger] status_with(status, flag, val))
        == break_clear(status) by {
        lemma_flag_update(status, flag, val);
    }
    assert forall|status: u8, flag: CpuFlag, val: bool| flag == CpuFlag::B && !val implies break_clear(
        #[trigger] status_with(status, flag, val),
    ) by {
        lemma_flag_update(status, flag, val);
    }
    assert forall|status: u8, flag: CpuFlag, val: bool|
        flag != CpuFlag::U implies unused_set(#[trigger] status_with(status, flag, val))
        == unused_set(status) by {
        lemma_flag_update(status, flag, val);
    }
    assert forall|status: u8, flag: CpuFlag, val: bool| flag == CpuFlag::U && val implies unused_set(
        #[trigger] status_with(status, flag, val),
    ) by {
        lemma_flag_update(status, flag, val);
    }
}

/// Locating an operand changes no flag.
pub proof fn lemma_addressing_keeps_status(v: ConsoleView, mode: AddrMode)
    ensures
        spec_addressing(v, mode).0.cpu.status == v.cpu.status,
{
    lemma_frames();
}

/// The instructions that only read their operand keep the B flag clear.
proof fn lemma_reads_keep_break_clear(v: ConsoleView, instruction: Instruction)
    requires
        instruction.reads_operand(),
    ensures
        keeps_break_clear(v.cpu, spec_execute(v, instruction).0.cpu),
{
    lemma_frames();
}

/// The instructions that store a register keep the B flag clear.
proof fn lemma_stores_keep_break_clear(v: ConsoleView, instruction: Instruction)
    requires
        instruction.stores_register(),
    ensures
        keeps_break_clear(v.cpu, spec_execute(v, instruction).0.cpu),
{
    lemma_frames();
}

/// The shifts, rotations, increments and decrements of memory keep the B flag
/// clear.
proof fn lemma_shifts_keep_break_clear(v: ConsoleView, instruction: Instruction)
    requires
        matches!(
            instruction,
            Instruction::Asl
                | Instruction::Lsr
                | Instruction::Rol
                | Instruction::Ror
                | Instruction::Inc
                | Instruction::Dec
        ),
    ensures
        keeps_break_clear(v.cpu, spec_execute(v, instruction).0.cpu),
{
    lemma_frames();
}

/// The undocumented instructions that change memory and the accumulator keep
/// the B flag clear.
proof fn lemma_combined_keep_break_clear(v: ConsoleView, instruction: Instruction)
    requires
        matches!(
            instruction,
            Instruction::Dcp
                | Instruction::Isb
                | Instruction::Rla
                | Instruction::Rra
                | Instruction::Slo
                | Instruction::Sre
        ),
    ensures
        keeps_break_clear(v.cpu, spec_execute(v, instruction).0.cpu),
{
    lemma_frames();
}

/// The branches keep the B flag clear.
proof fn lemma_branches_keep_break_clear(v: ConsoleView, instruction: Instruction)
    requires
        matches!(
            instruction,
            Instruction::Bcc
                | Instruction::Bcs
                | Instruction::Beq
                | Instruction::Bmi
                | Instruction::Bne
                | Instruction::Bpl
                | Instruction::Bvc
                | Instruction::Bvs
        ),
    ensures
        keeps_break_clear(v.cpu, spec_execute(v, instruction).0.cpu),
{
    lemma_frames();
}

/// The instructions that use the stack keep the B flag clear: BRK and PHP set
/// it in the copy that they push, PLP and RTI clear it in what they pull.
proof fn lemma_stack_keep_break_clear(v: ConsoleView, instruction: Instruction)
    requires
        matches!(
            instruction,
            Instruction::Brk
                | Instruction::Jsr
                | Instruction::Pha
                | Instruction::Php
                | Instruction::Pla
                | Instruction::Plp
                | Instruction::Rti
                | Instruction::Rts
        ),
    ensures
        keeps_break_clear(v.cpu, spec_execute(v, instruction).0.cpu),
{
    lemma_frames();
}

/// No instruction leaves the B flag set that found it clear.
pub proof fn lemma_execute_keeps_break_clear(v: ConsoleView, instruction: Instruction)
    ensures
        keeps_break_clear(v.cpu, spec_execute(v, instruction).0.cpu),
{
    if instruction.reads_operand() {
        lemma_reads_keep_break_clear(v, instruction);
    } else if instruction.stores_register() {
        lemma_stores_keep_break_clear(v, instruction);
    } else if instruction.modifies_operand() {
        match instruction {
            Instruction::Asl
            | Instruction::Lsr
            | Instruction::Rol
            | Instruction::Ror
            | Instruction::Inc
            | Instruction::Dec => lemma_shifts_keep_break_clear(v, instruction),
            _ => lemma_combined_keep_break_clear(v, instruction),
        }
    } else {
        match instruction {
            Instruction::Bcc
            | Instruction::Bcs
            | Instruction::Beq
            | Instruction::Bmi
            | Instruction::Bne
            | Instruction::Bpl
            | Instruction::Bvc
            | Instruction::Bvs => lemma_branches_keep_break_clear(v, instruction),
            Instruction::Brk
            | Instruction::Jsr
            | Instruction::Pha
            | Instruction::Php
            | Instruction::Pla
            | Instruction::Plp
            | Instruction::Rti
            | Instruction::Rts => lemma_stack_keep_break_clear(v, instruction),
            _ => {
                            lemma_frames();
            },
        }
    }
}

/// The B flag is never set in the status byte: no cycle of the processor
/// leaves it set that found it clear. It is set only in the copies of the
/// status byte that BRK and PHP push.
pub proof fn lemma_clock_keeps_break_clear(v: ConsoleView)
    ensures
        keeps_break_clear(v.cpu, spec_clock(v).0.cpu),
{
    lemma_frames();
    if v.cpu.cycles == 0 {
        let (read, res) = buscpu::spec_read(v, v.cpu.pc);
        if let Ok(opcode) = res {
            let instruction = crate::cpu::decode::instruction_of(opcode);
            let mode = crate::cpu::decode::addr_mode_of(opcode);
            let started = crate::cpu::with_cpu(
                read,
                Cpu {
                    pc: crate::cpu::addr_plus(read.cpu.pc, 1),
                    cycles: crate::cpu::decode::base_cycles(instruction, mode),
                    addr_mode: mode,
                    ..read.cpu
                },
            );
            lemma_addressing_keeps_status(started, mode);
            lemma_execute_keeps_break_clear(spec_addressing(started, mode).0, instruction);
        }
    }
}

/// An interrupt clears the B flag, and so does an interrupt request that is
/// taken; one that is ignored leaves the status byte as it is.
pub proof fn lemma_interrupts_keep_break_clear(v: ConsoleView, vector: u16)
    ensures
        break_clear(spec_interrupt(v, vector).0.cpu.status),
        break_clear(spec_nmi(v).0.cpu.status),
        keeps_break_clear(v.cpu, spec_irq(v).0.cpu),
{
    lemma_frames();
}

/// After a reset the status byte is 0x24: B is clear and U is set. This
/// holds whether or not the reset vector could be read.
pub proof fn lemma_reset_flags(v: ConsoleView)
    ensures
        spec_reset(v).0.cpu.status == 0x24,
        break_clear(spec_reset(v).0.cpu.status),
        unused_set(spec_reset(v).0.cpu.status),
{
    lemma_frames();
    assert(0x24u8 & 0x10 == 0 && 0x24u8 & 0x20 != 0) by (bit_vector);
}

/// After PLP and after RTI the U flag is set and the B flag is clear,
/// whatever was pulled.
pub proof fn lemma_pulled_status(v: ConsoleView)
    ensures
        unused_set(spec_plp(v).0.cpu.status),
        break_clear(spec_plp(v).0.cpu.status),
        unused_set(spec_rti(v).0.cpu.status),
        break_clear(spec_rti(v).0.cpu.status),
{
    lemma_frames();
}

/// The console after up to `n` cycles of the processor; a cycle that fails
/// is the last.
pub open spec fn spec_clocks(v: ConsoleView, n: nat) -> (ConsoleView, Result<(), NesError>)
    decreases n,
{
    if n == 0 {
        (v, Ok(()))
    } else {
        let (before, earlier) = spec_clocks(v, (n - 1) as nat);
        if earlier is Err {
            (before, earlier)
        } else {
            spec_clock(before)
        }
    }
}

/// However many cycles the processor runs, the B flag stays clear.
pub proof fn lemma_clocks_keep_break_clear(v: ConsoleView, n: nat)
    ensures
        keeps_break_clear(v.cpu, spec_clocks(v, n).0.cpu),
    decreases n,
{
    if n > 0 {
        lemma_clocks_keep_break_clear(v, (n - 1) as nat);
        lemma_clock_keeps_break_clear(spec_clocks(v, (n - 1) as nat).0);
    }
}

/// A read on the bus leaves the beam where it is: it may change the
/// registers of the picture unit, not the place of the beam.
pub proof fn lemma_read_keeps_beam(v: ConsoleView, addr: u16)
    ensures
        ppu::same_beam(v.ppu, buscpu::spec_read(v, addr).0.ppu),
{
    reveal(buscpu::spec_read);
}

/// A sprite memory transfer leaves the beam where it is.
pub proof fn lemma_oam_dma_keeps_beam(v: ConsoleView, page: u16, n: nat)
    ensures
        ppu::same_beam(v.ppu, ppu::spec_oam_dma(v, page, n).0.ppu),
    decreases n,
{
    if n > 0 {
        lemma_oam_dma_keeps_beam(v, page, (n - 1) as nat);
        let before = ppu::spec_oam_dma(v, page, (n - 1) as nat).0;
        lemma_read_keeps_beam(before, (page + n - 1) as u16);
    }
}

/// A write on the bus leaves the beam where it is.
pub proof fn lemma_write_keeps_beam(v: ConsoleView, addr: u16, data: u8)
    ensures
        ppu::same_beam(v.ppu, buscpu::spec_write(v, addr, data).0.ppu),
{
    reveal(buscpu::spec_write);
    lemma_oam_dma_keeps_beam(
        ConsoleView { cpu: Cpu { cycles: ppu::OAM_DMA_CYCLES, ..v.cpu }, ..v },
        (data * 256) as u16,
        256,
    );
}

/// No access on the bus moves the beam, whatever the state.
pub proof fn lemma_bus_keeps_beam()
    ensures
        forall|v: ConsoleView, addr: u16|
            ppu::same_beam(v.ppu, (#[trigger] buscpu::spec_read(v, addr)).0.ppu),
        forall|v: ConsoleView, addr: u16, data: u8|
            ppu::same_beam(v.ppu, (#[trigger] buscpu::spec_write(v, addr, data)).0.ppu),
{
    assert forall|v: ConsoleView, addr: u16|
        ppu::same_beam(v.ppu, (#[trigger] buscpu::spec_read(v, addr)).0.ppu) by {
        lemma_read_keeps_beam(v, addr);
    }
    assert forall|v: ConsoleView, addr: u16, data: u8|
        ppu::same_beam(v.ppu, (#[trigger] buscpu::spec_write(v, addr, data)).0.ppu) by {
        lemma_write_keeps_beam(v, addr, data);
    }
}

/// Locating an operand leaves the beam where it is.
pub proof fn lemma_addressing_keeps_beam(v: ConsoleView, mode: AddrMode)
    ensures
        ppu::same_beam(v.ppu, spec_addressing(v, mode).0.ppu),
{
    lemma_bus_keeps_beam();
}

/// The instructions that only read their operand leave the beam alone.
proof fn lemma_reads_keep_beam(v: ConsoleView, instruction: Instruction)
    requires
        instruction.reads_operand(),
    ensures
        ppu::same_beam(v.ppu, spec_execute(v, instruction).0.ppu),
{
    lemma_bus_keeps_beam();
}

/// The instructions that store a register leave the beam alone.
proof fn lemma_stores_keep_beam(v: ConsoleView, instruction: Instruction)
    requires
        instruction.stores_register(),
    ensures
        ppu::same_beam(v.ppu, spec_execute(v, instruction).0.ppu),
{
    lemma_bus_keeps_beam();
}

/// The shifts, rotations, increments and decrements of memory leave the beam
/// alone.
proof fn lemma_shifts_keep_beam(v: ConsoleView, instruction: Instruction)
    requires
        matches!(
            instruction,
            Instruction::Asl
                | Instruction::Lsr
                | Instruction::Rol
                | Instruction::Ror
                | Instruction::Inc
                | Instruction::Dec
        ),
    ensures
        ppu::same_beam(v.ppu, spec_execute(v, instruction).0.ppu),
{
    lemma_bus_keeps_beam();
}

/// The undocumented instructions that change memory and the accumulator leave
/// the beam alone.
proof fn lemma_combined_keep_beam(v: ConsoleView, instruction: Instruction)
    requires
        matches!(
            instruction,
            Instruction::Dcp
                | Instruction::Isb
                | Instruction::Rla
                | Instruction::Rra
                | Instruction::Slo
                | Instruction::Sre
        ),
    ensures
        ppu::same_beam(v.ppu, spec_execute(v, instruction).0.ppu),
{
    lemma_bus_keeps_beam();
}

/// The instructions that use the stack leave the beam alone.
proof fn lemma_stack_keep_beam(v: ConsoleView, instruction: Instruction)
    requires
        matches!(
            instruction,
            Instruction::Brk
                | Instruction::Jsr
                | Instruction::Pha
                | Instruction::Php
                | Instruction::Pla
                | Instruction::Plp
                | Instruction::Rti
                | Instruction::Rts
        ),
    ensures
        ppu::same_beam(v.ppu, spec_execute(v, instruction).0.ppu),
{
    lemma_bus_keeps_beam();
}

/// No instruction moves the beam.
pub proof fn lemma_execute_keeps_beam(v: ConsoleView, instruction: Instruction)
    ensures
        ppu::same_beam(v.ppu, spec_execute(v, instruction).0.ppu),
{
    if instruction.reads_operand() {
        lemma_reads_keep_beam(v, instruction);
    } else if instruction.stores_register() {
        lemma_stores_keep_beam(v, instruction);
    } else if instruction.modifies_operand() {
        match instruction {
            Instruction::Asl
            | Instruction::Lsr
            | Instruction::Rol
            | Instruction::Ror
            | Instruction::Inc
            | Instruction::Dec => lemma_shifts_keep_beam(v, instruction),
            _ => lemma_combined_keep_beam(v, instruction),
        }
    } else {
        match instruction {
            Instruction::Brk
            | Instruction::Jsr
            | Instruction::Pha
            | Instruction::Php
            | Instruction::Pla
            | Instruction::Plp
            | Instruction::Rti
            | Instruction::Rts => lemma_stack_keep_beam(v, instruction),
            _ => {
                lemma_bus_keeps_beam();
            },
        }
    }
}

/// A cycle of the processor leaves the beam where it is: the processor
/// reaches the picture unit through its registers alone.
pub proof fn lemma_clock_keeps_beam(v: ConsoleView)
    ensures
        ppu::same_beam(v.ppu, spec_clock(v).0.ppu),
{
    lemma_bus_keeps_beam();
    if v.cpu.cycles == 0 {
        let (read, res) = buscpu::spec_read(v, v.cpu.pc);
        if let Ok(opcode) = res {
            let instruction = crate::cpu::decode::instruction_of(opcode);
            let mode = crate::cpu::decode::addr_mode_of(opcode);
            let started = crate::cpu::with_cpu(
                read,
                Cpu {
                    pc: crate::cpu::addr_plus(read.cpu.pc, 1),
                    cycles: crate::cpu::decode::base_cycles(instruction, mode),
                    addr_mode: mode,
                    ..read.cpu
                },
            );
            lemma_addressing_keeps_beam(started, mode);
            lemma_execute_keeps_beam(spec_addressing(started, mode).0, instruction);
        }
    }
}

/// Reading the bytes of an instruction for the trace leaves the beam where
/// it is.
pub proof fn lemma_read_bytes_keeps_beam(v: ConsoleView, start: u16, n: nat)
    ensures
        ppu::same_beam(v.ppu, crate::cpu::spec_read_bytes(v, start, n).0.ppu),
    decreases n,
{
    if n > 0 {
        lemma_read_bytes_keeps_beam(v, start, (n - 1) as nat);
        lemma_read_keeps_beam(
            crate::cpu::spec_read_bytes(v, start, (n - 1) as nat).0,
            crate::cpu::addr_plus(start, n - 1),
        );
    }
}

} // verus!
