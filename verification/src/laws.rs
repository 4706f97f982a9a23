use vstd::prelude::*;
use crate::buscpu;
use crate::console::ConsoleView;
use crate::cpu;
use crate::cpu::Cpu;
use crate::error::NesError;
use crate::ppu;
use crate::{spec_cycle, spec_dot, spec_dots, spec_step, spec_tick, spec_ticks};

verus! {

/// Whether the byte at the program counter is `opcode`, in memory that a
/// read leaves as it is.
pub open spec fn opcode_is(v: ConsoleView, opcode: u8) -> bool {
    buscpu::spec_read(v, v.cpu.pc) == (v, Ok::<u8, NesError>(opcode))
}

/// Whether a dot interrupts the processor: the vertical blank starts on it
/// and the control register asks for the interrupt.
pub open spec fn dot_interrupts(v: ConsoleView) -> bool {
    ppu::frame_starts(v.ppu) && v.ppu.reg_control.spec_is_nmi_enabled()
}

/// Whether none of the first `n` dots from `v` on interrupts the
/// processor, as far as they are run.
pub open spec fn dots_interrupt_free(v: ConsoleView, n: nat) -> bool
    decreases n,
{
    n == 0 || (dots_interrupt_free(v, (n - 1) as nat) && (spec_dots(v, (n - 1) as nat).1 is Err
        || !dot_interrupts(spec_dots(v, (n - 1) as nat).0)))
}

/// Whether none of the first `n` ticks from `v` on interrupts the
/// processor, as far as they are run.
pub open spec fn ticks_interrupt_free(v: ConsoleView, n: nat) -> bool
    decreases n,
{
    n == 0 || (ticks_interrupt_free(v, (n - 1) as nat) && (spec_ticks(v, (n - 1) as nat).1 is Err
        || dots_interrupt_free(spec_cycle(spec_ticks(v, (n - 1) as nat).0).0, 3)))
}

/// Whether a step takes no interrupt: none of the dots of its ticks
/// interrupts the processor.
pub open spec fn step_is_interrupt_free(v: ConsoleView) -> bool {
    let first = spec_cycle(buscpu::spec_read(v, v.cpu.pc).0).0;
    ticks_interrupt_free(first, first.cpu.cycles as nat)
}

/// A dot that does not interrupt the processor leaves it as it is.
pub proof fn lemma_dot_keeps_processor(v: ConsoleView)
    requires
        !dot_interrupts(v),
    ensures
        spec_dot(v).0.cpu == v.cpu,
{
    ppu::lemma_end_is_dot(v);
}

/// Dots that do not interrupt the processor leave it as it is.
pub proof fn lemma_dots_keep_processor(v: ConsoleView, n: nat)
    requires
        dots_interrupt_free(v, n),
    ensures
        spec_dots(v, n).0.cpu == v.cpu,
    decreases n,
{
    if n > 0 {
        lemma_dots_keep_processor(v, (n - 1) as nat);
        if spec_dots(v, (n - 1) as nat).1 is Ok {
            lemma_dot_keeps_processor(spec_dots(v, (n - 1) as nat).0);
        }
    }
}

/// A tick that finds cycles left to wait and takes no interrupt takes one
/// cycle off and leaves the registers alone.
pub proof fn lemma_waiting_tick(v: ConsoleView)
    requires
        v.cpu.cycles > 0,
        dots_interrupt_free(spec_cycle(v).0, 3),
    ensures
        spec_tick(v).0.cpu == (Cpu { cycles: (v.cpu.cycles - 1) as u8, ..v.cpu }),
{
    lemma_dots_keep_processor(spec_cycle(v).0, 3);
}

/// Ticks that wait out cycles and take no interrupt leave the registers
/// alone: after `n` of them, `n` cycles fewer are left to wait.
pub proof fn lemma_waiting_ticks(v: ConsoleView, n: nat)
    requires
        n <= v.cpu.cycles,
        ticks_interrupt_free(v, n),
        spec_ticks(v, n).1 is Ok,
    ensures
        spec_ticks(v, n).0.cpu == (Cpu { cycles: (v.cpu.cycles - n) as u8, ..v.cpu }),
    decreases n,
{
    if n > 0 {
        if spec_ticks(v, (n - 1) as nat).1 is Err {
            crate::lemma_ticks_stop(v, (n - 1) as nat, n);
        }
        lemma_waiting_ticks(v, (n - 1) as nat);
        lemma_waiting_tick(spec_ticks(v, (n - 1) as nat).0);
    }
}

/// Reading the bytes of an instruction for the trace leaves the
/// processor's registers alone.
pub proof fn lemma_read_bytes_keeps_registers(v: ConsoleView, start: u16, n: nat)
    ensures
        cpu::spec_read_bytes(v, start, n).0.cpu == v.cpu,
    decreases n,
{
    if n > 0 {
        lemma_read_bytes_keeps_registers(v, start, (n - 1) as nat);
        cpu::laws::lemma_read_keeps_registers(
            cpu::spec_read_bytes(v, start, (n - 1) as nat).0,
            cpu::addr_plus(start, n - 1),
        );
    }
}

/// The status byte that PLP and RTI leave of a byte `pulled` off the
/// stack: U is set and B is clear whatever was pulled, and the other six
/// flags are those of the byte.
pub open spec fn status_of_pulled(pulled: u8) -> u8 {
    (pulled & 0xef) | 0x20
}

/// A step over an instruction that runs on its first cycle and takes no
/// interrupt leaves the registers as the instruction left them.
pub proof fn lemma_step_keeps_what_ran(v: ConsoleView)
    requires
        spec_step(v).1 is Ok,
        step_is_interrupt_free(v),
    ensures
        ({
            let first = spec_cycle(buscpu::spec_read(v, v.cpu.pc).0).0;
            spec_step(v).0.cpu == (Cpu { cycles: 0, ..first.cpu })
        }),
{
    let (peeked, res) = buscpu::spec_read(v, v.cpu.pc);
    let opcode = res->Ok_0;
    let first = spec_cycle(peeked).0;
    lemma_waiting_ticks(first, first.cpu.cycles as nat);
    let waited = spec_ticks(first, first.cpu.cycles as nat).0;
    let instruction = cpu::decode::instruction_of(opcode);
    lemma_read_bytes_keeps_registers(
        waited,
        v.cpu.pc,
        cpu::decode::instruction_len(instruction, cpu::decode::addr_mode_of(opcode)) as nat,
    );
}

/// What PLP leaves of the byte on the stack: the status byte is that byte
/// with U set and B clear, and the stack pointer is one further.
pub proof fn lemma_plp_pulls(v: ConsoleView)
    ensures
        cpu::instructions::spec_plp(v).0.cpu.status == status_of_pulled(
            v.bus_cpu.ram[0x0100 + (v.cpu.sp + 1) % 256],
        ),
        cpu::instructions::spec_plp(v).0.cpu.sp == (v.cpu.sp + 1) % 256,
{
    let pulled = v.bus_cpu.ram[0x0100 + (v.cpu.sp + 1) % 256];
    assert(((pulled & !0x10u8) | 0x20u8) == ((pulled & 0xefu8) | 0x20u8)) by (bit_vector);
}

/// What RTI leaves of the byte on top of the stack: the status byte is
/// that byte with U set and B clear, and the stack pointer is three
/// further.
pub proof fn lemma_rti_pulls(v: ConsoleView)
    ensures
        cpu::instructions::spec_rti(v).0.cpu.status == status_of_pulled(
            v.bus_cpu.ram[0x0100 + (v.cpu.sp + 1) % 256],
        ),
        cpu::instructions::spec_rti(v).0.cpu.sp == (v.cpu.sp + 3) % 256,
{
    let pulled = v.bus_cpu.ram[0x0100 + (v.cpu.sp + 1) % 256];
    assert((((pulled | 0x20u8) & !0x10u8)) == ((pulled & 0xefu8) | 0x20u8)) by (bit_vector);
}

/// The console on which an instruction without an operand runs, where no
/// cycle is left to wait and `opcode` is at the program counter: the
/// program counter is one further, the instruction's cycles are set, and
/// the accumulator stands ready as operand.
pub open spec fn ready_to_run(v: ConsoleView, opcode: u8) -> ConsoleView {
    cpu::with_cpu(
        v,
        Cpu {
            pc: cpu::addr_plus(v.cpu.pc, 1),
            cycles: cpu::decode::base_cycles(
                cpu::decode::instruction_of(opcode),
                cpu::decode::addr_mode_of(opcode),
            ),
            addr_mode: cpu::decode::addr_mode_of(opcode),
            data: v.cpu.ac,
            is_imp: true,
            ..v.cpu
        },
    )
}

/// The first cycle of a step over PLP runs PLP.
pub proof fn lemma_cycle_runs_plp(v: ConsoleView)
    requires
        v.cpu.cycles == 0,
        opcode_is(v, 0x28),
    ensures
        spec_cycle(v).0.cpu == cpu::instructions::spec_plp(ready_to_run(v, 0x28)).0.cpu,
{
}

/// The first cycle of a step over RTI runs RTI.
pub proof fn lemma_cycle_runs_rti(v: ConsoleView)
    requires
        v.cpu.cycles == 0,
        opcode_is(v, 0x40),
    ensures
        spec_cycle(v).0.cpu == cpu::instructions::spec_rti(ready_to_run(v, 0x40)).0.cpu,
{
}

/// A step over PLP, from a console with no cycle left to wait and without
/// an interrupt within the step: the status byte is the byte on the stack
/// with U set and B clear, and the stack pointer is one further.
pub proof fn lemma_step_over_plp(v: ConsoleView)
    requires
        v.cpu.cycles == 0,
        opcode_is(v, 0x28),
        spec_step(v).1 is Ok,
        step_is_interrupt_free(v),
    ensures
        spec_step(v).0.cpu.status == status_of_pulled(
            v.bus_cpu.ram[0x0100 + (v.cpu.sp + 1) % 256],
        ),
        spec_step(v).0.cpu.sp == (v.cpu.sp + 1) % 256,
{
    lemma_step_keeps_what_ran(v);
    lemma_cycle_runs_plp(v);
    lemma_plp_pulls(ready_to_run(v, 0x28));
}

/// A step over RTI, from a console with no cycle left to wait and without
/// an interrupt within the step: the status byte is the byte on the stack
/// with U set and B clear, and the stack pointer is three further.
pub proof fn lemma_step_over_rti(v: ConsoleView)
    requires
        v.cpu.cycles == 0,
        opcode_is(v, 0x40),
        spec_step(v).1 is Ok,
        step_is_interrupt_free(v),
    ensures
        spec_step(v).0.cpu.status == status_of_pulled(
            v.bus_cpu.ram[0x0100 + (v.cpu.sp + 1) % 256],
        ),
        spec_step(v).0.cpu.sp == (v.cpu.sp + 3) % 256,
{
    lemma_step_keeps_what_ran(v);
    lemma_cycle_runs_rti(v);
    lemma_rti_pulls(ready_to_run(v, 0x40));
}

} // verus!
