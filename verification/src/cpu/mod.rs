use vstd::prelude::*;
use crate::buscpu;
use crate::buscpu::{ram_index, BusCpuView};
use crate::console::{Console, ConsoleView};
use crate::cpu::addressing::{addressing, spec_addressing};
use crate::cpu::alu::keeps_break_clear;
use crate::cpu::decode::{
    addr_mode_of, base_cycles, decode, decodes, execute, instruction_len, instruction_of,
    lemma_decoded_bounds, spec_execute, DecodedOpcode,
};
use crate::cpu::trace::{spec_trace_line, trace_line};
use crate::error::NesError;

pub mod addressing;
pub mod alu;
pub mod decode;
pub mod instructions;
pub mod laws;
pub mod trace;

verus! {

/// The flags of the status byte.
#[derive(Clone, Copy, Debug, PartialEq, Eq, Structural)]
pub enum CpuFlag {
    /// Carry
    C,
    /// Zero
    Z,
    /// Interrupts disabled
    I,
    /// Decimal mode; stored, never acted on
    D,
    /// Break; set only in the copy of the status byte that BRK and PHP push
    B,
    /// Unused; reads as set
    U,
    /// Overflow
    V,
    /// Negative
    N,
}

impl CpuFlag {
    pub open spec fn spec_mask(self) -> u8 {
        match self {
            CpuFlag::C => 0x01,
            CpuFlag::Z => 0x02,
            CpuFlag::I => 0x04,
            CpuFlag::D => 0x08,
            CpuFlag::B => 0x10,
            CpuFlag::U => 0x20,
            CpuFlag::V => 0x40,
            CpuFlag::N => 0x80,
        }
    }

    /// The flag's bit in the status byte.
    #[verifier::when_used_as_spec(spec_mask)]
    pub fn mask(self) -> (m: u8)
        ensures
            m == self.spec_mask(),
    {
        match self {
            CpuFlag::C => 0x01,
            CpuFlag::Z => 0x02,
            CpuFlag::I => 0x04,
            CpuFlag::D => 0x08,
            CpuFlag::B => 0x10,
            CpuFlag::U => 0x20,
            CpuFlag::V => 0x40,
            CpuFlag::N => 0x80,
        }
    }
}

/// How an instruction finds its operand.
#[derive(Clone, Copy, Debug, PartialEq, Eq, Structural)]
pub enum AddrMode {
    /// Absolute
    Abs,
    /// Absolute, indexed by X
    Abx,
    /// Absolute, indexed by Y
    Aby,
    /// Immediate
    Imm,
    /// Implied, or the accumulator
    Imp,
    /// Indirect
    Ind,
    /// Indexed indirect, by X
    Idx,
    /// Indirect indexed, by Y
    Idy,
    /// Relative
    Rel,
    /// Zero page
    Zpg,
    /// Zero page, indexed by X
    Zpx,
    /// Zero page, indexed by Y
    Zpy,
    /// None: the opcode is not an instruction
    Xxx,
}

/// The processor's registers and the scratch values of the instruction in
/// progress.
#[derive(Clone, Copy, Debug, PartialEq, Eq, Structural)]
pub struct Cpu {
    pub pc: u16,
    pub ac: u8,
    pub x: u8,
    pub y: u8,
    /// The stack lives at 0x0100 + `sp`.
    pub sp: u8,
    pub status: u8,
    /// Cycles that the instruction in progress still has to wait out.
    pub cycles: u8,
    /// Effective address of the operand.
    pub addr: u16,
    /// Addressing mode of the instruction in progress.
    pub addr_mode: AddrMode,
    /// The operand, once fetched.
    pub data: u8,
    /// Set when the operand is the accumulator and not a memory cell.
    pub is_imp: bool,
}

/// `status` with `flag` set or cleared.
pub open spec fn status_with(status: u8, flag: CpuFlag, val: bool) -> u8 {
    if val {
        status | flag.spec_mask()
    } else {
        status & !flag.spec_mask()
    }
}

/// Whether `flag` is set in `status`.
pub open spec fn status_has(status: u8, flag: CpuFlag) -> bool {
    flag.spec_mask() & status != 0
}

/// `status` with Z and N set from `value`: Z where it is zero, N where its
/// bit 7 is set.
pub open spec fn status_with_zn(status: u8, value: u8) -> u8 {
    status_with(status_with(status, CpuFlag::Z, value == 0), CpuFlag::N, value >= 0x80)
}

/// Whether the B flag is clear in `status`.
pub open spec fn break_clear(status: u8) -> bool {
    status & 0x10 == 0
}

/// Whether the U flag is set in `status`.
pub open spec fn unused_set(status: u8) -> bool {
    status & 0x20 != 0
}

/// The address `n` further than `addr`, wrapping at 0x10000.
pub open spec fn addr_plus(addr: u16, n: int) -> u16 {
    ((addr + n) % 0x10000) as u16
}

/// High byte of a word.
pub open spec fn hi_byte(word: u16) -> u8 {
    (word / 256) as u8
}

/// Low byte of a word.
pub open spec fn lo_byte(word: u16) -> u8 {
    (word % 256) as u8
}

/// The word with the given high and low byte.
pub open spec fn word_of(hi: u8, lo: u8) -> u16 {
    (hi * 256 + lo) as u16
}

impl Cpu {
    /// The processor of a console that was just switched on.
    pub open spec fn initial() -> Cpu {
        Cpu {
            pc: 0,
            ac: 0,
            x: 0,
            y: 0,
            sp: 0,
            status: 0,
            cycles: 0,
            addr: 0,
            addr_mode: AddrMode::Xxx,
            data: 0,
            is_imp: false,
        }
    }

    pub open spec fn spec_set_flag(self, flag: CpuFlag, val: bool) -> Cpu {
        Cpu { status: status_with(self.status, flag, val), ..self }
    }

    pub open spec fn spec_get_flag(&self, flag: CpuFlag) -> bool {
        status_has(self.status, flag)
    }

    pub open spec fn spec_set_zn(self, value: u8) -> Cpu {
        Cpu { status: status_with_zn(self.status, value), ..self }
    }

    /// The carry flag as a number.
    pub open spec fn spec_carry(&self) -> u8 {
        if status_has(self.status, CpuFlag::C) {
            1
        } else {
            0
        }
    }

    /// Sets or clears `flag`. No flag but B changes the B flag.
    pub fn set_flag(&mut self, flag: CpuFlag, val: bool)
        ensures
            *final(self) == old(self).spec_set_flag(flag, val),
            flag != CpuFlag::B && break_clear(old(self).status) ==> break_clear(final(self).status),
            flag == CpuFlag::B && !val ==> break_clear(final(self).status),
            flag == CpuFlag::U && val ==> unused_set(final(self).status),
            flag != CpuFlag::U && unused_set(old(self).status) ==> unused_set(
                final(self).status,
            ),
    {
        let mask: u8 = flag.mask();
        proof {
            laws::lemma_flag_update(self.status, flag, val);
        }
        if val {
            self.status = self.status | mask;
        } else {
            self.status = self.status & !mask;
        }
    }

    /// Whether `flag` is set.
    #[verifier::when_used_as_spec(spec_get_flag)]
    pub fn get_flag(&self, flag: CpuFlag) -> (b: bool)
        ensures
            b == self.spec_get_flag(flag),
    {
        flag.mask() & self.status != 0x00
    }

    /// Sets Z and N from `value`.
    pub fn set_zn(&mut self, value: u8)
        ensures
            *final(self) == old(self).spec_set_zn(value),
            break_clear(old(self).status) ==> break_clear(final(self).status),
    {
        self.set_flag(CpuFlag::Z, value == 0);
        self.set_flag(CpuFlag::N, value >= 0x80);
    }

    /// The carry flag as a number.
    #[verifier::when_used_as_spec(spec_carry)]
    pub fn carry(&self) -> (carry: u8)
        ensures
            carry == self.spec_carry(),
    {
        if self.get_flag(CpuFlag::C) {
            1
        } else {
            0
        }
    }

    /// The processor of a console that was just switched on: every
    /// register zero.
    pub fn new() -> (cpu: Cpu)
        ensures
            cpu == Cpu::initial(),
    {
        Cpu {
            pc: 0,
            ac: 0,
            x: 0,
            y: 0,
            sp: 0,
            status: 0,
            cycles: 0,
            addr: 0,
            addr_mode: AddrMode::Xxx,
            data: 0,
            is_imp: false,
        }
    }
}

impl Default for Cpu {
    fn default() -> (cpu: Cpu)
        ensures
            cpu == Cpu::initial(),
    {
        Cpu::new()
    }
}

/// The console with other processor registers.
pub open spec fn with_cpu(v: ConsoleView, cpu: Cpu) -> ConsoleView {
    ConsoleView { cpu, ..v }
}

/// The console after a byte was pushed: the byte is stored in the stack
/// cell that `sp` points at, and `sp` moves down by one, wrapping. The
/// stack lies in RAM, so a push always succeeds.
pub open spec fn spec_push(v: ConsoleView, data: u8) -> ConsoleView {
    ConsoleView {
        bus_cpu: BusCpuView { ram: v.bus_cpu.ram.update(0x0100 + v.cpu.sp, data) },
        cpu: Cpu { sp: ((v.cpu.sp + 255) % 256) as u8, ..v.cpu },
        ..v
    }
}

/// The console after a byte was pulled: `sp` moves up by one, wrapping.
pub open spec fn spec_pull_state(v: ConsoleView) -> ConsoleView {
    with_cpu(v, Cpu { sp: ((v.cpu.sp + 1) % 256) as u8, ..v.cpu })
}

/// The byte that a pull gives: the stack cell above the one that `sp`
/// points at.
pub open spec fn spec_pull_value(v: ConsoleView) -> u8 {
    v.bus_cpu.ram[0x0100 + (v.cpu.sp + 1) % 256]
}

/// The console after a read of the word at `addr`, low byte first, and the
/// word.
pub open spec fn spec_fetch_word(v: ConsoleView, addr: u16) -> (ConsoleView, Result<
    u16,
    NesError,
>) {
    let (after_lo, lo) = buscpu::spec_read(v, addr);
    match lo {
        Ok(lo) => {
            let (after_hi, hi) = buscpu::spec_read(after_lo, addr_plus(addr, 1));
            match hi {
                Ok(hi) => (after_hi, Ok(word_of(hi, lo))),
                Err(e) => (after_hi, Err(e)),
            }
        },
        Err(e) => (after_lo, Err(e)),
    }
}

/// The console after the byte at the program counter was read, and the
/// byte. The program counter moves on where the read succeeds.
pub open spec fn spec_pc_fetch_byte(v: ConsoleView) -> (ConsoleView, Result<u8, NesError>) {
    let (read, res) = buscpu::spec_read(v, v.cpu.pc);
    match res {
        Ok(byte) => (with_cpu(read, Cpu { pc: addr_plus(read.cpu.pc, 1), ..read.cpu }), Ok(byte)),
        Err(e) => (read, Err(e)),
    }
}

/// The console after the word at the program counter was read, and the
/// word. The program counter moves on by two where both reads succeed.
pub open spec fn spec_pc_fetch_word(v: ConsoleView) -> (ConsoleView, Result<u16, NesError>) {
    let (read, res) = spec_fetch_word(v, v.cpu.pc);
    match res {
        Ok(word) => (with_cpu(read, Cpu { pc: addr_plus(read.cpu.pc, 2), ..read.cpu }), Ok(word)),
        Err(e) => (read, Err(e)),
    }
}

/// The console after the operand was fetched: where the operand is a
/// memory cell, the cell at the effective address is read into `data`.
pub open spec fn spec_fetch_data(v: ConsoleView) -> (ConsoleView, Result<(), NesError>) {
    if v.cpu.is_imp {
        (v, Ok(()))
    } else {
        let (read, res) = buscpu::spec_read(v, v.cpu.addr);
        match res {
            Ok(byte) => (with_cpu(read, Cpu { data: byte, ..read.cpu }), Ok(())),
            Err(e) => (read, Err(e)),
        }
    }
}

/// Reads a cell of RAM. This is what a read on the bus gives up to 0x1FFF.
pub fn read_ram(c: &Console, addr: u16) -> (byte: u8)
    requires
        addr <= 0x1fff,
    ensures
        byte == c@.bus_cpu.ram[ram_index(addr)],
        buscpu::spec_read(c@, addr) == (c@, Ok::<u8, NesError>(byte)),
{
    proof {
        reveal(buscpu::spec_read);
    }
    c.bus_cpu.ram[(addr % 0x0800) as usize]
}

/// Pushes a byte on the stack.
pub fn push(c: &mut Console, data: u8)
    ensures
        final(c)@ == spec_push(old(c)@, data),
        final(c).cpu == (Cpu { sp: final(c).cpu.sp, ..old(c).cpu }),
{
    let addr: u16 = 0x0100 + c.cpu.sp as u16;
    let _ = buscpu::write(c, addr, data);
    c.cpu.sp = c.cpu.sp.wrapping_sub(1);
}

/// Pulls a byte off the stack.
pub fn pull(c: &mut Console) -> (byte: u8)
    ensures
        final(c)@ == spec_pull_state(old(c)@),
        byte == spec_pull_value(old(c)@),
        final(c).cpu == (Cpu { sp: final(c).cpu.sp, ..old(c).cpu }),
{
    c.cpu.sp = c.cpu.sp.wrapping_add(1);
    read_ram(c, 0x0100 + c.cpu.sp as u16)
}

/// Reads the word at `addr`, low byte first.
pub fn fetch_word(c: &mut Console, addr: u16) -> (res: Result<u16, NesError>)
    ensures
        (final(c)@, res) == spec_fetch_word(old(c)@, addr),
        final(c).cpu == old(c).cpu,
        final(c)@.apu == old(c)@.apu,
{
    let lo: u8 = buscpu::read(c, addr)?;
    let hi: u8 = buscpu::read(c, addr.wrapping_add(1))?;
    Ok((hi as u16) * 256 + lo as u16)
}

/// Reads the byte at the program counter and moves the counter on.
pub fn pc_fetch_byte(c: &mut Console) -> (res: Result<u8, NesError>)
    ensures
        (final(c)@, res) == spec_pc_fetch_byte(old(c)@),
        final(c).cpu == (Cpu { pc: final(c).cpu.pc, ..old(c).cpu }),
{
    let data: u8 = buscpu::read(c, c.cpu.pc)?;
    c.cpu.pc = c.cpu.pc.wrapping_add(1);
    Ok(data)
}

/// Reads the word at the program counter and moves the counter on.
pub fn pc_fetch_word(c: &mut Console) -> (res: Result<u16, NesError>)
    ensures
        (final(c)@, res) == spec_pc_fetch_word(old(c)@),
        final(c).cpu == (Cpu { pc: final(c).cpu.pc, ..old(c).cpu }),
{
    let data: u16 = fetch_word(c, c.cpu.pc)?;
    c.cpu.pc = c.cpu.pc.wrapping_add(2);
    Ok(data)
}

/// Fetches the operand of the instruction in progress.
pub fn fetch_data(c: &mut Console) -> (res: Result<(), NesError>)
    ensures
        (final(c)@, res) == spec_fetch_data(old(c)@),
        final(c).cpu == (Cpu { data: final(c).cpu.data, ..old(c).cpu }),
{
    if !c.cpu.is_imp {
        let byte: u8 = buscpu::read(c, c.cpu.addr)?;
        c.cpu.data = byte;
    }
    Ok(())
}

/// Address of the word that a reset continues at.
pub const RESET_VECTOR: u16 = 0xfffc;

/// Address of the word that a non-maskable interrupt continues at.
pub const NMI_VECTOR: u16 = 0xfffa;

/// Address of the word that an interrupt request or BRK continues at.
pub const IRQ_VECTOR: u16 = 0xfffe;

/// The console after a reset of the processor: A, X and Y are 0, SP is
/// 0xFD, the status byte is 0x24 (I and U set); then the program counter
/// is read from 0xFFFC and eight cycles are set to wait.
pub open spec fn spec_reset(v: ConsoleView) -> (ConsoleView, Result<(), NesError>) {
    let cleared = with_cpu(v, Cpu { ac: 0, x: 0, y: 0, sp: 0xfd, status: 0x24, ..v.cpu });
    let (read, res) = spec_fetch_word(cleared, RESET_VECTOR);
    match res {
        Ok(vector) => (with_cpu(read, Cpu { pc: vector, cycles: 8, ..read.cpu }), Ok(())),
        Err(e) => (read, Err(e)),
    }
}

/// Cycles that an interrupt adds to those that are left to wait.
pub const INTERRUPT_CYCLES: u8 = 8;

/// The cycles that are left to wait after an interrupt added its own; the
/// count stops at 255.
pub open spec fn cycles_after_interrupt(cycles: u8) -> u8 {
    if cycles + INTERRUPT_CYCLES > 255 {
        255
    } else {
        (cycles + INTERRUPT_CYCLES) as u8
    }
}

/// The console after an interrupt was taken: the program counter, high
/// byte first, and the status byte are pushed, B is cleared and I set; then
/// the program counter is read from `vector` and eight cycles are added to
/// those that are left to wait.
pub open spec fn spec_interrupt(v: ConsoleView, vector: u16) -> (ConsoleView, Result<
    (),
    NesError,
>) {
    let pushed_hi = spec_push(v, hi_byte(v.cpu.pc));
    let pushed_lo = spec_push(pushed_hi, lo_byte(v.cpu.pc));
    let pushed_status = spec_push(pushed_lo, v.cpu.status);
    let flagged = with_cpu(
        pushed_status,
        pushed_status.cpu.spec_set_flag(CpuFlag::B, false).spec_set_flag(CpuFlag::I, true),
    );
    let (read, res) = spec_fetch_word(flagged, vector);
    match res {
        Ok(target) => (
            with_cpu(
                read,
                Cpu { pc: target, cycles: cycles_after_interrupt(read.cpu.cycles), ..read.cpu },
            ),
            Ok(()),
        ),
        Err(e) => (read, Err(e)),
    }
}

/// The console after a non-maskable interrupt.
pub open spec fn spec_nmi(v: ConsoleView) -> (ConsoleView, Result<(), NesError>) {
    spec_interrupt(v, NMI_VECTOR)
}

/// The console after an interrupt request: nothing happens while I is set.
pub open spec fn spec_irq(v: ConsoleView) -> (ConsoleView, Result<(), NesError>) {
    if v.cpu.spec_get_flag(CpuFlag::I) {
        (v, Ok(()))
    } else {
        spec_interrupt(v, IRQ_VECTOR)
    }
}

/// The console after one cycle of the processor. While cycles are left
/// to wait, one is taken off. Else the opcode at the program counter is
/// read and decoded, its base cycles are set to wait, its operand is
/// located and the instruction is carried out, all on this cycle.
pub open spec fn spec_clock(v: ConsoleView) -> (ConsoleView, Result<(), NesError>) {
    if v.cpu.cycles > 0 {
        (with_cpu(v, Cpu { cycles: (v.cpu.cycles - 1) as u8, ..v.cpu }), Ok(()))
    } else {
        let (read, res) = buscpu::spec_read(v, v.cpu.pc);
        match res {
            Ok(opcode) => {
                let instruction = instruction_of(opcode);
                let mode = addr_mode_of(opcode);
                let started = with_cpu(
                    read,
                    Cpu {
                        pc: addr_plus(read.cpu.pc, 1),
                        cycles: base_cycles(instruction, mode),
                        addr_mode: mode,
                        ..read.cpu
                    },
                );
                let (located, found) = spec_addressing(started, mode);
                if found is Err {
                    (located, found)
                } else {
                    spec_execute(located, instruction)
                }
            },
            Err(e) => (read, Err(e)),
        }
    }
}

/// The console after `n` bytes from `start` on were read on the bus, and
/// the bytes. A read that fails ends the reading.
pub open spec fn spec_read_bytes(v: ConsoleView, start: u16, n: nat) -> (ConsoleView, Result<
    Seq<u8>,
    NesError,
>)
    decreases n,
{
    if n == 0 {
        (v, Ok(Seq::empty()))
    } else {
        let (before, earlier) = spec_read_bytes(v, start, (n - 1) as nat);
        match earlier {
            Ok(bytes) => {
                let (read, res) = buscpu::spec_read(before, addr_plus(start, n - 1));
                match res {
                    Ok(byte) => (read, Ok(bytes.push(byte))),
                    Err(e) => (read, Err(e)),
                }
            },
            Err(e) => (before, Err(e)),
        }
    }
}

/// What a trace line shows of the time before the instruction ran: where
/// the instruction lies, its opcode and what that stands for, and the
/// registers.
#[derive(Clone, Copy, Debug)]
pub struct Snapshot {
    pub pc: u16,
    pub opcode: u8,
    pub decoded: DecodedOpcode,
    pub ac: u8,
    pub x: u8,
    pub y: u8,
    pub status: u8,
    pub sp: u8,
}

/// Whether `snapshot` is what a trace line shows of the processor `cpu`
/// with the snapshot's opcode at its program counter.
pub open spec fn snapshot_of(snapshot: Snapshot, cpu: Cpu) -> bool {
    &&& snapshot.pc == cpu.pc
    &&& decodes(snapshot.opcode, snapshot.decoded)
    &&& snapshot.ac == cpu.ac
    &&& snapshot.x == cpu.x
    &&& snapshot.y == cpu.y
    &&& snapshot.status == cpu.status
    &&& snapshot.sp == cpu.sp
}

/// The console after the bytes of the instruction of `snapshot` were read
/// for the trace, and the trace line.
pub open spec fn spec_trace(v: ConsoleView, snapshot: Snapshot) -> (ConsoleView, Result<
    Seq<char>,
    NesError,
>) {
    let (read, bytes) = spec_read_bytes(v, snapshot.pc, snapshot.decoded.bytes as nat);
    match bytes {
        Ok(bytes) => (
            read,
            Ok(
                spec_trace_line(
                    snapshot.pc,
                    bytes,
                    snapshot.decoded.instruction_str@,
                    snapshot.ac,
                    snapshot.x,
                    snapshot.y,
                    snapshot.status,
                    snapshot.sp,
                ),
            ),
        ),
        Err(e) => (read, Err(e)),
    }
}

/// The console after one step of the processor, and the trace line of the
/// instruction at the program counter. The step is one cycle and then the
/// cycles that are left to wait; so a step that finds cycles to wait only
/// waits them out, and else runs the instruction. The line shows the
/// registers as they were before the step and the instruction's bytes as
/// they read after it.
pub open spec fn spec_step(v: ConsoleView) -> (ConsoleView, Result<Seq<char>, NesError>) {
    let (peeked, res) = buscpu::spec_read(v, v.cpu.pc);
    match res {
        Ok(opcode) => {
            let instruction = instruction_of(opcode);
            let len = instruction_len(instruction, addr_mode_of(opcode));
            let (clocked, ran) = spec_clock(peeked);
            match ran {
                Ok(_) => {
                    let waited = with_cpu(clocked, Cpu { cycles: 0, ..clocked.cpu });
                    let (read, bytes) = spec_read_bytes(waited, v.cpu.pc, len as nat);
                    match bytes {
                        Ok(bytes) => (
                            read,
                            Ok(
                                spec_trace_line(
                                    v.cpu.pc,
                                    bytes,
                                    instruction.spec_mnemonic(),
                                    v.cpu.ac,
                                    v.cpu.x,
                                    v.cpu.y,
                                    v.cpu.status,
                                    v.cpu.sp,
                                ),
                            ),
                        ),
                        Err(e) => (read, Err(e)),
                    }
                },
                Err(e) => (clocked, Err(e)),
            }
        },
        Err(e) => (peeked, Err(e)),
    }
}

/// Once a read has failed no further byte is read.
pub proof fn lemma_read_bytes_stops(v: ConsoleView, start: u16, k: nat, n: nat)
    requires
        k <= n,
        spec_read_bytes(v, start, k).1 is Err,
    ensures
        spec_read_bytes(v, start, n) == spec_read_bytes(v, start, k),
    decreases n,
{
    if k < n {
        lemma_read_bytes_stops(v, start, k, (n - 1) as nat);
    }
}

/// Resets the processor.
pub fn reset(c: &mut Console) -> (res: Result<(), NesError>)
    ensures
        (final(c)@, res) == spec_reset(old(c)@),
        res is Ok ==> final(c).cpu.ac == 0 && final(c).cpu.x == 0 && final(c).cpu.y == 0
            && final(c).cpu.sp == 0xfd && final(c).cpu.status == 0x24 && final(c).cpu.cycles == 8,
        break_clear(final(c).cpu.status),
        unused_set(final(c).cpu.status),
{
    c.cpu.ac = 0;
    c.cpu.x = 0;
    c.cpu.y = 0;
    c.cpu.sp = 0xfd;
    c.cpu.status = 0x24;
    assert(0x24u8 & 0x10 == 0 && 0x24u8 & 0x20 != 0) by (bit_vector);
    let vector: u16 = fetch_word(c, RESET_VECTOR)?;
    c.cpu.pc = vector;
    c.cpu.cycles = 8;
    Ok(())
}

/// Takes an interrupt through `vector`.
fn interrupt(c: &mut Console, vector: u16) -> (res: Result<(), NesError>)
    ensures
        (final(c)@, res) == spec_interrupt(old(c)@, vector),
        break_clear(final(c).cpu.status),
        final(c)@.apu == old(c)@.apu,
{
    push(c, (c.cpu.pc / 256) as u8);
    push(c, (c.cpu.pc % 256) as u8);
    push(c, c.cpu.status);
    c.cpu.set_flag(CpuFlag::B, false);
    c.cpu.set_flag(CpuFlag::I, true);
    let target: u16 = fetch_word(c, vector)?;
    c.cpu.pc = target;
    c.cpu.cycles = if c.cpu.cycles > 255 - INTERRUPT_CYCLES {
        255
    } else {
        c.cpu.cycles + INTERRUPT_CYCLES
    };
    Ok(())
}

/// Raises an interrupt request; it is ignored while I is set.
pub fn irq(c: &mut Console) -> (res: Result<(), NesError>)
    ensures
        (final(c)@, res) == spec_irq(old(c)@),
        keeps_break_clear(old(c).cpu, final(c).cpu),
{
    if c.cpu.get_flag(CpuFlag::I) {
        return Ok(());
    }
    interrupt(c, IRQ_VECTOR)
}

/// Raises the non-maskable interrupt.
pub fn nmi(c: &mut Console) -> (res: Result<(), NesError>)
    ensures
        (final(c)@, res) == spec_nmi(old(c)@),
        keeps_break_clear(old(c).cpu, final(c).cpu),
        final(c)@.apu == old(c)@.apu,
{
    interrupt(c, NMI_VECTOR)
}

/// Advances the processor by one cycle. The B flag, clear before, is
/// clear after: it is set only in copies of the status byte on the stack.
pub fn clock(c: &mut Console) -> (res: Result<(), NesError>)
    ensures
        (final(c)@, res) == spec_clock(old(c)@),
        keeps_break_clear(old(c).cpu, final(c).cpu),
        old(c).cpu.cycles > 0 ==> res == Ok::<(), NesError>(()) && final(c)@ == with_cpu(
            old(c)@,
            Cpu { cycles: (old(c).cpu.cycles - 1) as u8, ..old(c).cpu },
        ),
{
    if c.cpu.cycles > 0 {
        c.cpu.cycles = c.cpu.cycles - 1;
        return Ok(());
    }
    let opcode: u8 = buscpu::read(c, c.cpu.pc)?;
    c.cpu.pc = c.cpu.pc.wrapping_add(1);
    let decoded = decode(opcode);
    c.cpu.cycles = decoded.cycles;
    c.cpu.addr_mode = decoded.addr_mode;
    addressing(c, decoded.addr_mode)?;
    execute(c, decoded.instruction)
}

/// Reads the bytes of an instruction for the trace.
fn read_bytes(c: &mut Console, start: u16, n: u8) -> (res: Result<Vec<u8>, NesError>)
    requires
        n <= 3,
    ensures
        match res {
            Ok(bytes) => spec_read_bytes(old(c)@, start, n as nat) == (
                final(c)@,
                Ok::<Seq<u8>, NesError>(bytes@),
            ) && bytes@.len() == n,
            Err(e) => spec_read_bytes(old(c)@, start, n as nat) == (
                final(c)@,
                Err::<Seq<u8>, NesError>(e),
            ),
        },
        final(c).cpu == old(c).cpu,
{
    let mut bytes: Vec<u8> = Vec::new();
    let mut i: u8 = 0;
    while i < n
        invariant
            i <= n <= 3,
            bytes@.len() == i,
            c.cpu == old(c).cpu,
            spec_read_bytes(old(c)@, start, i as nat) == (c@, Ok::<Seq<u8>, NesError>(bytes@)),
        decreases n - i,
    {
        let ghost before = c@;
        let ghost sofar = bytes@;
        match buscpu::read(c, start.wrapping_add(i as u16)) {
            Ok(byte) => {
                bytes.push(byte);
            },
            Err(e) => {
                proof {
                    lemma_read_bytes_stops(old(c)@, start, (i + 1) as nat, n as nat);
                }
                return Err(e);
            },
        }
        i = i + 1;
    }
    Ok(bytes)
}

/// Reads the opcode at the program counter and notes what a trace line
/// shows of the time before the instruction runs.
pub fn snapshot(c: &mut Console) -> (res: Result<Snapshot, NesError>)
    ensures
        final(c).cpu == old(c).cpu,
        match res {
            Ok(shot) => buscpu::spec_read(old(c)@, old(c).cpu.pc) == (
                final(c)@,
                Ok::<u8, NesError>(shot.opcode),
            ) && snapshot_of(shot, old(c).cpu),
            Err(e) => buscpu::spec_read(old(c)@, old(c).cpu.pc) == (
                final(c)@,
                Err::<u8, NesError>(e),
            ),
        },
{
    let pc: u16 = c.cpu.pc;
    let opcode: u8 = buscpu::read(c, pc)?;
    let shot = Snapshot {
        pc,
        opcode,
        decoded: decode(opcode),
        ac: c.cpu.ac,
        x: c.cpu.x,
        y: c.cpu.y,
        status: c.cpu.status,
        sp: c.cpu.sp,
    };
    Ok(shot)
}

/// Reads the bytes of the instruction of `snapshot` and writes its trace
/// line.
pub fn trace(c: &mut Console, snapshot: &Snapshot) -> (res: Result<String, NesError>)
    requires
        snapshot.decoded.bytes <= 3,
    ensures
        match res {
            Ok(text) => spec_trace(old(c)@, *snapshot) == (
                final(c)@,
                Ok::<Seq<char>, NesError>(text@),
            ),
            Err(e) => spec_trace(old(c)@, *snapshot) == (final(c)@, Err::<Seq<char>, NesError>(e)),
        },
        final(c).cpu == old(c).cpu,
{
    let bytes = read_bytes(c, snapshot.pc, snapshot.decoded.bytes)?;
    Ok(
        trace_line(
            snapshot.pc,
            &bytes,
            snapshot.decoded.instruction_str,
            snapshot.ac,
            snapshot.x,
            snapshot.y,
            snapshot.status,
            snapshot.sp,
        ),
    )
}

/// Runs the processor for one step and writes the trace line of the
/// instruction at the program counter.
pub fn step(c: &mut Console) -> (res: Result<String, NesError>)
    ensures
        match res {
            Ok(text) => spec_step(old(c)@) == (final(c)@, Ok::<Seq<char>, NesError>(text@)),
            Err(e) => spec_step(old(c)@) == (final(c)@, Err::<Seq<char>, NesError>(e)),
        },
{
    let shot = snapshot(c)?;
    clock(c)?;
    let ghost clocked = c@;
    while c.cpu.cycles > 0
        invariant
            c@ == with_cpu(clocked, Cpu { cycles: c.cpu.cycles, ..clocked.cpu }),
        decreases c.cpu.cycles,
    {
        let _ = clock(c);
    }
    proof {
        lemma_decoded_bounds(shot.decoded.instruction, shot.decoded.addr_mode);
    }
    trace(c, &shot)
}

} // verus!
