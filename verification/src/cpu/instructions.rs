use vstd::prelude::*;
use crate::buscpu;
use crate::console::{Console, ConsoleView};
use crate::cpu::alu::{asl_of, keeps_break_clear, lsr_of, rol_of, ror_of};
use crate::cpu::{
    addr_plus, fetch_data, fetch_word, hi_byte, lo_byte, pull, push, spec_fetch_data,
    spec_fetch_word, spec_pull_state, spec_pull_value, spec_push, with_cpu, word_of, AddrMode, Cpu,
    CpuFlag,
};
use crate::error::NesError;

verus! {

/// The console after the result of a shift or rotation was stored: in the
/// accumulator where the addressing mode is the implied one, else in the
/// cell at the effective address.
pub open spec fn spec_store_result(v: ConsoleView, value: u8) -> (ConsoleView, Result<
    (),
    NesError,
>) {
    if v.cpu.addr_mode == AddrMode::Imp {
        (with_cpu(v, Cpu { ac: value, ..v.cpu }), Ok(()))
    } else {
        buscpu::spec_write(v, v.cpu.addr, value)
    }
}

/// Stores the result of a shift or rotation.
pub fn store_result(c: &mut Console, value: u8) -> (res: Result<(), NesError>)
    ensures
        (final(c)@, res) == spec_store_result(old(c)@, value),
        final(c).cpu == (Cpu { ac: final(c).cpu.ac, cycles: final(c).cpu.cycles, ..old(c).cpu }),
        old(c).cpu.addr_mode != AddrMode::Imp ==> final(c).cpu.ac == old(c).cpu.ac,
{
    if c.cpu.addr_mode == AddrMode::Imp {
        c.cpu.ac = value;
        Ok(())
    } else {
        buscpu::write(c, c.cpu.addr, value)
    }
}

/// The console after `adc`.
pub open spec fn spec_adc(v: ConsoleView) -> (ConsoleView, Result<(), NesError>) {
    let (fetched, res) = spec_fetch_data(v);
    if res is Err {
        (fetched, res)
    } else {
        (with_cpu(fetched, fetched.cpu.spec_adc()), Ok(()))
    }
}

/// ADC: add with carry.
pub fn adc(c: &mut Console) -> (res: Result<(), NesError>)
    requires
        old(c).cpu.cycles < 255,
    ensures
        (final(c)@, res) == spec_adc(old(c)@),
        keeps_break_clear(old(c).cpu, final(c).cpu),
{
    fetch_data(c)?;
    c.cpu.adc();
    Ok(())
}

/// The console after `and`.
pub open spec fn spec_and(v: ConsoleView) -> (ConsoleView, Result<(), NesError>) {
    let (fetched, res) = spec_fetch_data(v);
    if res is Err {
        (fetched, res)
    } else {
        (with_cpu(fetched, fetched.cpu.spec_and()), Ok(()))
    }
}

/// AND: bitwise and with the accumulator.
pub fn and(c: &mut Console) -> (res: Result<(), NesError>)
    ensures
        (final(c)@, res) == spec_and(old(c)@),
        keeps_break_clear(old(c).cpu, final(c).cpu),
{
    fetch_data(c)?;
    c.cpu.and();
    Ok(())
}

/// The console after `asl`.
pub open spec fn spec_asl(v: ConsoleView) -> (ConsoleView, Result<(), NesError>) {
    let (fetched, res) = spec_fetch_data(v);
    if res is Err {
        (fetched, res)
    } else {
        let (result, carry) = asl_of(fetched.cpu.data);
        spec_store_result(with_cpu(fetched, fetched.cpu.spec_set_czn(carry, result)), result)
    }
}

/// ASL: arithmetic shift left, of the accumulator or of a memory cell.
pub fn asl(c: &mut Console) -> (res: Result<(), NesError>)
    ensures
        (final(c)@, res) == spec_asl(old(c)@),
        keeps_break_clear(old(c).cpu, final(c).cpu),
{
    fetch_data(c)?;
    let data: u8 = c.cpu.data;
    let result: u8 = ((data as u16 * 2) % 256) as u8;
    let carry = data >= 0x80;
    c.cpu.set_czn(carry, result);
    store_result(c, result)
}

/// The console after `bcc`.
pub open spec fn spec_bcc(v: ConsoleView) -> (ConsoleView, Result<(), NesError>) {
    (with_cpu(v, v.cpu.spec_bcc()), Ok(()))
}

/// BCC: branch on carry clear.
pub fn bcc(c: &mut Console) -> (res: Result<(), NesError>)
    requires
        old(c).cpu.cycles < 255,
    ensures
        (final(c)@, res) == spec_bcc(old(c)@),
        keeps_break_clear(old(c).cpu, final(c).cpu),
{
    c.cpu.bcc();
    Ok(())
}

/// The console after `bcs`.
pub open spec fn spec_bcs(v: ConsoleView) -> (ConsoleView, Result<(), NesError>) {
    (with_cpu(v, v.cpu.spec_bcs()), Ok(()))
}

/// BCS: branch on carry set.
pub fn bcs(c: &mut Console) -> (res: Result<(), NesError>)
    requires
        old(c).cpu.cycles < 255,
    ensures
        (final(c)@, res) == spec_bcs(old(c)@),
        keeps_break_clear(old(c).cpu, final(c).cpu),
{
    c.cpu.bcs();
    Ok(())
}

/// The console after `beq`.
pub open spec fn spec_beq(v: ConsoleView) -> (ConsoleView, Result<(), NesError>) {
    (with_cpu(v, v.cpu.spec_beq()), Ok(()))
}

/// BEQ: branch on equal.
pub fn beq(c: &mut Console) -> (res: Result<(), NesError>)
    requires
        old(c).cpu.cycles < 255,
    ensures
        (final(c)@, res) == spec_beq(old(c)@),
        keeps_break_clear(old(c).cpu, final(c).cpu),
{
    c.cpu.beq();
    Ok(())
}

/// The console after `bit`.
pub open spec fn spec_bit(v: ConsoleView) -> (ConsoleView, Result<(), NesError>) {
    let (fetched, res) = spec_fetch_data(v);
    if res is Err {
        (fetched, res)
    } else {
        (with_cpu(fetched, fetched.cpu.spec_bit()), Ok(()))
    }
}

/// BIT: test bits of a memory cell against the accumulator.
pub fn bit(c: &mut Console) -> (res: Result<(), NesError>)
    ensures
        (final(c)@, res) == spec_bit(old(c)@),
        keeps_break_clear(old(c).cpu, final(c).cpu),
{
    fetch_data(c)?;
    c.cpu.bit();
    Ok(())
}

/// The console after `bmi`.
pub open spec fn spec_bmi(v: ConsoleView) -> (ConsoleView, Result<(), NesError>) {
    (with_cpu(v, v.cpu.spec_bmi()), Ok(()))
}

/// BMI: branch on minus.
pub fn bmi(c: &mut Console) -> (res: Result<(), NesError>)
    requires
        old(c).cpu.cycles < 255,
    ensures
        (final(c)@, res) == spec_bmi(old(c)@),
        keeps_break_clear(old(c).cpu, final(c).cpu),
{
    c.cpu.bmi();
    Ok(())
}

/// The console after `bne`.
pub open spec fn spec_bne(v: ConsoleView) -> (ConsoleView, Result<(), NesError>) {
    (with_cpu(v, v.cpu.spec_bne()), Ok(()))
}

/// BNE: branch on not equal.
pub fn bne(c: &mut Console) -> (res: Result<(), NesError>)
    requires
        old(c).cpu.cycles < 255,
    ensures
        (final(c)@, res) == spec_bne(old(c)@),
        keeps_break_clear(old(c).cpu, final(c).cpu),
{
    c.cpu.bne();
    Ok(())
}

/// The console after `bpl`.
pub open spec fn spec_bpl(v: ConsoleView) -> (ConsoleView, Result<(), NesError>) {
    (with_cpu(v, v.cpu.spec_bpl()), Ok(()))
}

/// BPL: branch on plus.
pub fn bpl(c: &mut Console) -> (res: Result<(), NesError>)
    requires
        old(c).cpu.cycles < 255,
    ensures
        (final(c)@, res) == spec_bpl(old(c)@),
        keeps_break_clear(old(c).cpu, final(c).cpu),
{
    c.cpu.bpl();
    Ok(())
}

/// The console after `brk`.
pub open spec fn spec_brk(v: ConsoleView) -> (ConsoleView, Result<(), NesError>) {
    let skipped = with_cpu(v, Cpu { pc: addr_plus(v.cpu.pc, 1), ..v.cpu });
    let pushed_hi = spec_push(skipped, hi_byte(skipped.cpu.pc));
    let pushed_lo = spec_push(pushed_hi, lo_byte(skipped.cpu.pc));
    let pushed_status = spec_push(pushed_lo, pushed_lo.cpu.status | 0x10);
    let masked = with_cpu(pushed_status, pushed_status.cpu.spec_set_flag(CpuFlag::I, true));
    let (read, res) = spec_fetch_word(masked, 0xfffe);
    match res {
        Ok(vector) => (with_cpu(read, Cpu { pc: vector, ..read.cpu }), Ok(())),
        Err(e) => (read, Err(e)),
    }
}

/// BRK: software interrupt. Skips the byte after the opcode, pushes the
/// program counter and the status byte with B set, sets I, and continues at
/// the address stored at 0xFFFE.
pub fn brk(c: &mut Console) -> (res: Result<(), NesError>)
    ensures
        (final(c)@, res) == spec_brk(old(c)@),
        keeps_break_clear(old(c).cpu, final(c).cpu),
{
    c.cpu.pc = c.cpu.pc.wrapping_add(1);
    push(c, (c.cpu.pc / 256) as u8);
    push(c, (c.cpu.pc % 256) as u8);
    push(c, c.cpu.status | 0x10);
    c.cpu.set_flag(CpuFlag::I, true);
    let vector: u16 = fetch_word(c, 0xfffe)?;
    c.cpu.pc = vector;
    Ok(())
}

/// The console after `bvc`.
pub open spec fn spec_bvc(v: ConsoleView) -> (ConsoleView, Result<(), NesError>) {
    (with_cpu(v, v.cpu.spec_bvc()), Ok(()))
}

/// BVC: branch on overflow clear.
pub fn bvc(c: &mut Console) -> (res: Result<(), NesError>)
    requires
        old(c).cpu.cycles < 255,
    ensures
        (final(c)@, res) == spec_bvc(old(c)@),
        keeps_break_clear(old(c).cpu, final(c).cpu),
{
    c.cpu.bvc();
    Ok(())
}

/// The console after `bvs`.
pub open spec fn spec_bvs(v: ConsoleView) -> (ConsoleView, Result<(), NesError>) {
    (with_cpu(v, v.cpu.spec_bvs()), Ok(()))
}

/// BVS: branch on overflow set.
pub fn bvs(c: &mut Console) -> (res: Result<(), NesError>)
    requires
        old(c).cpu.cycles < 255,
    ensures
        (final(c)@, res) == spec_bvs(old(c)@),
        keeps_break_clear(old(c).cpu, final(c).cpu),
{
    c.cpu.bvs();
    Ok(())
}

/// The console after `clc`.
pub open spec fn spec_clc(v: ConsoleView) -> (ConsoleView, Result<(), NesError>) {
    (with_cpu(v, v.cpu.spec_clc()), Ok(()))
}

/// CLC: clear carry.
pub fn clc(c: &mut Console) -> (res: Result<(), NesError>)
    ensures
        (final(c)@, res) == spec_clc(old(c)@),
        keeps_break_clear(old(c).cpu, final(c).cpu),
{
    c.cpu.clc();
    Ok(())
}

/// The console after `cld`.
pub open spec fn spec_cld(v: ConsoleView) -> (ConsoleView, Result<(), NesError>) {
    (with_cpu(v, v.cpu.spec_cld()), Ok(()))
}

/// CLD: clear decimal mode.
pub fn cld(c: &mut Console) -> (res: Result<(), NesError>)
    ensures
        (final(c)@, res) == spec_cld(old(c)@),
        keeps_break_clear(old(c).cpu, final(c).cpu),
{
    c.cpu.cld();
    Ok(())
}

/// The console after `cli`.
pub open spec fn spec_cli(v: ConsoleView) -> (ConsoleView, Result<(), NesError>) {
    (with_cpu(v, v.cpu.spec_cli()), Ok(()))
}

/// CLI: clear interrupt disable.
pub fn cli(c: &mut Console) -> (res: Result<(), NesError>)
    ensures
        (final(c)@, res) == spec_cli(old(c)@),
        keeps_break_clear(old(c).cpu, final(c).cpu),
{
    c.cpu.cli();
    Ok(())
}

/// The console after `clv`.
pub open spec fn spec_clv(v: ConsoleView) -> (ConsoleView, Result<(), NesError>) {
    (with_cpu(v, v.cpu.spec_clv()), Ok(()))
}

/// CLV: clear overflow.
pub fn clv(c: &mut Console) -> (res: Result<(), NesError>)
    ensures
        (final(c)@, res) == spec_clv(old(c)@),
        keeps_break_clear(old(c).cpu, final(c).cpu),
{
    c.cpu.clv();
    Ok(())
}

/// The console after `cmp`.
pub open spec fn spec_cmp(v: ConsoleView) -> (ConsoleView, Result<(), NesError>) {
    let (fetched, res) = spec_fetch_data(v);
    if res is Err {
        (fetched, res)
    } else {
        (with_cpu(fetched, fetched.cpu.spec_compare_a()), Ok(()))
    }
}

/// CMP: compare the accumulator with a memory cell.
pub fn cmp(c: &mut Console) -> (res: Result<(), NesError>)
    requires
        old(c).cpu.cycles < 255,
    ensures
        (final(c)@, res) == spec_cmp(old(c)@),
        keeps_break_clear(old(c).cpu, final(c).cpu),
{
    fetch_data(c)?;
    c.cpu.compare_a();
    Ok(())
}

/// The console after `cpx`.
pub open spec fn spec_cpx(v: ConsoleView) -> (ConsoleView, Result<(), NesError>) {
    let (fetched, res) = spec_fetch_data(v);
    if res is Err {
        (fetched, res)
    } else {
        (with_cpu(fetched, fetched.cpu.spec_cpx()), Ok(()))
    }
}

/// CPX: compare X with a memory cell.
pub fn cpx(c: &mut Console) -> (res: Result<(), NesError>)
    ensures
        (final(c)@, res) == spec_cpx(old(c)@),
        keeps_break_clear(old(c).cpu, final(c).cpu),
{
    fetch_data(c)?;
    c.cpu.cpx();
    Ok(())
}

/// The console after `cpy`.
pub open spec fn spec_cpy(v: ConsoleView) -> (ConsoleView, Result<(), NesError>) {
    let (fetched, res) = spec_fetch_data(v);
    if res is Err {
        (fetched, res)
    } else {
        (with_cpu(fetched, fetched.cpu.spec_cpy()), Ok(()))
    }
}

/// CPY: compare Y with a memory cell.
pub fn cpy(c: &mut Console) -> (res: Result<(), NesError>)
    ensures
        (final(c)@, res) == spec_cpy(old(c)@),
        keeps_break_clear(old(c).cpu, final(c).cpu),
{
    fetch_data(c)?;
    c.cpu.cpy();
    Ok(())
}

/// The console after `dec`.
pub open spec fn spec_dec(v: ConsoleView) -> (ConsoleView, Result<(), NesError>) {
    let (fetched, res) = spec_fetch_data(v);
    if res is Err {
        (fetched, res)
    } else {
        let value = ((fetched.cpu.data + 255) % 256) as u8;
        let (written, stored) = buscpu::spec_write(fetched, fetched.cpu.addr, value);
        if stored is Err {
            (written, stored)
        } else {
            (with_cpu(written, written.cpu.spec_set_zn(value)), Ok(()))
        }
    }
}

/// DEC: take one from a memory cell, wrapping.
pub fn dec(c: &mut Console) -> (res: Result<(), NesError>)
    ensures
        (final(c)@, res) == spec_dec(old(c)@),
        keeps_break_clear(old(c).cpu, final(c).cpu),
{
    fetch_data(c)?;
    let value: u8 = c.cpu.data.wrapping_sub(1);
    buscpu::write(c, c.cpu.addr, value)?;
    c.cpu.set_zn(value);
    Ok(())
}

/// The console after `dex`.
pub open spec fn spec_dex(v: ConsoleView) -> (ConsoleView, Result<(), NesError>) {
    (with_cpu(v, v.cpu.spec_dex()), Ok(()))
}

/// DEX: take one from X.
pub fn dex(c: &mut Console) -> (res: Result<(), NesError>)
    ensures
        (final(c)@, res) == spec_dex(old(c)@),
        keeps_break_clear(old(c).cpu, final(c).cpu),
{
    c.cpu.dex();
    Ok(())
}

/// The console after `dey`.
pub open spec fn spec_dey(v: ConsoleView) -> (ConsoleView, Result<(), NesError>) {
    (with_cpu(v, v.cpu.spec_dey()), Ok(()))
}

/// DEY: take one from Y.
pub fn dey(c: &mut Console) -> (res: Result<(), NesError>)
    ensures
        (final(c)@, res) == spec_dey(old(c)@),
        keeps_break_clear(old(c).cpu, final(c).cpu),
{
    c.cpu.dey();
    Ok(())
}

/// The console after `eor`.
pub open spec fn spec_eor(v: ConsoleView) -> (ConsoleView, Result<(), NesError>) {
    let (fetched, res) = spec_fetch_data(v);
    if res is Err {
        (fetched, res)
    } else {
        (with_cpu(fetched, fetched.cpu.spec_eor()), Ok(()))
    }
}

/// EOR: bitwise exclusive or with the accumulator.
pub fn eor(c: &mut Console) -> (res: Result<(), NesError>)
    ensures
        (final(c)@, res) == spec_eor(old(c)@),
        keeps_break_clear(old(c).cpu, final(c).cpu),
{
    fetch_data(c)?;
    c.cpu.eor();
    Ok(())
}

/// The console after `inc`.
pub open spec fn spec_inc(v: ConsoleView) -> (ConsoleView, Result<(), NesError>) {
    let (fetched, res) = spec_fetch_data(v);
    if res is Err {
        (fetched, res)
    } else {
        let value = ((fetched.cpu.data + 1) % 256) as u8;
        let (written, stored) = buscpu::spec_write(fetched, fetched.cpu.addr, value);
        if stored is Err {
            (written, stored)
        } else {
            (with_cpu(written, written.cpu.spec_set_zn(value)), Ok(()))
        }
    }
}

/// INC: add one to a memory cell, wrapping.
pub fn inc(c: &mut Console) -> (res: Result<(), NesError>)
    ensures
        (final(c)@, res) == spec_inc(old(c)@),
        keeps_break_clear(old(c).cpu, final(c).cpu),
{
    fetch_data(c)?;
    let value: u8 = c.cpu.data.wrapping_add(1);
    buscpu::write(c, c.cpu.addr, value)?;
    c.cpu.set_zn(value);
    Ok(())
}

/// The console after `inx`.
pub open spec fn spec_inx(v: ConsoleView) -> (ConsoleView, Result<(), NesError>) {
    (with_cpu(v, v.cpu.spec_inx()), Ok(()))
}

/// INX: add one to X.
pub fn inx(c: &mut Console) -> (res: Result<(), NesError>)
    ensures
        (final(c)@, res) == spec_inx(old(c)@),
        keeps_break_clear(old(c).cpu, final(c).cpu),
{
    c.cpu.inx();
    Ok(())
}

/// The console after `iny`.
pub open spec fn spec_iny(v: ConsoleView) -> (ConsoleView, Result<(), NesError>) {
    (with_cpu(v, v.cpu.spec_iny()), Ok(()))
}

/// INY: add one to Y.
pub fn iny(c: &mut Console) -> (res: Result<(), NesError>)
    ensures
        (final(c)@, res) == spec_iny(old(c)@),
        keeps_break_clear(old(c).cpu, final(c).cpu),
{
    c.cpu.iny();
    Ok(())
}

/// The console after `jmp`.
pub open spec fn spec_jmp(v: ConsoleView) -> (ConsoleView, Result<(), NesError>) {
    (with_cpu(v, v.cpu.spec_jmp()), Ok(()))
}

/// JMP: jump.
pub fn jmp(c: &mut Console) -> (res: Result<(), NesError>)
    ensures
        (final(c)@, res) == spec_jmp(old(c)@),
        keeps_break_clear(old(c).cpu, final(c).cpu),
{
    c.cpu.jmp();
    Ok(())
}

/// The console after `jsr`.
pub open spec fn spec_jsr(v: ConsoleView) -> (ConsoleView, Result<(), NesError>) {
    let back = addr_plus(v.cpu.pc, -1);
    let pushed_hi = spec_push(v, hi_byte(back));
    let pushed_lo = spec_push(pushed_hi, lo_byte(back));
    (with_cpu(pushed_lo, Cpu { pc: pushed_lo.cpu.addr, ..pushed_lo.cpu }), Ok(()))
}

/// JSR: jump to a subroutine. Pushes the address of the last byte of the
/// instruction, high byte first.
pub fn jsr(c: &mut Console) -> (res: Result<(), NesError>)
    ensures
        (final(c)@, res) == spec_jsr(old(c)@),
        keeps_break_clear(old(c).cpu, final(c).cpu),
{
    let back: u16 = c.cpu.pc.wrapping_sub(1);
    push(c, (back / 256) as u8);
    push(c, (back % 256) as u8);
    c.cpu.pc = c.cpu.addr;
    Ok(())
}

/// The console after `lda`.
pub open spec fn spec_lda(v: ConsoleView) -> (ConsoleView, Result<(), NesError>) {
    let (fetched, res) = spec_fetch_data(v);
    if res is Err {
        (fetched, res)
    } else {
        (with_cpu(fetched, fetched.cpu.spec_lda()), Ok(()))
    }
}

/// LDA: load the accumulator.
pub fn lda(c: &mut Console) -> (res: Result<(), NesError>)
    ensures
        (final(c)@, res) == spec_lda(old(c)@),
        keeps_break_clear(old(c).cpu, final(c).cpu),
{
    fetch_data(c)?;
    c.cpu.lda();
    Ok(())
}

/// The console after `ldx`.
pub open spec fn spec_ldx(v: ConsoleView) -> (ConsoleView, Result<(), NesError>) {
    let (fetched, res) = spec_fetch_data(v);
    if res is Err {
        (fetched, res)
    } else {
        (with_cpu(fetched, fetched.cpu.spec_ldx()), Ok(()))
    }
}

/// LDX: load X.
pub fn ldx(c: &mut Console) -> (res: Result<(), NesError>)
    ensures
        (final(c)@, res) == spec_ldx(old(c)@),
        keeps_break_clear(old(c).cpu, final(c).cpu),
{
    fetch_data(c)?;
    c.cpu.ldx();
    Ok(())
}

/// The console after `ldy`.
pub open spec fn spec_ldy(v: ConsoleView) -> (ConsoleView, Result<(), NesError>) {
    let (fetched, res) = spec_fetch_data(v);
    if res is Err {
        (fetched, res)
    } else {
        (with_cpu(fetched, fetched.cpu.spec_ldy()), Ok(()))
    }
}

/// LDY: load Y.
pub fn ldy(c: &mut Console) -> (res: Result<(), NesError>)
    ensures
        (final(c)@, res) == spec_ldy(old(c)@),
        keeps_break_clear(old(c).cpu, final(c).cpu),
{
    fetch_data(c)?;
    c.cpu.ldy();
    Ok(())
}

/// The console after `lsr`.
pub open spec fn spec_lsr(v: ConsoleView) -> (ConsoleView, Result<(), NesError>) {
    let (fetched, res) = spec_fetch_data(v);
    if res is Err {
        (fetched, res)
    } else {
        let (result, carry) = lsr_of(fetched.cpu.data);
        spec_store_result(with_cpu(fetched, fetched.cpu.spec_set_czn(carry, result)), result)
    }
}

/// LSR: logical shift right, of the accumulator or of a memory cell.
pub fn lsr(c: &mut Console) -> (res: Result<(), NesError>)
    ensures
        (final(c)@, res) == spec_lsr(old(c)@),
        keeps_break_clear(old(c).cpu, final(c).cpu),
{
    fetch_data(c)?;
    let data: u8 = c.cpu.data;
    let result: u8 = data / 2;
    let carry = data % 2 == 1;
    c.cpu.set_czn(carry, result);
    store_result(c, result)
}

/// The console after `nop`.
pub open spec fn spec_nop(v: ConsoleView) -> (ConsoleView, Result<(), NesError>) {
    (v, Ok(()))
}

/// NOP: nothing.
pub fn nop(c: &mut Console) -> (res: Result<(), NesError>)
    ensures
        (final(c)@, res) == spec_nop(old(c)@),
        keeps_break_clear(old(c).cpu, final(c).cpu),
{
    Ok(())
}

/// The console after `ora`.
pub open spec fn spec_ora(v: ConsoleView) -> (ConsoleView, Result<(), NesError>) {
    let (fetched, res) = spec_fetch_data(v);
    if res is Err {
        (fetched, res)
    } else {
        (with_cpu(fetched, fetched.cpu.spec_ora()), Ok(()))
    }
}

/// ORA: bitwise or with the accumulator.
pub fn ora(c: &mut Console) -> (res: Result<(), NesError>)
    ensures
        (final(c)@, res) == spec_ora(old(c)@),
        keeps_break_clear(old(c).cpu, final(c).cpu),
{
    fetch_data(c)?;
    c.cpu.ora();
    Ok(())
}

/// The console after `pha`.
pub open spec fn spec_pha(v: ConsoleView) -> (ConsoleView, Result<(), NesError>) {
    (spec_push(v, v.cpu.ac), Ok(()))
}

/// PHA: push the accumulator.
pub fn pha(c: &mut Console) -> (res: Result<(), NesError>)
    ensures
        (final(c)@, res) == spec_pha(old(c)@),
        keeps_break_clear(old(c).cpu, final(c).cpu),
{
    push(c, c.cpu.ac);
    Ok(())
}

/// The console after `php`.
pub open spec fn spec_php(v: ConsoleView) -> (ConsoleView, Result<(), NesError>) {
    let pushed = spec_push(v, v.cpu.status | 0x10);
    (with_cpu(pushed, pushed.cpu.spec_set_flag(CpuFlag::B, false)), Ok(()))
}

/// PHP: push the status byte, with B set in the copy that is pushed.
pub fn php(c: &mut Console) -> (res: Result<(), NesError>)
    ensures
        (final(c)@, res) == spec_php(old(c)@),
        keeps_break_clear(old(c).cpu, final(c).cpu),
{
    push(c, c.cpu.status | 0x10);
    c.cpu.set_flag(CpuFlag::B, false);
    Ok(())
}

/// The console after `pla`.
pub open spec fn spec_pla(v: ConsoleView) -> (ConsoleView, Result<(), NesError>) {
    let value = spec_pull_value(v);
    let pulled = spec_pull_state(v);
    (with_cpu(pulled, Cpu { ac: value, ..pulled.cpu }.spec_set_zn(value)), Ok(()))
}

/// PLA: pull the accumulator.
pub fn pla(c: &mut Console) -> (res: Result<(), NesError>)
    ensures
        (final(c)@, res) == spec_pla(old(c)@),
        keeps_break_clear(old(c).cpu, final(c).cpu),
{
    let value: u8 = pull(c);
    c.cpu.ac = value;
    c.cpu.set_zn(value);
    Ok(())
}

/// The console after `plp`.
pub open spec fn spec_plp(v: ConsoleView) -> (ConsoleView, Result<(), NesError>) {
    let value = spec_pull_value(v);
    let pulled = spec_pull_state(v);
    (
        with_cpu(
            pulled,
            Cpu { status: value, ..pulled.cpu }.spec_set_flag(CpuFlag::B, false).spec_set_flag(
                CpuFlag::U,
                true,
            ),
        ),
        Ok(()),
    )
}

/// PLP: pull the status byte; B is cleared and U set in what arrives.
pub fn plp(c: &mut Console) -> (res: Result<(), NesError>)
    ensures
        (final(c)@, res) == spec_plp(old(c)@),
        keeps_break_clear(old(c).cpu, final(c).cpu),
        res == Ok::<(), NesError>(()),
        crate::cpu::break_clear(final(c).cpu.status),
        crate::cpu::unused_set(final(c).cpu.status),
{
    let value: u8 = pull(c);
    c.cpu.status = value;
    c.cpu.set_flag(CpuFlag::B, false);
    c.cpu.set_flag(CpuFlag::U, true);
    Ok(())
}

/// The console after `rol`.
pub open spec fn spec_rol(v: ConsoleView) -> (ConsoleView, Result<(), NesError>) {
    let (fetched, res) = spec_fetch_data(v);
    if res is Err {
        (fetched, res)
    } else {
        let (result, carry) = rol_of(fetched.cpu.data, fetched.cpu.spec_carry());
        spec_store_result(with_cpu(fetched, fetched.cpu.spec_set_czn(carry, result)), result)
    }
}

/// ROL: rotate left through the carry, the accumulator or a memory cell.
pub fn rol(c: &mut Console) -> (res: Result<(), NesError>)
    ensures
        (final(c)@, res) == spec_rol(old(c)@),
        keeps_break_clear(old(c).cpu, final(c).cpu),
{
    fetch_data(c)?;
    let data: u8 = c.cpu.data;
    let result: u8 = ((data as u16 * 2 + c.cpu.carry() as u16) % 256) as u8;
    let carry = data >= 0x80;
    c.cpu.set_czn(carry, result);
    store_result(c, result)
}

/// The console after `ror`.
pub open spec fn spec_ror(v: ConsoleView) -> (ConsoleView, Result<(), NesError>) {
    let (fetched, res) = spec_fetch_data(v);
    if res is Err {
        (fetched, res)
    } else {
        let (result, carry) = ror_of(fetched.cpu.data, fetched.cpu.spec_carry());
        spec_store_result(with_cpu(fetched, fetched.cpu.spec_set_czn(carry, result)), result)
    }
}

/// ROR: rotate right through the carry, the accumulator or a memory cell.
pub fn ror(c: &mut Console) -> (res: Result<(), NesError>)
    ensures
        (final(c)@, res) == spec_ror(old(c)@),
        keeps_break_clear(old(c).cpu, final(c).cpu),
{
    fetch_data(c)?;
    let data: u8 = c.cpu.data;
    let result: u8 = data / 2 + c.cpu.carry() * 128;
    let carry = data % 2 == 1;
    c.cpu.set_czn(carry, result);
    store_result(c, result)
}

/// The console after `rti`.
pub open spec fn spec_rti(v: ConsoleView) -> (ConsoleView, Result<(), NesError>) {
    let status = spec_pull_value(v);
    let pulled = spec_pull_state(v);
    let flagged = with_cpu(
        pulled,
        Cpu { status, ..pulled.cpu }.spec_set_flag(CpuFlag::U, true).spec_set_flag(
            CpuFlag::B,
            false,
        ),
    );
    let lo = spec_pull_value(flagged);
    let pulled_lo = spec_pull_state(flagged);
    let hi = spec_pull_value(pulled_lo);
    let pulled_hi = spec_pull_state(pulled_lo);
    (with_cpu(pulled_hi, Cpu { pc: word_of(hi, lo), ..pulled_hi.cpu }), Ok(()))
}

/// RTI: return from an interrupt. Pulls the status byte, in which U is set
/// and B cleared, then the program counter, low byte first.
pub fn rti(c: &mut Console) -> (res: Result<(), NesError>)
    ensures
        (final(c)@, res) == spec_rti(old(c)@),
        keeps_break_clear(old(c).cpu, final(c).cpu),
        res == Ok::<(), NesError>(()),
        crate::cpu::break_clear(final(c).cpu.status),
        crate::cpu::unused_set(final(c).cpu.status),
{
    let status: u8 = pull(c);
    c.cpu.status = status;
    c.cpu.set_flag(CpuFlag::U, true);
    c.cpu.set_flag(CpuFlag::B, false);
    let lo: u8 = pull(c);
    let hi: u8 = pull(c);
    c.cpu.pc = (hi as u16) * 256 + lo as u16;
    Ok(())
}

/// The console after `rts`.
pub open spec fn spec_rts(v: ConsoleView) -> (ConsoleView, Result<(), NesError>) {
    let lo = spec_pull_value(v);
    let pulled_lo = spec_pull_state(v);
    let hi = spec_pull_value(pulled_lo);
    let pulled_hi = spec_pull_state(pulled_lo);
    (with_cpu(pulled_hi, Cpu { pc: addr_plus(word_of(hi, lo), 1), ..pulled_hi.cpu }), Ok(()))
}

/// RTS: return from a subroutine. Pulls the program counter, low byte
/// first, and continues one byte further.
pub fn rts(c: &mut Console) -> (res: Result<(), NesError>)
    ensures
        (final(c)@, res) == spec_rts(old(c)@),
        keeps_break_clear(old(c).cpu, final(c).cpu),
{
    let lo: u8 = pull(c);
    let hi: u8 = pull(c);
    c.cpu.pc = ((hi as u16) * 256 + lo as u16).wrapping_add(1);
    Ok(())
}

/// The console after `sbc`.
pub open spec fn spec_sbc(v: ConsoleView) -> (ConsoleView, Result<(), NesError>) {
    let (fetched, res) = spec_fetch_data(v);
    if res is Err {
        (fetched, res)
    } else {
        (with_cpu(fetched, fetched.cpu.spec_sbc()), Ok(()))
    }
}

/// SBC: subtract with borrow.
pub fn sbc(c: &mut Console) -> (res: Result<(), NesError>)
    requires
        old(c).cpu.cycles < 255,
    ensures
        (final(c)@, res) == spec_sbc(old(c)@),
        keeps_break_clear(old(c).cpu, final(c).cpu),
{
    fetch_data(c)?;
    c.cpu.sbc();
    Ok(())
}

/// The console after `sec`.
pub open spec fn spec_sec(v: ConsoleView) -> (ConsoleView, Result<(), NesError>) {
    (with_cpu(v, v.cpu.spec_sec()), Ok(()))
}

/// SEC: set carry.
pub fn sec(c: &mut Console) -> (res: Result<(), NesError>)
    ensures
        (final(c)@, res) == spec_sec(old(c)@),
        keeps_break_clear(old(c).cpu, final(c).cpu),
{
    c.cpu.sec();
    Ok(())
}

/// The console after `sed`.
pub open spec fn spec_sed(v: ConsoleView) -> (ConsoleView, Result<(), NesError>) {
    (with_cpu(v, v.cpu.spec_sed()), Ok(()))
}

/// SED: set decimal mode.
pub fn sed(c: &mut Console) -> (res: Result<(), NesError>)
    ensures
        (final(c)@, res) == spec_sed(old(c)@),
        keeps_break_clear(old(c).cpu, final(c).cpu),
{
    c.cpu.sed();
    Ok(())
}

/// The console after `sei`.
pub open spec fn spec_sei(v: ConsoleView) -> (ConsoleView, Result<(), NesError>) {
    (with_cpu(v, v.cpu.spec_sei()), Ok(()))
}

/// SEI: set interrupt disable.
pub fn sei(c: &mut Console) -> (res: Result<(), NesError>)
    ensures
        (final(c)@, res) == spec_sei(old(c)@),
        keeps_break_clear(old(c).cpu, final(c).cpu),
{
    c.cpu.sei();
    Ok(())
}

/// The console after `sta`.
pub open spec fn spec_sta(v: ConsoleView) -> (ConsoleView, Result<(), NesError>) {
    buscpu::spec_write(v, v.cpu.addr, v.cpu.ac)
}

/// STA: store the accumulator.
pub fn sta(c: &mut Console) -> (res: Result<(), NesError>)
    ensures
        (final(c)@, res) == spec_sta(old(c)@),
        keeps_break_clear(old(c).cpu, final(c).cpu),
{
    let value: u8 = c.cpu.ac;
    buscpu::write(c, c.cpu.addr, value)
}

/// The console after `stx`.
pub open spec fn spec_stx(v: ConsoleView) -> (ConsoleView, Result<(), NesError>) {
    buscpu::spec_write(v, v.cpu.addr, v.cpu.x)
}

/// STX: store X.
pub fn stx(c: &mut Console) -> (res: Result<(), NesError>)
    ensures
        (final(c)@, res) == spec_stx(old(c)@),
        keeps_break_clear(old(c).cpu, final(c).cpu),
{
    let value: u8 = c.cpu.x;
    buscpu::write(c, c.cpu.addr, value)
}

/// The console after `sty`.
pub open spec fn spec_sty(v: ConsoleView) -> (ConsoleView, Result<(), NesError>) {
    buscpu::spec_write(v, v.cpu.addr, v.cpu.y)
}

/// STY: store Y.
pub fn sty(c: &mut Console) -> (res: Result<(), NesError>)
    ensures
        (final(c)@, res) == spec_sty(old(c)@),
        keeps_break_clear(old(c).cpu, final(c).cpu),
{
    let value: u8 = c.cpu.y;
    buscpu::write(c, c.cpu.addr, value)
}

/// The console after `tax`.
pub open spec fn spec_tax(v: ConsoleView) -> (ConsoleView, Result<(), NesError>) {
    (with_cpu(v, v.cpu.spec_tax()), Ok(()))
}

/// TAX: transfer the accumulator to X.
pub fn tax(c: &mut Console) -> (res: Result<(), NesError>)
    ensures
        (final(c)@, res) == spec_tax(old(c)@),
        keeps_break_clear(old(c).cpu, final(c).cpu),
{
    c.cpu.tax();
    Ok(())
}

/// The console after `tay`.
pub open spec fn spec_tay(v: ConsoleView) -> (ConsoleView, Result<(), NesError>) {
    (with_cpu(v, v.cpu.spec_tay()), Ok(()))
}

/// TAY: transfer the accumulator to Y.
pub fn tay(c: &mut Console) -> (res: Result<(), NesError>)
    ensures
        (final(c)@, res) == spec_tay(old(c)@),
        keeps_break_clear(old(c).cpu, final(c).cpu),
{
    c.cpu.tay();
    Ok(())
}

/// The console after `tsx`.
pub open spec fn spec_tsx(v: ConsoleView) -> (ConsoleView, Result<(), NesError>) {
    (with_cpu(v, v.cpu.spec_tsx()), Ok(()))
}

/// TSX: transfer the stack pointer to X.
pub fn tsx(c: &mut Console) -> (res: Result<(), NesError>)
    ensures
        (final(c)@, res) == spec_tsx(old(c)@),
        keeps_break_clear(old(c).cpu, final(c).cpu),
{
    c.cpu.tsx();
    Ok(())
}

/// The console after `txa`.
pub open spec fn spec_txa(v: ConsoleView) -> (ConsoleView, Result<(), NesError>) {
    (with_cpu(v, v.cpu.spec_txa()), Ok(()))
}

/// TXA: transfer X to the accumulator.
pub fn txa(c: &mut Console) -> (res: Result<(), NesError>)
    ensures
        (final(c)@, res) == spec_txa(old(c)@),
        keeps_break_clear(old(c).cpu, final(c).cpu),
{
    c.cpu.txa();
    Ok(())
}

/// The console after `txs`.
pub open spec fn spec_txs(v: ConsoleView) -> (ConsoleView, Result<(), NesError>) {
    (with_cpu(v, v.cpu.spec_txs()), Ok(()))
}

/// TXS: transfer X to the stack pointer.
pub fn txs(c: &mut Console) -> (res: Result<(), NesError>)
    ensures
        (final(c)@, res) == spec_txs(old(c)@),
        keeps_break_clear(old(c).cpu, final(c).cpu),
{
    c.cpu.txs();
    Ok(())
}

/// The console after `tya`.
pub open spec fn spec_tya(v: ConsoleView) -> (ConsoleView, Result<(), NesError>) {
    (with_cpu(v, v.cpu.spec_tya()), Ok(()))
}

/// TYA: transfer Y to the accumulator.
pub fn tya(c: &mut Console) -> (res: Result<(), NesError>)
    ensures
        (final(c)@, res) == spec_tya(old(c)@),
        keeps_break_clear(old(c).cpu, final(c).cpu),
{
    c.cpu.tya();
    Ok(())
}

/// The console after `xxx`.
pub open spec fn spec_xxx(v: ConsoleView) -> (ConsoleView, Result<(), NesError>) {
    (v, Ok(()))
}

/// What an opcode that is no instruction does: nothing.
pub fn xxx(c: &mut Console) -> (res: Result<(), NesError>)
    ensures
        (final(c)@, res) == spec_xxx(old(c)@),
        keeps_break_clear(old(c).cpu, final(c).cpu),
{
    Ok(())
}

// The undocumented instructions

/// The console after `dcp`.
pub open spec fn spec_dcp(v: ConsoleView) -> (ConsoleView, Result<(), NesError>) {
    let (fetched, res) = spec_fetch_data(v);
    if res is Err {
        (fetched, res)
    } else {
        let value = ((fetched.cpu.data + 255) % 256) as u8;
        let held = with_cpu(fetched, Cpu { data: value, ..fetched.cpu });
        let (written, stored) = buscpu::spec_write(held, held.cpu.addr, value);
        if stored is Err {
            (written, stored)
        } else {
            (with_cpu(written, written.cpu.spec_compare(written.cpu.ac, value)), Ok(()))
        }
    }
}

/// DCP: takes one from a memory cell, then compares the accumulator with
/// it.
pub fn dcp(c: &mut Console) -> (res: Result<(), NesError>)
    ensures
        (final(c)@, res) == spec_dcp(old(c)@),
        keeps_break_clear(old(c).cpu, final(c).cpu),
{
    fetch_data(c)?;
    let value: u8 = c.cpu.data.wrapping_sub(1);
    c.cpu.data = value;
    buscpu::write(c, c.cpu.addr, value)?;
    let reg: u8 = c.cpu.ac;
    c.cpu.compare(reg, value);
    Ok(())
}

/// The console after `dop`.
pub open spec fn spec_dop(v: ConsoleView) -> (ConsoleView, Result<(), NesError>) {
    (with_cpu(v, v.cpu.spec_dop()), Ok(()))
}

/// DOP: a no-operation of two bytes.
pub fn dop(c: &mut Console) -> (res: Result<(), NesError>)
    ensures
        (final(c)@, res) == spec_dop(old(c)@),
        keeps_break_clear(old(c).cpu, final(c).cpu),
{
    c.cpu.dop();
    Ok(())
}

/// The console after `isb`.
pub open spec fn spec_isb(v: ConsoleView) -> (ConsoleView, Result<(), NesError>) {
    let (fetched, res) = spec_fetch_data(v);
    if res is Err {
        (fetched, res)
    } else {
        let value = ((fetched.cpu.data + 1) % 256) as u8;
        let (written, stored) = buscpu::spec_write(fetched, fetched.cpu.addr, value);
        if stored is Err {
            (written, stored)
        } else {
            (with_cpu(written, written.cpu.spec_add_operand((255 - value) as u8)), Ok(()))
        }
    }
}

/// ISB: adds one to a memory cell, then subtracts it from the accumulator
/// with borrow.
pub fn isb(c: &mut Console) -> (res: Result<(), NesError>)
    ensures
        (final(c)@, res) == spec_isb(old(c)@),
        keeps_break_clear(old(c).cpu, final(c).cpu),
{
    fetch_data(c)?;
    let value: u8 = c.cpu.data.wrapping_add(1);
    buscpu::write(c, c.cpu.addr, value)?;
    c.cpu.add_operand(255 - value);
    Ok(())
}

/// The console after `lax`.
pub open spec fn spec_lax(v: ConsoleView) -> (ConsoleView, Result<(), NesError>) {
    let (fetched, res) = spec_fetch_data(v);
    if res is Err {
        (fetched, res)
    } else {
        (with_cpu(fetched, fetched.cpu.spec_lax()), Ok(()))
    }
}

/// LAX: load the accumulator and X.
pub fn lax(c: &mut Console) -> (res: Result<(), NesError>)
    ensures
        (final(c)@, res) == spec_lax(old(c)@),
        keeps_break_clear(old(c).cpu, final(c).cpu),
{
    fetch_data(c)?;
    c.cpu.lax();
    Ok(())
}

/// The console after `rla`.
pub open spec fn spec_rla(v: ConsoleView) -> (ConsoleView, Result<(), NesError>) {
    let (fetched, res) = spec_fetch_data(v);
    if res is Err {
        (fetched, res)
    } else {
        let (result, carry) = rol_of(fetched.cpu.data, fetched.cpu.spec_carry());
        let flagged = with_cpu(fetched, fetched.cpu.spec_set_flag(CpuFlag::C, carry));
        let (written, stored) = spec_store_result(flagged, result);
        if stored is Err {
            (written, stored)
        } else {
            let value = written.cpu.ac & result;
            (with_cpu(written, Cpu { ac: value, ..written.cpu }.spec_set_zn(value)), Ok(()))
        }
    }
}

/// RLA: rotates left like ROL, then ANDs the result into the accumulator.
pub fn rla(c: &mut Console) -> (res: Result<(), NesError>)
    ensures
        (final(c)@, res) == spec_rla(old(c)@),
        keeps_break_clear(old(c).cpu, final(c).cpu),
{
    fetch_data(c)?;
    let data: u8 = c.cpu.data;
    let result: u8 = ((data as u16 * 2 + c.cpu.carry() as u16) % 256) as u8;
    let carry = data >= 0x80;
    c.cpu.set_flag(CpuFlag::C, carry);
    store_result(c, result)?;
    let value: u8 = c.cpu.ac & result;
    c.cpu.ac = value;
    c.cpu.set_zn(value);
    Ok(())
}

/// The console after `rra`.
pub open spec fn spec_rra(v: ConsoleView) -> (ConsoleView, Result<(), NesError>) {
    let (fetched, res) = spec_fetch_data(v);
    if res is Err {
        (fetched, res)
    } else {
        let (result, carry) = ror_of(fetched.cpu.data, fetched.cpu.spec_carry());
        let (written, stored) = buscpu::spec_write(fetched, fetched.cpu.addr, result);
        if stored is Err {
            (written, stored)
        } else {
            (
                with_cpu(
                    written,
                    written.cpu.spec_set_flag(CpuFlag::C, carry).spec_add_operand(result),
                ),
                Ok(()),
            )
        }
    }
}

/// RRA: rotates a memory cell right through the carry, then adds it to the
/// accumulator with the bit that fell out as carry.
pub fn rra(c: &mut Console) -> (res: Result<(), NesError>)
    ensures
        (final(c)@, res) == spec_rra(old(c)@),
        keeps_break_clear(old(c).cpu, final(c).cpu),
{
    fetch_data(c)?;
    let data: u8 = c.cpu.data;
    let result: u8 = data / 2 + c.cpu.carry() * 128;
    let carry = data % 2 == 1;
    buscpu::write(c, c.cpu.addr, result)?;
    c.cpu.set_flag(CpuFlag::C, carry);
    c.cpu.add_operand(result);
    Ok(())
}

/// The console after `sax`.
pub open spec fn spec_sax(v: ConsoleView) -> (ConsoleView, Result<(), NesError>) {
    buscpu::spec_write(v, v.cpu.addr, v.cpu.ac & v.cpu.x)
}

/// SAX: store the bits that the accumulator and X share.
pub fn sax(c: &mut Console) -> (res: Result<(), NesError>)
    ensures
        (final(c)@, res) == spec_sax(old(c)@),
        keeps_break_clear(old(c).cpu, final(c).cpu),
{
    let value: u8 = c.cpu.ac & c.cpu.x;
    buscpu::write(c, c.cpu.addr, value)
}

/// The console after `slo`.
pub open spec fn spec_slo(v: ConsoleView) -> (ConsoleView, Result<(), NesError>) {
    let (fetched, res) = spec_fetch_data(v);
    if res is Err {
        (fetched, res)
    } else {
        let (result, carry) = asl_of(fetched.cpu.data);
        let flagged = with_cpu(fetched, fetched.cpu.spec_set_flag(CpuFlag::C, carry));
        let (written, stored) = spec_store_result(flagged, result);
        if stored is Err {
            (written, stored)
        } else {
            let value = written.cpu.ac | result;
            (with_cpu(written, Cpu { ac: value, ..written.cpu }.spec_set_zn(value)), Ok(()))
        }
    }
}

/// SLO: shifts left like ASL, then ORs the result into the accumulator.
pub fn slo(c: &mut Console) -> (res: Result<(), NesError>)
    ensures
        (final(c)@, res) == spec_slo(old(c)@),
        keeps_break_clear(old(c).cpu, final(c).cpu),
{
    fetch_data(c)?;
    let data: u8 = c.cpu.data;
    let result: u8 = ((data as u16 * 2) % 256) as u8;
    let carry = data >= 0x80;
    c.cpu.set_flag(CpuFlag::C, carry);
    store_result(c, result)?;
    let value: u8 = c.cpu.ac | result;
    c.cpu.ac = value;
    c.cpu.set_zn(value);
    Ok(())
}

/// The console after `sre`.
pub open spec fn spec_sre(v: ConsoleView) -> (ConsoleView, Result<(), NesError>) {
    let (fetched, res) = spec_fetch_data(v);
    if res is Err {
        (fetched, res)
    } else {
        let (result, carry) = lsr_of(fetched.cpu.data);
        let flagged = with_cpu(fetched, fetched.cpu.spec_set_flag(CpuFlag::C, carry));
        let (written, stored) = spec_store_result(flagged, result);
        if stored is Err {
            (written, stored)
        } else {
            let value = written.cpu.ac ^ result;
            (with_cpu(written, Cpu { ac: value, ..written.cpu }.spec_set_zn(value)), Ok(()))
        }
    }
}

/// SRE: shifts right like LSR, then XORs the result into the accumulator.
pub fn sre(c: &mut Console) -> (res: Result<(), NesError>)
    ensures
        (final(c)@, res) == spec_sre(old(c)@),
        keeps_break_clear(old(c).cpu, final(c).cpu),
{
    fetch_data(c)?;
    let data: u8 = c.cpu.data;
    let result: u8 = data / 2;
    let carry = data % 2 == 1;
    c.cpu.set_flag(CpuFlag::C, carry);
    store_result(c, result)?;
    let value: u8 = c.cpu.ac ^ result;
    c.cpu.ac = value;
    c.cpu.set_zn(value);
    Ok(())
}

/// The console after `top`.
pub open spec fn spec_top(v: ConsoleView) -> (ConsoleView, Result<(), NesError>) {
    (with_cpu(v, v.cpu.spec_top()), Ok(()))
}

/// TOP: a no-operation of three bytes.
pub fn top(c: &mut Console) -> (res: Result<(), NesError>)
    ensures
        (final(c)@, res) == spec_top(old(c)@),
        keeps_break_clear(old(c).cpu, final(c).cpu),
{
    c.cpu.top();
    Ok(())
}

} // verus!
