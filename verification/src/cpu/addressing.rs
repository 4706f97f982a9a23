use vstd::prelude::*;
use crate::buscpu;
use crate::console::{Console, ConsoleView};
use crate::cpu::{
    addr_plus, fetch_word, pc_fetch_byte, pc_fetch_word, read_ram, spec_fetch_word,
    spec_pc_fetch_byte, spec_pc_fetch_word, with_cpu, word_of, AddrMode, Cpu,
};
use crate::error::NesError;

verus! {

/// The console with the effective address `addr` of a memory operand.
pub open spec fn with_operand_at(v: ConsoleView, addr: u16) -> ConsoleView {
    with_cpu(v, Cpu { addr, is_imp: false, ..v.cpu })
}

/// The word in the zero page at `ptr`; its high byte comes from the cell
/// after `ptr`, wrapping within the page.
pub open spec fn zero_page_word(v: ConsoleView, ptr: u8) -> u16 {
    word_of(v.bus_cpu.ram[(ptr + 1) % 256], v.bus_cpu.ram[ptr as int])
}

/// The address that a branch displacement stands for: the byte, sign
/// extended to sixteen bits.
pub open spec fn sign_extend(byte: u8) -> u16 {
    if byte >= 0x80 {
        (0xff00 + byte) as u16
    } else {
        byte as u16
    }
}

/// Absolute: the operand's address follows the opcode.
pub open spec fn spec_abs(v: ConsoleView) -> (ConsoleView, Result<(), NesError>) {
    let (read, res) = spec_pc_fetch_word(v);
    match res {
        Ok(word) => (with_operand_at(read, word), Ok(())),
        Err(e) => (read, Err(e)),
    }
}

/// Absolute, X: the address that follows the opcode, plus X.
pub open spec fn spec_abx(v: ConsoleView) -> (ConsoleView, Result<(), NesError>) {
    let (read, res) = spec_pc_fetch_word(v);
    match res {
        Ok(word) => (with_operand_at(read, addr_plus(word, read.cpu.x as int)), Ok(())),
        Err(e) => (read, Err(e)),
    }
}

/// Absolute, Y: the address that follows the opcode, plus Y.
pub open spec fn spec_aby(v: ConsoleView) -> (ConsoleView, Result<(), NesError>) {
    let (read, res) = spec_pc_fetch_word(v);
    match res {
        Ok(word) => (with_operand_at(read, addr_plus(word, read.cpu.y as int)), Ok(())),
        Err(e) => (read, Err(e)),
    }
}

/// Immediate: the operand is the byte that follows the opcode.
pub open spec fn spec_imm(v: ConsoleView) -> (ConsoleView, Result<(), NesError>) {
    (with_cpu(v, Cpu { addr: v.cpu.pc, pc: addr_plus(v.cpu.pc, 1), is_imp: false, ..v.cpu }), Ok(()))
}

/// Implied: the operand, if any, is the accumulator.
pub open spec fn spec_imp(v: ConsoleView) -> (ConsoleView, Result<(), NesError>) {
    (with_cpu(v, Cpu { data: v.cpu.ac, is_imp: true, ..v.cpu }), Ok(()))
}

/// The console after the word that an indirect jump goes through was
/// read at `ptr`, and the word. Where `ptr` is the last byte of a page the
/// high byte is read from the start of the same page, not from the next.
pub open spec fn spec_read_pointer(v: ConsoleView, ptr: u16) -> (ConsoleView, Result<
    u16,
    NesError,
>) {
    if ptr % 256 == 255 {
        let (after_lo, lo) = buscpu::spec_read(v, ptr);
        match lo {
            Ok(lo) => {
                let (after_hi, hi) = buscpu::spec_read(after_lo, (ptr - 255) as u16);
                match hi {
                    Ok(hi) => (after_hi, Ok(word_of(hi, lo))),
                    Err(e) => (after_hi, Err(e)),
                }
            },
            Err(e) => (after_lo, Err(e)),
        }
    } else {
        spec_fetch_word(v, ptr)
    }
}

/// Indirect: the operand's address is the word at the address that
/// follows the opcode.
pub open spec fn spec_ind(v: ConsoleView) -> (ConsoleView, Result<(), NesError>) {
    let (read, res) = spec_pc_fetch_word(v);
    match res {
        Ok(ptr) => {
            let (read2, res2) = spec_read_pointer(read, ptr);
            match res2 {
                Ok(word) => (with_operand_at(read2, word), Ok(())),
                Err(e) => (read2, Err(e)),
            }
        },
        Err(e) => (read, Err(e)),
    }
}

/// Indexed indirect: the operand's address is the zero page word at the
/// byte that follows the opcode plus X.
pub open spec fn spec_idx(v: ConsoleView) -> (ConsoleView, Result<(), NesError>) {
    let (read, res) = spec_pc_fetch_byte(v);
    match res {
        Ok(ptr) => (
            with_operand_at(read, zero_page_word(read, ((ptr + read.cpu.x) % 256) as u8)),
            Ok(()),
        ),
        Err(e) => (read, Err(e)),
    }
}

/// Indirect indexed: the operand's address is the zero page word at the
/// byte that follows the opcode, plus Y.
pub open spec fn spec_idy(v: ConsoleView) -> (ConsoleView, Result<(), NesError>) {
    let (read, res) = spec_pc_fetch_byte(v);
    match res {
        Ok(ptr) => (
            with_operand_at(read, addr_plus(zero_page_word(read, ptr), read.cpu.y as int)),
            Ok(()),
        ),
        Err(e) => (read, Err(e)),
    }
}

/// Relative: the byte that follows the opcode is a signed displacement.
pub open spec fn spec_rel(v: ConsoleView) -> (ConsoleView, Result<(), NesError>) {
    let (read, res) = spec_pc_fetch_byte(v);
    match res {
        Ok(byte) => (with_operand_at(read, sign_extend(byte)), Ok(())),
        Err(e) => (read, Err(e)),
    }
}

/// Zero page: the operand's address is the byte that follows the opcode.
pub open spec fn spec_zpg(v: ConsoleView) -> (ConsoleView, Result<(), NesError>) {
    let (read, res) = spec_pc_fetch_byte(v);
    match res {
        Ok(byte) => (with_operand_at(read, byte as u16), Ok(())),
        Err(e) => (read, Err(e)),
    }
}

/// Zero page, X: the byte that follows the opcode plus X, within the zero
/// page.
pub open spec fn spec_zpx(v: ConsoleView) -> (ConsoleView, Result<(), NesError>) {
    let (read, res) = spec_pc_fetch_byte(v);
    match res {
        Ok(byte) => (with_operand_at(read, ((byte + read.cpu.x) % 256) as u16), Ok(())),
        Err(e) => (read, Err(e)),
    }
}

/// Zero page, Y: the byte that follows the opcode plus Y, within the zero
/// page.
pub open spec fn spec_zpy(v: ConsoleView) -> (ConsoleView, Result<(), NesError>) {
    let (read, res) = spec_pc_fetch_byte(v);
    match res {
        Ok(byte) => (with_operand_at(read, ((byte + read.cpu.y) % 256) as u16), Ok(())),
        Err(e) => (read, Err(e)),
    }
}

/// The console after the operand of an instruction with addressing mode
/// `mode` was located.
pub open spec fn spec_addressing(v: ConsoleView, mode: AddrMode) -> (ConsoleView, Result<
    (),
    NesError,
>) {
    match mode {
        AddrMode::Abs => spec_abs(v),
        AddrMode::Abx => spec_abx(v),
        AddrMode::Aby => spec_aby(v),
        AddrMode::Imm => spec_imm(v),
        AddrMode::Imp => spec_imp(v),
        AddrMode::Ind => spec_ind(v),
        AddrMode::Idx => spec_idx(v),
        AddrMode::Idy => spec_idy(v),
        AddrMode::Rel => spec_rel(v),
        AddrMode::Zpg => spec_zpg(v),
        AddrMode::Zpx => spec_zpx(v),
        AddrMode::Zpy => spec_zpy(v),
        AddrMode::Xxx => (v, Ok(())),
    }
}

/// Whether two processor states differ at most in what an addressing mode
/// sets: the program counter, the effective address, the operand and the
/// implied mark.
pub open spec fn only_operand_changed(before: Cpu, after: Cpu) -> bool {
    after == (Cpu {
        pc: after.pc,
        addr: after.addr,
        data: after.data,
        is_imp: after.is_imp,
        ..before
    })
}

/// Absolute addressing.
pub fn abs(c: &mut Console) -> (res: Result<(), NesError>)
    ensures
        (final(c)@, res) == spec_abs(old(c)@),
        only_operand_changed(old(c).cpu, final(c).cpu),
{
    let word: u16 = pc_fetch_word(c)?;
    c.cpu.addr = word;
    c.cpu.is_imp = false;
    Ok(())
}

/// Absolute addressing, indexed by X.
pub fn abx(c: &mut Console) -> (res: Result<(), NesError>)
    ensures
        (final(c)@, res) == spec_abx(old(c)@),
        only_operand_changed(old(c).cpu, final(c).cpu),
{
    let word: u16 = pc_fetch_word(c)?;
    c.cpu.addr = word.wrapping_add(c.cpu.x as u16);
    c.cpu.is_imp = false;
    Ok(())
}

/// Absolute addressing, indexed by Y.
pub fn aby(c: &mut Console) -> (res: Result<(), NesError>)
    ensures
        (final(c)@, res) == spec_aby(old(c)@),
        only_operand_changed(old(c).cpu, final(c).cpu),
{
    let word: u16 = pc_fetch_word(c)?;
    c.cpu.addr = word.wrapping_add(c.cpu.y as u16);
    c.cpu.is_imp = false;
    Ok(())
}

/// Immediate addressing.
pub fn imm(c: &mut Console) -> (res: Result<(), NesError>)
    ensures
        (final(c)@, res) == spec_imm(old(c)@),
        only_operand_changed(old(c).cpu, final(c).cpu),
{
    c.cpu.addr = c.cpu.pc;
    c.cpu.pc = c.cpu.pc.wrapping_add(1);
    c.cpu.is_imp = false;
    Ok(())
}

/// Implied addressing: loads the accumulator as operand.
pub fn imp(c: &mut Console) -> (res: Result<(), NesError>)
    ensures
        (final(c)@, res) == spec_imp(old(c)@),
        only_operand_changed(old(c).cpu, final(c).cpu),
{
    c.cpu.data = c.cpu.ac;
    c.cpu.is_imp = true;
    Ok(())
}

/// Reads the word that an indirect jump goes through.
fn read_pointer(c: &mut Console, ptr: u16) -> (res: Result<u16, NesError>)
    ensures
        (final(c)@, res) == spec_read_pointer(old(c)@, ptr),
        final(c).cpu == old(c).cpu,
{
    if ptr % 256 == 255 {
        let lo: u8 = buscpu::read(c, ptr)?;
        let hi: u8 = buscpu::read(c, ptr - 255)?;
        Ok((hi as u16) * 256 + lo as u16)
    } else {
        fetch_word(c, ptr)
    }
}

/// Indirect addressing, as JMP uses it.
pub fn ind(c: &mut Console) -> (res: Result<(), NesError>)
    ensures
        (final(c)@, res) == spec_ind(old(c)@),
        only_operand_changed(old(c).cpu, final(c).cpu),
{
    let ptr: u16 = pc_fetch_word(c)?;
    let word: u16 = read_pointer(c, ptr)?;
    c.cpu.addr = word;
    c.cpu.is_imp = false;
    Ok(())
}

/// Reads a word in the zero page.
fn read_zero_page_word(c: &Console, ptr: u8) -> (word: u16)
    ensures
        word == zero_page_word(c@, ptr),
{
    let lo: u8 = read_ram(c, ptr as u16);
    let hi: u8 = read_ram(c, ptr.wrapping_add(1) as u16);
    (hi as u16) * 256 + lo as u16
}

/// Indexed indirect addressing, by X.
pub fn idx(c: &mut Console) -> (res: Result<(), NesError>)
    ensures
        (final(c)@, res) == spec_idx(old(c)@),
        only_operand_changed(old(c).cpu, final(c).cpu),
{
    let ptr: u8 = pc_fetch_byte(c)?;
    let word: u16 = read_zero_page_word(c, ptr.wrapping_add(c.cpu.x));
    c.cpu.addr = word;
    c.cpu.is_imp = false;
    Ok(())
}

/// Indirect indexed addressing, by Y.
pub fn idy(c: &mut Console) -> (res: Result<(), NesError>)
    ensures
        (final(c)@, res) == spec_idy(old(c)@),
        only_operand_changed(old(c).cpu, final(c).cpu),
{
    let ptr: u8 = pc_fetch_byte(c)?;
    let word: u16 = read_zero_page_word(c, ptr);
    c.cpu.addr = word.wrapping_add(c.cpu.y as u16);
    c.cpu.is_imp = false;
    Ok(())
}

/// Relative addressing, as the branches use it.
pub fn rel(c: &mut Console) -> (res: Result<(), NesError>)
    ensures
        (final(c)@, res) == spec_rel(old(c)@),
        only_operand_changed(old(c).cpu, final(c).cpu),
{
    let byte: u8 = pc_fetch_byte(c)?;
    if byte >= 0x80 {
        c.cpu.addr = 0xff00 + byte as u16;
    } else {
        c.cpu.addr = byte as u16;
    }
    c.cpu.is_imp = false;
    Ok(())
}

/// Zero page addressing.
pub fn zpg(c: &mut Console) -> (res: Result<(), NesError>)
    ensures
        (final(c)@, res) == spec_zpg(old(c)@),
        only_operand_changed(old(c).cpu, final(c).cpu),
{
    let byte: u8 = pc_fetch_byte(c)?;
    c.cpu.addr = byte as u16;
    c.cpu.is_imp = false;
    Ok(())
}

/// Zero page addressing, indexed by X.
pub fn zpx(c: &mut Console) -> (res: Result<(), NesError>)
    ensures
        (final(c)@, res) == spec_zpx(old(c)@),
        only_operand_changed(old(c).cpu, final(c).cpu),
{
    let byte: u8 = pc_fetch_byte(c)?;
    c.cpu.addr = byte.wrapping_add(c.cpu.x) as u16;
    c.cpu.is_imp = false;
    Ok(())
}

/// Zero page addressing, indexed by Y.
pub fn zpy(c: &mut Console) -> (res: Result<(), NesError>)
    ensures
        (final(c)@, res) == spec_zpy(old(c)@),
        only_operand_changed(old(c).cpu, final(c).cpu),
{
    let byte: u8 = pc_fetch_byte(c)?;
    c.cpu.addr = byte.wrapping_add(c.cpu.y) as u16;
    c.cpu.is_imp = false;
    Ok(())
}

/// The mode of an opcode that is no instruction: nothing is located.
pub fn xxx(c: &mut Console) -> (res: Result<(), NesError>)
    ensures
        res == Ok::<(), NesError>(()),
        *final(c) == *old(c),
{
    Ok(())
}

/// Locates the operand of an instruction with addressing mode `mode`.
pub fn addressing(c: &mut Console, mode: AddrMode) -> (res: Result<(), NesError>)
    ensures
        (final(c)@, res) == spec_addressing(old(c)@, mode),
        only_operand_changed(old(c).cpu, final(c).cpu),
{
    match mode {
        AddrMode::Abs => abs(c),
        AddrMode::Abx => abx(c),
        AddrMode::Aby => aby(c),
        AddrMode::Imm => imm(c),
        AddrMode::Imp => imp(c),
        AddrMode::Ind => ind(c),
        AddrMode::Idx => idx(c),
        AddrMode::Idy => idy(c),
        AddrMode::Rel => rel(c),
        AddrMode::Zpg => zpg(c),
        AddrMode::Zpx => zpx(c),
        AddrMode::Zpy => zpy(c),
        AddrMode::Xxx => xxx(c),
    }
}

} // verus!
