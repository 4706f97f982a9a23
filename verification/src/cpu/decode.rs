use vstd::prelude::*;
use crate::console::{Console, ConsoleView};
use crate::cpu::alu::keeps_break_clear;
use crate::cpu::instructions;
use crate::cpu::AddrMode;
use crate::error::NesError;

verus! {

/// The instructions: the 56 documented ones, the undocumented ones that
/// programs rely on, and `Xxx` for an opcode that is neither.
#[derive(Clone, Copy, Debug, PartialEq, Eq, Structural)]
pub enum Instruction {
    Adc,
    And,
    Asl,
    Bcc,
    Bcs,
    Beq,
    Bit,
    Bmi,
    Bne,
    Bpl,
    Brk,
    Bvc,
    Bvs,
    Clc,
    Cld,
    Cli,
    Clv,
    Cmp,
    Cpx,
    Cpy,
    Dec,
    Dex,
    Dey,
    Eor,
    Inc,
    Inx,
    Iny,
    Jmp,
    Jsr,
    Lda,
    Ldx,
    Ldy,
    Lsr,
    Nop,
    Ora,
    Pha,
    Php,
    Pla,
    Plp,
    Rol,
    Ror,
    Rti,
    Rts,
    Sbc,
    Sec,
    Sed,
    Sei,
    Sta,
    Stx,
    Sty,
    Tax,
    Tay,
    Tsx,
    Txa,
    Txs,
    Tya,
    Xxx,
    Dcp,
    Dop,
    Isb,
    Lax,
    Rla,
    Rra,
    Sax,
    Slo,
    Sre,
    Top,
}

/// What an opcode stands for.
#[derive(Clone, Copy, Debug)]
pub struct DecodedOpcode {
    /// Cycles that the instruction takes before any penalty.
    pub cycles: u8,
    /// Length of the instruction in bytes, opcode included.
    pub bytes: u8,
    pub addr_mode: AddrMode,
    pub instruction: Instruction,
    /// The instruction's mnemonic.
    pub instruction_str: &'static str,
}

impl Instruction {
    /// The instructions that read their operand and change registers only.
    pub open spec fn reads_operand(self) -> bool {
        matches!(
            self,
            Instruction::Adc
                | Instruction::And
                | Instruction::Bit
                | Instruction::Cmp
                | Instruction::Cpx
                | Instruction::Cpy
                | Instruction::Eor
                | Instruction::Lda
                | Instruction::Ldx
                | Instruction::Ldy
                | Instruction::Ora
                | Instruction::Sbc
                | Instruction::Lax
        )
    }

    /// The instructions that store a register into their operand.
    pub open spec fn stores_register(self) -> bool {
        matches!(
            self,
            Instruction::Sta | Instruction::Stx | Instruction::Sty | Instruction::Sax
        )
    }

    /// The instructions that read their operand, change it and write it
    /// back.
    pub open spec fn modifies_operand(self) -> bool {
        matches!(
            self,
            Instruction::Asl
                | Instruction::Lsr
                | Instruction::Rol
                | Instruction::Ror
                | Instruction::Inc
                | Instruction::Dec
                | Instruction::Dcp
                | Instruction::Isb
                | Instruction::Rla
                | Instruction::Rra
                | Instruction::Slo
                | Instruction::Sre
        )
    }

    pub open spec fn spec_mnemonic(self) -> Seq<char> {
        match self {
            Instruction::Adc => "ADC"@,
            Instruction::And => "AND"@,
            Instruction::Asl => "ASL"@,
            Instruction::Bcc => "BCC"@,
            Instruction::Bcs => "BCS"@,
            Instruction::Beq => "BEQ"@,
            Instruction::Bit => "BIT"@,
            Instruction::Bmi => "BMI"@,
            Instruction::Bne => "BNE"@,
            Instruction::Bpl => "BPL"@,
            Instruction::Brk => "BRK"@,
            Instruction::Bvc => "BVC"@,
            Instruction::Bvs => "BVS"@,
            Instruction::Clc => "CLC"@,
            Instruction::Cld => "CLD"@,
            Instruction::Cli => "CLI"@,
            Instruction::Clv => "CLV"@,
            Instruction::Cmp => "CMP"@,
            Instruction::Cpx => "CPX"@,
            Instruction::Cpy => "CPY"@,
            Instruction::Dec => "DEC"@,
            Instruction::Dex => "DEX"@,
            Instruction::Dey => "DEY"@,
            Instruction::Eor => "EOR"@,
            Instruction::Inc => "INC"@,
            Instruction::Inx => "INX"@,
            Instruction::Iny => "INY"@,
            Instruction::Jmp => "JMP"@,
            Instruction::Jsr => "JSR"@,
            Instruction::Lda => "LDA"@,
            Instruction::Ldx => "LDX"@,
            Instruction::Ldy => "LDY"@,
            Instruction::Lsr => "LSR"@,
            Instruction::Nop => "NOP"@,
            Instruction::Ora => "ORA"@,
            Instruction::Pha => "PHA"@,
            Instruction::Php => "PHP"@,
            Instruction::Pla => "PLA"@,
            Instruction::Plp => "PLP"@,
            Instruction::Rol => "ROL"@,
            Instruction::Ror => "ROR"@,
            Instruction::Rti => "RTI"@,
            Instruction::Rts => "RTS"@,
            Instruction::Sbc => "SBC"@,
            Instruction::Sec => "SEC"@,
            Instruction::Sed => "SED"@,
            Instruction::Sei => "SEI"@,
            Instruction::Sta => "STA"@,
            Instruction::Stx => "STX"@,
            Instruction::Sty => "STY"@,
            Instruction::Tax => "TAX"@,
            Instruction::Tay => "TAY"@,
            Instruction::Tsx => "TSX"@,
            Instruction::Txa => "TXA"@,
            Instruction::Txs => "TXS"@,
            Instruction::Tya => "TYA"@,
            Instruction::Xxx => "XXX"@,
            Instruction::Dcp => "DCP"@,
            Instruction::Dop => "DOP"@,
            Instruction::Isb => "ISB"@,
            Instruction::Lax => "LAX"@,
            Instruction::Rla => "RLA"@,
            Instruction::Rra => "RRA"@,
            Instruction::Sax => "SAX"@,
            Instruction::Slo => "SLO"@,
            Instruction::Sre => "SRE"@,
            Instruction::Top => "TOP"@,
        }
    }

    /// The instruction's name in assembly language, in capitals.
    pub fn mnemonic(self) -> (name: &'static str)
        ensures
            name@ == self.spec_mnemonic(),
    {
        match self {
            Instruction::Adc => "ADC",
            Instruction::And => "AND",
            Instruction::Asl => "ASL",
            Instruction::Bcc => "BCC",
            Instruction::Bcs => "BCS",
            Instruction::Beq => "BEQ",
            Instruction::Bit => "BIT",
            Instruction::Bmi => "BMI",
            Instruction::Bne => "BNE",
            Instruction::Bpl => "BPL",
            Instruction::Brk => "BRK",
            Instruction::Bvc => "BVC",
            Instruction::Bvs => "BVS",
            Instruction::Clc => "CLC",
            Instruction::Cld => "CLD",
            Instruction::Cli => "CLI",
            Instruction::Clv => "CLV",
            Instruction::Cmp => "CMP",
            Instruction::Cpx => "CPX",
            Instruction::Cpy => "CPY",
            Instruction::Dec => "DEC",
            Instruction::Dex => "DEX",
            Instruction::Dey => "DEY",
            Instruction::Eor => "EOR",
            Instruction::Inc => "INC",
            Instruction::Inx => "INX",
            Instruction::Iny => "INY",
            Instruction::Jmp => "JMP",
            Instruction::Jsr => "JSR",
            Instruction::Lda => "LDA",
            Instruction::Ldx => "LDX",
            Instruction::Ldy => "LDY",
            Instruction::Lsr => "LSR",
            Instruction::Nop => "NOP",
            Instruction::Ora => "ORA",
            Instruction::Pha => "PHA",
            Instruction::Php => "PHP",
            Instruction::Pla => "PLA",
            Instruction::Plp => "PLP",
            Instruction::Rol => "ROL",
            Instruction::Ror => "ROR",
            Instruction::Rti => "RTI",
            Instruction::Rts => "RTS",
            Instruction::Sbc => "SBC",
            Instruction::Sec => "SEC",
            Instruction::Sed => "SED",
            Instruction::Sei => "SEI",
            Instruction::Sta => "STA",
            Instruction::Stx => "STX",
            Instruction::Sty => "STY",
            Instruction::Tax => "TAX",
            Instruction::Tay => "TAY",
            Instruction::Tsx => "TSX",
            Instruction::Txa => "TXA",
            Instruction::Txs => "TXS",
            Instruction::Tya => "TYA",
            Instruction::Xxx => "XXX",
            Instruction::Dcp => "DCP",
            Instruction::Dop => "DOP",
            Instruction::Isb => "ISB",
            Instruction::Lax => "LAX",
            Instruction::Rla => "RLA",
            Instruction::Rra => "RRA",
            Instruction::Sax => "SAX",
            Instruction::Slo => "SLO",
            Instruction::Sre => "SRE",
            Instruction::Top => "TOP",
        }
    }
}

/// The instruction that an opcode selects.
pub open spec fn instruction_of(opcode: u8) -> Instruction {
    match opcode {
        0x61 | 0x65 | 0x69 | 0x6d | 0x71 | 0x75 | 0x79 | 0x7d => Instruction::Adc,
        0x21 | 0x25 | 0x29 | 0x2d | 0x31 | 0x35 | 0x39 | 0x3d => Instruction::And,
        0x06 | 0x0a | 0x0e | 0x16 | 0x1e => Instruction::Asl,
        0x90 => Instruction::Bcc,
        0xb0 => Instruction::Bcs,
        0xf0 => Instruction::Beq,
        0x24 | 0x2c => Instruction::Bit,
        0x30 => Instruction::Bmi,
        0xd0 => Instruction::Bne,
        0x10 => Instruction::Bpl,
        0x00 => Instruction::Brk,
        0x50 => Instruction::Bvc,
        0x70 => Instruction::Bvs,
        0x18 => Instruction::Clc,
        0xd8 => Instruction::Cld,
        0x58 => Instruction::Cli,
        0xb8 => Instruction::Clv,
        0xc1 | 0xc5 | 0xc9 | 0xcd | 0xd1 | 0xd5 | 0xd9 | 0xdd => Instruction::Cmp,
        0xe0 | 0xe4 | 0xec => Instruction::Cpx,
        0xc0 | 0xc4 | 0xcc => Instruction::Cpy,
        0xc6 | 0xce | 0xd6 | 0xde => Instruction::Dec,
        0xca => Instruction::Dex,
        0x88 => Instruction::Dey,
        0x41 | 0x45 | 0x49 | 0x4d | 0x51 | 0x55 | 0x59 | 0x5d => Instruction::Eor,
        0xe6 | 0xee | 0xf6 | 0xfe => Instruction::Inc,
        0xe8 => Instruction::Inx,
        0xc8 => Instruction::Iny,
        0x4c | 0x6c => Instruction::Jmp,
        0x20 => Instruction::Jsr,
        0xa1 | 0xa5 | 0xa9 | 0xad | 0xb1 | 0xb5 | 0xb9 | 0xbd => Instruction::Lda,
        0xa2 | 0xa6 | 0xae | 0xb6 | 0xbe => Instruction::Ldx,
        0xa0 | 0xa4 | 0xac | 0xb4 | 0xbc => Instruction::Ldy,
        0x46 | 0x4a | 0x4e | 0x56 | 0x5e => Instruction::Lsr,
        0x1a | 0x3a | 0x5a | 0x7a | 0xda | 0xea | 0xfa => Instruction::Nop,
        0x01 | 0x05 | 0x09 | 0x0d | 0x11 | 0x15 | 0x19 | 0x1d => Instruction::Ora,
        0x48 => Instruction::Pha,
        0x08 => Instruction::Php,
        0x68 => Instruction::Pla,
        0x28 => Instruction::Plp,
        0x26 | 0x2a | 0x2e | 0x36 | 0x3e => Instruction::Rol,
        0x66 | 0x6a | 0x6e | 0x76 | 0x7e => Instruction::Ror,
        0x40 => Instruction::Rti,
        0x60 => Instruction::Rts,
        0xe1 | 0xe5 | 0xe9 | 0xeb | 0xed | 0xf1 | 0xf5 | 0xf9 | 0xfd => Instruction::Sbc,
        0x38 => Instruction::Sec,
        0xf8 => Instruction::Sed,
        0x78 => Instruction::Sei,
        0x81 | 0x85 | 0x8d | 0x91 | 0x95 | 0x99 | 0x9d => Instruction::Sta,
        0x86 | 0x8e | 0x96 => Instruction::Stx,
        0x84 | 0x8c | 0x94 => Instruction::Sty,
        0xaa => Instruction::Tax,
        0xa8 => Instruction::Tay,
        0xba => Instruction::Tsx,
        0x8a => Instruction::Txa,
        0x9a => Instruction::Txs,
        0x98 => Instruction::Tya,
        0xc3 | 0xc7 | 0xcf | 0xd3 | 0xd7 | 0xdb | 0xdf => Instruction::Dcp,
        0x04 | 0x14 | 0x34 | 0x44 | 0x54 | 0x64 | 0x74 | 0x80 | 0x82 | 0x89
        | 0xc2 | 0xd4 | 0xe2 | 0xf4 => Instruction::Dop,
        0xe3 | 0xe7 | 0xef | 0xf3 | 0xf7 | 0xfb | 0xff => Instruction::Isb,
        0xa3 | 0xa7 | 0xaf | 0xb3 | 0xb7 | 0xbf => Instruction::Lax,
        0x23 | 0x27 | 0x2f | 0x33 | 0x37 | 0x3b | 0x3f => Instruction::Rla,
        0x63 | 0x67 | 0x6f | 0x73 | 0x77 | 0x7b | 0x7f => Instruction::Rra,
        0x83 | 0x87 | 0x8f | 0x97 => Instruction::Sax,
        0x03 | 0x07 | 0x0f | 0x13 | 0x17 | 0x1b | 0x1f => Instruction::Slo,
        0x43 | 0x47 | 0x4f | 0x53 | 0x57 | 0x5b | 0x5f => Instruction::Sre,
        0x0c | 0x1c | 0x3c | 0x5c | 0x7c | 0xdc | 0xfc => Instruction::Top,
        _ => Instruction::Xxx,
    }
}

/// The addressing mode that an opcode selects. The undocumented
/// no-operations of two and three bytes are implied: they skip their operand
/// themselves.
pub open spec fn addr_mode_of(opcode: u8) -> AddrMode {
    match opcode {
        0x0d | 0x0e | 0x0f | 0x20 | 0x2c | 0x2d | 0x2e | 0x2f | 0x4c | 0x4d
        | 0x4e | 0x4f | 0x6d | 0x6e | 0x6f | 0x8c | 0x8d | 0x8e | 0x8f | 0xac
        | 0xad | 0xae | 0xaf | 0xcc | 0xcd | 0xce | 0xcf | 0xec | 0xed | 0xee
        | 0xef => AddrMode::Abs,
        0x1d | 0x1e | 0x1f | 0x3d | 0x3e | 0x3f | 0x5d | 0x5e | 0x5f | 0x7d
        | 0x7e | 0x7f | 0x9d | 0xbc | 0xbd | 0xdd | 0xde | 0xdf | 0xfd | 0xfe
        | 0xff => AddrMode::Abx,
        0x19 | 0x1b | 0x39 | 0x3b | 0x59 | 0x5b | 0x79 | 0x7b | 0x99 | 0xb9
        | 0xbe | 0xbf | 0xd9 | 0xdb | 0xf9 | 0xfb => AddrMode::Aby,
        0x09 | 0x29 | 0x49 | 0x69 | 0xa0 | 0xa2 | 0xa9 | 0xc0 | 0xc9 | 0xe0
        | 0xe9 | 0xeb => AddrMode::Imm,
        0x00 | 0x04 | 0x08 | 0x0a | 0x0c | 0x14 | 0x18 | 0x1a | 0x1c | 0x28
        | 0x2a | 0x34 | 0x38 | 0x3a | 0x3c | 0x40 | 0x44 | 0x48 | 0x4a | 0x54
        | 0x58 | 0x5a | 0x5c | 0x60 | 0x64 | 0x68 | 0x6a | 0x74 | 0x78 | 0x7a
        | 0x7c | 0x80 | 0x82 | 0x88 | 0x89 | 0x8a | 0x98 | 0x9a | 0xa8 | 0xaa
        | 0xb8 | 0xba | 0xc2 | 0xc8 | 0xca | 0xd4 | 0xd8 | 0xda | 0xdc | 0xe2
        | 0xe8 | 0xea | 0xf4 | 0xf8 | 0xfa | 0xfc => AddrMode::Imp,
        0x6c => AddrMode::Ind,
        0x01 | 0x03 | 0x21 | 0x23 | 0x41 | 0x43 | 0x61 | 0x63 | 0x81 | 0x83
        | 0xa1 | 0xa3 | 0xc1 | 0xc3 | 0xe1 | 0xe3 => AddrMode::Idx,
        0x11 | 0x13 | 0x31 | 0x33 | 0x51 | 0x53 | 0x71 | 0x73 | 0x91 | 0xb1
        | 0xb3 | 0xd1 | 0xd3 | 0xf1 | 0xf3 => AddrMode::Idy,
        0x10 | 0x30 | 0x50 | 0x70 | 0x90 | 0xb0 | 0xd0 | 0xf0 => AddrMode::Rel,
        0x05 | 0x06 | 0x07 | 0x24 | 0x25 | 0x26 | 0x27 | 0x45 | 0x46 | 0x47
        | 0x65 | 0x66 | 0x67 | 0x84 | 0x85 | 0x86 | 0x87 | 0xa4 | 0xa5 | 0xa6
        | 0xa7 | 0xc4 | 0xc5 | 0xc6 | 0xc7 | 0xe4 | 0xe5 | 0xe6 | 0xe7 => AddrMode::Zpg,
        0x15 | 0x16 | 0x17 | 0x35 | 0x36 | 0x37 | 0x55 | 0x56 | 0x57 | 0x75
        | 0x76 | 0x77 | 0x94 | 0x95 | 0xb4 | 0xb5 | 0xd5 | 0xd6 | 0xd7 | 0xf5
        | 0xf6 | 0xf7 => AddrMode::Zpx,
        0x96 | 0x97 | 0xb6 | 0xb7 => AddrMode::Zpy,
        _ => AddrMode::Xxx,
    }
}

/// Cycles of an instruction before any penalty, by what it does with its
/// operand and how it finds it.
pub open spec fn base_cycles(instruction: Instruction, mode: AddrMode) -> u8 {
    if instruction.reads_operand() {
        match mode {
            AddrMode::Imm => 2,
            AddrMode::Zpg => 3,
            AddrMode::Idy => 5,
            AddrMode::Idx => 6,
            _ => 4,
        }
    } else if instruction.stores_register() {
        match mode {
            AddrMode::Zpg => 3,
            AddrMode::Zpx | AddrMode::Zpy | AddrMode::Abs => 4,
            AddrMode::Abx | AddrMode::Aby => 5,
            _ => 6,
        }
    } else if instruction.modifies_operand() {
        match mode {
            AddrMode::Imp => 2,
            AddrMode::Zpg => 5,
            AddrMode::Zpx | AddrMode::Abs => 6,
            AddrMode::Abx | AddrMode::Aby => 7,
            _ => 8,
        }
    } else {
        match instruction {
            Instruction::Brk => 7,
            Instruction::Jsr | Instruction::Rts | Instruction::Rti => 6,
            Instruction::Jmp => if mode == AddrMode::Ind {
                5
            } else {
                3
            },
            Instruction::Pla | Instruction::Plp | Instruction::Top => 4,
            Instruction::Pha | Instruction::Php | Instruction::Dop => 3,
            _ => 2,
        }
    }
}

/// Length of an instruction in bytes: the opcode and the bytes that its
/// addressing mode reads, or that it skips.
pub open spec fn instruction_len(instruction: Instruction, mode: AddrMode) -> u8 {
    match instruction {
        Instruction::Dop => 2,
        Instruction::Top => 3,
        _ => match mode {
            AddrMode::Imp | AddrMode::Xxx => 1,
            AddrMode::Abs | AddrMode::Abx | AddrMode::Aby | AddrMode::Ind => 3,
            _ => 2,
        },
    }
}

/// Puts a table entry together.
fn entry(cycles: u8, bytes: u8, addr_mode: AddrMode, instruction: Instruction) -> (d:
    DecodedOpcode)
    ensures
        d.cycles == cycles,
        d.bytes == bytes,
        d.addr_mode == addr_mode,
        d.instruction == instruction,
        d.instruction_str@ == instruction.spec_mnemonic(),
{
    DecodedOpcode { cycles, bytes, addr_mode, instruction, instruction_str: instruction.mnemonic() }
}

/// Whether `d` is what `opcode` stands for.
pub open spec fn decodes(opcode: u8, d: DecodedOpcode) -> bool {
    &&& d.instruction == instruction_of(opcode)
    &&& d.addr_mode == addr_mode_of(opcode)
    &&& d.cycles == base_cycles(d.instruction, d.addr_mode)
    &&& d.bytes == instruction_len(d.instruction, d.addr_mode)
    &&& d.instruction_str@ == d.instruction.spec_mnemonic()
}

/// The opcodes 0x00 to 0x0F.
fn decode_row_0(opcode: u8) -> (d: DecodedOpcode)
    requires
        opcode / 16 == 0x0,
    ensures
        decodes(opcode, d),
{
    match opcode {
        0x00 => entry(7, 1, AddrMode::Imp, Instruction::Brk),
        0x01 => entry(6, 2, AddrMode::Idx, Instruction::Ora),
        0x03 => entry(8, 2, AddrMode::Idx, Instruction::Slo),
        0x04 => entry(3, 2, AddrMode::Imp, Instruction::Dop),
        0x05 => entry(3, 2, AddrMode::Zpg, Instruction::Ora),
        0x06 => entry(5, 2, AddrMode::Zpg, Instruction::Asl),
        0x07 => entry(5, 2, AddrMode::Zpg, Instruction::Slo),
        0x08 => entry(3, 1, AddrMode::Imp, Instruction::Php),
        0x09 => entry(2, 2, AddrMode::Imm, Instruction::Ora),
        0x0a => entry(2, 1, AddrMode::Imp, Instruction::Asl),
        0x0c => entry(4, 3, AddrMode::Imp, Instruction::Top),
        0x0d => entry(4, 3, AddrMode::Abs, Instruction::Ora),
        0x0e => entry(6, 3, AddrMode::Abs, Instruction::Asl),
        0x0f => entry(6, 3, AddrMode::Abs, Instruction::Slo),
        _ => entry(2, 1, AddrMode::Xxx, Instruction::Xxx),
    }
}

/// The opcodes 0x10 to 0x1F.
fn decode_row_1(opcode: u8) -> (d: DecodedOpcode)
    requires
        opcode / 16 == 0x1,
    ensures
        decodes(opcode, d),
{
    match opcode {
        0x10 => entry(2, 2, AddrMode::Rel, Instruction::Bpl),
        0x11 => entry(5, 2, AddrMode::Idy, Instruction::Ora),
        0x13 => entry(8, 2, AddrMode::Idy, Instruction::Slo),
        0x14 => entry(3, 2, AddrMode::Imp, Instruction::Dop),
        0x15 => entry(4, 2, AddrMode::Zpx, Instruction::Ora),
        0x16 => entry(6, 2, AddrMode::Zpx, Instruction::Asl),
        0x17 => entry(6, 2, AddrMode::Zpx, Instruction::Slo),
        0x18 => entry(2, 1, AddrMode::Imp, Instruction::Clc),
        0x19 => entry(4, 3, AddrMode::Aby, Instruction::Ora),
        0x1a => entry(2, 1, AddrMode::Imp, Instruction::Nop),
        0x1b => entry(7, 3, AddrMode::Aby, Instruction::Slo),
        0x1c => entry(4, 3, AddrMode::Imp, Instruction::Top),
        0x1d => entry(4, 3, AddrMode::Abx, Instruction::Ora),
        0x1e => entry(7, 3, AddrMode::Abx, Instruction::Asl),
        0x1f => entry(7, 3, AddrMode::Abx, Instruction::Slo),
        _ => entry(2, 1, AddrMode::Xxx, Instruction::Xxx),
    }
}

/// The opcodes 0x20 to 0x2F.
fn decode_row_2(opcode: u8) -> (d: DecodedOpcode)
    requires
        opcode / 16 == 0x2,
    ensures
        decodes(opcode, d),
{
    match opcode {
        0x20 => entry(6, 3, AddrMode::Abs, Instruction::Jsr),
        0x21 => entry(6, 2, AddrMode::Idx, Instruction::And),
        0x23 => entry(8, 2, AddrMode::Idx, Instruction::Rla),
        0x24 => entry(3, 2, AddrMode::Zpg, Instruction::Bit),
        0x25 => entry(3, 2, AddrMode::Zpg, Instruction::And),
        0x26 => entry(5, 2, AddrMode::Zpg, Instruction::Rol),
        0x27 => entry(5, 2, AddrMode::Zpg, Instruction::Rla),
        0x28 => entry(4, 1, AddrMode::Imp, Instruction::Plp),
        0x29 => entry(2, 2, AddrMode::Imm, Instruction::And),
        0x2a => entry(2, 1, AddrMode::Imp, Instruction::Rol),
        0x2c => entry(4, 3, AddrMode::Abs, Instruction::Bit),
        0x2d => entry(4, 3, AddrMode::Abs, Instruction::And),
        0x2e => entry(6, 3, AddrMode::Abs, Instruction::Rol),
        0x2f => entry(6, 3, AddrMode::Abs, Instruction::Rla),
        _ => entry(2, 1, AddrMode::Xxx, Instruction::Xxx),
    }
}

/// The opcodes 0x30 to 0x3F.
fn decode_row_3(opcode: u8) -> (d: DecodedOpcode)
    requires
        opcode / 16 == 0x3,
    ensures
        decodes(opcode, d),
{
    match opcode {
        0x30 => entry(2, 2, AddrMode::Rel, Instruction::Bmi),
        0x31 => entry(5, 2, AddrMode::Idy, Instruction::And),
        0x33 => entry(8, 2, AddrMode::Idy, Instruction::Rla),
        0x34 => entry(3, 2, AddrMode::Imp, Instruction::Dop),
        0x35 => entry(4, 2, AddrMode::Zpx, Instruction::And),
        0x36 => entry(6, 2, AddrMode::Zpx, Instruction::Rol),
        0x37 => entry(6, 2, AddrMode::Zpx, Instruction::Rla),
        0x38 => entry(2, 1, AddrMode::Imp, Instruction::Sec),
        0x39 => entry(4, 3, AddrMode::Aby, Instruction::And),
        0x3a => entry(2, 1, AddrMode::Imp, Instruction::Nop),
        0x3b => entry(7, 3, AddrMode::Aby, Instruction::Rla),
        0x3c => entry(4, 3, AddrMode::Imp, Instruction::Top),
        0x3d => entry(4, 3, AddrMode::Abx, Instruction::And),
        0x3e => entry(7, 3, AddrMode::Abx, Instruction::Rol),
        0x3f => entry(7, 3, AddrMode::Abx, Instruction::Rla),
        _ => entry(2, 1, AddrMode::Xxx, Instruction::Xxx),
    }
}

/// The opcodes 0x40 to 0x4F.
fn decode_row_4(opcode: u8) -> (d: DecodedOpcode)
    requires
        opcode / 16 == 0x4,
    ensures
        decodes(opcode, d),
{
    match opcode {
        0x40 => entry(6, 1, AddrMode::Imp, Instruction::Rti),
        0x41 => entry(6, 2, AddrMode::Idx, Instruction::Eor),
        0x43 => entry(8, 2, AddrMode::Idx, Instruction::Sre),
        0x44 => entry(3, 2, AddrMode::Imp, Instruction::Dop),
        0x45 => entry(3, 2, AddrMode::Zpg, Instruction::Eor),
        0x46 => entry(5, 2, AddrMode::Zpg, Instruction::Lsr),
        0x47 => entry(5, 2, AddrMode::Zpg, Instruction::Sre),
        0x48 => entry(3, 1, AddrMode::Imp, Instruction::Pha),
        0x49 => entry(2, 2, AddrMode::Imm, Instruction::Eor),
        0x4a => entry(2, 1, AddrMode::Imp, Instruction::Lsr),
        0x4c => entry(3, 3, AddrMode::Abs, Instruction::Jmp),
        0x4d => entry(4, 3, AddrMode::Abs, Instruction::Eor),
        0x4e => entry(6, 3, AddrMode::Abs, Instruction::Lsr),
        0x4f => entry(6, 3, AddrMode::Abs, Instruction::Sre),
        _ => entry(2, 1, AddrMode::Xxx, Instruction::Xxx),
    }
}

/// The opcodes 0x50 to 0x5F.
fn decode_row_5(opcode: u8) -> (d: DecodedOpcode)
    requires
        opcode / 16 == 0x5,
    ensures
        decodes(opcode, d),
{
    match opcode {
        0x50 => entry(2, 2, AddrMode::Rel, Instruction::Bvc),
        0x51 => entry(5, 2, AddrMode::Idy, Instruction::Eor),
        0x53 => entry(8, 2, AddrMode::Idy, Instruction::Sre),
        0x54 => entry(3, 2, AddrMode::Imp, Instruction::Dop),
        0x55 => entry(4, 2, AddrMode::Zpx, Instruction::Eor),
        0x56 => entry(6, 2, AddrMode::Zpx, Instruction::Lsr),
        0x57 => entry(6, 2, AddrMode::Zpx, Instruction::Sre),
        0x58 => entry(2, 1, AddrMode::Imp, Instruction::Cli),
        0x59 => entry(4, 3, AddrMode::Aby, Instruction::Eor),
        0x5a => entry(2, 1, AddrMode::Imp, Instruction::Nop),
        0x5b => entry(7, 3, AddrMode::Aby, Instruction::Sre),
        0x5c => entry(4, 3, AddrMode::Imp, Instruction::Top),
        0x5d => entry(4, 3, AddrMode::Abx, Instruction::Eor),
        0x5e => entry(7, 3, AddrMode::Abx, Instruction::Lsr),
        0x5f => entry(7, 3, AddrMode::Abx, Instruction::Sre),
        _ => entry(2, 1, AddrMode::Xxx, Instruction::Xxx),
    }
}

/// The opcodes 0x60 to 0x6F.
fn decode_row_6(opcode: u8) -> (d: DecodedOpcode)
    requires
        opcode / 16 == 0x6,
    ensures
        decodes(opcode, d),
{
    match opcode {
        0x60 => entry(6, 1, AddrMode::Imp, Instruction::Rts),
        0x61 => entry(6, 2, AddrMode::Idx, Instruction::Adc),
        0x63 => entry(8, 2, AddrMode::Idx, Instruction::Rra),
        0x64 => entry(3, 2, AddrMode::Imp, Instruction::Dop),
        0x65 => entry(3, 2, AddrMode::Zpg, Instruction::Adc),
        0x66 => entry(5, 2, AddrMode::Zpg, Instruction::Ror),
        0x67 => entry(5, 2, AddrMode::Zpg, Instruction::Rra),
        0x68 => entry(4, 1, AddrMode::Imp, Instruction::Pla),
        0x69 => entry(2, 2, AddrMode::Imm, Instruction::Adc),
        0x6a => entry(2, 1, AddrMode::Imp, Instruction::Ror),
        0x6c => entry(5, 3, AddrMode::Ind, Instruction::Jmp),
        0x6d => entry(4, 3, AddrMode::Abs, Instruction::Adc),
        0x6e => entry(6, 3, AddrMode::Abs, Instruction::Ror),
        0x6f => entry(6, 3, AddrMode::Abs, Instruction::Rra),
        _ => entry(2, 1, AddrMode::Xxx, Instruction::Xxx),
    }
}

/// The opcodes 0x70 to 0x7F.
fn decode_row_7(opcode: u8) -> (d: DecodedOpcode)
    requires
        opcode / 16 == 0x7,
    ensures
        decodes(opcode, d),
{
    match opcode {
        0x70 => entry(2, 2, AddrMode::Rel, Instruction::Bvs),
        0x71 => entry(5, 2, AddrMode::Idy, Instruction::Adc),
        0x73 => entry(8, 2, AddrMode::Idy, Instruction::Rra),
        0x74 => entry(3, 2, AddrMode::Imp, Instruction::Dop),
        0x75 => entry(4, 2, AddrMode::Zpx, Instruction::Adc),
        0x76 => entry(6, 2, AddrMode::Zpx, Instruction::Ror),
        0x77 => entry(6, 2, AddrMode::Zpx, Instruction::Rra),
        0x78 => entry(2, 1, AddrMode::Imp, Instruction::Sei),
        0x79 => entry(4, 3, AddrMode::Aby, Instruction::Adc),
        0x7a => entry(2, 1, AddrMode::Imp, Instruction::Nop),
        0x7b => entry(7, 3, AddrMode::Aby, Instruction::Rra),
        0x7c => entry(4, 3, AddrMode::Imp, Instruction::Top),
        0x7d => entry(4, 3, AddrMode::Abx, Instruction::Adc),
        0x7e => entry(7, 3, AddrMode::Abx, Instruction::Ror),
        0x7f => entry(7, 3, AddrMode::Abx, Instruction::Rra),
        _ => entry(2, 1, AddrMode::Xxx, Instruction::Xxx),
    }
}

/// The opcodes 0x80 to 0x8F.
fn decode_row_8(opcode: u8) -> (d: DecodedOpcode)
    requires
        opcode / 16 == 0x8,
    ensures
        decodes(opcode, d),
{
    match opcode {
        0x80 => entry(3, 2, AddrMode::Imp, Instruction::Dop),
        0x81 => entry(6, 2, AddrMode::Idx, Instruction::Sta),
        0x82 => entry(3, 2, AddrMode::Imp, Instruction::Dop),
        0x83 => entry(6, 2, AddrMode::Idx, Instruction::Sax),
        0x84 => entry(3, 2, AddrMode::Zpg, Instruction::Sty),
        0x85 => entry(3, 2, AddrMode::Zpg, Instruction::Sta),
        0x86 => entry(3, 2, AddrMode::Zpg, Instruction::Stx),
        0x87 => entry(3, 2, AddrMode::Zpg, Instruction::Sax),
        0x88 => entry(2, 1, AddrMode::Imp, Instruction::Dey),
        0x89 => entry(3, 2, AddrMode::Imp, Instruction::Dop),
        0x8a => entry(2, 1, AddrMode::Imp, Instruction::Txa),
        0x8c => entry(4, 3, AddrMode::Abs, Instruction::Sty),
        0x8d => entry(4, 3, AddrMode::Abs, Instruction::Sta),
        0x8e => entry(4, 3, AddrMode::Abs, Instruction::Stx),
        0x8f => entry(4, 3, AddrMode::Abs, Instruction::Sax),
        _ => entry(2, 1, AddrMode::Xxx, Instruction::Xxx),
    }
}

/// The opcodes 0x90 to 0x9F.
fn decode_row_9(opcode: u8) -> (d: DecodedOpcode)
    requires
        opcode / 16 == 0x9,
    ensures
        decodes(opcode, d),
{
    match opcode {
        0x90 => entry(2, 2, AddrMode::Rel, Instruction::Bcc),
        0x91 => entry(6, 2, AddrMode::Idy, Instruction::Sta),
        0x94 => entry(4, 2, AddrMode::Zpx, Instruction::Sty),
        0x95 => entry(4, 2, AddrMode::Zpx, Instruction::Sta),
        0x96 => entry(4, 2, AddrMode::Zpy, Instruction::Stx),
        0x97 => entry(4, 2, AddrMode::Zpy, Instruction::Sax),
        0x98 => entry(2, 1, AddrMode::Imp, Instruction::Tya),
        0x99 => entry(5, 3, AddrMode::Aby, Instruction::Sta),
        0x9a => entry(2, 1, AddrMode::Imp, Instruction::Txs),
        0x9d => entry(5, 3, AddrMode::Abx, Instruction::Sta),
        _ => entry(2, 1, AddrMode::Xxx, Instruction::Xxx),
    }
}

/// The opcodes 0xA0 to 0xAF.
fn decode_row_a(opcode: u8) -> (d: DecodedOpcode)
    requires
        opcode / 16 == 0xa,
    ensures
        decodes(opcode, d),
{
    match opcode {
        0xa0 => entry(2, 2, AddrMode::Imm, Instruction::Ldy),
        0xa1 => entry(6, 2, AddrMode::Idx, Instruction::Lda),
        0xa2 => entry(2, 2, AddrMode::Imm, Instruction::Ldx),
        0xa3 => entry(6, 2, AddrMode::Idx, Instruction::Lax),
        0xa4 => entry(3, 2, AddrMode::Zpg, Instruction::Ldy),
        0xa5 => entry(3, 2, AddrMode::Zpg, Instruction::Lda),
        0xa6 => entry(3, 2, AddrMode::Zpg, Instruction::Ldx),
        0xa7 => entry(3, 2, AddrMode::Zpg, Instruction::Lax),
        0xa8 => entry(2, 1, AddrMode::Imp, Instruction::Tay),
        0xa9 => entry(2, 2, AddrMode::Imm, Instruction::Lda),
        0xaa => entry(2, 1, AddrMode::Imp, Instruction::Tax),
        0xac => entry(4, 3, AddrMode::Abs, Instruction::Ldy),
        0xad => entry(4, 3, AddrMode::Abs, Instruction::Lda),
        0xae => entry(4, 3, AddrMode::Abs, Instruction::Ldx),
        0xaf => entry(4, 3, AddrMode::Abs, Instruction::Lax),
        _ => entry(2, 1, AddrMode::Xxx, Instruction::Xxx),
    }
}

/// The opcodes 0xB0 to 0xBF.
fn decode_row_b(opcode: u8) -> (d: DecodedOpcode)
    requires
        opcode / 16 == 0xb,
    ensures
        decodes(opcode, d),
{
    match opcode {
        0xb0 => entry(2, 2, AddrMode::Rel, Instruction::Bcs),
        0xb1 => entry(5, 2, AddrMode::Idy, Instruction::Lda),
        0xb3 => entry(5, 2, AddrMode::Idy, Instruction::Lax),
        0xb4 => entry(4, 2, AddrMode::Zpx, Instruction::Ldy),
        0xb5 => entry(4, 2, AddrMode::Zpx, Instruction::Lda),
        0xb6 => entry(4, 2, AddrMode::Zpy, Instruction::Ldx),
        0xb7 => entry(4, 2, AddrMode::Zpy, Instruction::Lax),
        0xb8 => entry(2, 1, AddrMode::Imp, Instruction::Clv),
        0xb9 => entry(4, 3, AddrMode::Aby, Instruction::Lda),
        0xba => entry(2, 1, AddrMode::Imp, Instruction::Tsx),
        0xbc => entry(4, 3, AddrMode::Abx, Instruction::Ldy),
        0xbd => entry(4, 3, AddrMode::Abx, Instruction::Lda),
        0xbe => entry(4, 3, AddrMode::Aby, Instruction::Ldx),
        0xbf => entry(4, 3, AddrMode::Aby, Instruction::Lax),
        _ => entry(2, 1, AddrMode::Xxx, Instruction::Xxx),
    }
}

/// The opcodes 0xC0 to 0xCF.
fn decode_row_c(opcode: u8) -> (d: DecodedOpcode)
    requires
        opcode / 16 == 0xc,
    ensures
        decodes(opcode, d),
{
    match opcode {
        0xc0 => entry(2, 2, AddrMode::Imm, Instruction::Cpy),
        0xc1 => entry(6, 2, AddrMode::Idx, Instruction::Cmp),
        0xc2 => entry(3, 2, AddrMode::Imp, Instruction::Dop),
        0xc3 => entry(8, 2, AddrMode::Idx, Instruction::Dcp),
        0xc4 => entry(3, 2, AddrMode::Zpg, Instruction::Cpy),
        0xc5 => entry(3, 2, AddrMode::Zpg, Instruction::Cmp),
        0xc6 => entry(5, 2, AddrMode::Zpg, Instruction::Dec),
        0xc7 => entry(5, 2, AddrMode::Zpg, Instruction::Dcp),
        0xc8 => entry(2, 1, AddrMode::Imp, Instruction::Iny),
        0xc9 => entry(2, 2, AddrMode::Imm, Instruction::Cmp),
        0xca => entry(2, 1, AddrMode::Imp, Instruction::Dex),
        0xcc => entry(4, 3, AddrMode::Abs, Instruction::Cpy),
        0xcd => entry(4, 3, AddrMode::Abs, Instruction::Cmp),
        0xce => entry(6, 3, AddrMode::Abs, Instruction::Dec),
        0xcf => entry(6, 3, AddrMode::Abs, Instruction::Dcp),
        _ => entry(2, 1, AddrMode::Xxx, Instruction::Xxx),
    }
}

/// The opcodes 0xD0 to 0xDF.
fn decode_row_d(opcode: u8) -> (d: DecodedOpcode)
    requires
        opcode / 16 == 0xd,
    ensures
        decodes(opcode, d),
{
    match opcode {
        0xd0 => entry(2, 2, AddrMode::Rel, Instruction::Bne),
        0xd1 => entry(5, 2, AddrMode::Idy, Instruction::Cmp),
        0xd3 => entry(8, 2, AddrMode::Idy, Instruction::Dcp),
        0xd4 => entry(3, 2, AddrMode::Imp, Instruction::Dop),
        0xd5 => entry(4, 2, AddrMode::Zpx, Instruction::Cmp),
        0xd6 => entry(6, 2, AddrMode::Zpx, Instruction::Dec),
        0xd7 => entry(6, 2, AddrMode::Zpx, Instruction::Dcp),
        0xd8 => entry(2, 1, AddrMode::Imp, Instruction::Cld),
        0xd9 => entry(4, 3, AddrMode::Aby, Instruction::Cmp),
        0xda => entry(2, 1, AddrMode::Imp, Instruction::Nop),
        0xdb => entry(7, 3, AddrMode::Aby, Instruction::Dcp),
        0xdc => entry(4, 3, AddrMode::Imp, Instruction::Top),
        0xdd => entry(4, 3, AddrMode::Abx, Instruction::Cmp),
        0xde => entry(7, 3, AddrMode::Abx, Instruction::Dec),
        0xdf => entry(7, 3, AddrMode::Abx, Instruction::Dcp),
        _ => entry(2, 1, AddrMode::Xxx, Instruction::Xxx),
    }
}

/// The opcodes 0xE0 to 0xEF.
fn decode_row_e(opcode: u8) -> (d: DecodedOpcode)
    requires
        opcode / 16 == 0xe,
    ensures
        decodes(opcode, d),
{
    match opcode {
        0xe0 => entry(2, 2, AddrMode::Imm, Instruction::Cpx),
        0xe1 => entry(6, 2, AddrMode::Idx, Instruction::Sbc),
        0xe2 => entry(3, 2, AddrMode::Imp, Instruction::Dop),
        0xe3 => entry(8, 2, AddrMode::Idx, Instruction::Isb),
        0xe4 => entry(3, 2, AddrMode::Zpg, Instruction::Cpx),
        0xe5 => entry(3, 2, AddrMode::Zpg, Instruction::Sbc),
        0xe6 => entry(5, 2, AddrMode::Zpg, Instruction::Inc),
        0xe7 => entry(5, 2, AddrMode::Zpg, Instruction::Isb),
        0xe8 => entry(2, 1, AddrMode::Imp, Instruction::Inx),
        0xe9 => entry(2, 2, AddrMode::Imm, Instruction::Sbc),
        0xea => entry(2, 1, AddrMode::Imp, Instruction::Nop),
        0xeb => entry(2, 2, AddrMode::Imm, Instruction::Sbc),
        0xec => entry(4, 3, AddrMode::Abs, Instruction::Cpx),
        0xed => entry(4, 3, AddrMode::Abs, Instruction::Sbc),
        0xee => entry(6, 3, AddrMode::Abs, Instruction::Inc),
        0xef => entry(6, 3, AddrMode::Abs, Instruction::Isb),
        _ => entry(2, 1, AddrMode::Xxx, Instruction::Xxx),
    }
}

/// The opcodes 0xF0 to 0xFF.
fn decode_row_f(opcode: u8) -> (d: DecodedOpcode)
    requires
        opcode / 16 == 0xf,
    ensures
        decodes(opcode, d),
{
    match opcode {
        0xf0 => entry(2, 2, AddrMode::Rel, Instruction::Beq),
        0xf1 => entry(5, 2, AddrMode::Idy, Instruction::Sbc),
        0xf3 => entry(8, 2, AddrMode::Idy, Instruction::Isb),
        0xf4 => entry(3, 2, AddrMode::Imp, Instruction::Dop),
        0xf5 => entry(4, 2, AddrMode::Zpx, Instruction::Sbc),
        0xf6 => entry(6, 2, AddrMode::Zpx, Instruction::Inc),
        0xf7 => entry(6, 2, AddrMode::Zpx, Instruction::Isb),
        0xf8 => entry(2, 1, AddrMode::Imp, Instruction::Sed),
        0xf9 => entry(4, 3, AddrMode::Aby, Instruction::Sbc),
        0xfa => entry(2, 1, AddrMode::Imp, Instruction::Nop),
        0xfb => entry(7, 3, AddrMode::Aby, Instruction::Isb),
        0xfc => entry(4, 3, AddrMode::Imp, Instruction::Top),
        0xfd => entry(4, 3, AddrMode::Abx, Instruction::Sbc),
        0xfe => entry(7, 3, AddrMode::Abx, Instruction::Inc),
        0xff => entry(7, 3, AddrMode::Abx, Instruction::Isb),
        _ => entry(2, 1, AddrMode::Xxx, Instruction::Xxx),
    }
}

/// Every instruction takes 2 to 8 cycles and 1 to 3 bytes.
pub proof fn lemma_decoded_bounds(instruction: Instruction, mode: AddrMode)
    ensures
        2 <= base_cycles(instruction, mode) <= 8,
        1 <= instruction_len(instruction, mode) <= 3,
{
}

/// Looks an opcode up in the instruction table.
pub fn decode(opcode: u8) -> (d: DecodedOpcode)
    ensures
        decodes(opcode, d),
        2 <= d.cycles <= 8,
        1 <= d.bytes <= 3,
{
    let d = match opcode / 16 {
        0x0 => decode_row_0(opcode),
        0x1 => decode_row_1(opcode),
        0x2 => decode_row_2(opcode),
        0x3 => decode_row_3(opcode),
        0x4 => decode_row_4(opcode),
        0x5 => decode_row_5(opcode),
        0x6 => decode_row_6(opcode),
        0x7 => decode_row_7(opcode),
        0x8 => decode_row_8(opcode),
        0x9 => decode_row_9(opcode),
        0xa => decode_row_a(opcode),
        0xb => decode_row_b(opcode),
        0xc => decode_row_c(opcode),
        0xd => decode_row_d(opcode),
        0xe => decode_row_e(opcode),
        _ => decode_row_f(opcode),
    };
    proof {
        lemma_decoded_bounds(d.instruction, d.addr_mode);
    }
    d
}

/// The console after `instruction` was carried out on the operand that the
/// addressing mode located.
pub open spec fn spec_execute(v: ConsoleView, instruction: Instruction) -> (ConsoleView, Result<
    (),
    NesError,
>) {
    match instruction {
        Instruction::Adc => instructions::spec_adc(v),
        Instruction::And => instructions::spec_and(v),
        Instruction::Asl => instructions::spec_asl(v),
        Instruction::Bcc => instructions::spec_bcc(v),
        Instruction::Bcs => instructions::spec_bcs(v),
        Instruction::Beq => instructions::spec_beq(v),
        Instruction::Bit => instructions::spec_bit(v),
        Instruction::Bmi => instructions::spec_bmi(v),
        Instruction::Bne => instructions::spec_bne(v),
        Instruction::Bpl => instructions::spec_bpl(v),
        Instruction::Brk => instructions::spec_brk(v),
        Instruction::Bvc => instructions::spec_bvc(v),
        Instruction::Bvs => instructions::spec_bvs(v),
        Instruction::Clc => instructions::spec_clc(v),
        Instruction::Cld => instructions::spec_cld(v),
        Instruction::Cli => instructions::spec_cli(v),
        Instruction::Clv => instructions::spec_clv(v),
        Instruction::Cmp => instructions::spec_cmp(v),
        Instruction::Cpx => instructions::spec_cpx(v),
        Instruction::Cpy => instructions::spec_cpy(v),
        Instruction::Dec => instructions::spec_dec(v),
        Instruction::Dex => instructions::spec_dex(v),
        Instruction::Dey => instructions::spec_dey(v),
        Instruction::Eor => instructions::spec_eor(v),
        Instruction::Inc => instructions::spec_inc(v),
        Instruction::Inx => instructions::spec_inx(v),
        Instruction::Iny => instructions::spec_iny(v),
        Instruction::Jmp => instructions::spec_jmp(v),
        Instruction::Jsr => instructions::spec_jsr(v),
        Instruction::Lda => instructions::spec_lda(v),
        Instruction::Ldx => instructions::spec_ldx(v),
        Instruction::Ldy => instructions::spec_ldy(v),
        Instruction::Lsr => instructions::spec_lsr(v),
        Instruction::Nop => instructions::spec_nop(v),
        Instruction::Ora => instructions::spec_ora(v),
        Instruction::Pha => instructions::spec_pha(v),
        Instruction::Php => instructions::spec_php(v),
        Instruction::Pla => instructions::spec_pla(v),
        Instruction::Plp => instructions::spec_plp(v),
        Instruction::Rol => instructions::spec_rol(v),
        Instruction::Ror => instructions::spec_ror(v),
        Instruction::Rti => instructions::spec_rti(v),
        Instruction::Rts => instructions::spec_rts(v),
        Instruction::Sbc => instructions::spec_sbc(v),
        Instruction::Sec => instructions::spec_sec(v),
        Instruction::Sed => instructions::spec_sed(v),
        Instruction::Sei => instructions::spec_sei(v),
        Instruction::Sta => instructions::spec_sta(v),
        Instruction::Stx => instructions::spec_stx(v),
        Instruction::Sty => instructions::spec_sty(v),
        Instruction::Tax => instructions::spec_tax(v),
        Instruction::Tay => instructions::spec_tay(v),
        Instruction::Tsx => instructions::spec_tsx(v),
        Instruction::Txa => instructions::spec_txa(v),
        Instruction::Txs => instructions::spec_txs(v),
        Instruction::Tya => instructions::spec_tya(v),
        Instruction::Xxx => instructions::spec_xxx(v),
        Instruction::Dcp => instructions::spec_dcp(v),
        Instruction::Dop => instructions::spec_dop(v),
        Instruction::Isb => instructions::spec_isb(v),
        Instruction::Lax => instructions::spec_lax(v),
        Instruction::Rla => instructions::spec_rla(v),
        Instruction::Rra => instructions::spec_rra(v),
        Instruction::Sax => instructions::spec_sax(v),
        Instruction::Slo => instructions::spec_slo(v),
        Instruction::Sre => instructions::spec_sre(v),
        Instruction::Top => instructions::spec_top(v),
    }
}

/// Carries `instruction` out on the operand that the addressing mode
/// located.
pub fn execute(c: &mut Console, instruction: Instruction) -> (res: Result<(), NesError>)
    requires
        old(c).cpu.cycles < 255,
    ensures
        (final(c)@, res) == spec_execute(old(c)@, instruction),
        keeps_break_clear(old(c).cpu, final(c).cpu),
{
    match instruction {
        Instruction::Adc => instructions::adc(c),
        Instruction::And => instructions::and(c),
        Instruction::Asl => instructions::asl(c),
        Instruction::Bcc => instructions::bcc(c),
        Instruction::Bcs => instructions::bcs(c),
        Instruction::Beq => instructions::beq(c),
        Instruction::Bit => instructions::bit(c),
        Instruction::Bmi => instructions::bmi(c),
        Instruction::Bne => instructions::bne(c),
        Instruction::Bpl => instructions::bpl(c),
        Instruction::Brk => instructions::brk(c),
        Instruction::Bvc => instructions::bvc(c),
        Instruction::Bvs => instructions::bvs(c),
        Instruction::Clc => instructions::clc(c),
        Instruction::Cld => instructions::cld(c),
        Instruction::Cli => instructions::cli(c),
        Instruction::Clv => instructions::clv(c),
        Instruction::Cmp => instructions::cmp(c),
        Instruction::Cpx => instructions::cpx(c),
        Instruction::Cpy => instructions::cpy(c),
        Instruction::Dec => instructions::dec(c),
        Instruction::Dex => instructions::dex(c),
        Instruction::Dey => instructions::dey(c),
        Instruction::Eor => instructions::eor(c),
        Instruction::Inc => instructions::inc(c),
        Instruction::Inx => instructions::inx(c),
        Instruction::Iny => instructions::iny(c),
        Instruction::Jmp => instructions::jmp(c),
        Instruction::Jsr => instructions::jsr(c),
        Instruction::Lda => instructions::lda(c),
        Instruction::Ldx => instructions::ldx(c),
        Instruction::Ldy => instructions::ldy(c),
        Instruction::Lsr => instructions::lsr(c),
        Instruction::Nop => instructions::nop(c),
        Instruction::Ora => instructions::ora(c),
        Instruction::Pha => instructions::pha(c),
        Instruction::Php => instructions::php(c),
        Instruction::Pla => instructions::pla(c),
        Instruction::Plp => instructions::plp(c),
        Instruction::Rol => instructions::rol(c),
        Instruction::Ror => instructions::ror(c),
        Instruction::Rti => instructions::rti(c),
        Instruction::Rts => instructions::rts(c),
        Instruction::Sbc => instructions::sbc(c),
        Instruction::Sec => instructions::sec(c),
        Instruction::Sed => instructions::sed(c),
        Instruction::Sei => instructions::sei(c),
        Instruction::Sta => instructions::sta(c),
        Instruction::Stx => instructions::stx(c),
        Instruction::Sty => instructions::sty(c),
        Instruction::Tax => instructions::tax(c),
        Instruction::Tay => instructions::tay(c),
        Instruction::Tsx => instructions::tsx(c),
        Instruction::Txa => instructions::txa(c),
        Instruction::Txs => instructions::txs(c),
        Instruction::Tya => instructions::tya(c),
        Instruction::Xxx => instructions::xxx(c),
        Instruction::Dcp => instructions::dcp(c),
        Instruction::Dop => instructions::dop(c),
        Instruction::Isb => instructions::isb(c),
        Instruction::Lax => instructions::lax(c),
        Instruction::Rla => instructions::rla(c),
        Instruction::Rra => instructions::rra(c),
        Instruction::Sax => instructions::sax(c),
        Instruction::Slo => instructions::slo(c),
        Instruction::Sre => instructions::sre(c),
        Instruction::Top => instructions::top(c),
    }
}

} // verus!
