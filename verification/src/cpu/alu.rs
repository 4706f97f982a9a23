use vstd::prelude::*;
use crate::cpu::{addr_plus, break_clear, Cpu, CpuFlag};

verus! {

/// Whether the B flag, where it was clear before, is clear after.
pub open spec fn keeps_break_clear(before: Cpu, after: Cpu) -> bool {
    break_clear(before.status) ==> break_clear(after.status)
}

/// What an arithmetic shift left makes of a byte, and the bit that falls
/// out.
pub open spec fn asl_of(data: u8) -> (u8, bool) {
    (((data * 2) % 256) as u8, data >= 0x80)
}

/// What a logical shift right makes of a byte, and the bit that falls out.
pub open spec fn lsr_of(data: u8) -> (u8, bool) {
    ((data / 2) as u8, data % 2 == 1)
}

/// What a rotation to the left through the carry makes of a byte, and the
/// bit that falls out.
pub open spec fn rol_of(data: u8, carry: u8) -> (u8, bool) {
    (((data * 2 + carry) % 256) as u8, data >= 0x80)
}

/// What a rotation to the right through the carry makes of a byte, and the
/// bit that falls out.
pub open spec fn ror_of(data: u8, carry: u8) -> (u8, bool) {
    ((data / 2 + carry * 128) as u8, data % 2 == 1)
}

impl Cpu {
    /// The registers after `add_operand`.
    pub open spec fn spec_add_operand(self, operand: u8) -> Cpu {
        let sum = self.ac + operand + self.spec_carry();
        let result = (sum % 256) as u8;
        let overflow = (self.ac >= 0x80) == (operand >= 0x80) && (self.ac >= 0x80) != (result
            >= 0x80);
        Cpu { ac: result, ..self }.spec_set_flag(CpuFlag::C, sum > 255).spec_set_flag(
            CpuFlag::V,
            overflow,
        ).spec_set_zn(result)
    }

    /// Adds `operand` and the carry to the accumulator. C is the carry out of
    /// bit 7; V is set where both summands have the same sign and the sum has
    /// the other; Z and N follow the sum.
    pub fn add_operand(&mut self, operand: u8)
        ensures
            *final(self) == old(self).spec_add_operand(operand),
            keeps_break_clear(*old(self), *final(self)),
    {
        let sum: u16 = self.ac as u16 + operand as u16 + self.carry() as u16;
        let result: u8 = (sum % 256) as u8;
        let overflow = (self.ac >= 0x80) == (operand >= 0x80) && (self.ac >= 0x80) != (result
            >= 0x80);
        self.ac = result;
        self.set_flag(CpuFlag::C, sum > 255);
        self.set_flag(CpuFlag::V, overflow);
        self.set_zn(result);
    }

    /// The registers after `compare`.
    pub open spec fn spec_compare(self, reg: u8, operand: u8) -> Cpu {
        self.spec_set_flag(CpuFlag::C, reg >= operand).spec_set_zn(((reg - operand) % 256) as u8)
    }

    /// Compares `reg` with `operand`: C where `reg` is not below it, Z and N
    /// from their difference.
    pub fn compare(&mut self, reg: u8, operand: u8)
        ensures
            *final(self) == old(self).spec_compare(reg, operand),
            keeps_break_clear(*old(self), *final(self)),
    {
        self.set_flag(CpuFlag::C, reg >= operand);
        self.set_zn(reg.wrapping_sub(operand));
    }

    /// The registers after `set_czn`.
    pub open spec fn spec_set_czn(self, carry: bool, value: u8) -> Cpu {
        self.spec_set_flag(CpuFlag::C, carry).spec_set_zn(value)
    }

    /// Sets C to `carry`, and Z and N from `value`.
    pub fn set_czn(&mut self, carry: bool, value: u8)
        ensures
            *final(self) == old(self).spec_set_czn(carry, value),
            keeps_break_clear(*old(self), *final(self)),
    {
        self.set_flag(CpuFlag::C, carry);
        self.set_zn(value);
    }

    /// The registers after `branch_if`.
    pub open spec fn spec_branch_if(self, taken: bool) -> Cpu {
        if taken {
            Cpu { cycles: (self.cycles + 1) as u8, pc: addr_plus(self.pc, self.addr as int), ..self }
        } else {
            self
        }
    }

    /// Takes a branch where `taken`: one more cycle, and the program counter
    /// moves by the displacement.
    pub fn branch_if(&mut self, taken: bool)
        requires
            old(self).cycles < 255,
        ensures
            *final(self) == old(self).spec_branch_if(taken),
            keeps_break_clear(*old(self), *final(self)),
    {
        if taken {
            self.cycles = self.cycles + 1;
            self.pc = self.pc.wrapping_add(self.addr);
        }
    }

    /// The registers after `adc`.
    pub open spec fn spec_adc(self) -> Cpu {
        let added = self.spec_add_operand(self.data);
        Cpu { cycles: (added.cycles + 1) as u8, ..added }
    }

    /// ADC: adds the operand and the carry to the accumulator; one more cycle.
    pub fn adc(&mut self)
        requires
            old(self).cycles < 255,
        ensures
            *final(self) == old(self).spec_adc(),
            keeps_break_clear(*old(self), *final(self)),
    {
        let operand: u8 = self.data;
        self.add_operand(operand);
        self.cycles = self.cycles + 1;
    }

    /// The registers after `sbc`.
    pub open spec fn spec_sbc(self) -> Cpu {
        let added = self.spec_add_operand((255 - self.data) as u8);
        Cpu { cycles: (added.cycles + 1) as u8, ..added }
    }

    /// SBC: subtracts the operand and the borrow from the accumulator, which
    /// is adding the operand's complement; one more cycle.
    pub fn sbc(&mut self)
        requires
            old(self).cycles < 255,
        ensures
            *final(self) == old(self).spec_sbc(),
            keeps_break_clear(*old(self), *final(self)),
    {
        let operand: u8 = 255 - self.data;
        self.add_operand(operand);
        self.cycles = self.cycles + 1;
    }

    /// The registers after `and`.
    pub open spec fn spec_and(self) -> Cpu {
        Cpu { ac: self.ac & self.data, ..self }.spec_set_zn(self.ac & self.data)
    }

    /// AND: ANDs the operand into the accumulator.
    pub fn and(&mut self)
        ensures
            *final(self) == old(self).spec_and(),
            keeps_break_clear(*old(self), *final(self)),
    {
        self.ac = self.ac & self.data;
        let value: u8 = self.ac;
        self.set_zn(value);
    }

    /// The registers after `ora`.
    pub open spec fn spec_ora(self) -> Cpu {
        Cpu { ac: self.ac | self.data, ..self }.spec_set_zn(self.ac | self.data)
    }

    /// ORA: ORs the operand into the accumulator.
    pub fn ora(&mut self)
        ensures
            *final(self) == old(self).spec_ora(),
            keeps_break_clear(*old(self), *final(self)),
    {
        self.ac = self.ac | self.data;
        let value: u8 = self.ac;
        self.set_zn(value);
    }

    /// The registers after `eor`.
    pub open spec fn spec_eor(self) -> Cpu {
        Cpu { ac: self.ac ^ self.data, ..self }.spec_set_zn(self.ac ^ self.data)
    }

    /// EOR: XORs the operand into the accumulator.
    pub fn eor(&mut self)
        ensures
            *final(self) == old(self).spec_eor(),
            keeps_break_clear(*old(self), *final(self)),
    {
        self.ac = self.ac ^ self.data;
        let value: u8 = self.ac;
        self.set_zn(value);
    }

    /// The registers after `bit`.
    pub open spec fn spec_bit(self) -> Cpu {
        self.spec_set_flag(CpuFlag::Z, self.ac & self.data == 0).spec_set_flag(
            CpuFlag::N,
            self.data >= 0x80,
        ).spec_set_flag(CpuFlag::V, self.data & 0x40 != 0)
    }

    /// BIT: Z where the accumulator and the operand share no bit, N and V from
    /// bits 7 and 6 of the operand.
    pub fn bit(&mut self)
        ensures
            *final(self) == old(self).spec_bit(),
            keeps_break_clear(*old(self), *final(self)),
    {
        let shared: u8 = self.ac & self.data;
        let operand: u8 = self.data;
        self.set_flag(CpuFlag::Z, shared == 0);
        self.set_flag(CpuFlag::N, operand >= 0x80);
        self.set_flag(CpuFlag::V, operand & 0x40 != 0);
    }

    /// The registers after `compare_a`.
    pub open spec fn spec_compare_a(self) -> Cpu {
        let compared = self.spec_compare(self.ac, self.data);
        Cpu { cycles: (compared.cycles + 1) as u8, ..compared }
    }

    /// Compares the accumulator with the operand; one more cycle.
    pub fn compare_a(&mut self)
        requires
            old(self).cycles < 255,
        ensures
            *final(self) == old(self).spec_compare_a(),
            keeps_break_clear(*old(self), *final(self)),
    {
        let reg: u8 = self.ac;
        let operand: u8 = self.data;
        self.compare(reg, operand);
        self.cycles = self.cycles + 1;
    }

    /// The registers after `cpx`.
    pub open spec fn spec_cpx(self) -> Cpu {
        self.spec_compare(self.x, self.data)
    }

    /// CPX: compares X with the operand.
    pub fn cpx(&mut self)
        ensures
            *final(self) == old(self).spec_cpx(),
            keeps_break_clear(*old(self), *final(self)),
    {
        let reg: u8 = self.x;
        let operand: u8 = self.data;
        self.compare(reg, operand);
    }

    /// The registers after `cpy`.
    pub open spec fn spec_cpy(self) -> Cpu {
        self.spec_compare(self.y, self.data)
    }

    /// CPY: compares Y with the operand.
    pub fn cpy(&mut self)
        ensures
            *final(self) == old(self).spec_cpy(),
            keeps_break_clear(*old(self), *final(self)),
    {
        let reg: u8 = self.y;
        let operand: u8 = self.data;
        self.compare(reg, operand);
    }

    /// The registers after `lda`.
    pub open spec fn spec_lda(self) -> Cpu {
        Cpu { ac: self.data, ..self }.spec_set_zn(self.data)
    }

    /// LDA: loads the operand into the accumulator.
    pub fn lda(&mut self)
        ensures
            *final(self) == old(self).spec_lda(),
            keeps_break_clear(*old(self), *final(self)),
    {
        self.ac = self.data;
        let value: u8 = self.data;
        self.set_zn(value);
    }

    /// The registers after `ldx`.
    pub open spec fn spec_ldx(self) -> Cpu {
        Cpu { x: self.data, ..self }.spec_set_zn(self.data)
    }

    /// LDX: loads the operand into X.
    pub fn ldx(&mut self)
        ensures
            *final(self) == old(self).spec_ldx(),
            keeps_break_clear(*old(self), *final(self)),
    {
        self.x = self.data;
        let value: u8 = self.data;
        self.set_zn(value);
    }

    /// The registers after `ldy`.
    pub open spec fn spec_ldy(self) -> Cpu {
        Cpu { y: self.data, ..self }.spec_set_zn(self.data)
    }

    /// LDY: loads the operand into Y.
    pub fn ldy(&mut self)
        ensures
            *final(self) == old(self).spec_ldy(),
            keeps_break_clear(*old(self), *final(self)),
    {
        self.y = self.data;
        let value: u8 = self.data;
        self.set_zn(value);
    }

    /// The registers after `lax`.
    pub open spec fn spec_lax(self) -> Cpu {
        Cpu { ac: self.data, x: self.data, ..self }.spec_set_zn(self.data)
    }

    /// LAX: loads the operand into the accumulator and into X.
    pub fn lax(&mut self)
        ensures
            *final(self) == old(self).spec_lax(),
            keeps_break_clear(*old(self), *final(self)),
    {
        self.ac = self.data;
        self.x = self.data;
        let value: u8 = self.data;
        self.set_zn(value);
    }

    /// The registers after `clc`.
    pub open spec fn spec_clc(self) -> Cpu {
        self.spec_set_flag(CpuFlag::C, false)
    }

    /// CLC: clears the carry.
    pub fn clc(&mut self)
        ensures
            *final(self) == old(self).spec_clc(),
            keeps_break_clear(*old(self), *final(self)),
    {
        self.set_flag(CpuFlag::C, false);
    }

    /// The registers after `cld`.
    pub open spec fn spec_cld(self) -> Cpu {
        self.spec_set_flag(CpuFlag::D, false)
    }

    /// CLD: clears decimal mode.
    pub fn cld(&mut self)
        ensures
            *final(self) == old(self).spec_cld(),
            keeps_break_clear(*old(self), *final(self)),
    {
        self.set_flag(CpuFlag::D, false);
    }

    /// The registers after `cli`.
    pub open spec fn spec_cli(self) -> Cpu {
        self.spec_set_flag(CpuFlag::I, false)
    }

    /// CLI: lets interrupts through.
    pub fn cli(&mut self)
        ensures
            *final(self) == old(self).spec_cli(),
            keeps_break_clear(*old(self), *final(self)),
    {
        self.set_flag(CpuFlag::I, false);
    }

    /// The registers after `clv`.
    pub open spec fn spec_clv(self) -> Cpu {
        self.spec_set_flag(CpuFlag::V, false)
    }

    /// CLV: clears the overflow.
    pub fn clv(&mut self)
        ensures
            *final(self) == old(self).spec_clv(),
            keeps_break_clear(*old(self), *final(self)),
    {
        self.set_flag(CpuFlag::V, false);
    }

    /// The registers after `sec`.
    pub open spec fn spec_sec(self) -> Cpu {
        self.spec_set_flag(CpuFlag::C, true)
    }

    /// SEC: sets the carry.
    pub fn sec(&mut self)
        ensures
            *final(self) == old(self).spec_sec(),
            keeps_break_clear(*old(self), *final(self)),
    {
        self.set_flag(CpuFlag::C, true);
    }

    /// The registers after `sed`.
    pub open spec fn spec_sed(self) -> Cpu {
        self.spec_set_flag(CpuFlag::D, true)
    }

    /// SED: sets decimal mode.
    pub fn sed(&mut self)
        ensures
            *final(self) == old(self).spec_sed(),
            keeps_break_clear(*old(self), *final(self)),
    {
        self.set_flag(CpuFlag::D, true);
    }

    /// The registers after `sei`.
    pub open spec fn spec_sei(self) -> Cpu {
        self.spec_set_flag(CpuFlag::I, true)
    }

    /// SEI: holds interrupts off.
    pub fn sei(&mut self)
        ensures
            *final(self) == old(self).spec_sei(),
            keeps_break_clear(*old(self), *final(self)),
    {
        self.set_flag(CpuFlag::I, true);
    }

    /// The registers after `dex`.
    pub open spec fn spec_dex(self) -> Cpu {
        let value = ((self.x + 255) % 256) as u8;
        Cpu { x: value, ..self }.spec_set_zn(value)
    }

    /// DEX: takes one from X, wrapping.
    pub fn dex(&mut self)
        ensures
            *final(self) == old(self).spec_dex(),
            keeps_break_clear(*old(self), *final(self)),
    {
        self.x = self.x.wrapping_sub(1);
        let value: u8 = self.x;
        self.set_zn(value);
    }

    /// The registers after `dey`.
    pub open spec fn spec_dey(self) -> Cpu {
        let value = ((self.y + 255) % 256) as u8;
        Cpu { y: value, ..self }.spec_set_zn(value)
    }

    /// DEY: takes one from Y, wrapping.
    pub fn dey(&mut self)
        ensures
            *final(self) == old(self).spec_dey(),
            keeps_break_clear(*old(self), *final(self)),
    {
        self.y = self.y.wrapping_sub(1);
        let value: u8 = self.y;
        self.set_zn(value);
    }

    /// The registers after `inx`.
    pub open spec fn spec_inx(self) -> Cpu {
        let value = ((self.x + 1) % 256) as u8;
        Cpu { x: value, ..self }.spec_set_zn(value)
    }

    /// INX: adds one to X, wrapping.
    pub fn inx(&mut self)
        ensures
            *final(self) == old(self).spec_inx(),
            keeps_break_clear(*old(self), *final(self)),
    {
        self.x = self.x.wrapping_add(1);
        let value: u8 = self.x;
        self.set_zn(value);
    }

    /// The registers after `iny`.
    pub open spec fn spec_iny(self) -> Cpu {
        let value = ((self.y + 1) % 256) as u8;
        Cpu { y: value, ..self }.spec_set_zn(value)
    }

    /// INY: adds one to Y, wrapping.
    pub fn iny(&mut self)
        ensures
            *final(self) == old(self).spec_iny(),
            keeps_break_clear(*old(self), *final(self)),
    {
        self.y = self.y.wrapping_add(1);
        let value: u8 = self.y;
        self.set_zn(value);
    }

    /// The registers after `tax`.
    pub open spec fn spec_tax(self) -> Cpu {
        Cpu { x: self.ac, ..self }.spec_set_zn(self.ac)
    }

    /// TAX: copies the accumulator to X.
    pub fn tax(&mut self)
        ensures
            *final(self) == old(self).spec_tax(),
            keeps_break_clear(*old(self), *final(self)),
    {
        self.x = self.ac;
        let value: u8 = self.ac;
        self.set_zn(value);
    }

    /// The registers after `tay`.
    pub open spec fn spec_tay(self) -> Cpu {
        Cpu { y: self.ac, ..self }.spec_set_zn(self.ac)
    }

    /// TAY: copies the accumulator to Y.
    pub fn tay(&mut self)
        ensures
            *final(self) == old(self).spec_tay(),
            keeps_break_clear(*old(self), *final(self)),
    {
        self.y = self.ac;
        let value: u8 = self.ac;
        self.set_zn(value);
    }

    /// The registers after `tsx`.
    pub open spec fn spec_tsx(self) -> Cpu {
        Cpu { x: self.sp, ..self }.spec_set_zn(self.sp)
    }

    /// TSX: copies SP to X.
    pub fn tsx(&mut self)
        ensures
            *final(self) == old(self).spec_tsx(),
            keeps_break_clear(*old(self), *final(self)),
    {
        self.x = self.sp;
        let value: u8 = self.sp;
        self.set_zn(value);
    }

    /// The registers after `txa`.
    pub open spec fn spec_txa(self) -> Cpu {
        Cpu { ac: self.x, ..self }.spec_set_zn(self.x)
    }

    /// TXA: copies X to the accumulator.
    pub fn txa(&mut self)
        ensures
            *final(self) == old(self).spec_txa(),
            keeps_break_clear(*old(self), *final(self)),
    {
        self.ac = self.x;
        let value: u8 = self.x;
        self.set_zn(value);
    }

    /// The registers after `tya`.
    pub open spec fn spec_tya(self) -> Cpu {
        Cpu { ac: self.y, ..self }.spec_set_zn(self.y)
    }

    /// TYA: copies Y to the accumulator.
    pub fn tya(&mut self)
        ensures
            *final(self) == old(self).spec_tya(),
            keeps_break_clear(*old(self), *final(self)),
    {
        self.ac = self.y;
        let value: u8 = self.y;
        self.set_zn(value);
    }

    /// The registers after `txs`.
    pub open spec fn spec_txs(self) -> Cpu {
        Cpu { sp: self.x, ..self }
    }

    /// TXS: copies X to the stack pointer; no flag changes.
    pub fn txs(&mut self)
        ensures
            *final(self) == old(self).spec_txs(),
            keeps_break_clear(*old(self), *final(self)),
    {
        self.sp = self.x;
    }

    /// The registers after `jmp`.
    pub open spec fn spec_jmp(self) -> Cpu {
        Cpu { pc: self.addr, ..self }
    }

    /// JMP: continues at the effective address.
    pub fn jmp(&mut self)
        ensures
            *final(self) == old(self).spec_jmp(),
            keeps_break_clear(*old(self), *final(self)),
    {
        self.pc = self.addr;
    }

    /// The registers after `dop`.
    pub open spec fn spec_dop(self) -> Cpu {
        Cpu { pc: addr_plus(self.pc, 1), ..self }
    }

    /// DOP: skips the byte after the opcode.
    pub fn dop(&mut self)
        ensures
            *final(self) == old(self).spec_dop(),
            keeps_break_clear(*old(self), *final(self)),
    {
        self.pc = self.pc.wrapping_add(1);
    }

    /// The registers after `top`.
    pub open spec fn spec_top(self) -> Cpu {
        Cpu { pc: addr_plus(self.pc, 2), ..self }
    }

    /// TOP: skips the two bytes after the opcode.
    pub fn top(&mut self)
        ensures
            *final(self) == old(self).spec_top(),
            keeps_break_clear(*old(self), *final(self)),
    {
        self.pc = self.pc.wrapping_add(2);
    }

    /// The registers after `bcc`.
    pub open spec fn spec_bcc(self) -> Cpu {
        self.spec_branch_if(!self.spec_get_flag(CpuFlag::C))
    }

    /// BCC: branches where the carry is clear.
    pub fn bcc(&mut self)
        requires
            old(self).cycles < 255,
        ensures
            *final(self) == old(self).spec_bcc(),
            keeps_break_clear(*old(self), *final(self)),
    {
        let taken = !self.get_flag(CpuFlag::C);
        self.branch_if(taken);
    }

    /// The registers after `bcs`.
    pub open spec fn spec_bcs(self) -> Cpu {
        self.spec_branch_if(self.spec_get_flag(CpuFlag::C))
    }

    /// BCS: branches where the carry is set.
    pub fn bcs(&mut self)
        requires
            old(self).cycles < 255,
        ensures
            *final(self) == old(self).spec_bcs(),
            keeps_break_clear(*old(self), *final(self)),
    {
        let taken = self.get_flag(CpuFlag::C);
        self.branch_if(taken);
    }

    /// The registers after `beq`.
    pub open spec fn spec_beq(self) -> Cpu {
        self.spec_branch_if(self.spec_get_flag(CpuFlag::Z))
    }

    /// BEQ: branches where Z is set.
    pub fn beq(&mut self)
        requires
            old(self).cycles < 255,
        ensures
            *final(self) == old(self).spec_beq(),
            keeps_break_clear(*old(self), *final(self)),
    {
        let taken = self.get_flag(CpuFlag::Z);
        self.branch_if(taken);
    }

    /// The registers after `bmi`.
    pub open spec fn spec_bmi(self) -> Cpu {
        self.spec_branch_if(self.spec_get_flag(CpuFlag::N))
    }

    /// BMI: branches where N is set.
    pub fn bmi(&mut self)
        requires
            old(self).cycles < 255,
        ensures
            *final(self) == old(self).spec_bmi(),
            keeps_break_clear(*old(self), *final(self)),
    {
        let taken = self.get_flag(CpuFlag::N);
        self.branch_if(taken);
    }

    /// The registers after `bne`.
    pub open spec fn spec_bne(self) -> Cpu {
        self.spec_branch_if(!self.spec_get_flag(CpuFlag::Z))
    }

    /// BNE: branches where Z is clear.
    pub fn bne(&mut self)
        requires
            old(self).cycles < 255,
        ensures
            *final(self) == old(self).spec_bne(),
            keeps_break_clear(*old(self), *final(self)),
    {
        let taken = !self.get_flag(CpuFlag::Z);
        self.branch_if(taken);
    }

    /// The registers after `bpl`.
    pub open spec fn spec_bpl(self) -> Cpu {
        self.spec_branch_if(!self.spec_get_flag(CpuFlag::N))
    }

    /// BPL: branches where N is clear.
    pub fn bpl(&mut self)
        requires
            old(self).cycles < 255,
        ensures
            *final(self) == old(self).spec_bpl(),
            keeps_break_clear(*old(self), *final(self)),
    {
        let taken = !self.get_flag(CpuFlag::N);
        self.branch_if(taken);
    }

    /// The registers after `bvc`.
    pub open spec fn spec_bvc(self) -> Cpu {
        self.spec_branch_if(!self.spec_get_flag(CpuFlag::V))
    }

    /// BVC: branches where V is clear.
    pub fn bvc(&mut self)
        requires
            old(self).cycles < 255,
        ensures
            *final(self) == old(self).spec_bvc(),
            keeps_break_clear(*old(self), *final(self)),
    {
        let taken = !self.get_flag(CpuFlag::V);
        self.branch_if(taken);
    }

    /// The registers after `bvs`.
    pub open spec fn spec_bvs(self) -> Cpu {
        self.spec_branch_if(self.spec_get_flag(CpuFlag::V))
    }

    /// BVS: branches where V is set.
    pub fn bvs(&mut self)
        requires
            old(self).cycles < 255,
        ensures
            *final(self) == old(self).spec_bvs(),
            keeps_break_clear(*old(self), *final(self)),
    {
        let taken = self.get_flag(CpuFlag::V);
        self.branch_if(taken);
    }
}

} // verus!
