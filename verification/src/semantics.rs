//! What each instruction does to a [`State`] whose program counter
//! stands on the instruction's operand, just past the opcode byte.
use crate::alu::{
    add_carry, add_overflow, add_value, bit6, carry_of, complement, low_byte,
    negative, odd, put_flag, rol_value, ror_value, shl_value, shr_value, signed, word, wrap16,
    wrap8,
};
use crate::cpu::{AddressingMode, BREAK, BREAK2, CARRY, NEGATIVE, OVERFLOW, ZERO};
use crate::state::State;
use vstd::prelude::*;

verus! {

impl State {
    // Loads, stores and transfers
    pub open spec fn lda(self, mode: AddressingMode) -> State {
        self.set_a(self.operand(mode))
    }

    pub open spec fn ldx(self, mode: AddressingMode) -> State {
        self.set_x(self.operand(mode))
    }

    pub open spec fn ldy(self, mode: AddressingMode) -> State {
        self.set_y(self.operand(mode))
    }

    pub open spec fn sta(self, mode: AddressingMode) -> State {
        self.write8(self.operand_address(mode), self.a)
    }

    pub open spec fn stx(self, mode: AddressingMode) -> State {
        self.write8(self.operand_address(mode), self.x)
    }

    pub open spec fn sty(self, mode: AddressingMode) -> State {
        self.write8(self.operand_address(mode), self.y)
    }

    pub open spec fn tax(self) -> State {
        self.set_x(self.a)
    }

    pub open spec fn tay(self) -> State {
        self.set_y(self.a)
    }

    pub open spec fn tsx(self) -> State {
        self.set_x(self.sp)
    }

    pub open spec fn txa(self) -> State {
        self.set_a(self.x)
    }

    /// The one transfer that leaves the flags alone.
    pub open spec fn txs(self) -> State {
        State { sp: self.x, ..self }
    }

    pub open spec fn tya(self) -> State {
        self.set_a(self.y)
    }

    // Stack
    pub open spec fn pha(self) -> State {
        self.push8(self.a)
    }

    /// The status byte goes to the stack with B and bit 5 set.
    pub open spec fn php(self) -> State {
        self.push8(put_flag(put_flag(self.p, BREAK, true), BREAK2, true))
    }

    pub open spec fn pla(self) -> State {
        self.pop8().set_a(self.top8())
    }

    pub open spec fn plp(self) -> State {
        self.pop8().with_p(self.top8())
    }

    // Logic
    pub open spec fn and(self, mode: AddressingMode) -> State {
        self.set_a(self.a & self.operand(mode))
    }

    pub open spec fn ora(self, mode: AddressingMode) -> State {
        self.set_a(self.a | self.operand(mode))
    }

    pub open spec fn eor(self, mode: AddressingMode) -> State {
        self.set_a(self.a ^ self.operand(mode))
    }

    /// N and V are copied from bits 7 and 6 of the operand; Z tells whether
    /// the operand and the accumulator share no bit.
    pub open spec fn bit(self, mode: AddressingMode) -> State {
        let m = self.operand(mode);
        self.with_p(
            put_flag(
                put_flag(put_flag(self.p, NEGATIVE, negative(m)), OVERFLOW, bit6(m)),
                ZERO,
                self.a & m == 0,
            ),
        )
    }

    // Arithmetic
    /// The carry flag as a number.
    pub open spec fn carry(self) -> int {
        carry_of(self.p)
    }

    /// `A + m + C`, with C and V taken from the sum. The decimal flag
    /// plays no part.
    pub open spec fn add_to_a(self, m: u8) -> State {
        let c = self.carry();
        self.with_p(
            put_flag(
                put_flag(self.p, CARRY, add_carry(self.a, m, c)),
                OVERFLOW,
                add_overflow(self.a, m, c),
            ),
        ).set_a(add_value(self.a, m, c))
    }

    pub open spec fn adc(self, mode: AddressingMode) -> State {
        self.add_to_a(self.operand(mode))
    }

    /// Subtraction is addition of the one's complement.
    pub open spec fn sbc(self, mode: AddressingMode) -> State {
        self.add_to_a(complement(self.operand(mode)))
    }

    /// CMP, CPX and CPY: `value` is the register compared.
    pub open spec fn compare(self, value: u8, mode: AddressingMode) -> State {
        let m = self.operand(mode);
        self.with_p(put_flag(self.p, CARRY, value >= m)).update_zn(wrap8(value - m))
    }

    /// Memory at `addr` replaced by `v`, with Z and N describing `v`.
    pub open spec fn store_result(self, addr: u16, v: u8) -> State {
        self.write8(addr, v).update_zn(v)
    }

    pub open spec fn inc(self, mode: AddressingMode) -> State {
        let addr = self.operand_address(mode);
        self.store_result(addr, wrap8(self.read8(addr) + 1))
    }

    pub open spec fn dec(self, mode: AddressingMode) -> State {
        let addr = self.operand_address(mode);
        self.store_result(addr, wrap8(self.read8(addr) - 1))
    }

    pub open spec fn inx(self) -> State {
        self.set_x(wrap8(self.x + 1))
    }

    pub open spec fn iny(self) -> State {
        self.set_y(wrap8(self.y + 1))
    }

    pub open spec fn dex(self) -> State {
        self.set_x(wrap8(self.x - 1))
    }

    pub open spec fn dey(self) -> State {
        self.set_y(wrap8(self.y - 1))
    }

    // Shifts and rotates
    pub open spec fn with_carry(self, on: bool) -> State {
        self.with_p(put_flag(self.p, CARRY, on))
    }

    pub open spec fn asl_accumulator(self) -> State {
        self.with_carry(negative(self.a)).set_a(shl_value(self.a))
    }

    pub open spec fn asl(self, mode: AddressingMode) -> State {
        let addr = self.operand_address(mode);
        let v = self.read8(addr);
        self.with_carry(negative(v)).store_result(addr, shl_value(v))
    }

    pub open spec fn lsr_accumulator(self) -> State {
        self.with_carry(odd(self.a)).set_a(shr_value(self.a))
    }

    pub open spec fn lsr(self, mode: AddressingMode) -> State {
        let addr = self.operand_address(mode);
        let v = self.read8(addr);
        self.with_carry(odd(v)).store_result(addr, shr_value(v))
    }

    pub open spec fn rol_accumulator(self) -> State {
        self.with_carry(negative(self.a)).set_a(rol_value(self.a, self.carry()))
    }

    pub open spec fn rol(self, mode: AddressingMode) -> State {
        let addr = self.operand_address(mode);
        let v = self.read8(addr);
        self.with_carry(negative(v)).store_result(addr, rol_value(v, self.carry()))
    }

    pub open spec fn ror_accumulator(self) -> State {
        self.with_carry(odd(self.a)).set_a(ror_value(self.a, self.carry()))
    }

    pub open spec fn ror(self, mode: AddressingMode) -> State {
        let addr = self.operand_address(mode);
        let v = self.read8(addr);
        self.with_carry(odd(v)).store_result(addr, ror_value(v, self.carry()))
    }

    // Flags
    pub open spec fn set_flag(self, flag: u8) -> State {
        self.with_p(put_flag(self.p, flag, true))
    }

    pub open spec fn clear_flag(self, flag: u8) -> State {
        self.with_p(put_flag(self.p, flag, false))
    }

    // Control flow
    /// Where a taken branch goes: the signed offset counts from the byte
    /// after the offset.
    pub open spec fn branch_target(self) -> u16 {
        wrap16(self.pc + 1 + signed(self.read8(self.pc)))
    }

    pub open spec fn branch(self, condition: bool) -> State {
        if condition {
            self.with_pc(self.branch_target())
        } else {
            self
        }
    }

    pub open spec fn jmp_absolute(self) -> State {
        self.with_pc(self.read16(self.pc))
    }

    /// The target stored at `addr`. If `addr` is the last byte of a page,
    /// the high byte comes from the first byte of the same page, not from
    /// the next page.
    pub open spec fn indirect_target(self, addr: u16) -> u16 {
        if low_byte(addr) == 0xFF {
            word(self.read8(addr), self.read8((addr - 0xFF) as u16))
        } else {
            self.read16(addr)
        }
    }

    pub open spec fn jmp_indirect(self) -> State {
        self.with_pc(self.indirect_target(self.read16(self.pc)))
    }

    /// The address pushed is that of the last byte of the instruction.
    pub open spec fn jsr(self) -> State {
        let pushed = self.push16(wrap16(self.pc + 1));
        pushed.with_pc(pushed.read16(self.pc))
    }

    pub open spec fn rts(self) -> State {
        self.pop16().with_pc(wrap16(self.top16() + 1))
    }

    /// Status comes back with B clear and bit 5 set, then the program
    /// counter, taken as it was pushed.
    pub open spec fn rti(self) -> State {
        let p = put_flag(put_flag(self.top8(), BREAK, false), BREAK2, true);
        let popped = self.pop8();
        popped.pop16().with_p(p).with_pc(popped.top16())
    }
}

} // verus!
