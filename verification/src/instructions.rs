//! The instruction handlers of the processor. Each is called with the
//! program counter on the instruction's operand and leaves the processor
//! in the state that [`crate::semantics`] gives for it.
use crate::alu::{
    lemma_carry_bit, lemma_complement_bits, lemma_overflow_bits, lemma_page_bits,
    lemma_rotate_bits, lemma_shift_bits, lemma_sign_bit, lemma_sign_extend, lemma_split_bits,
    lemma_word_bits,
};
use crate::cpu::{AddressingMode, BREAK, BREAK2, CARRY, CPU, NEGATIVE, OVERFLOW, ZERO};
use vstd::prelude::*;

verus! {

impl CPU {
    /// The operand of the instruction being executed.
    pub fn read_operand(&self, mode: &AddressingMode) -> (data: u8)
        requires
            *mode != AddressingMode::NoneAddressing,
        ensures
            data == self@.operand(*mode),
    {
        self.mem_read(self.get_operand_address(mode))
    }

    /// Adds `m` and the carry to the accumulator: the common core of ADC
    /// and SBC.
    pub fn add_to_accumulator(&mut self, m: u8)
        ensures
            final(self)@ == old(self)@.add_to_a(m),
    {
        let a = self.accumulator;
        proof {
            lemma_carry_bit(self.status);
        }
        let sum: u16 = a as u16 + m as u16 + (self.status & CARRY) as u16;
        let result: u8 = (sum & 0xFF) as u8;
        proof {
            lemma_split_bits(sum);
            lemma_overflow_bits(a, m, result);
        }
        self.assign_status_flag(CARRY, sum > 0xFF);
        self.assign_status_flag(OVERFLOW, (m ^ result) & (a ^ result) & 0x80 != 0);
        self.set_accumulator(result);
    }

    pub fn adc(&mut self, mode: &AddressingMode)
        requires
            *mode != AddressingMode::NoneAddressing,
        ensures
            final(self)@ == old(self)@.adc(*mode),
    {
        let m = self.read_operand(mode);
        self.add_to_accumulator(m);
    }

    pub fn sbc(&mut self, mode: &AddressingMode)
        requires
            *mode != AddressingMode::NoneAddressing,
        ensures
            final(self)@ == old(self)@.sbc(*mode),
    {
        let m = self.read_operand(mode);
        proof {
            lemma_complement_bits(m);
        }
        self.add_to_accumulator(m ^ 0xFF);
    }

    pub fn and(&mut self, mode: &AddressingMode)
        requires
            *mode != AddressingMode::NoneAddressing,
        ensures
            final(self)@ == old(self)@.and(*mode),
    {
        let m = self.read_operand(mode);
        self.set_accumulator(self.accumulator & m);
    }

    pub fn ora(&mut self, mode: &AddressingMode)
        requires
            *mode != AddressingMode::NoneAddressing,
        ensures
            final(self)@ == old(self)@.ora(*mode),
    {
        let m = self.read_operand(mode);
        self.set_accumulator(self.accumulator | m);
    }

    pub fn eor(&mut self, mode: &AddressingMode)
        requires
            *mode != AddressingMode::NoneAddressing,
        ensures
            final(self)@ == old(self)@.eor(*mode),
    {
        let m = self.read_operand(mode);
        self.set_accumulator(self.accumulator ^ m);
    }

    pub fn bit(&mut self, mode: &AddressingMode)
        requires
            *mode != AddressingMode::NoneAddressing,
        ensures
            final(self)@ == old(self)@.bit(*mode),
    {
        let m = self.read_operand(mode);
        proof {
            lemma_sign_bit(m);
        }
        self.assign_status_flag(NEGATIVE, m & 0x80 != 0);
        self.assign_status_flag(OVERFLOW, m & 0x40 != 0);
        self.assign_status_flag(ZERO, self.accumulator & m == 0);
    }

    /// CMP, CPX and CPY: `value` is the register compared.
    pub fn compare(&mut self, value: u8, mode: &AddressingMode)
        requires
            *mode != AddressingMode::NoneAddressing,
        ensures
            final(self)@ == old(self)@.compare(value, *mode),
    {
        let m = self.read_operand(mode);
        self.assign_status_flag(CARRY, value >= m);
        self.update_zero_and_negative_flags(value.wrapping_sub(m));
    }

    /// Writes a result to memory and describes it in Z and N.
    pub fn store_result(&mut self, addr: u16, value: u8)
        ensures
            final(self)@ == old(self)@.store_result(addr, value),
    {
        self.mem_write(addr, value);
        self.update_zero_and_negative_flags(value);
    }

    pub fn inc(&mut self, mode: &AddressingMode)
        requires
            *mode != AddressingMode::NoneAddressing,
        ensures
            final(self)@ == old(self)@.inc(*mode),
    {
        let addr = self.get_operand_address(mode);
        let value = self.mem_read(addr).wrapping_add(1);
        self.store_result(addr, value);
    }

    pub fn dec(&mut self, mode: &AddressingMode)
        requires
            *mode != AddressingMode::NoneAddressing,
        ensures
            final(self)@ == old(self)@.dec(*mode),
    {
        let addr = self.get_operand_address(mode);
        let value = self.mem_read(addr).wrapping_sub(1);
        self.store_result(addr, value);
    }

    pub fn inx(&mut self)
        ensures
            final(self)@ == old(self)@.inx(),
    {
        self.set_register_x(self.register_x.wrapping_add(1));
    }

    pub fn iny(&mut self)
        ensures
            final(self)@ == old(self)@.iny(),
    {
        self.set_register_y(self.register_y.wrapping_add(1));
    }

    pub fn dex(&mut self)
        ensures
            final(self)@ == old(self)@.dex(),
    {
        self.set_register_x(self.register_x.wrapping_sub(1));
    }

    pub fn dey(&mut self)
        ensures
            final(self)@ == old(self)@.dey(),
    {
        self.set_register_y(self.register_y.wrapping_sub(1));
    }

    pub fn lda(&mut self, mode: &AddressingMode)
        requires
            *mode != AddressingMode::NoneAddressing,
        ensures
            final(self)@ == old(self)@.lda(*mode),
    {
        let value = self.read_operand(mode);
        self.set_accumulator(value);
    }

    pub fn ldx(&mut self, mode: &AddressingMode)
        requires
            *mode != AddressingMode::NoneAddressing,
        ensures
            final(self)@ == old(self)@.ldx(*mode),
    {
        let value = self.read_operand(mode);
        self.set_register_x(value);
    }

    pub fn ldy(&mut self, mode: &AddressingMode)
        requires
            *mode != AddressingMode::NoneAddressing,
        ensures
            final(self)@ == old(self)@.ldy(*mode),
    {
        let value = self.read_operand(mode);
        self.set_register_y(value);
    }

    pub fn sta(&mut self, mode: &AddressingMode)
        requires
            *mode != AddressingMode::NoneAddressing,
        ensures
            final(self)@ == old(self)@.sta(*mode),
    {
        let addr = self.get_operand_address(mode);
        self.mem_write(addr, self.accumulator);
    }

    pub fn stx(&mut self, mode: &AddressingMode)
        requires
            *mode != AddressingMode::NoneAddressing,
        ensures
            final(self)@ == old(self)@.stx(*mode),
    {
        let addr = self.get_operand_address(mode);
        self.mem_write(addr, self.register_x);
    }

    pub fn sty(&mut self, mode: &AddressingMode)
        requires
            *mode != AddressingMode::NoneAddressing,
        ensures
            final(self)@ == old(self)@.sty(*mode),
    {
        let addr = self.get_operand_address(mode);
        self.mem_write(addr, self.register_y);
    }

    pub fn tax(&mut self)
        ensures
            final(self)@ == old(self)@.tax(),
    {
        self.set_register_x(self.accumulator);
    }

    pub fn tay(&mut self)
        ensures
            final(self)@ == old(self)@.tay(),
    {
        self.set_register_y(self.accumulator);
    }

    pub fn tsx(&mut self)
        ensures
            final(self)@ == old(self)@.tsx(),
    {
        self.set_register_x(self.stack_pointer);
    }

    pub fn txa(&mut self)
        ensures
            final(self)@ == old(self)@.txa(),
    {
        self.set_accumulator(self.register_x);
    }

    pub fn txs(&mut self)
        ensures
            final(self)@ == old(self)@.txs(),
    {
        self.stack_pointer = self.register_x;
    }

    pub fn tya(&mut self)
        ensures
            final(self)@ == old(self)@.tya(),
    {
        self.set_accumulator(self.register_y);
    }

    pub fn pha(&mut self)
        ensures
            final(self)@ == old(self)@.pha(),
    {
        self.stack_push(self.accumulator);
    }

    pub fn php(&mut self)
        ensures
            final(self)@ == old(self)@.php(),
    {
        self.stack_push(self.status | BREAK | BREAK2);
    }

    pub fn pla(&mut self)
        ensures
            final(self)@ == old(self)@.pla(),
    {
        let value = self.stack_pop();
        self.set_accumulator(value);
    }

    pub fn plp(&mut self)
        ensures
            final(self)@ == old(self)@.plp(),
    {
        self.status = self.stack_pop();
    }

    pub fn asl_accumulator(&mut self)
        ensures
            final(self)@ == old(self)@.asl_accumulator(),
    {
        let value = self.accumulator;
        proof {
            lemma_sign_bit(value);
            lemma_shift_bits(value);
        }
        self.assign_status_flag(CARRY, value & 0x80 != 0);
        self.set_accumulator(value << 1);
    }

    pub fn asl(&mut self, mode: &AddressingMode)
        requires
            *mode != AddressingMode::NoneAddressing,
        ensures
            final(self)@ == old(self)@.asl(*mode),
    {
        let addr = self.get_operand_address(mode);
        let value = self.mem_read(addr);
        proof {
            lemma_sign_bit(value);
            lemma_shift_bits(value);
        }
        self.assign_status_flag(CARRY, value & 0x80 != 0);
        self.store_result(addr, value << 1);
    }

    pub fn lsr_accumulator(&mut self)
        ensures
            final(self)@ == old(self)@.lsr_accumulator(),
    {
        let value = self.accumulator;
        proof {
            lemma_shift_bits(value);
        }
        self.assign_status_flag(CARRY, value & 0x01 != 0);
        self.set_accumulator(value >> 1);
    }

    pub fn lsr(&mut self, mode: &AddressingMode)
        requires
            *mode != AddressingMode::NoneAddressing,
        ensures
            final(self)@ == old(self)@.lsr(*mode),
    {
        let addr = self.get_operand_address(mode);
        let value = self.mem_read(addr);
        proof {
            lemma_shift_bits(value);
        }
        self.assign_status_flag(CARRY, value & 0x01 != 0);
        self.store_result(addr, value >> 1);
    }

    pub fn rol_accumulator(&mut self)
        ensures
            final(self)@ == old(self)@.rol_accumulator(),
    {
        let value = self.accumulator;
        let carry = self.status & CARRY;
        proof {
            lemma_carry_bit(self.status);
            lemma_sign_bit(value);
            lemma_rotate_bits(value, carry);
        }
        self.assign_status_flag(CARRY, value & 0x80 != 0);
        self.set_accumulator((value << 1) | carry);
    }

    pub fn rol(&mut self, mode: &AddressingMode)
        requires
            *mode != AddressingMode::NoneAddressing,
        ensures
            final(self)@ == old(self)@.rol(*mode),
    {
        let addr = self.get_operand_address(mode);
        let value = self.mem_read(addr);
        let carry = self.status & CARRY;
        proof {
            lemma_carry_bit(self.status);
            lemma_sign_bit(value);
            lemma_rotate_bits(value, carry);
        }
        self.assign_status_flag(CARRY, value & 0x80 != 0);
        self.store_result(addr, (value << 1) | carry);
    }

    pub fn ror_accumulator(&mut self)
        ensures
            final(self)@ == old(self)@.ror_accumulator(),
    {
        let value = self.accumulator;
        let carry = self.status & CARRY;
        proof {
            lemma_carry_bit(self.status);
            lemma_shift_bits(value);
            lemma_rotate_bits(value, carry);
        }
        self.assign_status_flag(CARRY, value & 0x01 != 0);
        self.set_accumulator((value >> 1) | (carry << 7));
    }

    pub fn ror(&mut self, mode: &AddressingMode)
        requires
            *mode != AddressingMode::NoneAddressing,
        ensures
            final(self)@ == old(self)@.ror(*mode),
    {
        let addr = self.get_operand_address(mode);
        let value = self.mem_read(addr);
        let carry = self.status & CARRY;
        proof {
            lemma_carry_bit(self.status);
            lemma_shift_bits(value);
            lemma_rotate_bits(value, carry);
        }
        self.assign_status_flag(CARRY, value & 0x01 != 0);
        self.store_result(addr, (value >> 1) | (carry << 7));
    }

    pub fn nop(&mut self)
        ensures
            final(self)@ == old(self)@,
    {
    }

    /// A conditional branch: taken, the signed offset at the program
    /// counter is added to the address of the byte after it.
    pub fn branch(&mut self, condition: bool)
        ensures
            final(self)@ == old(self)@.branch(condition),
    {
        if condition {
            let jump = self.mem_read(self.program_counter);
            proof {
                lemma_sign_extend(jump);
            }
            self.program_counter = self.program_counter.wrapping_add(1).wrapping_add(
                jump as i8 as u16,
            );
        }
    }

    pub fn jmp_absolute(&mut self)
        ensures
            final(self)@ == old(self)@.jmp_absolute(),
    {
        self.program_counter = self.mem_read_u16(self.program_counter);
    }

    pub fn jmp_indirect(&mut self)
        ensures
            final(self)@ == old(self)@.jmp_indirect(),
    {
        let addr = self.mem_read_u16(self.program_counter);
        proof {
            lemma_page_bits(addr);
        }
        let target = if addr & 0xff == 0xff {
            let low = self.mem_read(addr);
            let high = self.mem_read(addr & 0xFF00);
            proof {
                lemma_word_bits(low, high);
            }
            (high as u16) << 8 | (low as u16)
        } else {
            self.mem_read_u16(addr)
        };
        self.program_counter = target;
    }

    pub fn jsr(&mut self)
        ensures
            final(self)@ == old(self)@.jsr(),
    {
        self.stack_push_u16(self.program_counter.wrapping_add(1));
        self.program_counter = self.mem_read_u16(self.program_counter);
    }

    pub fn rts(&mut self)
        ensures
            final(self)@ == old(self)@.rts(),
    {
        self.program_counter = self.stack_pop_u16().wrapping_add(1);
    }

    pub fn rti(&mut self)
        ensures
            final(self)@ == old(self)@.rti(),
    {
        self.status = self.stack_pop();
        self.reset_status_flag(BREAK);
        self.set_status_flag(BREAK2);
        self.program_counter = self.stack_pop_u16();
    }
}

} // verus!
