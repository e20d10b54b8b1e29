//! The life of the processor: loading a program, reset, and the fetch,
//! decode and execute cycle.
use crate::alu::has_flag;
use crate::cpu::{
    AddressingMode, BREAK2, CARRY, CPU, DECIMAL_MODE, INTERRUPT_DISABLE, NEGATIVE, OVERFLOW,
    PROGRAM_BASE, RESET_VECTOR, STACK_RESET, ZERO,
};
use crate::laws::lemma_reset;
use crate::machine::{
    lemma_halts_in_steps, lemma_run_continues, lemma_run_of_len, lemma_run_stops,
    lemma_steps_succ, Halt,
};
use crate::opcode::{lemma_listed, lookup, Family, Mnemonic, OpCode};
use vstd::prelude::*;

verus! {

impl CPU {
    /// Copies `program` into memory from `base` on, wrapping at the top of
    /// memory, and points the reset vector to `base`.
    pub fn load(&mut self, program: Vec<u8>, base: u16)
        ensures
            final(self)@ == old(self)@.load(program@, base),
    {
        let ghost start = self@;
        let mut addr = base;
        let mut i: usize = 0;
        assert(program@.skip(0) == program@);
        while i < program.len()
            invariant
                i <= program.len(),
                self@.store_bytes(addr, program@.skip(i as int)) == start.store_bytes(
                    base,
                    program@,
                ),
            decreases program.len() - i,
        {
            assert(program@.skip(i as int).skip(1) == program@.skip(i + 1));
            self.mem_write(addr, program[i]);
            addr = addr.wrapping_add(1);
            i += 1;
        }
        self.mem_write_u16(RESET_VECTOR, base);
    }

    /// Clears A and X, disables interrupts, and restarts the stack and the
    /// program counter. Y and memory are kept.
    pub fn reset(&mut self)
        ensures
            final(self)@ == old(self)@.reset(),
            has_flag(final(self)@.p, BREAK2),
            final(self)@.sp == 0xFD,
    {
        proof {
            lemma_reset(self@);
        }
        self.accumulator = 0;
        self.register_x = 0;
        self.status = INTERRUPT_DISABLE | BREAK2;
        self.stack_pointer = STACK_RESET;
        self.program_counter = self.mem_read_u16(RESET_VECTOR);
    }

    /// Loads and stores.
    pub fn execute_move(&mut self, op: &OpCode)
        requires
            op.finds_operand(),
            op.mnemonic.family() == Family::Move,
        ensures
            final(self)@ == old(self)@.execute(*op),
    {
        match op.mnemonic {
            Mnemonic::LDA => self.lda(&op.mode),
            Mnemonic::LDX => self.ldx(&op.mode),
            Mnemonic::LDY => self.ldy(&op.mode),
            Mnemonic::STA => self.sta(&op.mode),
            Mnemonic::STX => self.stx(&op.mode),
            Mnemonic::STY => self.sty(&op.mode),
            _ => {},
        }
    }

    /// AND, ORA, EOR and BIT.
    pub fn execute_logic(&mut self, op: &OpCode)
        requires
            op.finds_operand(),
            op.mnemonic.family() == Family::Logic,
        ensures
            final(self)@ == old(self)@.execute(*op),
    {
        match op.mnemonic {
            Mnemonic::AND => self.and(&op.mode),
            Mnemonic::ORA => self.ora(&op.mode),
            Mnemonic::EOR => self.eor(&op.mode),
            Mnemonic::BIT => self.bit(&op.mode),
            _ => {},
        }
    }

    /// ADC, SBC, the comparisons, INC and DEC.
    pub fn execute_arithmetic(&mut self, op: &OpCode)
        requires
            op.finds_operand(),
            op.mnemonic.family() == Family::Arithmetic,
        ensures
            final(self)@ == old(self)@.execute(*op),
    {
        match op.mnemonic {
            Mnemonic::ADC => self.adc(&op.mode),
            Mnemonic::SBC => self.sbc(&op.mode),
            Mnemonic::CMP => self.compare(self.accumulator, &op.mode),
            Mnemonic::CPX => self.compare(self.register_x, &op.mode),
            Mnemonic::CPY => self.compare(self.register_y, &op.mode),
            Mnemonic::INC => self.inc(&op.mode),
            Mnemonic::DEC => self.dec(&op.mode),
            _ => {},
        }
    }

    /// Register transfers, and counting in X and Y.
    pub fn execute_register(&mut self, op: &OpCode)
        requires
            op.mnemonic.family() == Family::Register,
        ensures
            final(self)@ == old(self)@.execute(*op),
    {
        match op.mnemonic {
            Mnemonic::TAX => self.tax(),
            Mnemonic::TAY => self.tay(),
            Mnemonic::TSX => self.tsx(),
            Mnemonic::TXA => self.txa(),
            Mnemonic::TXS => self.txs(),
            Mnemonic::TYA => self.tya(),
            Mnemonic::INX => self.inx(),
            Mnemonic::INY => self.iny(),
            Mnemonic::DEX => self.dex(),
            Mnemonic::DEY => self.dey(),
            _ => {},
        }
    }

    /// Pushes and pulls.
    pub fn execute_stack(&mut self, op: &OpCode)
        requires
            op.mnemonic.family() == Family::Stack,
        ensures
            final(self)@ == old(self)@.execute(*op),
    {
        match op.mnemonic {
            Mnemonic::PHA => self.pha(),
            Mnemonic::PHP => self.php(),
            Mnemonic::PLA => self.pla(),
            Mnemonic::PLP => self.plp(),
            _ => {},
        }
    }

    /// Shifts and rotates: without a mode they work on the accumulator.
    pub fn execute_shift(&mut self, op: &OpCode)
        requires
            op.mnemonic.family() == Family::Shift,
        ensures
            final(self)@ == old(self)@.execute(*op),
    {
        match op.mnemonic {
            Mnemonic::ASL => match op.mode {
                AddressingMode::NoneAddressing => self.asl_accumulator(),
                _ => self.asl(&op.mode),
            },
            Mnemonic::LSR => match op.mode {
                AddressingMode::NoneAddressing => self.lsr_accumulator(),
                _ => self.lsr(&op.mode),
            },
            Mnemonic::ROL => match op.mode {
                AddressingMode::NoneAddressing => self.rol_accumulator(),
                _ => self.rol(&op.mode),
            },
            Mnemonic::ROR => match op.mode {
                AddressingMode::NoneAddressing => self.ror_accumulator(),
                _ => self.ror(&op.mode),
            },
            _ => {},
        }
    }

    /// Setting and clearing of single flags.
    pub fn execute_flag(&mut self, op: &OpCode)
        requires
            op.mnemonic.family() == Family::Flag,
        ensures
            final(self)@ == old(self)@.execute(*op),
    {
        match op.mnemonic {
            Mnemonic::CLC => self.reset_status_flag(CARRY),
            Mnemonic::CLD => self.reset_status_flag(DECIMAL_MODE),
            Mnemonic::CLI => self.reset_status_flag(INTERRUPT_DISABLE),
            Mnemonic::CLV => self.reset_status_flag(OVERFLOW),
            Mnemonic::SEC => self.set_status_flag(CARRY),
            Mnemonic::SED => self.set_status_flag(DECIMAL_MODE),
            Mnemonic::SEI => self.set_status_flag(INTERRUPT_DISABLE),
            _ => {},
        }
    }

    /// Conditional branches.
    pub fn execute_branch(&mut self, op: &OpCode)
        requires
            op.mnemonic.family() == Family::Branch,
        ensures
            final(self)@ == old(self)@.execute(*op),
    {
        match op.mnemonic {
            Mnemonic::BCC => self.branch(self.status & CARRY == 0),
            Mnemonic::BCS => self.branch(self.status & CARRY != 0),
            Mnemonic::BEQ => self.branch(self.status & ZERO != 0),
            Mnemonic::BMI => self.branch(self.status & NEGATIVE != 0),
            Mnemonic::BNE => self.branch(self.status & ZERO == 0),
            Mnemonic::BPL => self.branch(self.status & NEGATIVE == 0),
            Mnemonic::BVC => self.branch(self.status & OVERFLOW == 0),
            Mnemonic::BVS => self.branch(self.status & OVERFLOW != 0),
            _ => {},
        }
    }

    /// Jumps, calls and returns. NOP and BRK change nothing here: the cycle
    /// itself stops on BRK.
    pub fn execute_control(&mut self, op: &OpCode)
        requires
            op.mnemonic.family() == Family::Control,
        ensures
            final(self)@ == old(self)@.execute(*op),
    {
        match op.mnemonic {
            Mnemonic::JMP => match op.mode {
                AddressingMode::Absolute => self.jmp_absolute(),
                _ => self.jmp_indirect(),
            },
            Mnemonic::JSR => self.jsr(),
            Mnemonic::RTS => self.rts(),
            Mnemonic::RTI => self.rti(),
            Mnemonic::NOP => self.nop(),
            Mnemonic::BRK => {},
            _ => {},
        }
    }

    /// Carries out the instruction `op`, whose opcode byte has been
    /// fetched.
    pub fn execute(&mut self, op: &OpCode)
        requires
            op.finds_operand(),
        ensures
            final(self)@ == old(self)@.execute(*op),
    {
        match op.mnemonic.family() {
            Family::Move => self.execute_move(op),
            Family::Logic => self.execute_logic(op),
            Family::Arithmetic => self.execute_arithmetic(op),
            Family::Register => self.execute_register(op),
            Family::Stack => self.execute_stack(op),
            Family::Shift => self.execute_shift(op),
            Family::Flag => self.execute_flag(op),
            Family::Branch => self.execute_branch(op),
            Family::Control => self.execute_control(op),
        }
    }

    /// One turn of the cycle: fetches the opcode byte at the program
    /// counter and carries the instruction out. Returns why the processor
    /// stops, if it does; the opcode byte is consumed either way.
    pub fn step(&mut self) -> (halt: Option<Halt>)
        ensures
            halt == old(self)@.halt(),
            final(self)@ == old(self)@.step(),
    {
        let code = self.mem_read(self.program_counter);
        self.program_counter = self.program_counter.wrapping_add(1);
        let fetched_pc = self.program_counter;
        match lookup(code) {
            None => Some(Halt::UnknownOpcode(code)),
            Some(op) => match op.mnemonic {
                Mnemonic::BRK => Some(Halt::Break),
                _ => {
                    proof {
                        lemma_listed(op);
                    }
                    self.execute(&op);
                    if self.program_counter == fetched_pc {
                        self.program_counter = self.program_counter.wrapping_add(
                            (op.len - 1) as u16,
                        );
                    }
                    None
                },
            },
        }
    }

    /// Executes instructions until the processor stops, and tells why it
    /// did.
    pub fn run(&mut self) -> (halt: Halt)
        requires
            old(self)@.halts(),
        ensures
            final(self)@ == old(self)@.run(),
            halt == old(self)@.exit(),
    {
        let ghost start = self@;
        loop
            invariant
                start == old(self)@,
                self@.halts(),
                self@.run() == start.run(),
                self@.exit() == start.exit(),
            decreases self@.run_len(),
        {
            proof {
                if self@.halt() is Some {
                    lemma_run_stops(self@);
                } else {
                    lemma_run_continues(self@);
                }
            }
            match self.step() {
                Some(halt) => {
                    return halt;
                },
                None => {},
            }
        }
    }

    /// Executes instructions until the processor stops or has made `limit`
    /// fetches, whichever comes first. Returns why the processor stopped,
    /// or `None` if it has not.
    pub fn run_at_most(&mut self, limit: u64) -> (halt: Option<Halt>)
        ensures
            halt is Some <==> old(self)@.halts_within(limit as nat),
            halt matches Some(h) ==> final(self)@ == old(self)@.run() && h == old(self)@.exit(),
            halt is None ==> final(self)@ == old(self)@.steps(limit as nat),
    {
        let ghost start = self@;
        let mut done: u64 = 0;
        while done < limit
            invariant
                start == old(self)@,
                done <= limit,
                self@ == start.steps(done as nat),
                forall|k: nat| k < done ==> (#[trigger] start.steps(k)).halt() is None,
            decreases limit - done,
        {
            proof {
                lemma_steps_succ(start, done as nat);
            }
            match self.step() {
                Some(halt) => {
                    proof {
                        lemma_halts_in_steps(start, done as nat);
                        lemma_run_of_len(start, done as nat);
                    }
                    return Some(halt);
                },
                None => {
                    done += 1;
                },
            }
        }
        proof {
            assert forall|n: nat| n < limit implies !start.halts_in(n) by {
                lemma_halts_in_steps(start, n);
            }
        }
        None
    }

    /// Loads `program` at the usual base, resets, and runs it.
    pub fn load_and_run(&mut self, program: Vec<u8>) -> (halt: Halt)
        requires
            old(self)@.load(program@, PROGRAM_BASE).reset().halts(),
        ensures
            final(self)@ == old(self)@.load(program@, PROGRAM_BASE).reset().run(),
            halt == old(self)@.load(program@, PROGRAM_BASE).reset().exit(),
    {
        self.load(program, PROGRAM_BASE);
        self.reset();
        self.run()
    }
}

} // verus!
