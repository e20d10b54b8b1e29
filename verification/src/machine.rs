//! The fetch, decode and execute cycle as a function on [`State`], and
//! the run of a program as its iteration up to the first halt.
use crate::alu::{has_flag, wrap16};
use crate::cpu::{
    AddressingMode, BREAK2, CARRY, DECIMAL_MODE, INTERRUPT_DISABLE, NEGATIVE, OVERFLOW,
    RESET_VECTOR, STACK_RESET, ZERO,
};
use crate::opcode::{decode, Mnemonic, OpCode};
use crate::state::State;
use vstd::prelude::*;

verus! {

/// Why the processor stopped.
#[derive(Debug, PartialEq, Eq, Clone, Copy, Structural)]
pub enum Halt {
    /// A BRK instruction was fetched.
    Break,
    /// The byte fetched is no documented opcode.
    UnknownOpcode(u8),
}

impl State {
    /// The effect of the instruction `op` on a state whose program counter
    /// stands just past the opcode byte.
    pub open spec fn execute(self, op: OpCode) -> State {
        match op.mnemonic {
            Mnemonic::ADC => self.adc(op.mode),
            Mnemonic::AND => self.and(op.mode),
            Mnemonic::ASL => if op.mode == AddressingMode::NoneAddressing {
                self.asl_accumulator()
            } else {
                self.asl(op.mode)
            },
            Mnemonic::BCC => self.branch(!has_flag(self.p, CARRY)),
            Mnemonic::BCS => self.branch(has_flag(self.p, CARRY)),
            Mnemonic::BEQ => self.branch(has_flag(self.p, ZERO)),
            Mnemonic::BIT => self.bit(op.mode),
            Mnemonic::BMI => self.branch(has_flag(self.p, NEGATIVE)),
            Mnemonic::BNE => self.branch(!has_flag(self.p, ZERO)),
            Mnemonic::BPL => self.branch(!has_flag(self.p, NEGATIVE)),
            Mnemonic::BRK => self,
            Mnemonic::BVC => self.branch(!has_flag(self.p, OVERFLOW)),
            Mnemonic::BVS => self.branch(has_flag(self.p, OVERFLOW)),
            Mnemonic::CLC => self.clear_flag(CARRY),
            Mnemonic::CLD => self.clear_flag(DECIMAL_MODE),
            Mnemonic::CLI => self.clear_flag(INTERRUPT_DISABLE),
            Mnemonic::CLV => self.clear_flag(OVERFLOW),
            Mnemonic::CMP => self.compare(self.a, op.mode),
            Mnemonic::CPX => self.compare(self.x, op.mode),
            Mnemonic::CPY => self.compare(self.y, op.mode),
            Mnemonic::DEC => self.dec(op.mode),
            Mnemonic::DEX => self.dex(),
            Mnemonic::DEY => self.dey(),
            Mnemonic::EOR => self.eor(op.mode),
            Mnemonic::INC => self.inc(op.mode),
            Mnemonic::INX => self.inx(),
            Mnemonic::INY => self.iny(),
            Mnemonic::JMP => if op.mode == AddressingMode::Absolute {
                self.jmp_absolute()
            } else {
                self.jmp_indirect()
            },
            Mnemonic::JSR => self.jsr(),
            Mnemonic::LDA => self.lda(op.mode),
            Mnemonic::LDX => self.ldx(op.mode),
            Mnemonic::LDY => self.ldy(op.mode),
            Mnemonic::LSR => if op.mode == AddressingMode::NoneAddressing {
                self.lsr_accumulator()
            } else {
                self.lsr(op.mode)
            },
            Mnemonic::NOP => self,
            Mnemonic::ORA => self.ora(op.mode),
            Mnemonic::PHA => self.pha(),
            Mnemonic::PHP => self.php(),
            Mnemonic::PLA => self.pla(),
            Mnemonic::PLP => self.plp(),
            Mnemonic::ROL => if op.mode == AddressingMode::NoneAddressing {
                self.rol_accumulator()
            } else {
                self.rol(op.mode)
            },
            Mnemonic::ROR => if op.mode == AddressingMode::NoneAddressing {
                self.ror_accumulator()
            } else {
                self.ror(op.mode)
            },
            Mnemonic::RTI => self.rti(),
            Mnemonic::RTS => self.rts(),
            Mnemonic::SBC => self.sbc(op.mode),
            Mnemonic::SEC => self.set_flag(CARRY),
            Mnemonic::SED => self.set_flag(DECIMAL_MODE),
            Mnemonic::SEI => self.set_flag(INTERRUPT_DISABLE),
            Mnemonic::STA => self.sta(op.mode),
            Mnemonic::STX => self.stx(op.mode),
            Mnemonic::STY => self.sty(op.mode),
            Mnemonic::TAX => self.tax(),
            Mnemonic::TAY => self.tay(),
            Mnemonic::TSX => self.tsx(),
            Mnemonic::TXA => self.txa(),
            Mnemonic::TXS => self.txs(),
            Mnemonic::TYA => self.tya(),
        }
    }

    /// The byte that the next fetch reads.
    pub open spec fn opcode_byte(self) -> u8 {
        self.read8(self.pc)
    }

    /// The program counter moved past the opcode byte.
    pub open spec fn fetch(self) -> State {
        self.with_pc(wrap16(self.pc + 1))
    }

    /// The program counter moved past the operand of `op`, unless the
    /// instruction has changed it from `fetched_pc`, its value before the
    /// instruction ran.
    pub open spec fn advance(self, fetched_pc: u16, op: OpCode) -> State {
        if self.pc == fetched_pc {
            self.with_pc(wrap16(self.pc + op.len - 1))
        } else {
            self
        }
    }

    /// Whether, and why, the next fetch stops the processor.
    pub open spec fn halt(self) -> Option<Halt> {
        match decode(self.opcode_byte()) {
            None => Some(Halt::UnknownOpcode(self.opcode_byte())),
            Some(op) => if op.mnemonic == Mnemonic::BRK {
                Some(Halt::Break)
            } else {
                None
            },
        }
    }

    /// One turn of the cycle. A fetch that stops the processor still
    /// consumes the opcode byte.
    pub open spec fn step(self) -> State {
        let fetched = self.fetch();
        match decode(self.opcode_byte()) {
            None => fetched,
            Some(op) => if op.mnemonic == Mnemonic::BRK {
                fetched
            } else {
                fetched.execute(op).advance(fetched.pc, op)
            },
        }
    }

    /// The state after `n` turns of the cycle.
    pub open spec fn steps(self, n: nat) -> State
        decreases n,
    {
        if n == 0 {
            self
        } else {
            self.step().steps((n - 1) as nat)
        }
    }

    /// The processor executes exactly `n` instructions and stops at the
    /// fetch after them.
    pub open spec fn halts_in(self, n: nat) -> bool
        decreases n,
    {
        if self.halt() is Some {
            n == 0
        } else {
            n > 0 && self.step().halts_in((n - 1) as nat)
        }
    }

    /// The processor stops after finitely many instructions.
    pub open spec fn halts(self) -> bool {
        exists|n: nat| self.halts_in(n)
    }

    /// The processor stops at one of its first `limit` fetches.
    pub open spec fn halts_within(self, limit: nat) -> bool {
        exists|n: nat| n < limit && self.halts_in(n)
    }

    /// The number of instructions executed before the processor stops.
    pub open spec fn run_len(self) -> nat
        recommends
            self.halts(),
    {
        choose|n: nat| self.halts_in(n)
    }

    /// The state in which a run ends: the stopping fetch included.
    pub open spec fn run(self) -> State
        recommends
            self.halts(),
    {
        self.steps(self.run_len() + 1)
    }

    /// Why a run ends.
    pub open spec fn exit(self) -> Halt
        recommends
            self.halts(),
    {
        self.steps(self.run_len()).halt().unwrap()
    }

    /// The state after a reset: A and X cleared, interrupts disabled,
    /// the stack pointer at its start and the program counter taken from
    /// the reset vector.
    pub open spec fn reset(self) -> State {
        State {
            a: 0,
            x: 0,
            p: INTERRUPT_DISABLE | BREAK2,
            sp: STACK_RESET,
            pc: self.read16(RESET_VECTOR),
            ..self
        }
    }

    /// `bytes` written to consecutive addresses from `addr` on, in order,
    /// wrapping at the top of memory.
    pub open spec fn store_bytes(self, addr: u16, bytes: Seq<u8>) -> State
        decreases bytes.len(),
    {
        if bytes.len() == 0 {
            self
        } else {
            self.write8(addr, bytes[0]).store_bytes(wrap16(addr + 1), bytes.skip(1))
        }
    }

    /// A program placed at `base`, and the reset vector pointing to it.
    pub open spec fn load(self, program: Seq<u8>, base: u16) -> State {
        self.store_bytes(base, program).write16(RESET_VECTOR, base)
    }
}

/// A run has one length only.
pub proof fn lemma_halts_in_unique(s: State, n: nat, m: nat)
    requires
        s.halts_in(n),
        s.halts_in(m),
    ensures
        n == m,
    decreases n,
{
    if s.halt() is None {
        lemma_halts_in_unique(s.step(), (n - 1) as nat, (m - 1) as nat);
    }
}

/// A run that stops at once is one fetch.
pub proof fn lemma_run_stops(s: State)
    requires
        s.halt() is Some,
    ensures
        s.halts(),
        s.run_len() == 0,
        s.run() == s.step(),
        s.exit() == s.halt().unwrap(),
{
    assert(s.halts_in(0));
    lemma_halts_in_unique(s, s.run_len(), 0);
    reveal_with_fuel(State::steps, 2);
}

/// A run that does not stop at once is one instruction and then the run
/// from there.
pub proof fn lemma_run_continues(s: State)
    requires
        s.halts(),
        s.halt() is None,
    ensures
        s.step().halts(),
        s.run_len() == s.step().run_len() + 1,
        s.run() == s.step().run(),
        s.exit() == s.step().exit(),
{
    let n = s.run_len();
    assert(s.step().halts_in((n - 1) as nat));
    lemma_halts_in_unique(s.step(), s.step().run_len(), (n - 1) as nat);
}

/// A run whose length is known is known whole.
pub proof fn lemma_run_of_len(s: State, n: nat)
    requires
        s.halts_in(n),
    ensures
        s.halts(),
        s.run_len() == n,
        s.run() == s.steps(n + 1),
        s.exit() == s.steps(n).halt().unwrap(),
{
    lemma_halts_in_unique(s, s.run_len(), n);
}

/// One more turn at the end is one more turn.
pub proof fn lemma_steps_succ(s: State, n: nat)
    ensures
        s.steps(n + 1) == s.steps(n).step(),
    decreases n,
{
    if n > 0 {
        lemma_steps_succ(s.step(), (n - 1) as nat);
        assert(s.steps(n + 1) == s.step().steps(n));
    } else {
        reveal_with_fuel(State::steps, 2);
    }
}

/// The processor stops at its `n`th fetch, counted from zero, exactly if
/// that fetch stops it and none before does.
pub proof fn lemma_halts_in_steps(s: State, n: nat)
    ensures
        s.halts_in(n) <==> (s.steps(n).halt() is Some && forall|k: nat|
            k < n ==> (#[trigger] s.steps(k)).halt() is None),
    decreases n,
{
    if n > 0 {
        lemma_halts_in_steps(s.step(), (n - 1) as nat);
        let t = s.step();
        if s.halts_in(n) {
            assert forall|k: nat| k < n implies (#[trigger] s.steps(k)).halt() is None by {
                if k > 0 {
                    assert(s.steps(k) == t.steps((k - 1) as nat));
                }
            }
        }
        if s.steps(n).halt() is Some && forall|k: nat|
            k < n ==> (#[trigger] s.steps(k)).halt() is None {
            assert(s.steps(0).halt() is None);
            assert forall|k: nat| k < n - 1 implies (#[trigger] t.steps(k)).halt() is None by {
                assert(t.steps(k) == s.steps(k + 1));
            }
        }
    }
}

} // verus!
