use crate::alu::{lemma_sign_bit, lemma_split_bits, lemma_word_bits, put_flag};
use crate::memory::Memory;
use crate::state::State;
use vstd::prelude::*;

verus! {

/// The rule by which an instruction finds its operand.
#[derive(Debug, PartialEq, Eq, Clone, Copy, Structural)]
#[allow(non_camel_case_types)]
pub enum AddressingMode {
    Immediate,
    ZeroPage,
    ZeroPage_X,
    ZeroPage_Y,
    Absolute,
    Absolute_X,
    Absolute_Y,
    Indirect_X,
    Indirect_Y,
    NoneAddressing,
}

// Status register (P)
//
//  7 6 5 4 3 2 1 0
//  N V _ B D I Z C
//  | |   | | | | +--- Carry
//  | |   | | | +----- Zero
//  | |   | | +------- Interrupt disable
//  | |   | +--------- Decimal mode (kept, but arithmetic ignores it)
//  | |   +----------- Break
//  | +--------------- Overflow
//  +----------------- Negative
pub const CARRY: u8 = 0b0000_0001;

pub const ZERO: u8 = 0b0000_0010;

pub const INTERRUPT_DISABLE: u8 = 0b0000_0100;

pub const DECIMAL_MODE: u8 = 0b0000_1000;

pub const BREAK: u8 = 0b0001_0000;

pub const BREAK2: u8 = 0b0010_0000;

pub const OVERFLOW: u8 = 0b0100_0000;

pub const NEGATIVE: u8 = 0b1000_0000;

/// First address of the stack page.
pub const STACK: u16 = 0x0100;

/// Stack pointer after a reset.
pub const STACK_RESET: u8 = 0xfd;

/// Address of the reset vector.
pub const RESET_VECTOR: u16 = 0xFFFC;

/// Where `load_and_run` places a program.
pub const PROGRAM_BASE: u16 = 0x0600;

/// The processor: its registers, and the memory it owns.
pub struct CPU {
    pub accumulator: u8,
    pub register_x: u8,
    pub register_y: u8,
    pub status: u8,
    pub stack_pointer: u8,
    pub program_counter: u16,
    pub memory: Memory,
}

impl View for CPU {
    type V = State;

    open spec fn view(&self) -> State {
        State {
            a: self.accumulator,
            x: self.register_x,
            y: self.register_y,
            p: self.status,
            sp: self.stack_pointer,
            pc: self.program_counter,
            mem: self.memory@,
        }
    }
}

impl CPU {
    /// The memory of a processor always spans the whole address space.
    pub proof fn lemma_wf(&self)
        ensures
            self@.wf(),
    {
        self.memory.lemma_len();
    }

    /// A processor with every register and every byte of memory zero.
    pub fn new() -> (cpu: CPU)
        ensures
            cpu@ == State::zero(),
    {
        CPU {
            accumulator: 0,
            register_x: 0,
            register_y: 0,
            status: 0,
            stack_pointer: 0,
            program_counter: 0,
            memory: Memory::new(),
        }
    }

    /// The byte at `addr`.
    pub fn mem_read(&self, addr: u16) -> (data: u8)
        ensures
            data == self@.read8(addr),
    {
        self.memory.read(addr)
    }

    /// Puts `data` at `addr`.
    pub fn mem_write(&mut self, addr: u16, data: u8)
        ensures
            final(self)@ == old(self)@.write8(addr, data),
    {
        self.memory.write(addr, data);
    }

    /// The little-endian word at `pos`; its high byte is read from
    /// `pos + 1`, wrapping at the top of memory.
    pub fn mem_read_u16(&self, pos: u16) -> (data: u16)
        ensures
            data == self@.read16(pos),
    {
        let low = self.mem_read(pos);
        let high = self.mem_read(pos.wrapping_add(1));
        proof {
            lemma_word_bits(low, high);
        }
        (high as u16) << 8 | (low as u16)
    }

    /// Puts the word `data` at `pos`, low byte first; the high byte goes
    /// to `pos + 1`, wrapping at the top of memory.
    pub fn mem_write_u16(&mut self, pos: u16, data: u16)
        ensures
            final(self)@ == old(self)@.write16(pos, data),
    {
        proof {
            lemma_split_bits(data);
        }
        self.mem_write(pos, (data & 0xFF) as u8);
        self.mem_write(pos.wrapping_add(1), (data >> 8) as u8);
    }

    /// Sets the bits of `flag` in the status byte.
    pub fn set_status_flag(&mut self, flag: u8)
        ensures
            final(self)@ == old(self)@.with_p(put_flag(old(self)@.p, flag, true)),
    {
        self.status |= flag;
    }

    /// Clears the bits of `flag` in the status byte.
    pub fn reset_status_flag(&mut self, flag: u8)
        ensures
            final(self)@ == old(self)@.with_p(put_flag(old(self)@.p, flag, false)),
    {
        self.status &= !flag;
    }

    /// Sets or clears `flag` as `on` says.
    pub fn assign_status_flag(&mut self, flag: u8, on: bool)
        ensures
            final(self)@ == old(self)@.with_p(put_flag(old(self)@.p, flag, on)),
    {
        if on {
            self.set_status_flag(flag);
        } else {
            self.reset_status_flag(flag);
        }
    }

    /// Z tells that `result` is zero, N that its bit 7 is set.
    pub fn update_zero_and_negative_flags(&mut self, result: u8)
        ensures
            final(self)@ == old(self)@.update_zn(result),
    {
        proof {
            lemma_sign_bit(result);
        }
        self.assign_status_flag(ZERO, result == 0);
        self.assign_status_flag(NEGATIVE, result & 0x80 != 0);
    }

    pub fn set_accumulator(&mut self, value: u8)
        ensures
            final(self)@ == old(self)@.set_a(value),
    {
        self.accumulator = value;
        self.update_zero_and_negative_flags(self.accumulator);
    }

    pub fn set_register_x(&mut self, value: u8)
        ensures
            final(self)@ == old(self)@.set_x(value),
    {
        self.register_x = value;
        self.update_zero_and_negative_flags(self.register_x);
    }

    pub fn set_register_y(&mut self, value: u8)
        ensures
            final(self)@ == old(self)@.set_y(value),
    {
        self.register_y = value;
        self.update_zero_and_negative_flags(self.register_y);
    }

    /// Writes `value` to the slot the stack pointer names and moves the
    /// pointer down, wrapping within the stack page.
    pub fn stack_push(&mut self, value: u8)
        ensures
            final(self)@ == old(self)@.push8(value),
    {
        self.mem_write(STACK + self.stack_pointer as u16, value);
        self.stack_pointer = self.stack_pointer.wrapping_sub(1);
    }

    /// Pushes the high byte, then the low byte.
    pub fn stack_push_u16(&mut self, value: u16)
        ensures
            final(self)@ == old(self)@.push16(value),
    {
        proof {
            lemma_split_bits(value);
        }
        let low = value & 0xff;
        let high = value >> 8;
        self.stack_push(high as u8);
        self.stack_push(low as u8);
    }

    /// Moves the stack pointer up, wrapping within the stack page, and
    /// returns the byte it then names.
    pub fn stack_pop(&mut self) -> (value: u8)
        ensures
            final(self)@ == old(self)@.pop8(),
            value == old(self)@.top8(),
    {
        self.stack_pointer = self.stack_pointer.wrapping_add(1);
        self.mem_read(STACK + self.stack_pointer as u16)
    }

    /// Pops the low byte, then the high byte.
    pub fn stack_pop_u16(&mut self) -> (value: u16)
        ensures
            final(self)@ == old(self)@.pop16(),
            value == old(self)@.top16(),
    {
        let low = self.stack_pop();
        let high = self.stack_pop();
        proof {
            lemma_word_bits(low, high);
        }
        (high as u16) << 8 | (low as u16)
    }

    /// The effective address of the operand whose bytes start at the
    /// program counter. An instruction without operand has none: such a
    /// mode is not to be resolved.
    pub fn get_operand_address(&self, mode: &AddressingMode) -> (addr: u16)
        requires
            *mode != AddressingMode::NoneAddressing,
        ensures
            addr == self@.operand_address(*mode),
    {
        match mode {
            AddressingMode::Immediate => self.program_counter,
            AddressingMode::ZeroPage => self.mem_read(self.program_counter) as u16,
            AddressingMode::Absolute => self.mem_read_u16(self.program_counter),
            AddressingMode::ZeroPage_X => self.mem_read(self.program_counter).wrapping_add(
                self.register_x,
            ) as u16,
            AddressingMode::ZeroPage_Y => self.mem_read(self.program_counter).wrapping_add(
                self.register_y,
            ) as u16,
            AddressingMode::Absolute_X => self.mem_read_u16(self.program_counter).wrapping_add(
                self.register_x as u16,
            ),
            AddressingMode::Absolute_Y => self.mem_read_u16(self.program_counter).wrapping_add(
                self.register_y as u16,
            ),
            AddressingMode::Indirect_X => {
                let base = self.mem_read(self.program_counter);
                let ptr = base.wrapping_add(self.register_x);
                let low = self.mem_read(ptr as u16);
                let high = self.mem_read(ptr.wrapping_add(1) as u16);
                proof {
                    lemma_word_bits(low, high);
                }
                (high as u16) << 8 | (low as u16)
            },
            AddressingMode::Indirect_Y => {
                let base = self.mem_read(self.program_counter);
                let low = self.mem_read(base as u16);
                let high = self.mem_read(base.wrapping_add(1) as u16);
                proof {
                    lemma_word_bits(low, high);
                }
                ((high as u16) << 8 | (low as u16)).wrapping_add(self.register_y as u16)
            },
            AddressingMode::NoneAddressing => 0,
        }
    }
}

} // verus!
