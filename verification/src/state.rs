//! The machine as a mathematical value: registers and 64 KiB of memory,
//! with the memory bus, the stack and the addressing modes as functions
//! on it.
use crate::alu::{high_byte, low_byte, put_zn, word, wrap16, wrap8};
use crate::cpu::AddressingMode;
use vstd::prelude::*;

verus! {

/// A complete processor state.
pub ghost struct State {
    /// Accumulator.
    pub a: u8,
    pub x: u8,
    pub y: u8,
    /// Status byte, `N V - B D I Z C` from bit 7 down.
    pub p: u8,
    /// Stack pointer: `0x0100 + sp` is the next free slot.
    pub sp: u8,
    pub pc: u16,
    pub mem: Seq<u8>,
}

impl State {
    /// The state in which every register and every byte of memory is zero.
    pub open spec fn zero() -> State {
        State { a: 0, x: 0, y: 0, p: 0, sp: 0, pc: 0, mem: Seq::new(0x1_0000, |addr: int| 0u8) }
    }

    /// The memory covers the whole 16-bit address space.
    pub open spec fn wf(self) -> bool {
        self.mem.len() == 0x1_0000
    }

    pub open spec fn read8(self, addr: u16) -> u8 {
        self.mem[addr as int]
    }

    pub open spec fn write8(self, addr: u16, v: u8) -> State {
        State { mem: self.mem.update(addr as int, v), ..self }
    }

    /// Little-endian 16-bit read; the high byte comes from `addr + 1`,
    /// wrapping at the top of memory.
    pub open spec fn read16(self, addr: u16) -> u16 {
        word(self.read8(addr), self.read8(wrap16(addr + 1)))
    }

    /// Little-endian 16-bit write: low byte first, then the high byte at
    /// `addr + 1`, wrapping at the top of memory.
    pub open spec fn write16(self, addr: u16, w: u16) -> State {
        self.write8(addr, low_byte(w)).write8(wrap16(addr + 1), high_byte(w))
    }

    pub open spec fn with_pc(self, pc: u16) -> State {
        State { pc, ..self }
    }

    pub open spec fn with_p(self, p: u8) -> State {
        State { p, ..self }
    }

    /// Z and N updated for the byte `v`.
    pub open spec fn update_zn(self, v: u8) -> State {
        State { p: put_zn(self.p, v), ..self }
    }

    pub open spec fn set_a(self, v: u8) -> State {
        State { a: v, ..self }.update_zn(v)
    }

    pub open spec fn set_x(self, v: u8) -> State {
        State { x: v, ..self }.update_zn(v)
    }

    pub open spec fn set_y(self, v: u8) -> State {
        State { y: v, ..self }.update_zn(v)
    }

    /// The address the next push writes to.
    pub open spec fn stack_address(self) -> u16 {
        (0x0100 + self.sp) as u16
    }

    pub open spec fn push8(self, v: u8) -> State {
        State { sp: wrap8(self.sp - 1), ..self.write8(self.stack_address(), v) }
    }

    /// High byte first, so that the word lies little-endian in memory.
    pub open spec fn push16(self, w: u16) -> State {
        self.push8(high_byte(w)).push8(low_byte(w))
    }

    /// The state after one byte has been popped.
    pub open spec fn pop8(self) -> State {
        State { sp: wrap8(self.sp + 1), ..self }
    }

    /// The byte that a pop returns.
    pub open spec fn top8(self) -> u8 {
        self.pop8().read8(self.pop8().stack_address())
    }

    pub open spec fn pop16(self) -> State {
        self.pop8().pop8()
    }

    /// The word that a 16-bit pop returns: low byte first.
    pub open spec fn top16(self) -> u16 {
        word(self.top8(), self.pop8().top8())
    }

    /// The 16-bit pointer stored in the zero page at `ptr`; its high byte
    /// is fetched from `ptr + 1` within the zero page.
    pub open spec fn zero_page_pointer(self, ptr: u8) -> u16 {
        word(self.read8(ptr as u16), self.read8(wrap8(ptr + 1) as u16))
    }

    /// The effective address of the operand whose bytes start at `pc`.
    /// An instruction without operand has none.
    pub open spec fn operand_address(self, mode: AddressingMode) -> u16
        recommends
            mode != AddressingMode::NoneAddressing,
    {
        match mode {
            AddressingMode::Immediate => self.pc,
            AddressingMode::ZeroPage => self.read8(self.pc) as u16,
            AddressingMode::ZeroPage_X => wrap8(self.read8(self.pc) + self.x) as u16,
            AddressingMode::ZeroPage_Y => wrap8(self.read8(self.pc) + self.y) as u16,
            AddressingMode::Absolute => self.read16(self.pc),
            AddressingMode::Absolute_X => wrap16(self.read16(self.pc) + self.x),
            AddressingMode::Absolute_Y => wrap16(self.read16(self.pc) + self.y),
            AddressingMode::Indirect_X => self.zero_page_pointer(
                wrap8(self.read8(self.pc) + self.x),
            ),
            AddressingMode::Indirect_Y => wrap16(
                self.zero_page_pointer(self.read8(self.pc)) + self.y,
            ),
            AddressingMode::NoneAddressing => arbitrary(),
        }
    }

    /// The operand itself.
    pub open spec fn operand(self, mode: AddressingMode) -> u8
        recommends
            mode != AddressingMode::NoneAddressing,
    {
        self.read8(self.operand_address(mode))
    }
}

} // verus!
