//! General facts about the machine, proved from the definitions in
//! [`crate::state`], [`crate::semantics`] and [`crate::machine`].
use crate::alu::{
    has_flag, high_byte, lemma_flags_disjoint, lemma_put_flag_other, lemma_put_flag_same, lemma_put_zn,
    lemma_rol_ror, low_byte, negative, odd, put_flag, put_zn, rol_value, ror_value, wrap16, wrap8,
};
use crate::cpu::{
    AddressingMode, BREAK, BREAK2, CARRY, DECIMAL_MODE, INTERRUPT_DISABLE, NEGATIVE, OVERFLOW,
    ZERO,
};
use crate::opcode::{decode, Mnemonic, OpCode};
use crate::state::State;
use vstd::prelude::*;

verus! {

/// An immediate load is two bytes, `A9` and the value: it puts the value
/// in the accumulator, leaves C and V alone, and moves on by two.
pub proof fn lemma_lda_immediate(s: State, a: u8)
    requires
        s.read8(s.pc) == 0xA9,
        s.read8(wrap16(s.pc + 1)) == a,
    ensures
        s.halt() is None,
        s.step() == s.with_pc(wrap16(s.pc + 2)).set_a(a),
        has_flag(s.step().p, CARRY) == has_flag(s.p, CARRY),
{
    lemma_put_zn(s.p, a);
}

/// Addition: after `LDA #a; ADC #m`, begun with the carry clear, the
/// accumulator holds `a + m` modulo 256, C tells that the sum passed 255,
/// and V that `a` and `m` have one sign and the result the other.
pub proof fn lemma_lda_adc(s: State, a: u8, m: u8)
    requires
        !has_flag(s.p, CARRY),
        s.read8(s.pc) == 0xA9,
        s.read8(wrap16(s.pc + 1)) == a,
        s.read8(wrap16(s.pc + 2)) == 0x69,
        s.read8(wrap16(s.pc + 3)) == m,
    ensures
        s.steps(2).a == wrap8(a + m),
        has_flag(s.steps(2).p, CARRY) == (a + m >= 0x100),
        has_flag(s.steps(2).p, OVERFLOW) == (negative(a) == negative(m) && negative(a)
            != negative(s.steps(2).a)),
        s.steps(2).pc == wrap16(s.pc + 4),
{
    lemma_lda_immediate(s, a);
    let t = s.step();
    let u = t.step();
    assert(s.steps(2) == u) by {
        reveal_with_fuel(State::steps, 3);
    }
    assert(t.read8(t.pc) == 0x69);
    assert(t.read8(wrap16(t.pc + 1)) == m);
    assert(u == t.fetch().add_to_a(m).with_pc(wrap16(t.pc + 2)));
    lemma_add_flags(t.fetch(), m);
}

/// What an addition to the accumulator leaves in the flags.
pub proof fn lemma_add_flags(s: State, m: u8)
    ensures
        s.add_to_a(m).a == wrap8(s.a + m + s.carry()),
        has_flag(s.add_to_a(m).p, CARRY) == (s.a + m + s.carry() >= 0x100),
        has_flag(s.add_to_a(m).p, OVERFLOW) == (negative(s.a) == negative(m) && negative(s.a)
            != negative(s.add_to_a(m).a)),
        has_flag(s.add_to_a(m).p, ZERO) == (s.add_to_a(m).a == 0),
        has_flag(s.add_to_a(m).p, NEGATIVE) == negative(s.add_to_a(m).a),
{
    let c = s.carry();
    let r = wrap8(s.a + m + c);
    let after_c = put_flag(s.p, CARRY, s.a + m + c > 0xFF);
    let v = negative(s.a) == negative(m) && negative(s.a) != negative(r);
    let after_v = put_flag(after_c, OVERFLOW, v);
    lemma_flags_disjoint();
    lemma_put_flag_same(s.p, CARRY, s.a + m + c > 0xFF);
    lemma_put_flag_other(after_c, OVERFLOW, v, CARRY);
    lemma_put_flag_same(after_c, OVERFLOW, v);
    lemma_put_zn(after_v, r);
}

/// Comparison: C tells that the register is at least the operand, Z that
/// the two are equal, and N is the sign of their difference modulo 256.
pub proof fn lemma_compare_flags(s: State, value: u8, mode: AddressingMode)
    ensures
        has_flag(s.compare(value, mode).p, CARRY) == (value >= s.operand(mode)),
        has_flag(s.compare(value, mode).p, ZERO) == (value == s.operand(mode)),
        has_flag(s.compare(value, mode).p, NEGATIVE) == negative(
            wrap8(value - s.operand(mode)),
        ),
{
    let m = s.operand(mode);
    lemma_put_flag_same(s.p, CARRY, value >= m);
    lemma_put_zn(put_flag(s.p, CARRY, value >= m), wrap8(value - m));
}

/// CMP compares the accumulator: C tells that A is at least the operand,
/// Z that they are equal.
pub proof fn lemma_compare_accumulator(s: State, op: OpCode)
    requires
        op.mnemonic == Mnemonic::CMP,
    ensures
        has_flag(s.execute(op).p, CARRY) == (s.a >= s.operand(op.mode)),
        has_flag(s.execute(op).p, ZERO) == (s.a == s.operand(op.mode)),
{
    lemma_compare_flags(s, s.a, op.mode);
}

/// ROL followed by ROR on the accumulator gives back the accumulator and
/// the carry.
pub proof fn lemma_rol_ror_accumulator(s: State)
    ensures
        s.rol_accumulator().ror_accumulator().a == s.a,
        has_flag(s.rol_accumulator().ror_accumulator().p, CARRY) == has_flag(s.p, CARRY),
{
    let c = s.carry();
    let t = s.rol_accumulator();
    lemma_put_flag_same(s.p, CARRY, negative(s.a));
    lemma_put_zn(put_flag(s.p, CARRY, negative(s.a)), t.a);
    lemma_rol_ror(s.a, c);
    let u = t.ror_accumulator();
    lemma_put_flag_same(t.p, CARRY, odd(t.a));
    lemma_put_zn(put_flag(t.p, CARRY, odd(t.a)), u.a);
}

/// A left rotation of the byte at `addr` undone by a right rotation.
proof fn lemma_rotate_back(s: State, addr: u16)
    requires
        s.wf(),
    ensures
        ({
            let v = s.read8(addr);
            let t = s.with_carry(negative(v)).store_result(addr, rol_value(v, s.carry()));
            let w = t.read8(addr);
            let u = t.with_carry(odd(w)).store_result(addr, ror_value(w, t.carry()));
            u.read8(addr) == v && has_flag(u.p, CARRY) == has_flag(s.p, CARRY)
        }),
{
    let c = s.carry();
    let v = s.read8(addr);
    let w = rol_value(v, c);
    let left = put_zn(put_flag(s.p, CARRY, negative(v)), w);
    lemma_put_flag_same(s.p, CARRY, negative(v));
    lemma_put_zn(put_flag(s.p, CARRY, negative(v)), w);
    lemma_rol_ror(v, c);
    lemma_put_flag_same(left, CARRY, odd(w));
    lemma_put_zn(put_flag(left, CARRY, odd(w)), v);
}

/// ROL followed by ROR on one byte of memory gives back the memory and
/// the carry. The operand bytes must survive the first write, so that
/// the second instruction finds the same byte.
pub proof fn lemma_rol_ror_memory(s: State, mode: AddressingMode)
    requires
        s.wf(),
        s.rol(mode).operand_address(mode) == s.operand_address(mode),
    ensures
        s.rol(mode).ror(mode).mem == s.mem,
        has_flag(s.rol(mode).ror(mode).p, CARRY) == has_flag(s.p, CARRY),
{
    lemma_rotate_back(s, s.operand_address(mode));
    assert(s.rol(mode).ror(mode).mem =~= s.mem);
}

/// After a reset bit 5 and the interrupt-disable flag are set and every
/// other flag is clear, the stack pointer is `0xFD`, and the program
/// counter is the reset vector.
pub proof fn lemma_reset(s: State)
    ensures
        has_flag(s.reset().p, BREAK2),
        has_flag(s.reset().p, INTERRUPT_DISABLE),
        !has_flag(s.reset().p, CARRY),
        !has_flag(s.reset().p, ZERO),
        !has_flag(s.reset().p, DECIMAL_MODE),
        !has_flag(s.reset().p, BREAK),
        !has_flag(s.reset().p, OVERFLOW),
        !has_flag(s.reset().p, NEGATIVE),
        s.reset().sp == 0xFD,
        s.reset().pc == s.read16(0xFFFC),
        s.reset().mem == s.mem,
{
    let p = INTERRUPT_DISABLE | BREAK2;
    assert(p & BREAK2 != 0 && p & INTERRUPT_DISABLE != 0 && p & CARRY == 0 && p & ZERO == 0 && p
        & DECIMAL_MODE == 0 && p & BREAK == 0 && p & OVERFLOW == 0 && p & NEGATIVE == 0)
        by (bit_vector)
        requires
            p == INTERRUPT_DISABLE | BREAK2,
    ;
}

/// No instruction changes the size of memory.
pub proof fn lemma_execute_wf(s: State, op: OpCode)
    requires
        s.wf(),
    ensures
        s.execute(op).wf(),
{
}

/// The cycle keeps the memory at its size.
pub proof fn lemma_step_wf(s: State)
    requires
        s.wf(),
    ensures
        s.step().wf(),
{
    match decode(s.opcode_byte()) {
        None => {},
        Some(op) => {
            lemma_execute_wf(s.fetch(), op);
        },
    }
}

/// However long the processor runs, its memory keeps its size.
pub proof fn lemma_steps_wf(s: State, n: nat)
    requires
        s.wf(),
    ensures
        s.steps(n).wf(),
    decreases n,
{
    if n > 0 {
        lemma_step_wf(s);
        lemma_steps_wf(s.step(), (n - 1) as nat);
    }
}

/// A store followed by a load in the same mode gives back the
/// accumulator. The load may stand at another place `pc`, as long as its
/// operand bytes name the address that the store wrote to.
pub proof fn lemma_sta_lda(s: State, mode: AddressingMode, pc: u16)
    requires
        s.wf(),
        s.sta(mode).with_pc(pc).operand_address(mode) == s.operand_address(mode),
    ensures
        s.sta(mode).with_pc(pc).lda(mode).a == s.a,
{
}

/// A pop after a push returns the byte pushed and restores the stack
/// pointer.
pub proof fn lemma_push_pop(s: State, v: u8)
    requires
        s.wf(),
    ensures
        s.push8(v).top8() == v,
        s.push8(v).pop8() == s.write8(s.stack_address(), v),
{
}

/// A 16-bit pop after a 16-bit push returns the word pushed and restores
/// the stack pointer.
pub proof fn lemma_push_pop_16(s: State, w: u16)
    requires
        s.wf(),
    ensures
        s.push16(w).top16() == w,
        s.push16(w).pop16().sp == s.sp,
{
    let t = s.push8(high_byte(w));
    lemma_push_pop(t, low_byte(w));
    lemma_push_pop(s, high_byte(w));
    let u = t.write8(t.stack_address(), low_byte(w));
    assert(t.push8(low_byte(w)).pop8() == u);
    assert(u.top8() == high_byte(w));
}

/// A call pushes the address of its own last byte, so a return that
/// finds the stack pointer and the two bytes above it as the call left
/// them continues at the instruction after the call.
pub proof fn lemma_jsr_rts(s: State, t: State)
    requires
        s.wf(),
        t.sp == s.jsr().sp,
        t.top16() == s.jsr().top16(),
    ensures
        s.jsr().top16() == wrap16(s.pc + 1),
        t.rts().pc == wrap16(s.pc + 2),
        t.rts().sp == s.sp,
{
    let w = wrap16(s.pc + 1);
    lemma_push_pop_16(s, w);
    let pushed = s.push16(w);
    assert(s.jsr().top16() == pushed.top16());
    assert(t.rts().sp == pushed.pop16().sp);
}

/// The state after `bytes` have been pushed, the first of them first.
pub open spec fn push_all(s: State, bytes: Seq<u8>) -> State
    decreases bytes.len(),
{
    if bytes.len() == 0 {
        s
    } else {
        push_all(s, bytes.drop_last()).push8(bytes.last())
    }
}

/// The bytes that `n` pops return, in the order in which they come.
pub open spec fn pop_all(s: State, n: nat) -> Seq<u8>
    decreases n,
{
    if n == 0 {
        Seq::empty()
    } else {
        seq![s.top8()] + pop_all(s.pop8(), (n - 1) as nat)
    }
}

/// Pushes move the stack pointer down by one each and keep the memory at
/// its size.
pub proof fn lemma_push_all(s: State, bytes: Seq<u8>)
    requires
        s.wf(),
    ensures
        push_all(s, bytes).wf(),
        push_all(s, bytes).sp == wrap8(s.sp - bytes.len()),
    decreases bytes.len(),
{
    if bytes.len() > 0 {
        lemma_push_all(s, bytes.drop_last());
    }
}

/// The address of the `k`th byte above the stack pointer `sp`, within
/// the stack page.
pub open spec fn stack_slot(sp: u8, k: int) -> int {
    0x100 + wrap8(sp + k)
}

/// What `n` pops return depends on the stack pointer and on the `n`
/// bytes above it alone.
proof fn lemma_pop_all_frame(s: State, t: State, n: nat)
    requires
        s.sp == t.sp,
        forall|k: int| 1 <= k <= n ==> s.mem[#[trigger] stack_slot(s.sp, k)] == t.mem[stack_slot(
            s.sp,
            k,
        )],
    ensures
        pop_all(s, n) == pop_all(t, n),
    decreases n,
{
    if n > 0 {
        assert(s.top8() == t.top8()) by {
            assert(s.mem[stack_slot(s.sp, 1)] == t.mem[stack_slot(s.sp, 1)]);
        }
        assert forall|k: int| 1 <= k <= n - 1 implies s.pop8().mem[#[trigger] stack_slot(
            s.pop8().sp,
            k,
        )] == t.pop8().mem[stack_slot(s.pop8().sp, k)] by {
            assert(stack_slot(s.pop8().sp, k) == stack_slot(s.sp, k + 1));
        }
        lemma_pop_all_frame(s.pop8(), t.pop8(), (n - 1) as nat);
    }
}

/// The stack is last in, first out: as many pops as there were pushes
/// return the bytes pushed in reverse order. The stack holds 256 bytes,
/// so no more may be pushed.
pub proof fn lemma_stack_lifo(s: State, bytes: Seq<u8>)
    requires
        s.wf(),
        bytes.len() <= 256,
    ensures
        pop_all(push_all(s, bytes), bytes.len()) == bytes.reverse(),
    decreases bytes.len(),
{
    let n = bytes.len();
    if n == 0 {
        assert(bytes.reverse() =~= Seq::empty());
    } else {
        let rest = bytes.drop_last();
        let q = push_all(s, rest);
        let r = q.push8(bytes.last());
        lemma_push_all(s, rest);
        lemma_stack_lifo(s, rest);
        assert(r.top8() == bytes.last());
        assert forall|k: int| 1 <= k <= n - 1 implies r.pop8().mem[#[trigger] stack_slot(
            r.pop8().sp,
            k,
        )] == q.mem[stack_slot(r.pop8().sp, k)] by {
            assert(wrap8(q.sp + k) != q.sp);
        }
        lemma_pop_all_frame(r.pop8(), q, (n - 1) as nat);
        assert(seq![bytes.last()] + rest.reverse() =~= bytes.reverse());
    }
}

/// Bytes stored below the top of memory lie at consecutive addresses,
/// and nothing else changes.
pub proof fn lemma_store_bytes(s: State, addr: u16, bytes: Seq<u8>)
    requires
        s.wf(),
        addr + bytes.len() <= 0x1_0000,
    ensures
        s.store_bytes(addr, bytes).wf(),
        s.store_bytes(addr, bytes) == (State { mem: s.store_bytes(addr, bytes).mem, ..s }),
        forall|i: int|
            0 <= i < bytes.len() ==> s.store_bytes(addr, bytes).mem[addr + i] == bytes[i],
        forall|j: int|
            0 <= j < 0x1_0000 && !(addr <= j < addr + bytes.len()) ==> s.store_bytes(
                addr,
                bytes,
            ).mem[j] == s.mem[j],
    decreases bytes.len(),
{
    if bytes.len() > 0 {
        let t = s.write8(addr, bytes[0]);
        let rest = bytes.skip(1);
        let next = wrap16(addr + 1);
        lemma_store_bytes(t, next, rest);
        let r = t.store_bytes(next, rest);
        assert(r == s.store_bytes(addr, bytes));
        assert(r.mem[addr as int] == t.mem[addr as int]);
        assert forall|i: int| 0 <= i < bytes.len() implies r.mem[addr + i] == bytes[i] by {
            if i > 0 {
                assert(rest[i - 1] == bytes[i]);
                assert(r.mem[next + (i - 1)] == rest[i - 1]);
            }
        }
        assert forall|j: int|
            0 <= j < 0x1_0000 && !(addr <= j < addr + bytes.len()) implies r.mem[j]
            == s.mem[j] by {
            assert(r.mem[j] == t.mem[j]);
        }
    }
}

/// A program loaded below the reset vector is found where it was put, and
/// a reset sends the processor to its first byte.
pub proof fn lemma_load_reset(s: State, program: Seq<u8>, base: u16)
    requires
        s.wf(),
        base + program.len() <= 0xFFFC,
    ensures
        s.load(program, base).reset().wf(),
        s.load(program, base).reset().pc == base,
        forall|i: int|
            0 <= i < program.len() ==> s.load(program, base).reset().mem[base + i] == program[i],
{
    lemma_store_bytes(s, base, program);
    let t = s.store_bytes(base, program);
    let u = t.write16(0xFFFC, base);
    assert(u.read16(0xFFFC) == base);
}

} // verus!
