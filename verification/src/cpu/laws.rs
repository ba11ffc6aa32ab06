//! What holds of the instruction set whatever the program.

use crate::cpu::model::adc_result;
use crate::cpu::model::sbc_result;
use crate::cpu::model::CpuState;
use crate::bus::BusState;
use crate::flags::lemma_assign_single_bit;
use crate::flags::StatusFlags;
use crate::opscodes::AddressingMode;
use crate::opscodes::Operation;
use vstd::prelude::*;

verus! {

/// Setting Zero and Negative from `value` makes Zero tell whether `value`
/// is 0 and Negative whether its bit 7 is set, and leaves the other six
/// flags alone.
pub proof fn lemma_zero_and_negative(status: StatusFlags, value: u8)
    ensures
        status.with_zn(value).has(0x02) == (value == 0),
        status.with_zn(value).has(0x80) == (value >= 0x80),
        status.with_zn(value).has(0x01) == status.has(0x01),
        status.with_zn(value).has(0x04) == status.has(0x04),
        status.with_zn(value).has(0x08) == status.has(0x08),
        status.with_zn(value).has(0x10) == status.has(0x10),
        status.with_zn(value).has(0x20) == status.has(0x20),
        status.with_zn(value).has(0x40) == status.has(0x40),
{
    let zero = status.assign(0x02, value == 0);
    assert((value & 0x80 != 0) == (value >= 0x80)) by (bit_vector);
    lemma_assign_single_bit(status, 0x02, 0x01, value == 0);
    lemma_assign_single_bit(status, 0x02, 0x04, value == 0);
    lemma_assign_single_bit(status, 0x02, 0x08, value == 0);
    lemma_assign_single_bit(status, 0x02, 0x10, value == 0);
    lemma_assign_single_bit(status, 0x02, 0x20, value == 0);
    lemma_assign_single_bit(status, 0x02, 0x40, value == 0);
    lemma_assign_single_bit(status, 0x02, 0x80, value == 0);
    lemma_assign_single_bit(zero, 0x80, 0x01, value >= 0x80);
    lemma_assign_single_bit(zero, 0x80, 0x02, value >= 0x80);
    lemma_assign_single_bit(zero, 0x80, 0x04, value >= 0x80);
    lemma_assign_single_bit(zero, 0x80, 0x08, value >= 0x80);
    lemma_assign_single_bit(zero, 0x80, 0x10, value >= 0x80);
    lemma_assign_single_bit(zero, 0x80, 0x20, value >= 0x80);
    lemma_assign_single_bit(zero, 0x80, 0x40, value >= 0x80);
}

/// After `LDA` took in the operand `value`, the accumulator holds it, Zero
/// tells whether it is 0, and Negative is its bit 7.
pub proof fn lemma_lda_sets_flags(s: CpuState, value: u8)
    ensures
        s.apply(Operation::Lda, value).a == value,
        s.apply(Operation::Lda, value).status.has(0x02) == (value == 0),
        s.apply(Operation::Lda, value).status.has(0x80) == (value & 0x80 != 0),
{
    lemma_zero_and_negative(s.status, value);
    assert((value & 0x80 != 0) == (value >= 0x80)) by (bit_vector);
}

/// `LDA` in any addressing mode leaves in the accumulator the byte it
/// read, with Zero and Negative describing it.
pub proof fn lemma_lda_loads_operand(s: CpuState, mode: AddressingMode)
    requires
        s.read_op(Operation::Lda, mode).1 is Ok,
    ensures
        s.fetch(mode).1 is Ok,
        ({
            let value = s.fetch(mode).1->Ok_0.0;
            let after = s.read_op(Operation::Lda, mode).0;
            &&& after.a == value
            &&& after.status.has(0x02) == (value == 0)
            &&& after.status.has(0x80) == (value & 0x80 != 0)
        }),
{
    reveal(CpuState::read_op);
    let value = s.fetch(mode).1->Ok_0.0;
    lemma_lda_sets_flags(s.fetch(mode).0, value);
}

/// After `ADC` the accumulator holds the low eight bits of the sum of
/// accumulator, operand and carry, Carry tells whether the sum reached
/// 256, and Overflow whether operand and accumulator both differ in sign
/// from the result. Zero and Negative describe the result.
pub proof fn lemma_adc(s: CpuState, operand: u8)
    ensures
        ({
            let carry_in = if s.status.has(0x01) { 1int } else { 0int };
            let after = s.add_to_a(operand);
            &&& after.a == (s.a + operand + carry_in) % 256
            &&& after.status.has(0x01) == (s.a + operand + carry_in >= 256)
            &&& after.status.has(0x40) == ((operand ^ after.a) & (after.a ^ s.a) & 0x80 != 0)
            &&& after.status.has(0x02) == (after.a == 0)
            &&& after.status.has(0x80) == (after.a >= 0x80)
        }),
{
    let (result, carry, overflow) = adc_result(s.a, operand, s.status.has(0x01));
    let with_carry = s.status.assign(0x01, carry);
    let with_overflow = with_carry.assign(0x40, overflow);
    lemma_assign_single_bit(s.status, 0x01, 0x40, carry);
    lemma_assign_single_bit(with_carry, 0x40, 0x01, overflow);
    lemma_zero_and_negative(with_overflow, result);
}

/// `SBC` of an operand is `ADC` of the operand with all bits flipped.
pub proof fn lemma_sbc_is_adc_of_complement(s: CpuState, operand: u8)
    ensures
        s.sub_from_a(operand) == s.add_to_a(operand ^ 0xff),
        s.apply(Operation::Sbc, operand) == s.apply(Operation::Adc, operand ^ 0xff),
{
    assert(operand ^ 0xff == 255 - operand) by (bit_vector);
    lemma_borrow_is_inverted_carry(s.a, operand, s.status.has(0x01));
}

/// Subtracting with borrow is adding the complement with carry.
proof fn lemma_borrow_is_inverted_carry(a: u8, operand: u8, carry: bool)
    ensures
        sbc_result(a, operand, carry) == adc_result(a, (255 - operand) as u8, carry),
{
    let difference = a - operand - if carry { 0int } else { 1int };
    let sum = a + (255 - operand) + if carry { 1int } else { 0int };
    assert(sum == difference + 256);
    if difference >= 0 {
        assert(difference % 256 == difference);
        assert(sum % 256 == difference);
    } else {
        assert(difference % 256 == difference + 256);
        assert(sum % 256 == sum);
    }
}

/// After `SBC` the accumulator holds the low eight bits of accumulator
/// minus operand minus borrow, where the borrow is 1 when Carry is clear,
/// and Carry tells that no borrow was needed.
pub proof fn lemma_sbc(s: CpuState, operand: u8)
    ensures
        ({
            let borrow = if s.status.has(0x01) { 0int } else { 1int };
            let after = s.sub_from_a(operand);
            &&& after.a == (s.a - operand - borrow) % 256
            &&& after.status.has(0x01) == (s.a - operand - borrow >= 0)
        }),
{
    let (result, carry, overflow) = sbc_result(s.a, operand, s.status.has(0x01));
    let with_carry = s.status.assign(0x01, carry);
    let with_overflow = with_carry.assign(0x40, overflow);
    lemma_assign_single_bit(s.status, 0x01, 0x40, carry);
    lemma_assign_single_bit(with_carry, 0x40, 0x01, overflow);
    lemma_zero_and_negative(with_overflow, result);
}

/// After a comparison Carry tells whether the register is at least the
/// operand, Zero whether they are equal, and Negative is bit 7 of their
/// difference.
pub proof fn lemma_compare(s: CpuState, register: u8, operand: u8)
    ensures
        s.compare(register, operand).status.has(0x01) == (register >= operand),
        s.compare(register, operand).status.has(0x02) == (register == operand),
        s.compare(register, operand).status.has(0x80) == (register.wrapping_sub(operand) >= 0x80),
{
    let with_carry = s.status.assign(0x01, register >= operand);
    lemma_assign_single_bit(s.status, 0x01, 0x02, register >= operand);
    lemma_zero_and_negative(with_carry, register.wrapping_sub(operand));
}

/// The processor after the bytes of `bytes` were pushed, first byte first.
pub open spec fn push_all(s: CpuState, bytes: Seq<u8>) -> CpuState
    decreases bytes.len(),
{
    if bytes.len() == 0 {
        s
    } else {
        push_all(s, bytes.drop_last()).push(bytes.last())
    }
}

/// The processor after `n` pops, and the bytes popped, first pop first.
pub open spec fn pop_n(s: CpuState, n: nat) -> (CpuState, Seq<u8>)
    decreases n,
{
    if n == 0 {
        (s, Seq::<u8>::empty())
    } else {
        let (after, rest) = pop_n(s.pop(), (n - 1) as nat);
        (after, seq![s.top()] + rest)
    }
}

/// The slot of the stack page that the `i`-th push from stack pointer `sp`
/// writes.
pub open spec fn stack_slot(sp: u8, i: int) -> int {
    0x0100 + (sp - i + 256) % 256
}

proof fn lemma_push_all(s: CpuState, bytes: Seq<u8>)
    requires
        s.wf(),
        bytes.len() <= 256,
    ensures
        ({
            let t = push_all(s, bytes);
            &&& t.wf()
            &&& t.sp == (s.sp - bytes.len() + 256) % 256
            &&& t == (CpuState {
                sp: t.sp,
                bus: BusState { ram: t.bus.ram, ..s.bus },
                ..s
            })
            &&& forall|i: int| 0 <= i < bytes.len() ==> t.bus.ram[stack_slot(s.sp, i)] == bytes[i]
            &&& forall|j: int|
                0 <= j < 2048 && !(0x0100 <= j < 0x0200) ==> t.bus.ram[j] == s.bus.ram[j]
        }),
    decreases bytes.len(),
{
    if bytes.len() > 0 {
        let before = push_all(s, bytes.drop_last());
        lemma_push_all(s, bytes.drop_last());
        let t = before.push(bytes.last());
        assert(t.bus.ram =~= before.bus.ram.update(0x0100 + before.sp, bytes.last()));
        assert forall|i: int| 0 <= i < bytes.len() implies t.bus.ram[stack_slot(s.sp, i)]
            == bytes[i] by {
            if i < bytes.len() - 1 {
                assert(bytes.drop_last()[i] == bytes[i]);
                assert(stack_slot(s.sp, i) != 0x0100 + before.sp);
            }
        }
    } else {
        assert(s.bus =~= (BusState { ram: s.bus.ram, ..s.bus }));
    }
}

proof fn lemma_pop_n(s: CpuState, n: nat)
    requires
        n <= 256,
    ensures
        pop_n(s, n).0 == (CpuState { sp: ((s.sp + n) % 256) as u8, ..s }),
        pop_n(s, n).1.len() == n,
        forall|k: int|
            0 <= k < n ==> pop_n(s, n).1[k] == s.bus.ram[0x0100 + (s.sp + 1 + k) % 256],
    decreases n,
{
    if n > 0 {
        lemma_pop_n(s.pop(), (n - 1) as nat);
        let (after, rest) = pop_n(s.pop(), (n - 1) as nat);
        assert forall|k: int| 0 <= k < n implies pop_n(s, n).1[k] == s.bus.ram[0x0100 + (s.sp + 1
            + k) % 256] by {
            if k > 0 {
                assert(pop_n(s, n).1[k] == rest[k - 1]);
            }
        }
    }
}

/// Pushes followed by as many pops restore the stack: the pops return the
/// bytes pushed, last pushed first, and the stack pointer is back where it
/// was. Nothing but the stack page of work RAM has changed. This holds of
/// up to 256 bytes, which is what the stack page holds.
pub proof fn lemma_stack_round_trip(s: CpuState, bytes: Seq<u8>)
    requires
        s.wf(),
        bytes.len() <= 256,
    ensures
        ({
            let (after, popped) = pop_n(push_all(s, bytes), bytes.len());
            &&& popped == bytes.reverse()
            &&& after.sp == s.sp
            &&& after == (CpuState { bus: BusState { ram: after.bus.ram, ..s.bus }, ..s })
            &&& forall|j: int|
                0 <= j < 2048 && !(0x0100 <= j < 0x0200) ==> after.bus.ram[j] == s.bus.ram[j]
        }),
{
    let t = push_all(s, bytes);
    let n = bytes.len();
    lemma_push_all(s, bytes);
    lemma_pop_n(t, n);
    let (after, popped) = pop_n(t, n);
    assert forall|k: int| 0 <= k < n implies popped[k] == bytes.reverse()[k] by {
        lemma_slot_of_pop(s.sp as int, n as int, k);
        assert(popped[k] == t.bus.ram[stack_slot(s.sp, n - 1 - k)]);
    }
    assert(popped =~= bytes.reverse());
    lemma_slot_of_pop(s.sp as int, n as int, 0);
}

/// The `k`-th pop after `n` pushes reads the slot of the push before the
/// last `k`, and `n` pops bring the stack pointer back.
proof fn lemma_slot_of_pop(sp: int, n: int, k: int)
    requires
        0 <= sp < 256,
        0 <= k <= n <= 256,
    ensures
        k < n ==> 0x0100 + ((sp - n + 256) % 256 + 1 + k) % 256 == 0x0100 + (sp - (n - 1 - k)
            + 256) % 256,
        ((sp - n + 256) % 256 + n) % 256 == sp,
{
}


/// Poking a program into writable program memory of 32 KiB never faults
/// and changes nothing but the bytes poked.
proof fn lemma_poke_all(s: CpuState, program: Seq<u8>, from: nat)
    requires
        s.bus.prg_writable,
        s.bus.prg.len() == 0x8000,
        from <= program.len() <= 0x8000,
    ensures
        ({
            let (after, result) = s.poke_all(0x8000, program, from);
            &&& result is Ok
            &&& after == (CpuState { bus: BusState { prg: after.bus.prg, ..s.bus }, ..s })
            &&& after.bus.prg.len() == 0x8000
            &&& forall|k: int|
                0 <= k < 0x8000 ==> after.bus.prg[k] == if from <= k < program.len() {
                    program[k]
                } else {
                    s.bus.prg[k]
                }
        }),
    decreases program.len() - from,
{
    if from < program.len() {
        let (next, written) = s.write((0x8000 + from) as u16, program[from as int]);
        assert(s.bus.prg_index((0x8000 + from) as u16) == Some(from as int));
        lemma_poke_all(next, program, from + 1);
    } else {
        assert(s.bus =~= (BusState { prg: s.bus.prg, ..s.bus }));
    }
}

/// On a cartridge with 32 KiB of writable program memory, loading a
/// program that leaves the reset vector free never faults: afterwards the
/// program stands at `$8000`, the reset vector points at it, and nothing
/// else has changed.
pub proof fn lemma_load(s: CpuState, program: Seq<u8>)
    requires
        s.bus.prg_writable,
        s.bus.prg.len() == 0x8000,
        program.len() <= 0x7ffc,
    ensures
        ({
            let (after, result) = s.load(program);
            &&& result is Ok
            &&& after == (CpuState { bus: BusState { prg: after.bus.prg, ..s.bus }, ..s })
            &&& after.bus.prg.len() == 0x8000
            &&& forall|k: int| 0 <= k < program.len() ==> after.bus.prg[k] == program[k]
            &&& after.bus.prg[0x7ffc] == 0x00
            &&& after.bus.prg[0x7ffd] == 0x80
            &&& forall|k: int|
                program.len() <= k < 0x8000 && k != 0x7ffc && k != 0x7ffd ==> after.bus.prg[k]
                    == s.bus.prg[k]
            &&& after.bus.read_u16(0xfffc).1 == Ok::<u16, crate::fault::Fault>(0x8000)
        }),
{
    lemma_poke_all(s, program, 0);
    let (poked, _) = s.poke_all(0x8000, program, 0);
    assert(poked.bus.prg_index(0xfffc) == Some(0x7ffcint));
    assert(poked.bus.prg_index(0xfffd) == Some(0x7ffdint));
    assert(0x8000u16 & 0xff == 0 && 0x8000u16 >> 8 == 0x80) by (bit_vector);
    assert(((0x80u8 as u16) << 8) | (0x00u8 as u16) == 0x8000) by (bit_vector);
    let (after, result) = s.load(program);
    assert(after.bus.prg_index(0xfffc) == Some(0x7ffcint));
    assert(after.bus.prg_index(0xfffd) == Some(0x7ffdint));
}

} // verus!
