use crate::addressing::AddressingMode;
use crate::decoder::decode_table;
use crate::instructions::Instruction;
use crate::semantics::{
    add_with_carry, high_byte, low_byte, rotate_left, rotate_right, signed, subtract_with_borrow,
    word, wrap_word, CpuState, Shifted, StepError,
};
use vstd::prelude::*;

verus! {

/// The state after `n` steps from `s`, or the error of the first step that
/// fails. It is opaque: reveal it with the fuel that the steps ask for.
#[verifier::opaque]
pub open spec fn run(s: CpuState, n: nat) -> Result<CpuState, StepError>
    decreases n,
{
    if n == 0 {
        Ok(s)
    } else {
        match s.step() {
            Ok(next) => run(next, (n - 1) as nat),
            Err(e) => Err(e),
        }
    }
}

/// Whether the bytes of `program` stand in memory from the program counter
/// upwards.
pub open spec fn at_program(s: CpuState, program: Seq<u8>) -> bool {
    forall|i: int| 0 <= i < program.len() ==> s.read(wrap_word(s.pc + i)) == #[trigger] program[i]
}

/// No instruction changes the unused bit of the status register.
pub proof fn lemma_perform_keeps_unused(
    s: CpuState,
    instruction: Instruction,
    mode: AddressingMode,
)
    ensures
        s.perform(instruction, mode).p.unused == s.p.unused,
{
}

/// After every step the unused bit of the status register is set, if it
/// was set before: it is set after reset, so it is always set.
pub proof fn lemma_step_keeps_unused(s: CpuState)
    requires
        s.p.unused,
    ensures
        s.step() matches Ok(next) ==> next.p.unused,
{
    match decode_table(s.read(s.pc)) {
        Some((instruction, mode)) => {
            lemma_perform_keeps_unused(s, instruction, mode);
        },
        None => {},
    }
}

/// After every step the stack pointer is a byte and the program counter a
/// 16-bit word: both wrap and never leave their range.
pub proof fn lemma_step_stays_in_range(s: CpuState)
    ensures
        s.step() matches Ok(next) ==> 0 <= next.s <= 0xFF && 0 <= next.pc <= 0xFFFF,
{
}

/// A step leaves the memory as large as it was.
pub proof fn lemma_step_keeps_wf(s: CpuState)
    requires
        s.wf(),
    ensures
        s.step() matches Ok(next) ==> next.wf(),
{
}

/// A byte that is pushed is the byte that the next pull gives, and the pull
/// leaves every register as it was before the push. Of the memory only the
/// slot that took the byte can have changed, so where the slot already held
/// the byte the whole state is as before.
pub proof fn lemma_push_then_pull(s: CpuState, b: u8)
    requires
        s.wf(),
    ensures
        s.push(b).pulled() == b,
        s.push(b).pull() == s.write(s.stack_slot(), b),
        s.read(s.stack_slot()) == b ==> s.push(b).pull() == s,
{
    assert(s.push(b).pull().mem =~= s.write(s.stack_slot(), b).mem);
    if s.read(s.stack_slot()) == b {
        assert(s.write(s.stack_slot(), b).mem =~= s.mem);
    }
}

/// A push with the stack pointer at 0 writes to the first byte of the stack
/// page and leaves the stack pointer at `0xFF`.
pub proof fn lemma_push_wraps(s: CpuState, b: u8)
    requires
        s.wf(),
        s.s == 0,
    ensures
        s.push(b).s == 0xFF,
        s.push(b).read(0x0100) == b,
{
}

/// Whether one step leads from `s` to `next`.
#[verifier::opaque]
spec fn steps_to(s: CpuState, next: CpuState) -> bool {
    s.step() == Ok::<CpuState, StepError>(next)
}

/// What `LDA #v` does: `v` is loaded, and the program goes on two bytes on.
proof fn lemma_load_immediate(s: CpuState, v: u8)
    requires
        s.read(s.pc) == 0xA9,
        s.read(wrap_word(s.pc + 1)) == v,
    ensures
        steps_to(s, s.advance(2).load_a(v)),
{
    reveal(steps_to);
    assert(s.advance(1).advance(1) == s.advance(2));
}

/// What `STA addr` does: the accumulator is written to `addr`, and the
/// program goes on three bytes on.
proof fn lemma_store_absolute(s: CpuState, addr: u16)
    requires
        s.read(s.pc) == 0x8D,
        s.read(wrap_word(s.pc + 1)) == low_byte(addr),
        s.read(wrap_word(s.pc + 2)) == high_byte(addr),
    ensures
        steps_to(s, s.advance(3).write(addr, s.a)),
{
    reveal(steps_to);
    assert(s.advance(1).advance(2) == s.advance(3));
    assert(wrap_word(s.advance(1).pc + 1) == wrap_word(s.pc + 2));
    assert(word(low_byte(addr), high_byte(addr)) == addr);
}

/// What `LDA addr` does: the byte at `addr` is loaded, and the program goes
/// on three bytes on.
proof fn lemma_load_absolute(s: CpuState, addr: u16)
    requires
        s.read(s.pc) == 0xAD,
        s.read(wrap_word(s.pc + 1)) == low_byte(addr),
        s.read(wrap_word(s.pc + 2)) == high_byte(addr),
    ensures
        steps_to(s, s.advance(3).load_a(s.read(addr))),
{
    reveal(steps_to);
    assert(s.advance(1).advance(2) == s.advance(3));
    assert(wrap_word(s.advance(1).pc + 1) == wrap_word(s.pc + 2));
    assert(word(low_byte(addr), high_byte(addr)) == addr);
}

/// Three steps in a row are a run of three.
proof fn lemma_three_steps(s: CpuState, first: CpuState, second: CpuState, third: CpuState)
    requires
        steps_to(s, first),
        steps_to(first, second),
        steps_to(second, third),
    ensures
        run(s, 3) == Ok::<CpuState, StepError>(third),
{
    reveal(steps_to);
    reveal_with_fuel(run, 4);
}

/// The program `LDA #v; STA addr; LDA addr` leaves `v` in the accumulator
/// and at `addr`, with the zero and negative flags of `v`, whatever the
/// state it starts in. The store must not fall on the load that follows it.
pub proof fn lemma_load_store_load(s: CpuState, v: u8, addr: u16)
    requires
        s.wf(),
        at_program(
            s,
            seq![
                0xA9,
                v,
                0x8D,
                low_byte(addr),
                high_byte(addr),
                0xAD,
                low_byte(addr),
                high_byte(addr),
            ],
        ),
        addr != wrap_word(s.pc + 5),
        addr != wrap_word(s.pc + 6),
        addr != wrap_word(s.pc + 7),
    ensures
        run(s, 3) matches Ok(end) && end.a == v && end.read(addr) == v && end.p.zero == (v == 0)
            && end.p.negative == (v >= 0x80) && end.pc == wrap_word(s.pc + 8),
{
    let program = seq![
        0xA9u8,
        v,
        0x8D,
        low_byte(addr),
        high_byte(addr),
        0xAD,
        low_byte(addr),
        high_byte(addr),
    ];
    assert(program[0] == 0xA9 && program[1] == v && program[2] == 0x8D && program[3] == low_byte(
        addr,
    ) && program[4] == high_byte(addr) && program[5] == 0xAD && program[6] == low_byte(addr)
        && program[7] == high_byte(addr));
    assert(wrap_word(s.pc + 0) == s.pc);
    lemma_load_immediate(s, v);
    let first = s.advance(2).load_a(v);
    assert(first.pc == wrap_word(s.pc + 2));
    assert(wrap_word(first.pc + 1) == wrap_word(s.pc + 3));
    assert(wrap_word(first.pc + 2) == wrap_word(s.pc + 4));
    lemma_store_absolute(first, addr);
    let second = first.advance(3).write(addr, v);
    assert(second.pc == wrap_word(s.pc + 5));
    assert(wrap_word(second.pc + 1) == wrap_word(s.pc + 6));
    assert(wrap_word(second.pc + 2) == wrap_word(s.pc + 7));
    lemma_load_absolute(second, addr);
    let third = second.advance(3).load_a(v);
    assert(third.pc == wrap_word(s.pc + 8));
    lemma_three_steps(s, first, second, third);
}

/// Subtracting what was added gives the accumulator back, where the addition
/// starts with the carry clear and the subtraction with the carry set.
pub proof fn lemma_add_then_subtract(a: u8, m: u8)
    ensures
        subtract_with_borrow(add_with_carry(a, m, false).value, m, true).value == a,
{
}

/// A rotation to the left and then one to the right, the second taking the
/// carry that the first left, give the byte and the carry back; and so do a
/// rotation to the right and then one to the left.
pub proof fn lemma_rotate_there_and_back(x: u8, c: bool)
    ensures
        rotate_right(rotate_left(x, c).value, rotate_left(x, c).carry) == (Shifted {
            value: x,
            carry: c,
        }),
        rotate_left(rotate_right(x, c).value, rotate_right(x, c).carry) == (Shifted {
            value: x,
            carry: c,
        }),
{
}

/// The state after a branch at the program counter of `s` that is taken:
/// the program counter is past the offset byte and moved by the offset,
/// read as a signed number. Nothing else has changed.
pub open spec fn branched(s: CpuState) -> CpuState {
    s.jump(wrap_word(s.pc + 2 + signed(s.read(wrap_word(s.pc + 1)))))
}

/// Whether a step from `s` is a branch on `condition`: taken if it holds,
/// and otherwise only the program counter has moved, past the offset byte.
pub open spec fn branches_on(s: CpuState, condition: bool) -> bool {
    s.step() == Ok::<CpuState, StepError>(
        if condition {
            branched(s)
        } else {
            s.advance(2)
        },
    )
}

/// Each of the eight branches is taken exactly when its flag has the value
/// that it asks for, and changes nothing but the program counter.
pub proof fn lemma_branch_taken_iff_condition(s: CpuState)
    requires
        s.wf(),
    ensures
        s.read(s.pc) == 0x10 ==> branches_on(s, !s.p.negative),
        s.read(s.pc) == 0x30 ==> branches_on(s, s.p.negative),
        s.read(s.pc) == 0x50 ==> branches_on(s, !s.p.overflow),
        s.read(s.pc) == 0x70 ==> branches_on(s, s.p.overflow),
        s.read(s.pc) == 0x90 ==> branches_on(s, !s.p.carry),
        s.read(s.pc) == 0xB0 ==> branches_on(s, s.p.carry),
        s.read(s.pc) == 0xD0 ==> branches_on(s, !s.p.zero),
        s.read(s.pc) == 0xF0 ==> branches_on(s, s.p.zero),
{
}

/// An address in the zero page that is moved on by an index stays in the
/// zero page: past `0xFF` it goes on at 0.
pub proof fn lemma_zero_page_wraps(s: CpuState)
    ensures
        s.effective_address(AddressingMode::ZeroPageX) == (s.operand_byte() + s.x) % 0x100,
        s.effective_address(AddressingMode::ZeroPageY) == (s.operand_byte() + s.y) % 0x100,
        s.effective_address(AddressingMode::ZeroPageX) < 0x100,
        s.effective_address(AddressingMode::ZeroPageY) < 0x100,
{
}

/// Where the pointer of an indirect jump is the last byte of a page, the
/// high byte of the target is read from the first byte of that page.
pub proof fn lemma_indirect_stays_in_page(s: CpuState)
    requires
        low_byte(s.operand_word()) == 0xFF,
    ensures
        s.effective_address(AddressingMode::Indirect) == word(
            s.read(s.operand_word()),
            s.read((s.operand_word() - 0xFF) as u16),
        ),
{
}

} // verus!
