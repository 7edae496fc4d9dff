use crate::addressing::AddressingMode;
use crate::decoder::decode_table;
use crate::flags::Status;
use crate::instructions::{
    ConditionalBranchInstruction, DecodeError, Group1Instruction, Group2Instruction,
    Group3Instruction, Instruction, SingleByteInstruction,
};
use vstd::prelude::*;

verus! {

/// What `fetch_address` answers for a mode that has no address.
pub const NO_ADDRESS: u16 = 0xFFFF;

/// Where the processor finds the address to go on at after `BRK`.
pub const IRQ_VECTOR: u16 = 0xFFFE;

/// Where the processor finds its starting address after reset.
pub const RESET_VECTOR: u16 = 0xFFFC;

/// The page that the stack lives in.
pub const STACK_PAGE: u16 = 0x0100;

/// Why a step was not taken.
#[derive(Clone, Copy, Debug, PartialEq, Eq, Structural)]
pub enum StepError {
    /// The byte at the program counter is no opcode.
    Decode(DecodeError),
    /// The instruction is an addition or a subtraction and the decimal flag
    /// is set: decimal arithmetic is not provided.
    Unimplemented { instruction: Instruction, mode: AddressingMode },
}

/// `i` brought into a byte, modulo 256.
pub open spec fn wrap_byte(i: int) -> u8 {
    (i % 0x100) as u8
}

/// `i` brought into a 16-bit word, modulo 65536.
pub open spec fn wrap_word(i: int) -> u16 {
    (i % 0x10000) as u16
}

/// The word with the low byte `lo` and the high byte `hi`.
pub open spec fn word(lo: u8, hi: u8) -> u16 {
    (lo + 0x100 * hi) as u16
}

pub open spec fn low_byte(w: u16) -> u8 {
    (w % 0x100) as u8
}

pub open spec fn high_byte(w: u16) -> u8 {
    (w / 0x100) as u8
}

/// The byte read as a signed number in two's complement.
pub open spec fn signed(b: u8) -> int {
    if b < 0x80 {
        b as int
    } else {
        b - 0x100
    }
}

/// The address after `pointer` within the page of `pointer`: the low byte
/// goes from `0xFF` to `0x00` and the high byte stays.
pub open spec fn next_in_page(pointer: u16) -> u16 {
    word(wrap_byte(low_byte(pointer) + 1), high_byte(pointer))
}

pub open spec fn carry_in(carry: bool) -> int {
    if carry {
        1
    } else {
        0
    }
}

/// What the adder gives: the low eight bits of the sum, the ninth bit, and
/// whether the sum went wrong for signed numbers.
pub struct Sum {
    pub value: u8,
    pub carry: bool,
    pub overflow: bool,
}

/// `a + m + carry` over nine bits: the value is the low eight bits and the
/// carry is the ninth. The sum has overflowed when the operands, read as
/// signed numbers, add up to more or less than a signed byte holds.
pub open spec fn add_with_carry(a: u8, m: u8, carry: bool) -> Sum {
    Sum {
        value: wrap_byte(a + m + carry_in(carry)),
        carry: a + m + carry_in(carry) > 0xFF,
        overflow: !(-0x80 <= signed(a) + signed(m) + carry_in(carry) < 0x80),
    }
}

/// Subtraction is addition of the one's complement of `m`, which is
/// `0xFF - m`: the carry stands for "no borrow".
pub open spec fn subtract_with_borrow(a: u8, m: u8, carry: bool) -> Sum {
    add_with_carry(a, (0xFF - m) as u8, carry)
}

/// What a shift or a rotation gives: the new byte and the bit that left it.
pub struct Shifted {
    pub value: u8,
    pub carry: bool,
}

/// Every bit moves up by one: bit 7 leaves, bit 0 is clear.
pub open spec fn shift_left(x: u8) -> Shifted {
    Shifted { value: wrap_byte(2 * x), carry: x >= 0x80 }
}

/// Every bit moves down by one: bit 0 leaves, bit 7 is clear.
pub open spec fn shift_right(x: u8) -> Shifted {
    Shifted { value: x / 2, carry: x % 2 == 1 }
}

/// Every bit moves up by one: bit 7 leaves, the old carry becomes bit 0.
pub open spec fn rotate_left(x: u8, carry: bool) -> Shifted {
    Shifted { value: wrap_byte(2 * x + carry_in(carry)), carry: x >= 0x80 }
}

/// Every bit moves down by one: bit 0 leaves, the old carry becomes bit 7.
pub open spec fn rotate_right(x: u8, carry: bool) -> Shifted {
    Shifted { value: (x / 2 + 0x80 * carry_in(carry)) as u8, carry: x % 2 == 1 }
}

/// The masks of a byte in numbers: what bit 0, bit 6 and bit 7 say, what a
/// shift down by one gives, and what the complement is.
pub proof fn lemma_byte_operations(x: u8)
    by (bit_vector)
    ensures
        (x & 0x80 != 0) == (x >= 0x80),
        (x & 0x40 != 0) == ((x / 0x40) % 2 == 1),
        (x & 0x01 != 0) == (x % 2 == 1),
        x >> 1 == x / 2,
        (x >> 1) | 0x00 == x / 2,
        ((x >> 1) | 0x80) as int == x / 2 + 0x80,
        (x ^ 0xFF) as int == 0xFF - x,
{
}

/// A shift up by one in numbers: the byte is doubled modulo 256, and the
/// bit that is set in it afterwards adds one.
pub proof fn lemma_shift_up(x: u8)
    by (bit_vector)
    ensures
        (x << 1) as int == (2 * x) % 0x100,
        ((x << 1) | 0x00) as int == (2 * x) % 0x100,
        ((x << 1) | 0x01) as int == (2 * x) % 0x100 + 1,
{
}

proof fn lemma_sign_bits(a: u8, m: u8, v: u8)
    by (bit_vector)
    ensures
        (((a ^ v) & (m ^ v) & 0x80) != 0) <==> (if v >= 0x80 {
            a < 0x80 && m < 0x80
        } else {
            a >= 0x80 && m >= 0x80
        }),
{
}

/// The sum has overflowed exactly when bit 7 of the result differs from
/// bit 7 of both operands.
pub proof fn lemma_overflow_is_sign_mismatch(a: u8, m: u8, carry: bool)
    ensures
        add_with_carry(a, m, carry).overflow == (((a ^ add_with_carry(a, m, carry).value) & (m
            ^ add_with_carry(a, m, carry).value) & 0x80) != 0),
{
    lemma_sign_bits(a, m, add_with_carry(a, m, carry).value);
}

/// The number of operand bytes that follow the opcode.
pub open spec fn operand_len(mode: AddressingMode) -> int {
    match mode {
        AddressingMode::Implicit | AddressingMode::Accumulator => 0,
        AddressingMode::Immediate
        | AddressingMode::ZeroPage
        | AddressingMode::ZeroPageX
        | AddressingMode::ZeroPageY
        | AddressingMode::Relative
        | AddressingMode::IndirectX
        | AddressingMode::IndirectY => 1,
        AddressingMode::Absolute
        | AddressingMode::AbsoluteX
        | AddressingMode::AbsoluteY
        | AddressingMode::Indirect => 2,
    }
}

/// Whether the branch is taken under the flags `p`.
pub open spec fn branch_taken(branch: ConditionalBranchInstruction, p: Status) -> bool {
    match branch {
        ConditionalBranchInstruction::BPL => !p.negative,
        ConditionalBranchInstruction::BMI => p.negative,
        ConditionalBranchInstruction::BVC => !p.overflow,
        ConditionalBranchInstruction::BVS => p.overflow,
        ConditionalBranchInstruction::BCC => !p.carry,
        ConditionalBranchInstruction::BCS => p.carry,
        ConditionalBranchInstruction::BNE => !p.zero,
        ConditionalBranchInstruction::BEQ => p.zero,
    }
}

/// Whether the instruction is one that decimal mode changes.
pub open spec fn is_arithmetic(instruction: Instruction) -> bool {
    instruction == Instruction::GroupOne(Group1Instruction::ADC) || instruction
        == Instruction::GroupOne(Group1Instruction::SBC)
}

/// The whole state of the machine: the registers, the flags and the memory.
pub struct CpuState {
    pub a: u8,
    pub x: u8,
    pub y: u8,
    pub p: Status,
    pub s: u8,
    pub pc: u16,
    pub mem: Seq<u8>,
}

impl CpuState {
    /// A state is well formed when its memory is the whole address space.
    pub open spec fn wf(self) -> bool {
        self.mem.len() == 0x10000
    }

    pub open spec fn read(self, addr: u16) -> u8 {
        self.mem[addr as int]
    }

    pub open spec fn write(self, addr: u16, value: u8) -> CpuState {
        CpuState { mem: self.mem.update(addr as int, value), ..self }
    }

    /// The program counter moved on by `n`, modulo 65536.
    pub open spec fn advance(self, n: int) -> CpuState {
        CpuState { pc: wrap_word(self.pc + n), ..self }
    }

    pub open spec fn jump(self, target: u16) -> CpuState {
        CpuState { pc: target, ..self }
    }

    pub open spec fn with_flags(self, p: Status) -> CpuState {
        CpuState { p, ..self }
    }

    pub open spec fn load_a(self, value: u8) -> CpuState {
        CpuState { a: value, p: self.p.with_zero_and_negative(value), ..self }
    }

    pub open spec fn load_x(self, value: u8) -> CpuState {
        CpuState { x: value, p: self.p.with_zero_and_negative(value), ..self }
    }

    pub open spec fn load_y(self, value: u8) -> CpuState {
        CpuState { y: value, p: self.p.with_zero_and_negative(value), ..self }
    }

    /// The address of the stack slot that the stack pointer names.
    pub open spec fn stack_slot(self) -> u16 {
        (0x0100 + self.s) as u16
    }

    /// `value` written to the slot at the stack pointer, which then moves
    /// down by one, from 0 to `0xFF`.
    pub open spec fn push(self, value: u8) -> CpuState {
        CpuState {
            mem: self.mem.update(self.stack_slot() as int, value),
            s: wrap_byte(self.s - 1),
            ..self
        }
    }

    /// The stack pointer moved up by one, from `0xFF` to 0; the byte pulled
    /// is the one in the slot that it then names.
    pub open spec fn pull(self) -> CpuState {
        CpuState { s: wrap_byte(self.s + 1), ..self }
    }

    pub open spec fn pulled(self) -> u8 {
        self.pull().read(self.pull().stack_slot())
    }

    /// The operand byte at the program counter.
    pub open spec fn operand_byte(self) -> u8 {
        self.read(self.pc)
    }

    /// The operand word at the program counter, low byte first.
    pub open spec fn operand_word(self) -> u16 {
        word(self.read(self.pc), self.read(wrap_word(self.pc + 1)))
    }

    /// The operand byte as an address in the zero page, moved on by `index`
    /// without leaving that page.
    pub open spec fn zero_page(self, index: u8) -> u16 {
        wrap_byte(self.operand_byte() + index) as u16
    }

    /// The operand word as an address, moved on by `index` modulo 65536.
    pub open spec fn absolute(self, index: u8) -> u16 {
        wrap_word(self.operand_word() + index)
    }

    /// The target of a branch: the operand byte is a signed distance from
    /// the byte after it.
    pub open spec fn relative(self) -> u16 {
        wrap_word(self.pc + 1 + signed(self.operand_byte()))
    }

    /// The address that the operand word points at. Its high byte is read
    /// from the page of its low byte, also where that byte is the last of
    /// the page.
    pub open spec fn indirect(self) -> u16 {
        word(self.read(self.operand_word()), self.read(next_in_page(self.operand_word())))
    }

    /// The address that the operand byte, moved on by `before`, points at in
    /// the zero page, itself moved on by `after`. Both bytes of the address
    /// are read from the zero page.
    pub open spec fn zero_page_pointer(self, before: u8, after: u8) -> u16 {
        let pointer = wrap_byte(self.operand_byte() + before);
        wrap_word(
            word(self.read(pointer as u16), self.read(wrap_byte(pointer + 1) as u16)) + after,
        )
    }

    /// The effective address of an operand in `mode` whose first byte is at
    /// the program counter. Modes without an address give `NO_ADDRESS`; an
    /// immediate operand is its own address.
    pub open spec fn effective_address(self, mode: AddressingMode) -> u16 {
        match mode {
            AddressingMode::Implicit | AddressingMode::Accumulator => NO_ADDRESS,
            AddressingMode::Immediate => self.pc,
            AddressingMode::ZeroPage => self.zero_page(0),
            AddressingMode::ZeroPageX => self.zero_page(self.x),
            AddressingMode::ZeroPageY => self.zero_page(self.y),
            AddressingMode::Absolute => self.absolute(0),
            AddressingMode::AbsoluteX => self.absolute(self.x),
            AddressingMode::AbsoluteY => self.absolute(self.y),
            AddressingMode::Relative => self.relative(),
            AddressingMode::Indirect => self.indirect(),
            AddressingMode::IndirectX => self.zero_page_pointer(self.x, 0),
            AddressingMode::IndirectY => self.zero_page_pointer(0, self.y),
        }
    }

    /// The flags after `register` has been compared with `m`: carry says
    /// that the register is not below `m`, zero that the two are equal, and
    /// negative is bit 7 of their difference modulo 256.
    pub open spec fn compare(self, register: u8, m: u8) -> CpuState {
        self.with_flags(
            Status {
                carry: register >= m,
                zero: register == m,
                negative: wrap_byte(register - m) >= 0x80,
                ..self.p
            },
        )
    }

    /// The accumulator and the flags after an addition or a subtraction.
    pub open spec fn accumulate(self, sum: Sum) -> CpuState {
        CpuState {
            a: sum.value,
            p: (Status { carry: sum.carry, overflow: sum.overflow, ..self.p })
                .with_zero_and_negative(sum.value),
            ..self
        }
    }

    pub open spec fn group_one(self, instruction: Group1Instruction, addr: u16) -> CpuState {
        let m = self.read(addr);
        match instruction {
            Group1Instruction::ORA => self.load_a(self.a | m),
            Group1Instruction::AND => self.load_a(self.a & m),
            Group1Instruction::EOR => self.load_a(self.a ^ m),
            Group1Instruction::ADC => self.accumulate(add_with_carry(self.a, m, self.p.carry)),
            Group1Instruction::STA => self.write(addr, self.a),
            Group1Instruction::LDA => self.load_a(m),
            Group1Instruction::CMP => self.compare(self.a, m),
            Group1Instruction::SBC => self.accumulate(
                subtract_with_borrow(self.a, m, self.p.carry),
            ),
        }
    }

    /// A shift or a rotation done: the new byte goes back to where the old
    /// one came from, the accumulator or the memory at `addr`.
    pub open spec fn shifted(self, mode: AddressingMode, addr: u16, shifted: Shifted) -> CpuState {
        let p = (Status { carry: shifted.carry, ..self.p }).with_zero_and_negative(shifted.value);
        if mode == AddressingMode::Accumulator {
            CpuState { a: shifted.value, p, ..self }
        } else {
            CpuState { mem: self.mem.update(addr as int, shifted.value), p, ..self }
        }
    }

    /// The memory at `addr` set to `value`, and zero and negative with it.
    pub open spec fn store_counted(self, addr: u16, value: u8) -> CpuState {
        CpuState {
            mem: self.mem.update(addr as int, value),
            p: self.p.with_zero_and_negative(value),
            ..self
        }
    }

    pub open spec fn group_two(
        self,
        instruction: Group2Instruction,
        mode: AddressingMode,
        addr: u16,
    ) -> CpuState {
        let m = self.read(addr);
        let operand = if mode == AddressingMode::Accumulator {
            self.a
        } else {
            m
        };
        match instruction {
            Group2Instruction::ASL => self.shifted(mode, addr, shift_left(operand)),
            Group2Instruction::ROL => self.shifted(mode, addr, rotate_left(operand, self.p.carry)),
            Group2Instruction::LSR => self.shifted(mode, addr, shift_right(operand)),
            Group2Instruction::ROR => self.shifted(
                mode,
                addr,
                rotate_right(operand, self.p.carry),
            ),
            Group2Instruction::STX => self.write(addr, self.x),
            Group2Instruction::LDX => self.load_x(m),
            Group2Instruction::DEC => self.store_counted(addr, wrap_byte(m - 1)),
            Group2Instruction::INC => self.store_counted(addr, wrap_byte(m + 1)),
        }
    }

    /// The instructions of the third group. `BIT` tests the accumulator
    /// against the memory: zero says that they share no bit, and negative
    /// and overflow are bits 7 and 6 of the memory.
    pub open spec fn group_three(self, instruction: Group3Instruction, addr: u16) -> CpuState {
        let m = self.read(addr);
        match instruction {
            Group3Instruction::BIT => self.with_flags(
                Status {
                    zero: self.a & m == 0,
                    negative: m >= 0x80,
                    overflow: (m / 0x40) % 2 == 1,
                    ..self.p
                },
            ),
            Group3Instruction::JMP | Group3Instruction::JMPIND => self.jump(addr),
            Group3Instruction::STY => self.write(addr, self.y),
            Group3Instruction::LDY => self.load_y(m),
            Group3Instruction::CPY => self.compare(self.y, m),
            Group3Instruction::CPX => self.compare(self.x, m),
        }
    }

    /// A branch goes to its target if it is taken and changes nothing if not.
    pub open spec fn branch(self, branch: ConditionalBranchInstruction, target: u16) -> CpuState {
        if branch_taken(branch, self.p) {
            self.jump(target)
        } else {
            self
        }
    }

    /// The subroutine call: the address of the last byte of the call is
    /// pushed, high byte first, and the program goes on at `target`.
    pub open spec fn call(self, target: u16) -> CpuState {
        let back = wrap_word(self.pc - 1);
        self.push(high_byte(back)).push(low_byte(back)).jump(target)
    }

    /// The return from a subroutine: the address pulled is the last byte of
    /// the call, and the program goes on after it.
    pub open spec fn return_from_subroutine(self) -> CpuState {
        let lo = self.pulled();
        let hi = self.pull().pulled();
        self.pull().pull().jump(wrap_word(word(lo, hi) + 1))
    }

    /// The software interrupt: the byte after `BRK` is skipped, the address
    /// after it and the flags are pushed, interrupts are disabled, and the
    /// program goes on where the interrupt vector says.
    pub open spec fn interrupt(self) -> CpuState {
        let back = wrap_word(self.pc + 1);
        let stacked = self.push(high_byte(back)).push(low_byte(back)).push(self.p.pushed());
        let target = word(stacked.read(IRQ_VECTOR), stacked.read(wrap_word(IRQ_VECTOR + 1)));
        stacked.with_flags(Status { interrupt_disable: true, ..self.p }).jump(target)
    }

    /// The return from an interrupt: the flags are pulled, then the address
    /// to go on at, low byte first.
    pub open spec fn return_from_interrupt(self) -> CpuState {
        let flags = self.pulled();
        let lo = self.pull().pulled();
        let hi = self.pull().pull().pulled();
        self.pull().pull().pull().with_flags(self.p.restored(flags)).jump(word(lo, hi))
    }

    pub open spec fn single_byte(self, instruction: SingleByteInstruction) -> CpuState {
        match instruction {
            SingleByteInstruction::BRK => self.interrupt(),
            SingleByteInstruction::RTI => self.return_from_interrupt(),
            SingleByteInstruction::RTS => self.return_from_subroutine(),
            SingleByteInstruction::PHP => self.push(self.p.pushed()),
            SingleByteInstruction::PLP => self.pull().with_flags(self.p.restored(self.pulled())),
            SingleByteInstruction::PHA => self.push(self.a),
            SingleByteInstruction::PLA => self.pull().load_a(self.pulled()),
            SingleByteInstruction::DEY => self.load_y(wrap_byte(self.y - 1)),
            SingleByteInstruction::TAY => self.load_y(self.a),
            SingleByteInstruction::INY => self.load_y(wrap_byte(self.y + 1)),
            SingleByteInstruction::INX => self.load_x(wrap_byte(self.x + 1)),
            SingleByteInstruction::CLC => self.with_flags(Status { carry: false, ..self.p }),
            SingleByteInstruction::SEC => self.with_flags(Status { carry: true, ..self.p }),
            SingleByteInstruction::CLI => self.with_flags(
                Status { interrupt_disable: false, ..self.p },
            ),
            SingleByteInstruction::SEI => self.with_flags(
                Status { interrupt_disable: true, ..self.p },
            ),
            SingleByteInstruction::TYA => self.load_a(self.y),
            SingleByteInstruction::CLV => self.with_flags(Status { overflow: false, ..self.p }),
            SingleByteInstruction::CLD => self.with_flags(
                Status { decimal_mode: false, ..self.p },
            ),
            SingleByteInstruction::SED => self.with_flags(Status { decimal_mode: true, ..self.p }),
            SingleByteInstruction::TXA => self.load_a(self.x),
            SingleByteInstruction::TXS => CpuState { s: self.x, ..self },
            SingleByteInstruction::TAX => self.load_x(self.a),
            SingleByteInstruction::TSX => self.load_x(self.s),
            SingleByteInstruction::DEX => self.load_x(wrap_byte(self.x - 1)),
            SingleByteInstruction::NOP => self,
        }
    }

    /// What `instruction` does to a state whose program counter is already
    /// past the operand, given the effective address `addr` of the operand.
    pub open spec fn execute(
        self,
        instruction: Instruction,
        mode: AddressingMode,
        addr: u16,
    ) -> CpuState {
        match instruction {
            Instruction::GroupOne(instruction) => self.group_one(instruction, addr),
            Instruction::GroupTwo(instruction) => self.group_two(instruction, mode, addr),
            Instruction::GroupThree(instruction) => self.group_three(instruction, addr),
            Instruction::ConditionalBranch(instruction) => self.branch(instruction, addr),
            Instruction::SingleByte(instruction) => self.single_byte(instruction),
            Instruction::SpecialCase(_) => self.call(addr),
        }
    }

    /// The state after a decoded instruction has been fetched and done: the
    /// operand is resolved with the program counter after the opcode, and
    /// the instruction works with the program counter after the operand.
    pub open spec fn perform(self, instruction: Instruction, mode: AddressingMode) -> CpuState {
        let addr = self.advance(1).effective_address(mode);
        self.advance(1).advance(operand_len(mode)).execute(instruction, mode, addr)
    }

    /// One step of the machine: the byte at the program counter is decoded
    /// and the instruction is done. A byte that is no opcode, or arithmetic
    /// in decimal mode, is an error.
    pub open spec fn step(self) -> Result<CpuState, StepError> {
        let opcode = self.read(self.pc);
        match decode_table(opcode) {
            None => Err(StepError::Decode(DecodeError { opcode })),
            Some((instruction, mode)) => if self.p.decimal_mode && is_arithmetic(instruction) {
                Err(StepError::Unimplemented { instruction, mode })
            } else {
                Ok(self.perform(instruction, mode))
            },
        }
    }
}

} // verus!
