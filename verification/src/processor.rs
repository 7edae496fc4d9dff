use crate::addressing::AddressingMode;
use crate::decoder::decode;
use crate::flags::{lemma_pushed_byte, lemma_restored_byte, Flags, Status};
use crate::laws::lemma_perform_keeps_unused;
use crate::instructions::{
    ConditionalBranchInstruction, Group1Instruction, Group2Instruction, Group3Instruction,
    Instruction, SingleByteInstruction,
};
use crate::memory::{byte_after_write, Memory};
use crate::semantics::{
    add_with_carry, high_byte, lemma_byte_operations, lemma_overflow_is_sign_mismatch,
    lemma_shift_up, low_byte, operand_len, rotate_left, rotate_right, shift_left, shift_right,
    word, CpuState, Shifted, StepError, IRQ_VECTOR, NO_ADDRESS, RESET_VECTOR, STACK_PAGE,
};
use vstd::prelude::*;

verus! {

/// Where `new` starts the program: a bit after the zero page and the stack.
pub const LOAD_ADDRESS: u16 = 0x1000;

/// The stack pointer after reset.
pub const RESET_STACK_POINTER: u8 = 0xFD;

#[derive(Debug)]
pub struct Processor {
    pub memory: Memory,
    // Registers
    a: u8,  // Accumulator
    x: u8,
    y: u8,
    p: Flags,  // Processor Status
    // Adress in stack is 0x0100 + SP
    s: u8,  // Stack pointer
    pc: u16,  // Program counter
}

/// The registers as they stand, for inspection; `p` is the status byte.
#[derive(Clone, Copy, Debug, PartialEq, Eq, Structural)]
pub struct Registers {
    pub a: u8,
    pub x: u8,
    pub y: u8,
    pub s: u8,
    pub p: u8,
    pub pc: u16,
}

impl View for Processor {
    type V = CpuState;

    closed spec fn view(&self) -> CpuState {
        CpuState {
            a: self.a,
            x: self.x,
            y: self.y,
            p: self.p@,
            s: self.s,
            pc: self.pc,
            mem: self.memory@,
        }
    }
}

/// The state that a processor is in after reset, with the program counter
/// at `pc`: registers zero, only the unused flag set, the stack pointer at
/// `0xFD`.
pub open spec fn reset_state(mem: Seq<u8>, pc: u16) -> CpuState {
    CpuState { a: 0, x: 0, y: 0, p: Status::reset(), s: 0xFD, pc, mem }
}

/// Puts two bytes together into a word.
fn make_word(lo: u8, hi: u8) -> (w: u16)
    ensures
        w == word(lo, hi),
{
    assert((((hi as u16) << 8) | (lo as u16)) == lo + 0x100 * hi) by (bit_vector);
    ((hi as u16) << 8) | (lo as u16)
}

/// The low byte of a word.
fn low(w: u16) -> (lo: u8)
    ensures
        lo == low_byte(w),
{
    assert(w & 0xFF == w % 0x100) by (bit_vector);
    (w & 0xFF) as u8
}

/// The high byte of a word.
fn high(w: u16) -> (hi: u8)
    ensures
        hi == high_byte(w),
{
    assert(w >> 8 == w / 0x100) by (bit_vector);
    (w >> 8) as u8
}

/// Moves the bits of `data` up by one and puts `carry` into bit 0; the
/// second answer is the bit that left at the top.
fn shift_up(data: u8, carry: bool) -> (shifted: (u8, bool))
    ensures
        (Shifted { value: shifted.0, carry: shifted.1 }) == rotate_left(data, carry),
        !carry ==> (Shifted { value: shifted.0, carry: shifted.1 }) == shift_left(data),
{
    proof {
        lemma_byte_operations(data);
        lemma_shift_up(data);
    }
    let bit0: u8 = if carry {
        0b00000001
    } else {
        0
    };
    ((data << 1) | bit0, (data & 0b10000000) != 0)
}

/// Moves the bits of `data` down by one and puts `carry` into bit 7; the
/// second answer is the bit that left at the bottom.
fn shift_down(data: u8, carry: bool) -> (shifted: (u8, bool))
    ensures
        (Shifted { value: shifted.0, carry: shifted.1 }) == rotate_right(data, carry),
        !carry ==> (Shifted { value: shifted.0, carry: shifted.1 }) == shift_right(data),
{
    proof {
        lemma_byte_operations(data);
    }
    let bit7: u8 = if carry {
        0b10000000
    } else {
        0
    };
    ((data >> 1) | bit7, (data & 0b00000001) != 0)
}

impl Processor {
    /// The state of a processor is well formed: its memory is the whole
    /// address space.
    pub proof fn lemma_view_wf(&self)
        ensures
            self@.wf(),
    {
        self.memory.lemma_size();
    }

    /// Initialises a new `Processor` in its RESET state, to run the program
    /// loaded at `LOAD_ADDRESS`.
    pub fn new(memory: Memory) -> (processor: Processor)
        ensures
            processor@ == reset_state(memory@, LOAD_ADDRESS),
    {
        Processor {
            memory,
            a: 0,
            x: 0,
            y: 0,
            p: Flags::new(),
            s: RESET_STACK_POINTER,
            pc: LOAD_ADDRESS,
        }
    }

    /// Initialises a new `Processor` in its RESET state, to run the program
    /// that the reset vector of `memory` points at.
    pub fn from_reset_vector(memory: Memory) -> (processor: Processor)
        ensures
            processor@ == reset_state(
                memory@,
                word(memory@[RESET_VECTOR as int], memory@[RESET_VECTOR + 1]),
            ),
    {
        let lo = memory.read_byte(RESET_VECTOR);
        let hi = memory.read_byte(RESET_VECTOR + 1);
        Processor {
            memory,
            a: 0,
            x: 0,
            y: 0,
            p: Flags::new(),
            s: RESET_STACK_POINTER,
            pc: make_word(lo, hi),
        }
    }

    /// The registers as they stand.
    pub fn registers(&self) -> (registers: Registers)
        ensures
            registers.a == self@.a,
            registers.x == self@.x,
            registers.y == self@.y,
            registers.s == self@.s,
            registers.p == self@.p.to_byte(),
            registers.pc == self@.pc,
    {
        Registers { a: self.a, x: self.x, y: self.y, s: self.s, p: *self.p.raw(), pc: self.pc }
    }

    /// The byte of memory at `addr`.
    pub fn read_memory(&self, addr: u16) -> (byte: u8)
        ensures
            byte == self@.read(addr),
    {
        self.memory.read_byte(addr)
    }

    /// Writes `byte` to the memory at `addr`; the registers and every other
    /// address stay as they are.
    pub fn write_memory(&mut self, addr: u16, byte: u8)
        ensures
            final(self)@ == old(self)@.write(addr, byte),
    {
        self.memory.write_byte(addr, byte);
    }

    /// Loads `bytes` into the memory from `base` upwards, and past the top
    /// of memory on from address 0; the registers stay as they are.
    pub fn load_memory(&mut self, base: u16, bytes: &[u8])
        ensures
            final(self)@ == (CpuState { mem: final(self)@.mem, ..old(self)@ }),
            final(self)@.mem.len() == 0x10000,
            forall|a: int|
                0 <= a < 0x10000 ==> #[trigger] final(self)@.mem[a] == byte_after_write(
                    old(self)@.mem,
                    base as int,
                    bytes@,
                    a,
                ),
    {
        self.memory.write_bytes(base, bytes);
    }

    /// Moves the program counter by `num`, forwards or backwards, modulo
    /// 65536.
    pub fn add_to_pc(&mut self, num: i8)
        ensures
            final(self)@ == old(self)@.advance(num as int),
    {
        self.pc = self.pc.wrapping_add_signed(num as i16);
    }

    /// Writes `byte` to the stack slot at `0x0100 + S` and moves the stack
    /// pointer down by one; below 0 it goes on at `0xFF`.
    pub fn push_to_stack(&mut self, byte: u8)
        ensures
            final(self)@ == old(self)@.push(byte),
    {
        self.memory.write_byte(STACK_PAGE + self.s as u16, byte);
        self.s = self.s.wrapping_sub(1);
    }

    /// Moves the stack pointer up by one, past `0xFF` on to 0, and answers
    /// the byte in the stack slot at `0x0100 + S`.
    pub fn pop_from_stack(&mut self) -> (byte: u8)
        ensures
            byte == old(self)@.pulled(),
            final(self)@ == old(self)@.pull(),
    {
        self.s = self.s.wrapping_add(1);
        self.memory.read_byte(STACK_PAGE + self.s as u16)
    }

    /// The byte at the program counter, which stays where it is.
    pub fn peek_byte_at_pc(&self) -> (byte: u8)
        ensures
            byte == self@.read(self@.pc),
    {
        self.memory.read_byte(self.pc)
    }

    /// The byte at the program counter, which moves on by one.
    pub fn take_byte_at_pc(&mut self) -> (byte: u8)
        ensures
            byte == old(self)@.read(old(self)@.pc),
            final(self)@ == old(self)@.advance(1),
    {
        let data = self.peek_byte_at_pc();
        self.pc = self.pc.wrapping_add(1);
        data
    }

    /// Sets the zero flag if `value` is 0 and clears it if not; sets the
    /// negative flag if bit 7 of `value` is set and clears it if not.
    pub fn update_zero_and_negative_flags(&mut self, value: u8)
        ensures
            final(self)@ == old(self)@.with_flags(old(self)@.p.with_zero_and_negative(value)),
    {
        if value == 0 {
            self.p.set_zero_flag();
        } else {
            self.p.clear_zero_flag();
        }
        proof {
            lemma_byte_operations(value);
        }
        if (value & 0b10000000) != 0 {
            self.p.set_negative_flag();
        } else {
            self.p.clear_negative_flag();
        }
    }

    /// The little-endian word whose bytes are at `lo` and `hi`.
    fn read_word(&self, lo: u16, hi: u16) -> (w: u16)
        ensures
            w == word(self@.read(lo), self@.read(hi)),
    {
        make_word(self.memory.read_byte(lo), self.memory.read_byte(hi))
    }

    /// Takes the two operand bytes at the program counter as a word.
    fn take_word_at_pc(&mut self) -> (w: u16)
        ensures
            w == old(self)@.operand_word(),
            final(self)@ == old(self)@.advance(2),
    {
        let lo = self.take_byte_at_pc();
        let hi = self.take_byte_at_pc();
        make_word(lo, hi)
    }

    /// The operand byte is an address in the zero page, moved on by `index`
    /// within that page.
    fn fetch_zero_page(&mut self, index: u8) -> (addr: u16)
        ensures
            addr == old(self)@.zero_page(index),
            final(self)@ == old(self)@.advance(1),
    {
        self.take_byte_at_pc().wrapping_add(index) as u16
    }

    /// The operand word is an address, moved on by `index`.
    fn fetch_absolute(&mut self, index: u8) -> (addr: u16)
        ensures
            addr == old(self)@.absolute(index),
            final(self)@ == old(self)@.advance(2),
    {
        self.take_word_at_pc().wrapping_add(index as u16)
    }

    /// The operand byte is a signed distance from the byte after it.
    fn fetch_relative(&mut self) -> (addr: u16)
        ensures
            addr == old(self)@.relative(),
            final(self)@ == old(self)@.advance(1),
    {
        let offset = self.take_byte_at_pc();
        if offset < 0x80 {
            self.pc.wrapping_add(offset as u16)
        } else {
            self.pc.wrapping_sub(0x100 - offset as u16)
        }
    }

    /// The operand word points at the address; the second byte of the
    /// address is read from the page of the first.
    fn fetch_indirect(&mut self) -> (addr: u16)
        ensures
            addr == old(self)@.indirect(),
            final(self)@ == old(self)@.advance(2),
    {
        let pointer = self.take_word_at_pc();
        let next = make_word(low(pointer).wrapping_add(1), high(pointer));
        self.read_word(pointer, next)
    }

    /// The operand byte, moved on by `before`, points into the zero page at
    /// the address, which is then moved on by `after`.
    fn fetch_zero_page_pointer(&mut self, before: u8, after: u8) -> (addr: u16)
        ensures
            addr == old(self)@.zero_page_pointer(before, after),
            final(self)@ == old(self)@.advance(1),
    {
        let pointer = self.take_byte_at_pc().wrapping_add(before);
        self.read_word(pointer as u16, pointer.wrapping_add(1) as u16).wrapping_add(after as u16)
    }

    /// Fetches the "destination" for the instruction: takes the operand
    /// bytes at the program counter and answers the effective address.
    /// Without a mode, and for the modes that have no address, nothing is
    /// taken and the answer is `NO_ADDRESS`.
    pub fn fetch_address(&mut self, addressing_mode: Option<AddressingMode>) -> (addr: u16)
        ensures
            addressing_mode matches Some(mode) ==> addr == old(self)@.effective_address(mode)
                && final(self)@ == old(self)@.advance(operand_len(mode)),
            addressing_mode is None ==> addr == NO_ADDRESS && final(self)@ == old(self)@,
    {
        let addressing_mode = if let Some(a) = addressing_mode {
            a
        } else {
            return NO_ADDRESS;
        };
        match addressing_mode {
            AddressingMode::Implicit => {
                assert(self@.advance(0) == self@);
                NO_ADDRESS
            },
            AddressingMode::Accumulator => {
                assert(self@.advance(0) == self@);
                NO_ADDRESS
            },
            AddressingMode::Immediate => {
                let addr = self.pc;
                self.pc = self.pc.wrapping_add(1);
                addr
            },
            AddressingMode::ZeroPage => self.fetch_zero_page(0),
            AddressingMode::ZeroPageX => self.fetch_zero_page(self.x),
            AddressingMode::ZeroPageY => self.fetch_zero_page(self.y),
            AddressingMode::Absolute => self.fetch_absolute(0),
            AddressingMode::AbsoluteX => self.fetch_absolute(self.x),
            AddressingMode::AbsoluteY => self.fetch_absolute(self.y),
            AddressingMode::Relative => self.fetch_relative(),
            AddressingMode::Indirect => self.fetch_indirect(),
            AddressingMode::IndirectX => self.fetch_zero_page_pointer(self.x, 0),
            AddressingMode::IndirectY => self.fetch_zero_page_pointer(0, self.y),
        }
    }

    fn set_carry_to(&mut self, carry: bool)
        ensures
            final(self)@ == old(self)@.with_flags(Status { carry, ..old(self)@.p }),
    {
        if carry {
            self.p.set_carry_flag();
        } else {
            self.p.clear_carry_flag();
        }
    }

    fn set_overflow_to(&mut self, overflow: bool)
        ensures
            final(self)@ == old(self)@.with_flags(Status { overflow, ..old(self)@.p }),
    {
        if overflow {
            self.p.set_overflow_flag();
        } else {
            self.p.clear_overflow_flag();
        }
    }

    fn load_a(&mut self, value: u8)
        ensures
            final(self)@ == old(self)@.load_a(value),
    {
        self.a = value;
        self.update_zero_and_negative_flags(value);
    }

    fn load_x(&mut self, value: u8)
        ensures
            final(self)@ == old(self)@.load_x(value),
    {
        self.x = value;
        self.update_zero_and_negative_flags(value);
    }

    fn load_y(&mut self, value: u8)
        ensures
            final(self)@ == old(self)@.load_y(value),
    {
        self.y = value;
        self.update_zero_and_negative_flags(value);
    }

    /// Sets carry, zero and negative as the comparison of `register` with
    /// `m` gives them.
    fn compare(&mut self, register: u8, m: u8)
        ensures
            final(self)@ == old(self)@.compare(register, m),
    {
        let difference = register.wrapping_sub(m);
        self.set_carry_to(register >= m);
        self.update_zero_and_negative_flags(difference);
    }

    /// Adds `m` and the carry to the accumulator.
    fn add_to_accumulator(&mut self, m: u8)
        ensures
            final(self)@ == old(self)@.accumulate(
                add_with_carry(old(self)@.a, m, old(self)@.p.carry),
            ),
    {
        let carry: u16 = if self.p.get_carry_flag() {
            1
        } else {
            0
        };
        let sum: u16 = self.a as u16 + m as u16 + carry;
        let value = low(sum);
        proof {
            lemma_overflow_is_sign_mismatch(self.a, m, self.p@.carry);
        }
        self.set_carry_to(sum > 0xFF);
        self.set_overflow_to(((self.a ^ value) & (m ^ value) & 0x80) != 0);
        self.load_a(value);
    }

    fn run_group_one(&mut self, instruction: Group1Instruction, addr: u16)
        ensures
            final(self)@ == old(self)@.group_one(instruction, addr),
    {
        match instruction {
            Group1Instruction::ORA => self.load_a(self.a | self.memory.read_byte(addr)),
            Group1Instruction::AND => self.load_a(self.a & self.memory.read_byte(addr)),
            Group1Instruction::EOR => self.load_a(self.a ^ self.memory.read_byte(addr)),
            Group1Instruction::ADC => self.add_to_accumulator(self.memory.read_byte(addr)),
            Group1Instruction::STA => self.memory.write_byte(addr, self.a),
            Group1Instruction::LDA => {
                // Load data into accumulator
                self.load_a(self.memory.read_byte(addr))
            },
            Group1Instruction::CMP => self.compare(self.a, self.memory.read_byte(addr)),
            Group1Instruction::SBC => {
                let data = self.memory.read_byte(addr);
                proof {
                    lemma_byte_operations(data);
                }
                self.add_to_accumulator(data ^ 0xFF)
            },
        }
    }

    /// Puts the outcome of a shift or a rotation where the operand was.
    fn store_shifted(&mut self, mode: AddressingMode, addr: u16, value: u8, carry: bool)
        ensures
            final(self)@ == old(self)@.shifted(mode, addr, Shifted { value, carry }),
    {
        self.set_carry_to(carry);
        self.update_zero_and_negative_flags(value);
        match mode {
            AddressingMode::Accumulator => self.a = value,
            _ => self.memory.write_byte(addr, value),
        }
    }

    /// Writes a byte that was counted up or down, and sets zero and
    /// negative by it.
    fn store_counted(&mut self, addr: u16, value: u8)
        ensures
            final(self)@ == old(self)@.store_counted(addr, value),
    {
        self.memory.write_byte(addr, value);
        self.update_zero_and_negative_flags(value);
    }

    #[verifier::rlimit(40)]
    fn run_group_two(&mut self, instruction: Group2Instruction, mode: AddressingMode, addr: u16)
        ensures
            final(self)@ == old(self)@.group_two(instruction, mode, addr),
    {
        let data = match mode {
            AddressingMode::Accumulator => self.a,
            _ => self.memory.read_byte(addr),
        };
        match instruction {
            Group2Instruction::ASL => {
                let (value, carry) = shift_up(data, false);
                self.store_shifted(mode, addr, value, carry)
            },
            Group2Instruction::ROL => {
                let (value, carry) = shift_up(data, self.p.get_carry_flag());
                self.store_shifted(mode, addr, value, carry)
            },
            Group2Instruction::LSR => {
                let (value, carry) = shift_down(data, false);
                self.store_shifted(mode, addr, value, carry)
            },
            Group2Instruction::ROR => {
                let (value, carry) = shift_down(data, self.p.get_carry_flag());
                self.store_shifted(mode, addr, value, carry)
            },
            Group2Instruction::STX => self.memory.write_byte(addr, self.x),
            Group2Instruction::LDX => self.load_x(self.memory.read_byte(addr)),
            Group2Instruction::DEC => {
                self.store_counted(addr, self.memory.read_byte(addr).wrapping_sub(1))
            },
            Group2Instruction::INC => {
                self.store_counted(addr, self.memory.read_byte(addr).wrapping_add(1))
            },
        }
    }

    fn run_group_three(&mut self, instruction: Group3Instruction, addr: u16)
        ensures
            final(self)@ == old(self)@.group_three(instruction, addr),
    {
        match instruction {
            Group3Instruction::BIT => {
                let byte = self.memory.read_byte(addr);
                proof {
                    lemma_byte_operations(byte);
                }
                if (self.a & byte) == 0 {
                    self.p.set_zero_flag();
                } else {
                    self.p.clear_zero_flag();
                }
                let bit7 = byte & 0b10000000;
                let bit6 = byte & 0b01000000;
                if bit7 == 0 {
                    self.p.clear_negative_flag();
                } else {
                    self.p.set_negative_flag();
                }
                if bit6 == 0 {
                    self.p.clear_overflow_flag();
                } else {
                    self.p.set_overflow_flag();
                }
            },
            Group3Instruction::JMP | Group3Instruction::JMPIND => self.pc = addr,
            Group3Instruction::STY => self.memory.write_byte(addr, self.y),
            Group3Instruction::LDY => self.load_y(self.memory.read_byte(addr)),
            Group3Instruction::CPY => self.compare(self.y, self.memory.read_byte(addr)),
            Group3Instruction::CPX => self.compare(self.x, self.memory.read_byte(addr)),
        }
    }

    fn run_branch(&mut self, instruction: ConditionalBranchInstruction, target: u16)
        ensures
            final(self)@ == old(self)@.branch(instruction, target),
    {
        let taken = match instruction {
            ConditionalBranchInstruction::BPL => !self.p.get_negative_flag(),
            ConditionalBranchInstruction::BMI => self.p.get_negative_flag(),
            ConditionalBranchInstruction::BVC => !self.p.get_overflow_flag(),
            ConditionalBranchInstruction::BVS => self.p.get_overflow_flag(),
            ConditionalBranchInstruction::BCC => !self.p.get_carry_flag(),
            ConditionalBranchInstruction::BCS => self.p.get_carry_flag(),
            ConditionalBranchInstruction::BNE => !self.p.get_zero_flag(),
            ConditionalBranchInstruction::BEQ => self.p.get_zero_flag(),
        };
        if taken {
            self.pc = target;
        }
    }

    /// Pushes the flags as the stack holds them, with break and the unused
    /// bit set in the pushed byte only.
    fn push_flags(&mut self)
        ensures
            final(self)@ == old(self)@.push(old(self)@.p.pushed()),
    {
        proof {
            lemma_pushed_byte(self.p@);
        }
        let image = *self.p.raw() | 0b00110000;
        self.push_to_stack(image);
    }

    /// Pulls the flags; break and the unused bit are not restored.
    fn pull_flags(&mut self)
        ensures
            final(self)@ == old(self)@.pull().with_flags(
                old(self)@.p.restored(old(self)@.pulled()),
            ),
    {
        let pulled = self.pop_from_stack();
        proof {
            lemma_restored_byte(self.p@, pulled);
        }
        let kept = *self.p.raw() & 0b00110000;
        *self.p.raw_mut() = (pulled & 0b11001111) | kept;
    }

    /// `BRK`: pushes the return address and the flags and goes on where the
    /// interrupt vector says.
    fn run_interrupt(&mut self)
        ensures
            final(self)@ == old(self)@.interrupt(),
    {
        // Skip the byte after the opcode
        let back = self.pc.wrapping_add(1);
        self.push_to_stack(high(back));
        self.push_to_stack(low(back));
        // Break is set in the pushed flags only
        self.push_flags();
        self.p.set_interrupt_disable_flag();
        self.pc = self.read_word(IRQ_VECTOR, IRQ_VECTOR + 1);
    }

    /// `RTI`: pulls the flags and the address to go on at.
    fn run_return_from_interrupt(&mut self)
        ensures
            final(self)@ == old(self)@.return_from_interrupt(),
    {
        self.pull_flags();
        // Pull PC
        let lo = self.pop_from_stack();
        let hi = self.pop_from_stack();
        self.pc = make_word(lo, hi);
    }

    /// `RTS`: pulls the address of the last byte of the call and goes on
    /// after it.
    fn run_return_from_subroutine(&mut self)
        ensures
            final(self)@ == old(self)@.return_from_subroutine(),
    {
        let lo = self.pop_from_stack();
        let hi = self.pop_from_stack();
        self.pc = make_word(lo, hi).wrapping_add(1);
    }

    #[verifier::rlimit(50)]
    fn run_single_byte(&mut self, instruction: SingleByteInstruction)
        ensures
            final(self)@ == old(self)@.single_byte(instruction),
    {
        match instruction {
            // Stack Operations
            // Push processor status onto stack
            SingleByteInstruction::PHP => self.push_flags(),
            // Pull processor status from stack
            SingleByteInstruction::PLP => self.pull_flags(),
            // Push accumulator onto stack
            SingleByteInstruction::PHA => self.push_to_stack(self.a),
            // Pull accumulator from stack
            SingleByteInstruction::PLA => {
                let byte = self.pop_from_stack();
                self.load_a(byte);
            },
            // Transfer X to stack pointer
            SingleByteInstruction::TXS => self.s = self.x,
            // Transfer stack pointer to X
            SingleByteInstruction::TSX => self.load_x(self.s),
            SingleByteInstruction::BRK => self.run_interrupt(),
            SingleByteInstruction::RTI => self.run_return_from_interrupt(),
            SingleByteInstruction::RTS => self.run_return_from_subroutine(),
            SingleByteInstruction::DEY => self.load_y(self.y.wrapping_sub(1)),
            SingleByteInstruction::TAY => self.load_y(self.a),
            SingleByteInstruction::INY => self.load_y(self.y.wrapping_add(1)),
            SingleByteInstruction::INX => self.load_x(self.x.wrapping_add(1)),
            SingleByteInstruction::CLC => self.p.clear_carry_flag(),
            SingleByteInstruction::SEC => self.p.set_carry_flag(),
            SingleByteInstruction::CLI => self.p.clear_interrupt_disable_flag(),
            SingleByteInstruction::SEI => self.p.set_interrupt_disable_flag(),
            SingleByteInstruction::TYA => self.load_a(self.y),
            SingleByteInstruction::CLV => self.p.clear_overflow_flag(),
            SingleByteInstruction::CLD => self.p.clear_decimal_mode_flag(),
            SingleByteInstruction::SED => self.p.set_decimal_mode_flag(),
            SingleByteInstruction::TXA => self.load_a(self.x),
            SingleByteInstruction::TAX => self.load_x(self.a),
            SingleByteInstruction::DEX => self.load_x(self.x.wrapping_sub(1)),
            SingleByteInstruction::NOP => {},
        }
    }

    /// `JSR`: pushes the address to come back to and goes on at `target`.
    fn run_call(&mut self, target: u16)
        ensures
            final(self)@ == old(self)@.call(target),
    {
        // PC is past the operand: the address pushed is that of the last byte of the call
        let back = self.pc.wrapping_sub(1);
        self.push_to_stack(high(back));
        self.push_to_stack(low(back));
        self.pc = target;
    }

    /// Takes the opcode and the operand of a decoded instruction and does
    /// what the instruction says.
    fn perform(&mut self, instruction: Instruction, mode: AddressingMode)
        ensures
            final(self)@ == old(self)@.perform(instruction, mode),
    {
        self.pc = self.pc.wrapping_add(1);
        let addr = self.fetch_address(Some(mode));
        match instruction {
            Instruction::GroupOne(instruction) => self.run_group_one(instruction, addr),
            Instruction::GroupTwo(instruction) => self.run_group_two(instruction, mode, addr),
            Instruction::GroupThree(instruction) => self.run_group_three(instruction, addr),
            Instruction::ConditionalBranch(instruction) => self.run_branch(instruction, addr),
            Instruction::SingleByte(instruction) => self.run_single_byte(instruction),
            Instruction::SpecialCase(_) => self.run_call(addr),
        }
    }

    /// Executes the instruction at the program counter. On an error nothing
    /// has changed: the program counter still points at the opcode.
    pub fn process_next_instruction(&mut self) -> (outcome: Result<(), StepError>)
        ensures
            match outcome {
                Ok(()) => old(self)@.step() == Ok::<CpuState, StepError>(final(self)@),
                Err(e) => {
                    &&& old(self)@.step() == Err::<CpuState, StepError>(e)
                    &&& final(self)@ == old(self)@
                },
            },
            old(self)@.p.unused ==> final(self)@.p.unused,
            0 <= final(self)@.s <= 0xFF,
            0 <= final(self)@.pc <= 0xFFFF,
    {
        let value = self.peek_byte_at_pc();
        let (instruction, addressing_mode) = match decode(value) {
            Ok(decoded) => decoded,
            Err(e) => {
                return Err(StepError::Decode(e));
            },
        };
        if self.p.get_decimal_mode_flag() {
            match instruction {
                Instruction::GroupOne(Group1Instruction::ADC)
                | Instruction::GroupOne(Group1Instruction::SBC) => {
                    return Err(StepError::Unimplemented { instruction, mode: addressing_mode });
                },
                _ => {},
            }
        }
        proof {
            lemma_perform_keeps_unused(self@, instruction, addressing_mode);
        }
        self.perform(instruction, addressing_mode);
        Ok(())
    }
}

} // verus!
