use emulator::addressing::AddressingMode;
use emulator::instructions::{DecodeError, Group1Instruction, Instruction};
use emulator::memory::Memory;
use emulator::processor::{Processor, Registers};
use emulator::semantics::StepError;

const CARRY: u8 = 0x01;
const ZERO: u8 = 0x02;
const INTERRUPT_DISABLE: u8 = 0x04;
const DECIMAL: u8 = 0x08;
const BREAK: u8 = 0x10;
const UNUSED: u8 = 0x20;
const OVERFLOW: u8 = 0x40;
const NEGATIVE: u8 = 0x80;

/// A processor with `program` loaded where `Processor::new` starts.
fn load(program: &[u8]) -> Processor {
    let mut memory = Memory::new();
    memory.write_bytes(0x1000, program);
    Processor::new(memory)
}

/// Runs until the next opcode is the zero byte, as the drivers do.
fn run_to_break(processor: &mut Processor) {
    let mut steps = 0;
    while processor.peek_byte_at_pc() != 0 {
        processor.process_next_instruction().unwrap();
        steps += 1;
        assert!(steps < 10_000);
    }
}

fn run(program: &[u8]) -> Processor {
    let mut processor = load(program);
    run_to_break(&mut processor);
    processor
}

fn steps(processor: &mut Processor, count: usize) {
    for _ in 0..count {
        processor.process_next_instruction().unwrap();
    }
}

#[test]
fn loading_and_storing() {
    // LDA $1000; STA $100D; BRK
    let bin = [0xAD, 0x00, 0x10, 0x8D, 0x0D, 0x10, 0x00];
    let mut memory = Memory::new();
    memory.write_bytes(0x1000, &bin);
    let mut processor = Processor::new(memory);
    // Using 0 byte for program termination for now (which corresponds to the BRK instruction)
    while processor.peek_byte_at_pc() != 0 {
        processor.process_next_instruction().unwrap();
    }

    assert_eq!(
        processor.memory.read_byte(0x1000),
        processor.memory.read_byte(0x100D)
    );
    assert_eq!(processor.memory.read_byte(0x100D), 0xAD);
}

#[test]
fn unsigned_addition() {
    // LDA $1015; CLC; ADC $1016; STA $1017; BRK, and the two numbers behind it
    let mut bin = vec![0xAD, 0x15, 0x10, 0x18, 0x6D, 0x16, 0x10, 0x8D, 0x17, 0x10, 0x00];
    bin.resize(0x15, 0);
    bin.push(0x12);
    bin.push(0x34);
    let mut memory = Memory::new();
    memory.write_bytes(0x1000, &bin);
    let mut processor = Processor::new(memory);
    // Using 0 byte for program termination for now (which corresponds to the BRK instruction)
    while processor.peek_byte_at_pc() != 0 {
        processor.process_next_instruction().unwrap();
    }

    println!("{:#X?}", processor.registers());
    assert_eq!(
        processor.memory.read_byte(0x1015) + processor.memory.read_byte(0x1016),
        processor.memory.read_byte(0x1017)
    );
    assert_eq!(processor.memory.read_byte(0x1017), 0x46);
    let p = processor.registers().p;
    assert_eq!(p & CARRY, 0);
    assert_eq!(p & ZERO, 0);
}

#[test]
fn reset_state() {
    let processor = Processor::new(Memory::new());
    assert_eq!(
        processor.registers(),
        Registers { a: 0, x: 0, y: 0, s: 0xFD, p: 0b0010_0000, pc: 0x1000 }
    );
}

#[test]
fn reset_vector_gives_the_program_counter() {
    let mut memory = Memory::new();
    memory.write_bytes(0xFFFC, &[0x34, 0x12]);
    let processor = Processor::from_reset_vector(memory);
    assert_eq!(
        processor.registers(),
        Registers { a: 0, x: 0, y: 0, s: 0xFD, p: 0b0010_0000, pc: 0x1234 }
    );
}

#[test]
fn load_store_identity() {
    // LDA $1000; STA $100D; BRK, run from 0x0200 with 0x42 at 0x1000
    let mut memory = Memory::new();
    memory.write_bytes(0x0200, &[0xAD, 0x00, 0x10, 0x8D, 0x0D, 0x10, 0x00]);
    memory.write_byte(0x1000, 0x42);
    memory.write_bytes(0xFFFC, &[0x00, 0x02]);
    let mut processor = Processor::from_reset_vector(memory);
    run_to_break(&mut processor);
    assert_eq!(processor.memory.read_byte(0x100D), 0x42);
    assert_eq!(processor.registers().a, 0x42);
    assert_eq!(processor.registers().pc, 0x0206);
}

#[test]
fn load_immediate_store_load() {
    // LDA #v; STA $2000; LDA $2000, after the flags and A held something else
    for v in [0x00u8, 0x01, 0x7F, 0x80, 0xFF] {
        let mut processor = load(&[0xA9, 0x55, 0x38, 0xA9, v, 0x8D, 0x00, 0x20, 0xAD, 0x00, 0x20]);
        steps(&mut processor, 5);
        let registers = processor.registers();
        assert_eq!(registers.a, v);
        assert_eq!(registers.p & ZERO != 0, v == 0);
        assert_eq!(registers.p & NEGATIVE != 0, v & 0x80 != 0);
        assert_eq!(processor.memory.read_byte(0x2000), v);
    }
}

#[test]
fn signed_overflow() {
    // LDA #$50; CLC; ADC #$50; BRK
    let processor = run(&[0xA9, 0x50, 0x18, 0x69, 0x50, 0x00]);
    let registers = processor.registers();
    assert_eq!(registers.a, 0xA0);
    assert_ne!(registers.p & OVERFLOW, 0);
    assert_ne!(registers.p & NEGATIVE, 0);
    assert_eq!(registers.p & CARRY, 0);
    assert_eq!(registers.p & ZERO, 0);
    assert_eq!(registers.p, UNUSED | OVERFLOW | NEGATIVE);
}

#[test]
fn compare_and_branch() {
    // LDX #$05; loop: DEX; BNE loop; BRK
    let processor = run(&[0xA2, 0x05, 0xCA, 0xD0, 0xFD, 0x00]);
    let registers = processor.registers();
    assert_eq!(registers.x, 0);
    assert_ne!(registers.p & ZERO, 0);
    assert_eq!(registers.pc, 0x1005);
}

#[test]
fn subroutine_call_and_return() {
    // JSR $1010; BRK, and at 0x1010: LDA #$07; RTS
    let mut program = vec![0x20, 0x10, 0x10, 0x00];
    program.resize(0x10, 0xEA);
    program.extend_from_slice(&[0xA9, 0x07, 0x60]);
    let mut processor = load(&program);
    processor.process_next_instruction().unwrap();
    assert_eq!(processor.registers().pc, 0x1010);
    assert_eq!(processor.registers().s, 0xFB);
    // the address of the last byte of the call, high byte pushed first
    assert_eq!(processor.memory.read_byte(0x01FD), 0x10);
    assert_eq!(processor.memory.read_byte(0x01FC), 0x02);
    run_to_break(&mut processor);
    let registers = processor.registers();
    assert_eq!(registers.a, 0x07);
    assert_eq!(registers.pc, 0x1003);
    assert_eq!(registers.s, 0xFD);
}

#[test]
fn indirect_jmp_page_bug() {
    // JMP ($20FF) with $34 at 0x20FF, $12 at 0x2100 and $00 at 0x2000
    let mut processor = load(&[0x6C, 0xFF, 0x20]);
    processor.memory.write_byte(0x20FF, 0x34);
    processor.memory.write_byte(0x2100, 0x12);
    processor.memory.write_byte(0x2000, 0x00);
    processor.process_next_instruction().unwrap();
    assert_eq!(processor.registers().pc, 0x0034);
}

#[test]
fn indirect_jmp_reads_the_high_byte_from_the_page_of_the_low_byte() {
    // JMP ($10FF): the low byte from 0x10FF, the high byte from 0x1000
    let mut processor = load(&[0x6C, 0xFF, 0x10]);
    processor.memory.write_byte(0x10FF, 0x34);
    processor.memory.write_byte(0x1100, 0x12);
    processor.process_next_instruction().unwrap();
    assert_eq!(processor.registers().pc, 0x6C34);
}

#[test]
fn indirect_jmp_within_a_page() {
    let mut processor = load(&[0x6C, 0x10, 0x20]);
    processor.memory.write_bytes(0x2010, &[0x78, 0x56]);
    processor.process_next_instruction().unwrap();
    assert_eq!(processor.registers().pc, 0x5678);
}

#[test]
fn absolute_jmp() {
    let mut processor = load(&[0x4C, 0x34, 0x12]);
    processor.process_next_instruction().unwrap();
    assert_eq!(processor.registers().pc, 0x1234);
}

#[test]
fn zero_page_x_wraps_within_the_zero_page() {
    // LDX #$01 and then the operand $FF in zero page,X
    let mut processor = load(&[0xA2, 0x01, 0xFF]);
    processor.process_next_instruction().unwrap();
    let addr = processor.fetch_address(Some(AddressingMode::ZeroPageX));
    assert_eq!(addr, 0x0000);
    assert_eq!(processor.registers().pc, 0x1003);
}

#[test]
fn zero_page_indexed_loads_wrap() {
    // LDX #$01; LDY #$02; LDA $FF,X; LDX $FF,Y
    let mut processor = load(&[0xA2, 0x01, 0xA0, 0x02, 0xB5, 0xFF, 0xB6, 0xFF]);
    processor.memory.write_byte(0x0000, 0x77);
    processor.memory.write_byte(0x0001, 0x66);
    processor.memory.write_byte(0x0100, 0x88);
    processor.memory.write_byte(0x0101, 0x99);
    steps(&mut processor, 4);
    assert_eq!(processor.registers().a, 0x77);
    assert_eq!(processor.registers().x, 0x66);
}

#[test]
fn fetch_address_of_each_mode() {
    // X = 0x04, Y = 0x10, then operands read at 0x1004
    let mut memory = Memory::new();
    memory.write_bytes(0x1000, &[0xA2, 0x04, 0xA0, 0x10, 0x20, 0x30]);
    memory.write_bytes(0x0020, &[0x00, 0x40]);
    memory.write_bytes(0x0024, &[0xF8, 0xFF]);
    memory.write_bytes(0x3020, &[0xCD, 0xAB]);
    let operand = |mode: Option<AddressingMode>| {
        let mut copy = Memory::new();
        copy.write_bytes(0, &memory.to_bytes());
        let mut processor = Processor::new(copy);
        steps(&mut processor, 2);
        let addr = processor.fetch_address(mode);
        (addr, processor.registers().pc)
    };
    assert_eq!(operand(None), (0xFFFF, 0x1004));
    assert_eq!(operand(Some(AddressingMode::Implicit)), (0xFFFF, 0x1004));
    assert_eq!(operand(Some(AddressingMode::Accumulator)), (0xFFFF, 0x1004));
    assert_eq!(operand(Some(AddressingMode::Immediate)), (0x1004, 0x1005));
    assert_eq!(operand(Some(AddressingMode::ZeroPage)), (0x0020, 0x1005));
    assert_eq!(operand(Some(AddressingMode::ZeroPageX)), (0x0024, 0x1005));
    assert_eq!(operand(Some(AddressingMode::ZeroPageY)), (0x0030, 0x1005));
    assert_eq!(operand(Some(AddressingMode::Absolute)), (0x3020, 0x1006));
    assert_eq!(operand(Some(AddressingMode::AbsoluteX)), (0x3024, 0x1006));
    assert_eq!(operand(Some(AddressingMode::AbsoluteY)), (0x3030, 0x1006));
    assert_eq!(operand(Some(AddressingMode::Relative)), (0x1025, 0x1005));
    assert_eq!(operand(Some(AddressingMode::Indirect)), (0xABCD, 0x1006));
    assert_eq!(operand(Some(AddressingMode::IndirectX)), (0xFFF8, 0x1005));
    assert_eq!(operand(Some(AddressingMode::IndirectY)), (0x4010, 0x1005));
}

#[test]
fn indexed_addresses_wrap() {
    // LDX #$10; LDY #$20; then the operand $FFF8
    let mut processor = load(&[0xA2, 0x10, 0xA0, 0x20, 0xF8, 0xFF]);
    steps(&mut processor, 2);
    assert_eq!(processor.fetch_address(Some(AddressingMode::AbsoluteX)), 0x0008);
    let mut processor = load(&[0xA2, 0x10, 0xA0, 0x20, 0xF8, 0xFF]);
    steps(&mut processor, 2);
    assert_eq!(processor.fetch_address(Some(AddressingMode::AbsoluteY)), 0x0018);
    // the pointer of (zp,X) and of (zp),Y is read within the zero page
    let mut processor = load(&[0xA2, 0x0F, 0xA0, 0x20, 0xF0]);
    processor.memory.write_byte(0x00FF, 0xF0);
    processor.memory.write_byte(0x0000, 0xFF);
    processor.memory.write_byte(0x0100, 0x11);
    steps(&mut processor, 2);
    assert_eq!(processor.fetch_address(Some(AddressingMode::IndirectX)), 0xFFF0);
    let mut processor = load(&[0xA2, 0x0F, 0xA0, 0x20, 0xFF]);
    processor.memory.write_byte(0x00FF, 0xF0);
    processor.memory.write_byte(0x0000, 0xFF);
    processor.memory.write_byte(0x0100, 0x11);
    steps(&mut processor, 2);
    assert_eq!(processor.fetch_address(Some(AddressingMode::IndirectY)), 0x0010);
}

#[test]
fn stack_wraps_below_zero() {
    // LDX #$00; TXS
    let mut processor = load(&[0xA2, 0x00, 0x9A]);
    steps(&mut processor, 2);
    assert_eq!(processor.registers().s, 0x00);
    processor.push_to_stack(0xAB);
    assert_eq!(processor.memory.read_byte(0x0100), 0xAB);
    assert_eq!(processor.registers().s, 0xFF);
    assert_eq!(processor.pop_from_stack(), 0xAB);
    assert_eq!(processor.registers().s, 0x00);
}

#[test]
fn push_then_pop_gives_the_byte_back() {
    let mut processor = load(&[]);
    let before = processor.registers();
    for byte in [0x00u8, 0x01, 0x80, 0xFF] {
        processor.push_to_stack(byte);
        assert_eq!(processor.registers().s, 0xFC);
        assert_eq!(processor.memory.read_byte(0x01FD), byte);
        assert_eq!(processor.pop_from_stack(), byte);
        assert_eq!(processor.registers(), before);
    }
}

#[test]
fn pushes_come_back_in_reverse() {
    let mut processor = load(&[]);
    processor.push_to_stack(1);
    processor.push_to_stack(2);
    processor.push_to_stack(3);
    assert_eq!(processor.registers().s, 0xFA);
    assert_eq!(processor.pop_from_stack(), 3);
    assert_eq!(processor.pop_from_stack(), 2);
    assert_eq!(processor.pop_from_stack(), 1);
    assert_eq!(processor.registers().s, 0xFD);
}

#[test]
fn branch_backwards_across_a_page() {
    // LDX #$01; BNE -6: from 0x1004 back to 0x0FFE
    let mut processor = load(&[0xA2, 0x01, 0xD0, 0xFA]);
    processor.process_next_instruction().unwrap();
    let before = processor.registers();
    processor.process_next_instruction().unwrap();
    let after = processor.registers();
    assert_eq!(after.pc, 0x0FFE);
    assert_eq!(after.p, before.p);
    assert_eq!(after, Registers { pc: 0x0FFE, ..before });
}

#[test]
fn branch_forwards() {
    // BNE +0x7F from 0x1002
    let mut processor = load(&[0xD0, 0x7F]);
    processor.process_next_instruction().unwrap();
    assert_eq!(processor.registers().pc, 0x1081);
    // BNE -128 from 0x1002
    let mut processor = load(&[0xD0, 0x80]);
    processor.process_next_instruction().unwrap();
    assert_eq!(processor.registers().pc, 0x0F82);
}

/// Runs `setup`, then the branch `opcode` with the offset 0x10, and says
/// whether it was taken.
fn branch_is_taken(setup: &[u8], opcode: u8) -> bool {
    let mut program = setup.to_vec();
    program.extend_from_slice(&[opcode, 0x10]);
    let mut processor = load(&program);
    run_until(&mut processor, 0x1000 + setup.len() as u16);
    let before = processor.registers();
    processor.process_next_instruction().unwrap();
    let after = processor.registers();
    let next = before.pc + 2;
    assert_eq!(Registers { pc: 0, ..after }, Registers { pc: 0, ..before });
    if after.pc == next + 0x10 {
        true
    } else {
        assert_eq!(after.pc, next);
        false
    }
}

fn run_until(processor: &mut Processor, pc: u16) {
    let mut steps = 0;
    while processor.registers().pc != pc {
        processor.process_next_instruction().unwrap();
        steps += 1;
        assert!(steps < 10_000);
    }
}

#[test]
fn branches_are_taken_on_their_flag() {
    let negative = [0xA9, 0x80];
    let positive = [0xA9, 0x01];
    let zero = [0xA9, 0x00];
    let carry = [0x38];
    let no_carry = [0x18];
    // LDA #$50; ADC #$50 overflows; CLV clears
    let overflow = [0xA9, 0x50, 0x69, 0x50];
    let no_overflow = [0xB8];
    // BPL, BMI
    assert!(branch_is_taken(&positive, 0x10));
    assert!(!branch_is_taken(&negative, 0x10));
    assert!(branch_is_taken(&negative, 0x30));
    assert!(!branch_is_taken(&positive, 0x30));
    // BVC, BVS
    assert!(branch_is_taken(&no_overflow, 0x50));
    assert!(!branch_is_taken(&overflow, 0x50));
    assert!(branch_is_taken(&overflow, 0x70));
    assert!(!branch_is_taken(&no_overflow, 0x70));
    // BCC, BCS
    assert!(branch_is_taken(&no_carry, 0x90));
    assert!(!branch_is_taken(&carry, 0x90));
    assert!(branch_is_taken(&carry, 0xB0));
    assert!(!branch_is_taken(&no_carry, 0xB0));
    // BNE, BEQ
    assert!(branch_is_taken(&positive, 0xD0));
    assert!(!branch_is_taken(&zero, 0xD0));
    assert!(branch_is_taken(&zero, 0xF0));
    assert!(!branch_is_taken(&positive, 0xF0));
}

#[test]
fn add_then_subtract_gives_the_accumulator_back() {
    for (a, m) in [(0x00u8, 0x00u8), (0x12, 0x34), (0xFF, 0x01), (0x80, 0x80), (0x7F, 0xFF)] {
        // LDA #a; CLC; ADC #m; SEC; SBC #m
        let mut processor = load(&[0xA9, a, 0x18, 0x69, m, 0x38, 0xE9, m]);
        steps(&mut processor, 5);
        assert_eq!(processor.registers().a, a);
    }
}

#[test]
fn addition_with_carry() {
    // LDA #$FF; SEC; ADC #$00: 0xFF + 0 + 1 = 0x100
    let mut processor = load(&[0xA9, 0xFF, 0x38, 0x69, 0x00]);
    steps(&mut processor, 3);
    assert_eq!(processor.registers().a, 0x00);
    assert_eq!(processor.registers().p, UNUSED | CARRY | ZERO);
    // LDA #$7F; CLC; ADC #$01: 127 + 1 overflows to -128
    let mut processor = load(&[0xA9, 0x7F, 0x18, 0x69, 0x01]);
    steps(&mut processor, 3);
    assert_eq!(processor.registers().a, 0x80);
    assert_eq!(processor.registers().p, UNUSED | OVERFLOW | NEGATIVE);
    // LDA #$80; CLC; ADC #$80: -128 + -128 overflows to 0 with carry
    let mut processor = load(&[0xA9, 0x80, 0x18, 0x69, 0x80]);
    steps(&mut processor, 3);
    assert_eq!(processor.registers().a, 0x00);
    assert_eq!(processor.registers().p, UNUSED | OVERFLOW | ZERO | CARRY);
}

#[test]
fn subtraction_with_borrow() {
    // LDA #$50; SEC; SBC #$F0: 0x50 - 0xF0 = 0x60, borrow, no overflow
    let mut processor = load(&[0xA9, 0x50, 0x38, 0xE9, 0xF0]);
    steps(&mut processor, 3);
    assert_eq!(processor.registers().a, 0x60);
    assert_eq!(processor.registers().p, UNUSED);
    // LDA #$50; SEC; SBC #$B0: 80 - (-80) overflows
    let mut processor = load(&[0xA9, 0x50, 0x38, 0xE9, 0xB0]);
    steps(&mut processor, 3);
    assert_eq!(processor.registers().a, 0xA0);
    assert_eq!(processor.registers().p, UNUSED | OVERFLOW | NEGATIVE);
    // LDA #$05; CLC; SBC #$02: 5 - 2 - 1 = 2, no borrow
    let mut processor = load(&[0xA9, 0x05, 0x18, 0xE9, 0x02]);
    steps(&mut processor, 3);
    assert_eq!(processor.registers().a, 0x02);
    assert_eq!(processor.registers().p, UNUSED | CARRY);
}

#[test]
fn decimal_arithmetic_is_unimplemented() {
    // SED; ADC #$01
    let mut processor = load(&[0xF8, 0x69, 0x01]);
    processor.process_next_instruction().unwrap();
    let before = processor.registers();
    assert_eq!(before.p, UNUSED | DECIMAL);
    assert_eq!(
        processor.process_next_instruction(),
        Err(StepError::Unimplemented {
            instruction: Instruction::GroupOne(Group1Instruction::ADC),
            mode: AddressingMode::Immediate,
        })
    );
    assert_eq!(processor.registers(), before);
    // SED; SBC $10
    let mut processor = load(&[0xF8, 0xE5, 0x10]);
    processor.process_next_instruction().unwrap();
    assert_eq!(
        processor.process_next_instruction(),
        Err(StepError::Unimplemented {
            instruction: Instruction::GroupOne(Group1Instruction::SBC),
            mode: AddressingMode::ZeroPage,
        })
    );
    // SED; CLD; ADC #$01
    let mut processor = load(&[0xF8, 0xD8, 0x69, 0x01]);
    steps(&mut processor, 3);
    assert_eq!(processor.registers().a, 0x01);
}

#[test]
fn illegal_opcode_is_a_decode_error() {
    let mut processor = load(&[0xEA, 0x02]);
    processor.process_next_instruction().unwrap();
    let before = processor.registers();
    assert_eq!(processor.process_next_instruction(), Err(StepError::Decode(DecodeError { opcode: 0x02 })));
    assert_eq!(processor.registers(), before);
    assert_eq!(processor.registers().pc, 0x1001);
    assert_eq!(processor.peek_byte_at_pc(), 0x02);
}

#[test]
fn rotate_left_then_right_gives_the_byte_back() {
    for x in [0x00u8, 0x01, 0x80, 0x81, 0x5A, 0xFF] {
        for carry in [0x18u8, 0x38] {
            // LDA #x; CLC or SEC; ROL A; ROR A
            let mut processor = load(&[0xA9, x, carry, 0x2A, 0x6A]);
            steps(&mut processor, 2);
            let before = processor.registers();
            steps(&mut processor, 2);
            let after = processor.registers();
            assert_eq!(after.a, x);
            assert_eq!(after.p & CARRY, before.p & CARRY);
        }
    }
}

#[test]
fn shifts_and_rotations_of_the_accumulator() {
    // LDA #$81; CLC; ASL A
    let mut processor = load(&[0xA9, 0x81, 0x18, 0x0A]);
    steps(&mut processor, 3);
    assert_eq!(processor.registers().a, 0x02);
    assert_eq!(processor.registers().p, UNUSED | CARRY);
    // LDA #$81; CLC; LSR A
    let mut processor = load(&[0xA9, 0x81, 0x18, 0x4A]);
    steps(&mut processor, 3);
    assert_eq!(processor.registers().a, 0x40);
    assert_eq!(processor.registers().p, UNUSED | CARRY);
    // LDA #$40; SEC; ROL A
    let mut processor = load(&[0xA9, 0x40, 0x38, 0x2A]);
    steps(&mut processor, 3);
    assert_eq!(processor.registers().a, 0x81);
    assert_eq!(processor.registers().p, UNUSED | NEGATIVE);
    // LDA #$01; SEC; ROR A
    let mut processor = load(&[0xA9, 0x01, 0x38, 0x6A]);
    steps(&mut processor, 3);
    assert_eq!(processor.registers().a, 0x80);
    assert_eq!(processor.registers().p, UNUSED | NEGATIVE | CARRY);
    // LDA #$01; CLC; LSR A
    let mut processor = load(&[0xA9, 0x01, 0x18, 0x4A]);
    steps(&mut processor, 3);
    assert_eq!(processor.registers().a, 0x00);
    assert_eq!(processor.registers().p, UNUSED | ZERO | CARRY);
}

#[test]
fn shifts_and_rotations_of_memory() {
    // ASL $2000; LSR $2001; SEC; ROL $2002; ROR $10
    let mut processor = load(&[
        0x0E, 0x00, 0x20, 0x4E, 0x01, 0x20, 0x38, 0x2E, 0x02, 0x20, 0x66, 0x10,
    ]);
    processor.memory.write_bytes(0x2000, &[0x41, 0x02, 0x80]);
    processor.memory.write_byte(0x0010, 0x02);
    processor.process_next_instruction().unwrap();
    assert_eq!(processor.memory.read_byte(0x2000), 0x82);
    assert_eq!(processor.registers().p, UNUSED | NEGATIVE);
    processor.process_next_instruction().unwrap();
    assert_eq!(processor.memory.read_byte(0x2001), 0x01);
    assert_eq!(processor.registers().p, UNUSED);
    steps(&mut processor, 2);
    assert_eq!(processor.memory.read_byte(0x2002), 0x01);
    assert_eq!(processor.registers().p, UNUSED | CARRY);
    processor.process_next_instruction().unwrap();
    assert_eq!(processor.memory.read_byte(0x0010), 0x81);
    assert_eq!(processor.registers().p, UNUSED | NEGATIVE);
    assert_eq!(processor.registers().a, 0);
}

#[test]
fn logic_on_the_accumulator() {
    // LDA #$F0; ORA #$0C; AND #$3C; EOR #$3C
    let mut processor = load(&[0xA9, 0xF0, 0x09, 0x0C, 0x29, 0x3C, 0x49, 0x3C]);
    steps(&mut processor, 2);
    assert_eq!(processor.registers().a, 0xFC);
    assert_eq!(processor.registers().p, UNUSED | NEGATIVE);
    processor.process_next_instruction().unwrap();
    assert_eq!(processor.registers().a, 0x3C);
    assert_eq!(processor.registers().p, UNUSED);
    processor.process_next_instruction().unwrap();
    assert_eq!(processor.registers().a, 0x00);
    assert_eq!(processor.registers().p, UNUSED | ZERO);
}

#[test]
fn compare_sets_carry_zero_and_negative() {
    // LDA #$40; CMP #$40
    let mut processor = load(&[0xA9, 0x40, 0xC9, 0x40]);
    steps(&mut processor, 2);
    assert_eq!(processor.registers().p, UNUSED | CARRY | ZERO);
    // LDA #$40; CMP #$41
    let mut processor = load(&[0xA9, 0x40, 0xC9, 0x41]);
    steps(&mut processor, 2);
    assert_eq!(processor.registers().p, UNUSED | NEGATIVE);
    // LDA #$40; CMP #$3F
    let mut processor = load(&[0xA9, 0x40, 0xC9, 0x3F]);
    steps(&mut processor, 2);
    assert_eq!(processor.registers().p, UNUSED | CARRY);
    // LDA #$F0; CMP #$10: not below, and the difference 0xE0 is negative
    let mut processor = load(&[0xA9, 0xF0, 0xC9, 0x10]);
    steps(&mut processor, 2);
    assert_eq!(processor.registers().p, UNUSED | CARRY | NEGATIVE);
    assert_eq!(processor.registers().a, 0xF0);
    // LDX #$05; CPX #$05; LDY #$01; CPY $2000
    let mut processor = load(&[0xA2, 0x05, 0xE0, 0x05, 0xA0, 0x01, 0xCC, 0x00, 0x20]);
    processor.memory.write_byte(0x2000, 0x02);
    steps(&mut processor, 2);
    assert_eq!(processor.registers().p, UNUSED | CARRY | ZERO);
    steps(&mut processor, 2);
    assert_eq!(processor.registers().p, UNUSED | NEGATIVE);
}

#[test]
fn bit_copies_bits_six_and_seven() {
    // LDA #$01; BIT $2000
    let mut processor = load(&[0xA9, 0x01, 0x2C, 0x00, 0x20]);
    processor.memory.write_byte(0x2000, 0xC0);
    steps(&mut processor, 2);
    assert_eq!(processor.registers().a, 0x01);
    assert_eq!(processor.registers().p, UNUSED | ZERO | OVERFLOW | NEGATIVE);
    // LDA #$01; BIT $10
    let mut processor = load(&[0xA9, 0x01, 0x24, 0x10]);
    processor.memory.write_byte(0x0010, 0x01);
    steps(&mut processor, 2);
    assert_eq!(processor.registers().p, UNUSED);
}

#[test]
fn increments_and_decrements() {
    // LDX #$FF; INX; DEX; LDY #$00; DEY; INY
    let mut processor = load(&[0xA2, 0xFF, 0xE8, 0xCA, 0xA0, 0x00, 0x88, 0xC8]);
    steps(&mut processor, 2);
    assert_eq!(processor.registers().x, 0x00);
    assert_eq!(processor.registers().p, UNUSED | ZERO);
    processor.process_next_instruction().unwrap();
    assert_eq!(processor.registers().x, 0xFF);
    assert_eq!(processor.registers().p, UNUSED | NEGATIVE);
    steps(&mut processor, 2);
    assert_eq!(processor.registers().y, 0xFF);
    assert_eq!(processor.registers().p, UNUSED | NEGATIVE);
    processor.process_next_instruction().unwrap();
    assert_eq!(processor.registers().y, 0x00);
    assert_eq!(processor.registers().p, UNUSED | ZERO);
    // INC $2000; DEC $2001, neither touches the accumulator
    let mut processor = load(&[0xEE, 0x00, 0x20, 0xCE, 0x01, 0x20]);
    processor.memory.write_bytes(0x2000, &[0xFF, 0x00]);
    processor.process_next_instruction().unwrap();
    assert_eq!(processor.memory.read_byte(0x2000), 0x00);
    assert_eq!(processor.registers().p, UNUSED | ZERO);
    processor.process_next_instruction().unwrap();
    assert_eq!(processor.memory.read_byte(0x2001), 0xFF);
    assert_eq!(processor.registers().p, UNUSED | NEGATIVE);
    assert_eq!(processor.registers().a, 0x00);
}

#[test]
fn transfers_between_registers() {
    // LDA #$80; TAX; TAY; LDA #$00; TXA
    let mut processor = load(&[0xA9, 0x80, 0xAA, 0xA8, 0xA9, 0x00, 0x8A]);
    steps(&mut processor, 3);
    assert_eq!(processor.registers().x, 0x80);
    assert_eq!(processor.registers().y, 0x80);
    steps(&mut processor, 2);
    assert_eq!(processor.registers().a, 0x80);
    assert_eq!(processor.registers().p, UNUSED | NEGATIVE);
    // LDY #$00; LDA #$01; TYA
    let mut processor = load(&[0xA0, 0x00, 0xA9, 0x01, 0x98]);
    steps(&mut processor, 3);
    assert_eq!(processor.registers().a, 0x00);
    assert_eq!(processor.registers().p, UNUSED | ZERO);
    // TSX
    let mut processor = load(&[0xBA]);
    processor.process_next_instruction().unwrap();
    assert_eq!(processor.registers().x, 0xFD);
    assert_eq!(processor.registers().p, UNUSED | NEGATIVE);
}

#[test]
fn txs_leaves_the_flags() {
    // LDX #$00; LDA #$01; TXS
    let mut processor = load(&[0xA2, 0x00, 0xA9, 0x01, 0x9A]);
    steps(&mut processor, 2);
    let before = processor.registers();
    processor.process_next_instruction().unwrap();
    assert_eq!(processor.registers(), Registers { s: 0x00, pc: 0x1005, ..before });
    // LDX #$80; LDA #$00; TXS
    let mut processor = load(&[0xA2, 0x80, 0xA9, 0x00, 0x9A]);
    steps(&mut processor, 3);
    assert_eq!(processor.registers().s, 0x80);
    assert_eq!(processor.registers().p, UNUSED | ZERO);
}

#[test]
fn stores_write_the_registers() {
    // LDA #$11; LDX #$22; LDY #$33; STA $2000; STX $2001; STY $2002
    let mut processor = load(&[
        0xA9, 0x11, 0xA2, 0x22, 0xA0, 0x33, 0x8D, 0x00, 0x20, 0x8E, 0x01, 0x20, 0x8C, 0x02, 0x20,
    ]);
    steps(&mut processor, 3);
    let before = processor.registers();
    steps(&mut processor, 3);
    assert_eq!(processor.memory.read_bytes(0x2000, 3), vec![0x11, 0x22, 0x33]);
    assert_eq!(processor.registers(), Registers { pc: 0x100F, ..before });
}

#[test]
fn flag_instructions() {
    // SEC; SED; SEI; CLC; CLD; CLI
    let mut processor = load(&[0x38, 0xF8, 0x78, 0x18, 0xD8, 0x58]);
    steps(&mut processor, 3);
    assert_eq!(processor.registers().p, UNUSED | CARRY | DECIMAL | INTERRUPT_DISABLE);
    processor.process_next_instruction().unwrap();
    assert_eq!(processor.registers().p, UNUSED | DECIMAL | INTERRUPT_DISABLE);
    processor.process_next_instruction().unwrap();
    assert_eq!(processor.registers().p, UNUSED | INTERRUPT_DISABLE);
    processor.process_next_instruction().unwrap();
    assert_eq!(processor.registers().p, UNUSED);
    // LDA #$50; ADC #$50; CLV
    let mut processor = load(&[0xA9, 0x50, 0x69, 0x50, 0xB8]);
    steps(&mut processor, 3);
    assert_eq!(processor.registers().p, UNUSED | NEGATIVE);
}

#[test]
fn nop_only_moves_the_program_counter() {
    let mut processor = load(&[0xEA]);
    let before = processor.registers();
    processor.process_next_instruction().unwrap();
    assert_eq!(processor.registers(), Registers { pc: 0x1001, ..before });
}

#[test]
fn php_pushes_break_and_unused() {
    // SEC; PHP
    let mut processor = load(&[0x38, 0x08]);
    steps(&mut processor, 2);
    assert_eq!(processor.memory.read_byte(0x01FD), UNUSED | BREAK | CARRY);
    assert_eq!(processor.registers().s, 0xFC);
    assert_eq!(processor.registers().p, UNUSED | CARRY);
}

#[test]
fn plp_ignores_break_and_unused() {
    // LDA #$FF; PHA; PLP
    let mut processor = load(&[0xA9, 0xFF, 0x48, 0x28]);
    steps(&mut processor, 3);
    assert_eq!(processor.registers().p, 0xFF & !BREAK);
    assert_eq!(processor.registers().s, 0xFD);
    // LDA #$00; PHA; SEC; PLP
    let mut processor = load(&[0xA9, 0x00, 0x48, 0x38, 0x28]);
    steps(&mut processor, 4);
    assert_eq!(processor.registers().p, UNUSED);
}

#[test]
fn pha_and_pla() {
    // LDA #$80; PHA; LDA #$00; PLA
    let mut processor = load(&[0xA9, 0x80, 0x48, 0xA9, 0x00, 0x68]);
    steps(&mut processor, 3);
    assert_eq!(processor.memory.read_byte(0x01FD), 0x80);
    assert_eq!(processor.registers().p, UNUSED | ZERO);
    processor.process_next_instruction().unwrap();
    assert_eq!(processor.registers().a, 0x80);
    assert_eq!(processor.registers().p, UNUSED | NEGATIVE);
    assert_eq!(processor.registers().s, 0xFD);
}

#[test]
fn brk_pushes_and_jumps_through_the_vector() {
    // SEC; BRK
    let mut processor = load(&[0x38, 0x00]);
    processor.memory.write_bytes(0xFFFE, &[0x00, 0x30]);
    steps(&mut processor, 2);
    let registers = processor.registers();
    assert_eq!(registers.pc, 0x3000);
    assert_eq!(registers.s, 0xFA);
    assert_eq!(registers.p, UNUSED | CARRY | INTERRUPT_DISABLE);
    // the address after the byte that follows BRK: 0x1003
    assert_eq!(processor.memory.read_byte(0x01FD), 0x10);
    assert_eq!(processor.memory.read_byte(0x01FC), 0x03);
    assert_eq!(processor.memory.read_byte(0x01FB), UNUSED | BREAK | CARRY);
}

#[test]
fn rti_returns_from_brk() {
    // at 0x1000: SEC; BRK; (skipped byte); NOP. At 0x3000: CLC; RTI
    let mut processor = load(&[0x38, 0x00, 0xFF, 0xEA]);
    processor.memory.write_bytes(0xFFFE, &[0x00, 0x30]);
    processor.memory.write_bytes(0x3000, &[0x18, 0x40]);
    steps(&mut processor, 3);
    assert_eq!(processor.registers().p, UNUSED | INTERRUPT_DISABLE);
    processor.process_next_instruction().unwrap();
    let registers = processor.registers();
    assert_eq!(registers.pc, 0x1003);
    assert_eq!(registers.s, 0xFD);
    assert_eq!(registers.p, UNUSED | CARRY);
}

#[test]
fn unused_bit_stays_set() {
    // LDA #$00; PHA; PLP; PHP; PLA; BRK and RTI from 0x3000
    let mut processor = load(&[0xA9, 0x00, 0x48, 0x28, 0x08, 0x68, 0x00]);
    processor.memory.write_bytes(0xFFFE, &[0x00, 0x30]);
    processor.memory.write_byte(0x3000, 0x40);
    for _ in 0..7 {
        processor.process_next_instruction().unwrap();
        assert_ne!(processor.registers().p & UNUSED, 0);
    }
}

#[test]
fn add_to_pc_wraps() {
    let mut processor = load(&[]);
    processor.add_to_pc(5);
    assert_eq!(processor.registers().pc, 0x1005);
    processor.add_to_pc(-6);
    assert_eq!(processor.registers().pc, 0x0FFF);
    processor.add_to_pc(-128);
    assert_eq!(processor.registers().pc, 0x0F7F);
    processor.add_to_pc(127);
    assert_eq!(processor.registers().pc, 0x0FFE);
    let mut memory = Memory::new();
    memory.write_bytes(0xFFFC, &[0xFF, 0xFF]);
    let mut processor = Processor::from_reset_vector(memory);
    processor.add_to_pc(2);
    assert_eq!(processor.registers().pc, 0x0001);
    processor.add_to_pc(-3);
    assert_eq!(processor.registers().pc, 0xFFFE);
}

#[test]
fn take_byte_moves_the_program_counter() {
    let mut processor = load(&[0x12, 0x34]);
    assert_eq!(processor.peek_byte_at_pc(), 0x12);
    assert_eq!(processor.registers().pc, 0x1000);
    assert_eq!(processor.take_byte_at_pc(), 0x12);
    assert_eq!(processor.registers().pc, 0x1001);
    assert_eq!(processor.take_byte_at_pc(), 0x34);
    assert_eq!(processor.registers().pc, 0x1002);
}

#[test]
fn program_counter_wraps_at_the_top_of_memory() {
    // LDA #$33 with the opcode in the last byte of memory
    let mut memory = Memory::new();
    memory.write_bytes(0xFFFF, &[0xA9, 0x33]);
    memory.write_bytes(0xFFFC, &[0xFF, 0xFF]);
    let mut processor = Processor::from_reset_vector(memory);
    processor.process_next_instruction().unwrap();
    assert_eq!(processor.registers().a, 0x33);
    assert_eq!(processor.registers().pc, 0x0001);
}

#[test]
fn update_zero_and_negative() {
    let mut processor = load(&[]);
    processor.update_zero_and_negative_flags(0);
    assert_eq!(processor.registers().p, UNUSED | ZERO);
    processor.update_zero_and_negative_flags(0x80);
    assert_eq!(processor.registers().p, UNUSED | NEGATIVE);
    processor.update_zero_and_negative_flags(0x7F);
    assert_eq!(processor.registers().p, UNUSED);
}

#[test]
fn memory_is_read_and_written_through_the_processor() {
    let mut processor = load(&[0xA9, 0x01]);
    assert_eq!(processor.read_memory(0x1000), 0xA9);
    assert_eq!(processor.read_memory(0x1001), 0x01);
    assert_eq!(processor.read_memory(0x2000), 0x00);
    let before = processor.registers();
    processor.write_memory(0x2000, 0x5A);
    assert_eq!(processor.read_memory(0x2000), 0x5A);
    assert_eq!(processor.read_memory(0x1FFF), 0x00);
    assert_eq!(processor.read_memory(0x2001), 0x00);
    assert_eq!(processor.memory.read_byte(0x2000), 0x5A);
    assert_eq!(processor.registers(), before);
    // what is written is what the next instruction sees: LDA #$01 becomes LDA #$77
    processor.write_memory(0x1001, 0x77);
    processor.process_next_instruction().unwrap();
    assert_eq!(processor.registers().a, 0x77);
}

#[test]
fn memory_is_loaded_through_the_processor() {
    let mut processor = Processor::new(Memory::new());
    let before = processor.registers();
    // LDX #$05; loop: DEX; BNE loop; BRK
    processor.load_memory(0x1000, &[0xA2, 0x05, 0xCA, 0xD0, 0xFD, 0x00]);
    assert_eq!(processor.registers(), before);
    assert_eq!(processor.memory.read_bytes(0x0FFF, 8), vec![0, 0xA2, 0x05, 0xCA, 0xD0, 0xFD, 0, 0]);
    run_to_break(&mut processor);
    assert_eq!(processor.registers().x, 0);
    // past the top of memory the load goes on at address 0
    processor.load_memory(0xFFFF, &[0x11, 0x22, 0x33]);
    assert_eq!(processor.read_memory(0xFFFF), 0x11);
    assert_eq!(processor.read_memory(0x0000), 0x22);
    assert_eq!(processor.read_memory(0x0001), 0x33);
    assert_eq!(processor.read_memory(0x0002), 0x00);
    assert_eq!(processor.read_memory(0xFFFE), 0x00);
}
