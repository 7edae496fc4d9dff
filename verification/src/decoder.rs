use crate::addressing::{addressing_mode_of, AddressingMode};
use crate::instructions::{
    instruction_of, lemma_single_byte_of_opcode, single_byte_of, ConditionalBranchInstruction,
    DecodeError, Group1Instruction, Group2Instruction, Group3Instruction, Instruction,
    SingleByteInstruction, SpecialCase,
};
use vstd::prelude::*;

verus! {

/// An entry of the table for an instruction of the first group.
pub open spec fn one(instruction: Group1Instruction, mode: AddressingMode) -> Option<
    (Instruction, AddressingMode),
> {
    Some((Instruction::GroupOne(instruction), mode))
}

/// An entry of the table for an instruction of the second group.
pub open spec fn two(instruction: Group2Instruction, mode: AddressingMode) -> Option<
    (Instruction, AddressingMode),
> {
    Some((Instruction::GroupTwo(instruction), mode))
}

/// An entry of the table for an instruction of the third group.
pub open spec fn three(instruction: Group3Instruction, mode: AddressingMode) -> Option<
    (Instruction, AddressingMode),
> {
    Some((Instruction::GroupThree(instruction), mode))
}

/// An entry of the table for a branch: its operand is a relative address.
pub open spec fn branch(instruction: ConditionalBranchInstruction) -> Option<
    (Instruction, AddressingMode),
> {
    Some((Instruction::ConditionalBranch(instruction), AddressingMode::Relative))
}

/// An entry of the table for an instruction without an operand.
pub open spec fn single(instruction: SingleByteInstruction) -> Option<
    (Instruction, AddressingMode),
> {
    Some((Instruction::SingleByte(instruction), AddressingMode::Implicit))
}

/// The entry of the table for the subroutine call: its operand is an
/// absolute address.
pub open spec fn special(instruction: SpecialCase) -> Option<(Instruction, AddressingMode)> {
    Some((Instruction::SpecialCase(instruction), AddressingMode::Absolute))
}

/// The instruction set as a table: each of the 151 opcodes of the processor
/// with its instruction and addressing mode. No other byte is an opcode.
pub open spec fn decode_table(opcode: u8) -> Option<(Instruction, AddressingMode)> {
    match opcode {
        0x00 => single(SingleByteInstruction::BRK),
        0x01 => one(Group1Instruction::ORA, AddressingMode::IndirectX),
        0x05 => one(Group1Instruction::ORA, AddressingMode::ZeroPage),
        0x06 => two(Group2Instruction::ASL, AddressingMode::ZeroPage),
        0x08 => single(SingleByteInstruction::PHP),
        0x09 => one(Group1Instruction::ORA, AddressingMode::Immediate),
        0x0A => two(Group2Instruction::ASL, AddressingMode::Accumulator),
        0x0D => one(Group1Instruction::ORA, AddressingMode::Absolute),
        0x0E => two(Group2Instruction::ASL, AddressingMode::Absolute),
        0x10 => branch(ConditionalBranchInstruction::BPL),
        0x11 => one(Group1Instruction::ORA, AddressingMode::IndirectY),
        0x15 => one(Group1Instruction::ORA, AddressingMode::ZeroPageX),
        0x16 => two(Group2Instruction::ASL, AddressingMode::ZeroPageX),
        0x18 => single(SingleByteInstruction::CLC),
        0x19 => one(Group1Instruction::ORA, AddressingMode::AbsoluteY),
        0x1D => one(Group1Instruction::ORA, AddressingMode::AbsoluteX),
        0x1E => two(Group2Instruction::ASL, AddressingMode::AbsoluteX),
        0x20 => special(SpecialCase::JSRABS),
        0x21 => one(Group1Instruction::AND, AddressingMode::IndirectX),
        0x24 => three(Group3Instruction::BIT, AddressingMode::ZeroPage),
        0x25 => one(Group1Instruction::AND, AddressingMode::ZeroPage),
        0x26 => two(Group2Instruction::ROL, AddressingMode::ZeroPage),
        0x28 => single(SingleByteInstruction::PLP),
        0x29 => one(Group1Instruction::AND, AddressingMode::Immediate),
        0x2A => two(Group2Instruction::ROL, AddressingMode::Accumulator),
        0x2C => three(Group3Instruction::BIT, AddressingMode::Absolute),
        0x2D => one(Group1Instruction::AND, AddressingMode::Absolute),
        0x2E => two(Group2Instruction::ROL, AddressingMode::Absolute),
        0x30 => branch(ConditionalBranchInstruction::BMI),
        0x31 => one(Group1Instruction::AND, AddressingMode::IndirectY),
        0x35 => one(Group1Instruction::AND, AddressingMode::ZeroPageX),
        0x36 => two(Group2Instruction::ROL, AddressingMode::ZeroPageX),
        0x38 => single(SingleByteInstruction::SEC),
        0x39 => one(Group1Instruction::AND, AddressingMode::AbsoluteY),
        0x3D => one(Group1Instruction::AND, AddressingMode::AbsoluteX),
        0x3E => two(Group2Instruction::ROL, AddressingMode::AbsoluteX),
        0x40 => single(SingleByteInstruction::RTI),
        0x41 => one(Group1Instruction::EOR, AddressingMode::IndirectX),
        0x45 => one(Group1Instruction::EOR, AddressingMode::ZeroPage),
        0x46 => two(Group2Instruction::LSR, AddressingMode::ZeroPage),
        0x48 => single(SingleByteInstruction::PHA),
        0x49 => one(Group1Instruction::EOR, AddressingMode::Immediate),
        0x4A => two(Group2Instruction::LSR, AddressingMode::Accumulator),
        0x4C => three(Group3Instruction::JMP, AddressingMode::Absolute),
        0x4D => one(Group1Instruction::EOR, AddressingMode::Absolute),
        0x4E => two(Group2Instruction::LSR, AddressingMode::Absolute),
        0x50 => branch(ConditionalBranchInstruction::BVC),
        0x51 => one(Group1Instruction::EOR, AddressingMode::IndirectY),
        0x55 => one(Group1Instruction::EOR, AddressingMode::ZeroPageX),
        0x56 => two(Group2Instruction::LSR, AddressingMode::ZeroPageX),
        0x58 => single(SingleByteInstruction::CLI),
        0x59 => one(Group1Instruction::EOR, AddressingMode::AbsoluteY),
        0x5D => one(Group1Instruction::EOR, AddressingMode::AbsoluteX),
        0x5E => two(Group2Instruction::LSR, AddressingMode::AbsoluteX),
        0x60 => single(SingleByteInstruction::RTS),
        0x61 => one(Group1Instruction::ADC, AddressingMode::IndirectX),
        0x65 => one(Group1Instruction::ADC, AddressingMode::ZeroPage),
        0x66 => two(Group2Instruction::ROR, AddressingMode::ZeroPage),
        0x68 => single(SingleByteInstruction::PLA),
        0x69 => one(Group1Instruction::ADC, AddressingMode::Immediate),
        0x6A => two(Group2Instruction::ROR, AddressingMode::Accumulator),
        0x6C => three(Group3Instruction::JMPIND, AddressingMode::Indirect),
        0x6D => one(Group1Instruction::ADC, AddressingMode::Absolute),
        0x6E => two(Group2Instruction::ROR, AddressingMode::Absolute),
        0x70 => branch(ConditionalBranchInstruction::BVS),
        0x71 => one(Group1Instruction::ADC, AddressingMode::IndirectY),
        0x75 => one(Group1Instruction::ADC, AddressingMode::ZeroPageX),
        0x76 => two(Group2Instruction::ROR, AddressingMode::ZeroPageX),
        0x78 => single(SingleByteInstruction::SEI),
        0x79 => one(Group1Instruction::ADC, AddressingMode::AbsoluteY),
        0x7D => one(Group1Instruction::ADC, AddressingMode::AbsoluteX),
        0x7E => two(Group2Instruction::ROR, AddressingMode::AbsoluteX),
        0x81 => one(Group1Instruction::STA, AddressingMode::IndirectX),
        0x84 => three(Group3Instruction::STY, AddressingMode::ZeroPage),
        0x85 => one(Group1Instruction::STA, AddressingMode::ZeroPage),
        0x86 => two(Group2Instruction::STX, AddressingMode::ZeroPage),
        0x88 => single(SingleByteInstruction::DEY),
        0x8A => single(SingleByteInstruction::TXA),
        0x8C => three(Group3Instruction::STY, AddressingMode::Absolute),
        0x8D => one(Group1Instruction::STA, AddressingMode::Absolute),
        0x8E => two(Group2Instruction::STX, AddressingMode::Absolute),
        0x90 => branch(ConditionalBranchInstruction::BCC),
        0x91 => one(Group1Instruction::STA, AddressingMode::IndirectY),
        0x94 => three(Group3Instruction::STY, AddressingMode::ZeroPageX),
        0x95 => one(Group1Instruction::STA, AddressingMode::ZeroPageX),
        0x96 => two(Group2Instruction::STX, AddressingMode::ZeroPageY),
        0x98 => single(SingleByteInstruction::TYA),
        0x99 => one(Group1Instruction::STA, AddressingMode::AbsoluteY),
        0x9A => single(SingleByteInstruction::TXS),
        0x9D => one(Group1Instruction::STA, AddressingMode::AbsoluteX),
        0xA0 => three(Group3Instruction::LDY, AddressingMode::Immediate),
        0xA1 => one(Group1Instruction::LDA, AddressingMode::IndirectX),
        0xA2 => two(Group2Instruction::LDX, AddressingMode::Immediate),
        0xA4 => three(Group3Instruction::LDY, AddressingMode::ZeroPage),
        0xA5 => one(Group1Instruction::LDA, AddressingMode::ZeroPage),
        0xA6 => two(Group2Instruction::LDX, AddressingMode::ZeroPage),
        0xA8 => single(SingleByteInstruction::TAY),
        0xA9 => one(Group1Instruction::LDA, AddressingMode::Immediate),
        0xAA => single(SingleByteInstruction::TAX),
        0xAC => three(Group3Instruction::LDY, AddressingMode::Absolute),
        0xAD => one(Group1Instruction::LDA, AddressingMode::Absolute),
        0xAE => two(Group2Instruction::LDX, AddressingMode::Absolute),
        0xB0 => branch(ConditionalBranchInstruction::BCS),
        0xB1 => one(Group1Instruction::LDA, AddressingMode::IndirectY),
        0xB4 => three(Group3Instruction::LDY, AddressingMode::ZeroPageX),
        0xB5 => one(Group1Instruction::LDA, AddressingMode::ZeroPageX),
        0xB6 => two(Group2Instruction::LDX, AddressingMode::ZeroPageY),
        0xB8 => single(SingleByteInstruction::CLV),
        0xB9 => one(Group1Instruction::LDA, AddressingMode::AbsoluteY),
        0xBA => single(SingleByteInstruction::TSX),
        0xBC => three(Group3Instruction::LDY, AddressingMode::AbsoluteX),
        0xBD => one(Group1Instruction::LDA, AddressingMode::AbsoluteX),
        0xBE => two(Group2Instruction::LDX, AddressingMode::AbsoluteY),
        0xC0 => three(Group3Instruction::CPY, AddressingMode::Immediate),
        0xC1 => one(Group1Instruction::CMP, AddressingMode::IndirectX),
        0xC4 => three(Group3Instruction::CPY, AddressingMode::ZeroPage),
        0xC5 => one(Group1Instruction::CMP, AddressingMode::ZeroPage),
        0xC6 => two(Group2Instruction::DEC, AddressingMode::ZeroPage),
        0xC8 => single(SingleByteInstruction::INY),
        0xC9 => one(Group1Instruction::CMP, AddressingMode::Immediate),
        0xCA => single(SingleByteInstruction::DEX),
        0xCC => three(Group3Instruction::CPY, AddressingMode::Absolute),
        0xCD => one(Group1Instruction::CMP, AddressingMode::Absolute),
        0xCE => two(Group2Instruction::DEC, AddressingMode::Absolute),
        0xD0 => branch(ConditionalBranchInstruction::BNE),
        0xD1 => one(Group1Instruction::CMP, AddressingMode::IndirectY),
        0xD5 => one(Group1Instruction::CMP, AddressingMode::ZeroPageX),
        0xD6 => two(Group2Instruction::DEC, AddressingMode::ZeroPageX),
        0xD8 => single(SingleByteInstruction::CLD),
        0xD9 => one(Group1Instruction::CMP, AddressingMode::AbsoluteY),
        0xDD => one(Group1Instruction::CMP, AddressingMode::AbsoluteX),
        0xDE => two(Group2Instruction::DEC, AddressingMode::AbsoluteX),
        0xE0 => three(Group3Instruction::CPX, AddressingMode::Immediate),
        0xE1 => one(Group1Instruction::SBC, AddressingMode::IndirectX),
        0xE4 => three(Group3Instruction::CPX, AddressingMode::ZeroPage),
        0xE5 => one(Group1Instruction::SBC, AddressingMode::ZeroPage),
        0xE6 => two(Group2Instruction::INC, AddressingMode::ZeroPage),
        0xE8 => single(SingleByteInstruction::INX),
        0xE9 => one(Group1Instruction::SBC, AddressingMode::Immediate),
        0xEA => single(SingleByteInstruction::NOP),
        0xEC => three(Group3Instruction::CPX, AddressingMode::Absolute),
        0xED => one(Group1Instruction::SBC, AddressingMode::Absolute),
        0xEE => two(Group2Instruction::INC, AddressingMode::Absolute),
        0xF0 => branch(ConditionalBranchInstruction::BEQ),
        0xF1 => one(Group1Instruction::SBC, AddressingMode::IndirectY),
        0xF5 => one(Group1Instruction::SBC, AddressingMode::ZeroPageX),
        0xF6 => two(Group2Instruction::INC, AddressingMode::ZeroPageX),
        0xF8 => single(SingleByteInstruction::SED),
        0xF9 => one(Group1Instruction::SBC, AddressingMode::AbsoluteY),
        0xFD => one(Group1Instruction::SBC, AddressingMode::AbsoluteX),
        0xFE => two(Group2Instruction::INC, AddressingMode::AbsoluteX),
        _ => None,
    }
}

/// What the fields of an opcode give: the instruction that it names, in the
/// addressing mode that the instruction has there.
pub open spec fn decode_fields(opcode: u8) -> Option<(Instruction, AddressingMode)> {
    match instruction_of(opcode) {
        Some(instruction) => match addressing_mode_of(opcode, instruction) {
            Some(mode) => Some((instruction, mode)),
            None => None,
        },
        None => None,
    }
}

/// Whether `opcode` is in the table, as a number to be added up.
#[verifier::opaque]
pub open spec fn counts(opcode: int) -> nat {
    if decode_table(opcode as u8) is Some {
        1
    } else {
        0
    }
}

/// The number of opcodes among the sixteen bytes from `row` upwards.
pub open spec fn opcodes_below_in_row(row: int) -> nat {
    counts(row + 0) + counts(row + 1) + counts(row + 2) + counts(row + 3) + counts(row + 4)
        + counts(row + 5) + counts(row + 6) + counts(row + 7) + counts(row + 8) + counts(row + 9)
        + counts(row + 10) + counts(row + 11) + counts(row + 12) + counts(row + 13) + counts(
        row + 14,
    ) + counts(row + 15)
}

/// The number of opcodes below `bound`.
pub open spec fn opcodes_below(bound: nat) -> nat
    decreases bound,
{
    if bound == 0 {
        0
    } else {
        opcodes_below((bound - 1) as nat) + counts(bound - 1)
    }
}

/// The table holds each single-byte instruction at its own opcode, and no
/// single-byte instruction anywhere else.
proof fn lemma_single_bytes_in_table(opcode: u8)
    ensures
        single_byte_of(opcode) == match decode_table(opcode) {
            Some((Instruction::SingleByte(instruction), _)) => Some(instruction),
            _ => None,
        },
{
    match decode_table(opcode) {
        Some((Instruction::SingleByte(instruction), _)) => {
            assert(instruction.opcode() == opcode);
            lemma_single_byte_of_opcode(instruction);
        },
        _ => {
            assert forall|i: SingleByteInstruction| #[trigger] i.opcode() != opcode by {}
        },
    }
}

/// Decoding by the fields of the opcode gives the table, entry for entry.
#[verifier::rlimit(40)]
pub proof fn lemma_fields_give_table(opcode: u8)
    ensures
        decode_fields(opcode) == decode_table(opcode),
{
    lemma_single_bytes_in_table(opcode);
    if opcode < 16 {
        assert(decode_fields(opcode) == decode_table(opcode));
    } else if opcode < 32 {
        assert(decode_fields(opcode) == decode_table(opcode));
    } else if opcode < 48 {
        assert(decode_fields(opcode) == decode_table(opcode));
    } else if opcode < 64 {
        assert(decode_fields(opcode) == decode_table(opcode));
    } else if opcode < 80 {
        assert(decode_fields(opcode) == decode_table(opcode));
    } else if opcode < 96 {
        assert(decode_fields(opcode) == decode_table(opcode));
    } else if opcode < 112 {
        assert(decode_fields(opcode) == decode_table(opcode));
    } else if opcode < 128 {
        assert(decode_fields(opcode) == decode_table(opcode));
    } else if opcode < 144 {
        assert(decode_fields(opcode) == decode_table(opcode));
    } else if opcode < 160 {
        assert(decode_fields(opcode) == decode_table(opcode));
    } else if opcode < 176 {
        assert(decode_fields(opcode) == decode_table(opcode));
    } else if opcode < 192 {
        assert(decode_fields(opcode) == decode_table(opcode));
    } else if opcode < 208 {
        assert(decode_fields(opcode) == decode_table(opcode));
    } else if opcode < 224 {
        assert(decode_fields(opcode) == decode_table(opcode));
    } else if opcode < 240 {
        assert(decode_fields(opcode) == decode_table(opcode));
    } else {
        assert(decode_fields(opcode) == decode_table(opcode));
    }
}

/// The two halves of decoding answer by the table as well: an instruction
/// for exactly the opcodes of the table, and a mode for exactly the pairs
/// of an opcode and its own instruction.
pub proof fn lemma_halves_give_table(opcode: u8, instruction: Instruction)
    ensures
        instruction_of(opcode) == match decode_table(opcode) {
            Some((named, _)) => Some(named),
            None => None,
        },
        addressing_mode_of(opcode, instruction) == match decode_table(opcode) {
            Some((named, mode)) => if named == instruction {
                Some(mode)
            } else {
                None
            },
            None => None,
        },
{
    lemma_fields_give_table(opcode);
}

/// Sixteen opcodes at a time: the count below `row + 16` from that below `row`.
proof fn lemma_count_row(row: nat)
    ensures
        opcodes_below(row + 16) == opcodes_below(row) + opcodes_below_in_row(row as int),
{
    reveal_with_fuel(opcodes_below, 17);
}

/// The table holds 151 opcodes.
#[verifier::rlimit(40)]
pub proof fn lemma_opcode_count()
    ensures
        opcodes_below(256) == 151,
{
    assert(opcodes_below(16) == 9) by {
        lemma_count_row(0);
        reveal(counts);
    }
    assert(opcodes_below(32) == 17) by {
        lemma_count_row(16);
        reveal(counts);
    }
    assert(opcodes_below(48) == 28) by {
        lemma_count_row(32);
        reveal(counts);
    }
    assert(opcodes_below(64) == 36) by {
        lemma_count_row(48);
        reveal(counts);
    }
    assert(opcodes_below(80) == 46) by {
        lemma_count_row(64);
        reveal(counts);
    }
    assert(opcodes_below(96) == 54) by {
        lemma_count_row(80);
        reveal(counts);
    }
    assert(opcodes_below(112) == 64) by {
        lemma_count_row(96);
        reveal(counts);
    }
    assert(opcodes_below(128) == 72) by {
        lemma_count_row(112);
        reveal(counts);
    }
    assert(opcodes_below(144) == 81) by {
        lemma_count_row(128);
        reveal(counts);
    }
    assert(opcodes_below(160) == 90) by {
        lemma_count_row(144);
        reveal(counts);
    }
    assert(opcodes_below(176) == 102) by {
        lemma_count_row(160);
        reveal(counts);
    }
    assert(opcodes_below(192) == 113) by {
        lemma_count_row(176);
        reveal(counts);
    }
    assert(opcodes_below(208) == 124) by {
        lemma_count_row(192);
        reveal(counts);
    }
    assert(opcodes_below(224) == 132) by {
        lemma_count_row(208);
        reveal(counts);
    }
    assert(opcodes_below(240) == 143) by {
        lemma_count_row(224);
        reveal(counts);
    }
    assert(opcodes_below(256) == 151) by {
        lemma_count_row(240);
        reveal(counts);
    }
}

/// Decodes an opcode into its instruction and addressing mode. The result
/// is a function of the opcode; it is `Ok` for exactly the opcodes of the
/// table.
pub fn decode(opcode: u8) -> (decoded: Result<(Instruction, AddressingMode), DecodeError>)
    ensures
        decoded == match decode_table(opcode) {
            Some(pair) => Ok::<(Instruction, AddressingMode), DecodeError>(pair),
            None => Err(DecodeError { opcode }),
        },
{
    proof {
        lemma_fields_give_table(opcode);
    }
    let instruction = match Instruction::try_from(opcode) {
        Ok(instruction) => instruction,
        Err(e) => {
            return Err(e);
        },
    };
    match AddressingMode::try_from((opcode, instruction)) {
        Ok(mode) => Ok((instruction, mode)),
        Err(e) => Err(e),
    }
}

} // verus!
