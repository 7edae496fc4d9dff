use crate::addressing::{column_mode, mode_in_column};
use vstd::prelude::*;
use vstd::std_specs::convert::TryFromSpecImpl;

verus! {

// Instructions are grouped as shown on https://llx.com/Neil/a2/opcodes.html
/// The instructions whose opcode ends in the bits `01`.
#[derive(Clone, Copy, Debug, PartialEq, Eq, Structural)]
pub enum Group1Instruction {
    ORA,
    AND,
    EOR,
    ADC,
    STA,
    LDA,
    CMP,
    SBC,
}

/// The instructions whose opcode ends in the bits `10`.
#[derive(Clone, Copy, Debug, PartialEq, Eq, Structural)]
pub enum Group2Instruction {
    ASL,
    ROL,
    LSR,
    ROR,
    STX,
    LDX,
    DEC,
    INC,
}

/// The instructions whose opcode ends in the bits `00`. `JMP` jumps to its
/// operand, `JMPIND` to the address that its operand points at.
#[derive(Clone, Copy, Debug, PartialEq, Eq, Structural)]
pub enum Group3Instruction {
    BIT,
    JMP,
    JMPIND,
    STY,
    LDY,
    CPY,
    CPX,
}

#[derive(Clone, Copy, Debug, PartialEq, Eq, Structural)]
pub enum ConditionalBranchInstruction {
    BPL,
    BMI,
    BVC,
    BVS,
    BCC,
    BCS,
    BNE,
    BEQ,
}

#[derive(Clone, Copy, Debug, PartialEq, Eq, Structural)]
pub enum SingleByteInstruction {
    // Interrupt and subroutine
    BRK,
    RTI,
    RTS,
    PHP,
    PLP,
    PHA,
    PLA,
    DEY,
    TAY,
    INY,
    INX,
    CLC,
    SEC,
    CLI,
    SEI,
    TYA,
    CLV,
    CLD,
    SED,
    TXA,
    TXS,
    TAX,
    TSX,
    DEX,
    NOP,
}

/// The only instruction with an absolute operand that fits none of the groups.
#[derive(Clone, Copy, Debug, PartialEq, Eq, Structural)]
pub enum SpecialCase {
    JSRABS,
}

#[derive(Clone, Copy, Debug, PartialEq, Eq, Structural)]
pub enum Instruction {
    GroupOne(Group1Instruction),
    GroupTwo(Group2Instruction),
    GroupThree(Group3Instruction),
    ConditionalBranch(ConditionalBranchInstruction),
    SingleByte(SingleByteInstruction),
    SpecialCase(SpecialCase),
}

/// An opcode byte that is no instruction of the processor.
#[derive(Clone, Copy, Debug, PartialEq, Eq, Structural)]
pub struct DecodeError {
    pub opcode: u8,
}

/// The two low bits of an opcode: they select the group.
pub open spec fn group_bits(opcode: u8) -> u8 {
    opcode % 4
}

/// The three middle bits of an opcode: they select the addressing mode.
pub open spec fn mode_bits(opcode: u8) -> u8 {
    (opcode / 4) % 8
}

/// The three high bits of an opcode: they select the instruction in its group.
pub open spec fn instruction_bits(opcode: u8) -> u8 {
    opcode / 32
}

/// The fields of an opcode as the masks and shifts of the decoder find them.
pub proof fn lemma_opcode_fields(opcode: u8)
    by (bit_vector)
    ensures
        opcode & 0b11 == opcode % 4,
        (opcode & 0b00011100) >> 2 == (opcode / 4) % 8,
        (opcode & 0b11100000) >> 5 == opcode / 32,
        opcode & 0b11111 == opcode % 32,
{
}

/// The conditional branches are the opcodes whose five low bits are `10000`;
/// the three high bits say which flag is tested and for which value.
pub open spec fn conditional_branch_of(opcode: u8) -> Option<ConditionalBranchInstruction> {
    if opcode % 32 != 16 {
        None
    } else if opcode / 32 == 0 {
        Some(ConditionalBranchInstruction::BPL)
    } else if opcode / 32 == 1 {
        Some(ConditionalBranchInstruction::BMI)
    } else if opcode / 32 == 2 {
        Some(ConditionalBranchInstruction::BVC)
    } else if opcode / 32 == 3 {
        Some(ConditionalBranchInstruction::BVS)
    } else if opcode / 32 == 4 {
        Some(ConditionalBranchInstruction::BCC)
    } else if opcode / 32 == 5 {
        Some(ConditionalBranchInstruction::BCS)
    } else if opcode / 32 == 6 {
        Some(ConditionalBranchInstruction::BNE)
    } else {
        Some(ConditionalBranchInstruction::BEQ)
    }
}

pub open spec fn special_case_of(opcode: u8) -> Option<SpecialCase> {
    if opcode == 0x20 {
        Some(SpecialCase::JSRABS)
    } else {
        None
    }
}

impl SingleByteInstruction {
    /// The opcode of each instruction that stands alone in its byte.
    pub open spec fn opcode(self) -> u8 {
        match self {
            SingleByteInstruction::BRK => 0x00,
            SingleByteInstruction::RTI => 0x40,
            SingleByteInstruction::RTS => 0x60,
            SingleByteInstruction::PHP => 0x08,
            SingleByteInstruction::PLP => 0x28,
            SingleByteInstruction::PHA => 0x48,
            SingleByteInstruction::PLA => 0x68,
            SingleByteInstruction::DEY => 0x88,
            SingleByteInstruction::TAY => 0xA8,
            SingleByteInstruction::INY => 0xC8,
            SingleByteInstruction::INX => 0xE8,
            SingleByteInstruction::CLC => 0x18,
            SingleByteInstruction::SEC => 0x38,
            SingleByteInstruction::CLI => 0x58,
            SingleByteInstruction::SEI => 0x78,
            SingleByteInstruction::TYA => 0x98,
            SingleByteInstruction::CLV => 0xB8,
            SingleByteInstruction::CLD => 0xD8,
            SingleByteInstruction::SED => 0xF8,
            SingleByteInstruction::TXA => 0x8A,
            SingleByteInstruction::TXS => 0x9A,
            SingleByteInstruction::TAX => 0xAA,
            SingleByteInstruction::TSX => 0xBA,
            SingleByteInstruction::DEX => 0xCA,
            SingleByteInstruction::NOP => 0xEA,
        }
    }
}

/// The single-byte instruction with this opcode, where there is one.
pub open spec fn single_byte_of(opcode: u8) -> Option<SingleByteInstruction> {
    if exists|i: SingleByteInstruction| #[trigger] i.opcode() == opcode {
        Some(choose|i: SingleByteInstruction| #[trigger] i.opcode() == opcode)
    } else {
        None
    }
}

/// No two single-byte instructions share an opcode, so an instruction is
/// found again from its own opcode.
pub proof fn lemma_single_byte_of_opcode(i: SingleByteInstruction)
    ensures
        single_byte_of(i.opcode()) == Some(i),
{
    let found = choose|j: SingleByteInstruction| #[trigger] j.opcode() == i.opcode();
    assert(found.opcode() == i.opcode());
}

/// What the opcode decodes to before the groups are tried: a branch, the
/// subroutine call, or an instruction that stands alone in its byte.
pub open spec fn ungrouped_of(opcode: u8) -> Option<Instruction> {
    if let Some(branch) = conditional_branch_of(opcode) {
        Some(Instruction::ConditionalBranch(branch))
    } else if let Some(special) = special_case_of(opcode) {
        Some(Instruction::SpecialCase(special))
    } else if let Some(single) = single_byte_of(opcode) {
        Some(Instruction::SingleByte(single))
    } else {
        None
    }
}

pub open spec fn group_one_of(bits: u8) -> Group1Instruction {
    if bits == 0 {
        Group1Instruction::ORA
    } else if bits == 1 {
        Group1Instruction::AND
    } else if bits == 2 {
        Group1Instruction::EOR
    } else if bits == 3 {
        Group1Instruction::ADC
    } else if bits == 4 {
        Group1Instruction::STA
    } else if bits == 5 {
        Group1Instruction::LDA
    } else if bits == 6 {
        Group1Instruction::CMP
    } else {
        Group1Instruction::SBC
    }
}

pub open spec fn group_two_of(bits: u8) -> Group2Instruction {
    if bits == 0 {
        Group2Instruction::ASL
    } else if bits == 1 {
        Group2Instruction::ROL
    } else if bits == 2 {
        Group2Instruction::LSR
    } else if bits == 3 {
        Group2Instruction::ROR
    } else if bits == 4 {
        Group2Instruction::STX
    } else if bits == 5 {
        Group2Instruction::LDX
    } else if bits == 6 {
        Group2Instruction::DEC
    } else {
        Group2Instruction::INC
    }
}

pub open spec fn group_three_of(bits: u8) -> Option<Group3Instruction> {
    if bits == 1 {
        Some(Group3Instruction::BIT)
    } else if bits == 2 {
        Some(Group3Instruction::JMP)
    } else if bits == 3 {
        Some(Group3Instruction::JMPIND)
    } else if bits == 4 {
        Some(Group3Instruction::STY)
    } else if bits == 5 {
        Some(Group3Instruction::LDY)
    } else if bits == 6 {
        Some(Group3Instruction::CPY)
    } else if bits == 7 {
        Some(Group3Instruction::CPX)
    } else {
        None
    }
}

/// The instruction that the fields of a byte name, whatever stands in the
/// middle bits: the ungrouped instructions first, then the group by the low
/// bits and the instruction in it by the high bits.
pub open spec fn named_by_fields(opcode: u8) -> Option<Instruction> {
    if ungrouped_of(opcode) is Some {
        ungrouped_of(opcode)
    } else if group_bits(opcode) == 1 {
        Some(Instruction::GroupOne(group_one_of(instruction_bits(opcode))))
    } else if group_bits(opcode) == 2 {
        Some(Instruction::GroupTwo(group_two_of(instruction_bits(opcode))))
    } else if group_bits(opcode) == 0 {
        match group_three_of(instruction_bits(opcode)) {
            Some(instruction) => Some(Instruction::GroupThree(instruction)),
            None => None,
        }
    } else {
        None
    }
}

/// The instruction of an opcode: the instruction that the fields of the byte
/// name, if it has the addressing mode that the middle bits ask for. A byte
/// whose fields name no instruction, or an instruction in a mode that it
/// does not have, is no opcode and has no instruction.
pub open spec fn instruction_of(opcode: u8) -> Option<Instruction> {
    match named_by_fields(opcode) {
        Some(instruction) => if column_mode(opcode, instruction) is Some {
            Some(instruction)
        } else {
            None
        },
        None => None,
    }
}

// Parse instructions that don't follow aaabbbcc rule
pub fn parse_conditional_branch_instruction(opcode: u8) -> (branch: Option<
    ConditionalBranchInstruction,
>)
    ensures
        branch == conditional_branch_of(opcode),
{
    proof {
        lemma_opcode_fields(opcode);
    }
    if opcode & 0b11111 == 0b10000 {
        let which: u8 = (opcode & 0b11100000) >> 5;
        Some(
            match which {
                0 => ConditionalBranchInstruction::BPL,
                1 => ConditionalBranchInstruction::BMI,
                2 => ConditionalBranchInstruction::BVC,
                3 => ConditionalBranchInstruction::BVS,
                4 => ConditionalBranchInstruction::BCC,
                5 => ConditionalBranchInstruction::BCS,
                6 => ConditionalBranchInstruction::BNE,
                _ => ConditionalBranchInstruction::BEQ,
            },
        )
    } else {
        None
    }
}

pub fn parse_special_case(opcode: u8) -> (special: Option<SpecialCase>)
    ensures
        special == special_case_of(opcode),
{
    if opcode == 0x20 {
        Some(SpecialCase::JSRABS)
    } else {
        None
    }
}

pub fn parse_other_single_byte_instruction(opcode: u8) -> (single: Option<SingleByteInstruction>)
    ensures
        single == single_byte_of(opcode),
{
    let single = match opcode {
        0x00 => Some(SingleByteInstruction::BRK),
        0x40 => Some(SingleByteInstruction::RTI),
        0x60 => Some(SingleByteInstruction::RTS),
        0x08 => Some(SingleByteInstruction::PHP),
        0x28 => Some(SingleByteInstruction::PLP),
        0x48 => Some(SingleByteInstruction::PHA),
        0x68 => Some(SingleByteInstruction::PLA),
        0x88 => Some(SingleByteInstruction::DEY),
        0xA8 => Some(SingleByteInstruction::TAY),
        0xC8 => Some(SingleByteInstruction::INY),
        0xE8 => Some(SingleByteInstruction::INX),
        0x18 => Some(SingleByteInstruction::CLC),
        0x38 => Some(SingleByteInstruction::SEC),
        0x58 => Some(SingleByteInstruction::CLI),
        0x78 => Some(SingleByteInstruction::SEI),
        0x98 => Some(SingleByteInstruction::TYA),
        0xB8 => Some(SingleByteInstruction::CLV),
        0xD8 => Some(SingleByteInstruction::CLD),
        0xF8 => Some(SingleByteInstruction::SED),
        0x8A => Some(SingleByteInstruction::TXA),
        0x9A => Some(SingleByteInstruction::TXS),
        0xAA => Some(SingleByteInstruction::TAX),
        0xBA => Some(SingleByteInstruction::TSX),
        0xCA => Some(SingleByteInstruction::DEX),
        0xEA => Some(SingleByteInstruction::NOP),
        _ => None,
    };
    proof {
        match single {
            Some(i) => {
                assert(i.opcode() == opcode);
                lemma_single_byte_of_opcode(i);
            },
            None => {
                assert forall|i: SingleByteInstruction| #[trigger] i.opcode() != opcode by {}
            },
        }
    }
    single
}

pub fn parse_single_byte_instruction(opcode: u8) -> (instruction: Option<Instruction>)
    ensures
        instruction == ungrouped_of(opcode),
{
    if let Some(conditional_branch) = parse_conditional_branch_instruction(opcode) {
        return Some(Instruction::ConditionalBranch(conditional_branch));
    }
    if let Some(special_case) = parse_special_case(opcode) {
        return Some(Instruction::SpecialCase(special_case));
    }
    // Check for other single byte instructions
    match parse_other_single_byte_instruction(opcode) {
        Some(single) => Some(Instruction::SingleByte(single)),
        None => None,
    }
}

/// The instruction that the fields of `opcode` name, whatever stands in the
/// middle bits.
fn name_by_fields(opcode: u8) -> (named: Option<Instruction>)
    ensures
        named == named_by_fields(opcode),
{
    if let Some(instruction) = parse_single_byte_instruction(opcode) {
        return Some(instruction);
    }
    proof {
        lemma_opcode_fields(opcode);
    }
    let cc: u8 = opcode & 0b11;
    let aaa: u8 = (opcode & 0b11100000) >> 5;
    match cc {
        // Group One
        0b01 => Some(
            Instruction::GroupOne(
                match aaa {
                    0b000 => Group1Instruction::ORA,
                    0b001 => Group1Instruction::AND,
                    0b010 => Group1Instruction::EOR,
                    0b011 => Group1Instruction::ADC,
                    0b100 => Group1Instruction::STA,
                    0b101 => Group1Instruction::LDA,
                    0b110 => Group1Instruction::CMP,
                    _ => Group1Instruction::SBC,
                },
            ),
        ),
        // Group Two
        0b10 => Some(
            Instruction::GroupTwo(
                match aaa {
                    0b000 => Group2Instruction::ASL,
                    0b001 => Group2Instruction::ROL,
                    0b010 => Group2Instruction::LSR,
                    0b011 => Group2Instruction::ROR,
                    0b100 => Group2Instruction::STX,
                    0b101 => Group2Instruction::LDX,
                    0b110 => Group2Instruction::DEC,
                    _ => Group2Instruction::INC,
                },
            ),
        ),
        // Group Three
        0b00 => match aaa {
            0b001 => Some(Instruction::GroupThree(Group3Instruction::BIT)),
            0b010 => Some(Instruction::GroupThree(Group3Instruction::JMP)),
            0b011 => Some(Instruction::GroupThree(Group3Instruction::JMPIND)),
            0b100 => Some(Instruction::GroupThree(Group3Instruction::STY)),
            0b101 => Some(Instruction::GroupThree(Group3Instruction::LDY)),
            0b110 => Some(Instruction::GroupThree(Group3Instruction::CPY)),
            0b111 => Some(Instruction::GroupThree(Group3Instruction::CPX)),
            _ => None,
        },
        _ => None,
    }
}

impl TryFrom<u8> for Instruction {
    type Error = DecodeError;

    /// The instruction of `opcode`, by `instruction_of`; a byte that is no
    /// opcode is handed back in the error.
    fn try_from(opcode: u8) -> (decoded: Result<Self, DecodeError>)
        ensures
            decoded == match instruction_of(opcode) {
                Some(instruction) => Ok::<Instruction, DecodeError>(instruction),
                None => Err(DecodeError { opcode }),
            },
    {
        match name_by_fields(opcode) {
            Some(instruction) => match mode_in_column(opcode, instruction) {
                Some(_) => Ok(instruction),
                // the instruction is named in a mode that it does not have
                None => Err(DecodeError { opcode }),
            },
            None => Err(DecodeError { opcode }),
        }
    }
}

impl TryFromSpecImpl<u8> for Instruction {
    open spec fn obeys_try_from_spec() -> bool {
        true
    }

    open spec fn try_from_spec(opcode: u8) -> Result<Self, DecodeError> {
        match instruction_of(opcode) {
            Some(instruction) => Ok(instruction),
            None => Err(DecodeError { opcode }),
        }
    }
}

} // verus!
