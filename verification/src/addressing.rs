use crate::instructions::{
    instruction_of, lemma_opcode_fields, mode_bits, DecodeError, Group1Instruction,
    Group2Instruction, Group3Instruction, Instruction,
};
use vstd::prelude::*;
use vstd::std_specs::convert::TryFromSpecImpl;

verus! {

#[derive(Clone, Copy, Debug, PartialEq, Eq, Structural)]
pub enum AddressingMode {
    Implicit,
    Accumulator,
    Immediate,
    ZeroPage,
    Absolute,
    Relative,
    Indirect,
    // More annoying modes
    ZeroPageX,
    ZeroPageY,
    AbsoluteX,
    AbsoluteY,
    IndirectX,
    IndirectY,
}

/// The column of addressing modes of the first group. Every instruction of
/// the group has every mode, but that nothing is stored into an immediate.
pub open spec fn group_one_mode(column: u8, instruction: Group1Instruction) -> Option<
    AddressingMode,
> {
    if column == 0 {
        Some(AddressingMode::IndirectX)
    } else if column == 1 {
        Some(AddressingMode::ZeroPage)
    } else if column == 2 {
        if instruction == Group1Instruction::STA {
            None
        } else {
            Some(AddressingMode::Immediate)
        }
    } else if column == 3 {
        Some(AddressingMode::Absolute)
    } else if column == 4 {
        Some(AddressingMode::IndirectY)
    } else if column == 5 {
        Some(AddressingMode::ZeroPageX)
    } else if column == 6 {
        Some(AddressingMode::AbsoluteY)
    } else {
        Some(AddressingMode::AbsoluteX)
    }
}

/// Whether the instruction moves the X register, and so indexes by Y.
pub open spec fn moves_x(instruction: Group2Instruction) -> bool {
    instruction == Group2Instruction::STX || instruction == Group2Instruction::LDX
}

/// Whether the instruction shifts or rotates, and so can work on the
/// accumulator.
pub open spec fn shifts(instruction: Group2Instruction) -> bool {
    instruction == Group2Instruction::ASL || instruction == Group2Instruction::ROL || instruction
        == Group2Instruction::LSR || instruction == Group2Instruction::ROR
}

/// The column of addressing modes of the second group. Only `LDX` takes an
/// immediate, only the shifts take the accumulator, `STX` and `LDX` index by
/// Y, and `STX` has no indexed absolute form.
pub open spec fn group_two_mode(column: u8, instruction: Group2Instruction) -> Option<
    AddressingMode,
> {
    if column == 0 {
        if instruction == Group2Instruction::LDX {
            Some(AddressingMode::Immediate)
        } else {
            None
        }
    } else if column == 1 {
        Some(AddressingMode::ZeroPage)
    } else if column == 2 {
        if shifts(instruction) {
            Some(AddressingMode::Accumulator)
        } else {
            None
        }
    } else if column == 3 {
        Some(AddressingMode::Absolute)
    } else if column == 5 {
        if moves_x(instruction) {
            Some(AddressingMode::ZeroPageY)
        } else {
            Some(AddressingMode::ZeroPageX)
        }
    } else if column == 7 {
        if instruction == Group2Instruction::LDX {
            Some(AddressingMode::AbsoluteY)
        } else if instruction == Group2Instruction::STX {
            None
        } else {
            Some(AddressingMode::AbsoluteX)
        }
    } else {
        None
    }
}

/// The column of addressing modes of the third group, and which of its
/// instructions have which: both jumps take a two-byte operand and nothing
/// else, only `LDY`, `CPY` and `CPX` take an immediate, only `STY` and `LDY`
/// index the zero page, and only `LDY` indexes an absolute address.
pub open spec fn group_three_mode(column: u8, instruction: Group3Instruction) -> Option<
    AddressingMode,
> {
    let jump = instruction == Group3Instruction::JMP || instruction == Group3Instruction::JMPIND;
    if column == 0 {
        if instruction == Group3Instruction::LDY || instruction == Group3Instruction::CPY
            || instruction == Group3Instruction::CPX {
            Some(AddressingMode::Immediate)
        } else {
            None
        }
    } else if column == 1 {
        if jump {
            None
        } else {
            Some(AddressingMode::ZeroPage)
        }
    } else if column == 3 {
        if instruction == Group3Instruction::JMPIND {
            Some(AddressingMode::Indirect)
        } else {
            Some(AddressingMode::Absolute)
        }
    } else if column == 5 {
        if instruction == Group3Instruction::STY || instruction == Group3Instruction::LDY {
            Some(AddressingMode::ZeroPageX)
        } else {
            None
        }
    } else if column == 7 {
        if instruction == Group3Instruction::LDY {
            Some(AddressingMode::AbsoluteX)
        } else {
            None
        }
    } else {
        None
    }
}

/// The addressing mode that the column of the instruction's group gives for
/// the middle bits of `opcode`, where the instruction has that mode. The
/// ungrouped instructions have one mode each.
pub open spec fn column_mode(opcode: u8, instruction: Instruction) -> Option<AddressingMode> {
    match instruction {
        Instruction::ConditionalBranch(_) => Some(AddressingMode::Relative),
        Instruction::SingleByte(_) => Some(AddressingMode::Implicit),
        Instruction::SpecialCase(_) => Some(AddressingMode::Absolute),
        Instruction::GroupOne(instruction) => group_one_mode(mode_bits(opcode), instruction),
        Instruction::GroupTwo(instruction) => group_two_mode(mode_bits(opcode), instruction),
        Instruction::GroupThree(instruction) => group_three_mode(mode_bits(opcode), instruction),
    }
}

/// The addressing mode of `instruction` when it is met in `opcode`. There is
/// none unless `instruction` is the instruction of `opcode`: a byte that is
/// no opcode, or the opcode of another instruction, gives no mode. Where it
/// is, the mode is that of the column.
pub open spec fn addressing_mode_of(opcode: u8, instruction: Instruction) -> Option<
    AddressingMode,
> {
    if instruction_of(opcode) == Some(instruction) {
        column_mode(opcode, instruction)
    } else {
        None
    }
}

fn group_one_column(bbb: u8, instruction: Group1Instruction) -> (mode: Option<AddressingMode>)
    ensures
        mode == group_one_mode(bbb, instruction),
{
    match bbb {
        0b000 => Some(AddressingMode::IndirectX),
        0b001 => Some(AddressingMode::ZeroPage),
        0b010 => match instruction {
            Group1Instruction::STA => None,
            _ => Some(AddressingMode::Immediate),
        },
        0b011 => Some(AddressingMode::Absolute),
        0b100 => Some(AddressingMode::IndirectY),
        0b101 => Some(AddressingMode::ZeroPageX),
        0b110 => Some(AddressingMode::AbsoluteY),
        _ => Some(AddressingMode::AbsoluteX),
    }
}

fn group_two_column(bbb: u8, instruction: Group2Instruction) -> (mode: Option<AddressingMode>)
    ensures
        mode == group_two_mode(bbb, instruction),
{
    match bbb {
        0b000 => match instruction {
            Group2Instruction::LDX => Some(AddressingMode::Immediate),
            _ => None,
        },
        0b001 => Some(AddressingMode::ZeroPage),
        0b010 => match instruction {
            Group2Instruction::ASL
            | Group2Instruction::ROL
            | Group2Instruction::LSR
            | Group2Instruction::ROR => Some(AddressingMode::Accumulator),
            _ => None,
        },
        0b011 => Some(AddressingMode::Absolute),
        0b101 => match instruction {
            Group2Instruction::STX | Group2Instruction::LDX => Some(AddressingMode::ZeroPageY),
            _ => Some(AddressingMode::ZeroPageX),
        },
        0b111 => match instruction {
            Group2Instruction::LDX => Some(AddressingMode::AbsoluteY),
            Group2Instruction::STX => None,
            _ => Some(AddressingMode::AbsoluteX),
        },
        _ => None,
    }
}

fn group_three_column(bbb: u8, instruction: Group3Instruction) -> (mode: Option<AddressingMode>)
    ensures
        mode == group_three_mode(bbb, instruction),
{
    match instruction {
        Group3Instruction::BIT => match bbb {
            0b001 => Some(AddressingMode::ZeroPage),
            0b011 => Some(AddressingMode::Absolute),
            _ => None,
        },
        Group3Instruction::JMP => match bbb {
            0b011 => Some(AddressingMode::Absolute),
            _ => None,
        },
        Group3Instruction::JMPIND => match bbb {
            0b011 => Some(AddressingMode::Indirect),
            _ => None,
        },
        Group3Instruction::STY => match bbb {
            0b001 => Some(AddressingMode::ZeroPage),
            0b011 => Some(AddressingMode::Absolute),
            0b101 => Some(AddressingMode::ZeroPageX),
            _ => None,
        },
        Group3Instruction::LDY => match bbb {
            0b000 => Some(AddressingMode::Immediate),
            0b001 => Some(AddressingMode::ZeroPage),
            0b011 => Some(AddressingMode::Absolute),
            0b101 => Some(AddressingMode::ZeroPageX),
            0b111 => Some(AddressingMode::AbsoluteX),
            _ => None,
        },
        Group3Instruction::CPY | Group3Instruction::CPX => match bbb {
            0b000 => Some(AddressingMode::Immediate),
            0b001 => Some(AddressingMode::ZeroPage),
            0b011 => Some(AddressingMode::Absolute),
            _ => None,
        },
    }
}

/// The addressing mode that the column of the instruction's group gives for
/// the middle bits of `opcode`, where the instruction has that mode.
pub fn mode_in_column(opcode: u8, instruction: Instruction) -> (mode: Option<AddressingMode>)
    ensures
        mode == column_mode(opcode, instruction),
{
    proof {
        lemma_opcode_fields(opcode);
    }
    let bbb: u8 = (opcode & 0b00011100) >> 2;
    match instruction {
        // Handle special cases (instructions which cannot be handled entirely by group)
        Instruction::ConditionalBranch(_) => Some(AddressingMode::Relative),
        Instruction::SingleByte(_) => Some(AddressingMode::Implicit),
        Instruction::SpecialCase(_) => Some(AddressingMode::Absolute),
        Instruction::GroupOne(instruction) => group_one_column(bbb, instruction),
        Instruction::GroupTwo(instruction) => group_two_column(bbb, instruction),
        Instruction::GroupThree(instruction) => group_three_column(bbb, instruction),
    }
}

impl TryFrom<(u8, Instruction)> for AddressingMode {
    type Error = DecodeError;

    /// The addressing mode of `instruction` when it is met in `opcode`, by
    /// `addressing_mode_of`. Where `opcode` is no opcode of `instruction`
    /// it is handed back in the error.
    fn try_from(pair: (u8, Instruction)) -> (decoded: Result<Self, DecodeError>)
        ensures
            decoded == match addressing_mode_of(pair.0, pair.1) {
                Some(mode) => Ok::<AddressingMode, DecodeError>(mode),
                None => Err(DecodeError { opcode: pair.0 }),
            },
    {
        let (opcode, instruction) = pair;
        // Return an error if the byte is no opcode of this instruction
        match Instruction::try_from(opcode) {
            Ok(named) => {
                if named != instruction {
                    return Err(DecodeError { opcode });
                }
            },
            Err(e) => {
                return Err(e);
            },
        }
        match mode_in_column(opcode, instruction) {
            Some(mode) => Ok(mode),
            None => Err(DecodeError { opcode }),
        }
    }
}

impl TryFromSpecImpl<(u8, Instruction)> for AddressingMode {
    open spec fn obeys_try_from_spec() -> bool {
        true
    }

    open spec fn try_from_spec(pair: (u8, Instruction)) -> Result<Self, DecodeError> {
        match addressing_mode_of(pair.0, pair.1) {
            Some(mode) => Ok(mode),
            None => Err(DecodeError { opcode: pair.0 }),
        }
    }
}

} // verus!
