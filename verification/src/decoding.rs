//! The decoder: a pure function from a 32-bit instruction word to the
//! instruction model, or to a [`DecodeError`] naming the offending word.
//!
//! The binary encoding is stated once, as spec functions over the bit
//! fields of the word; each executable decoder is proved to return exactly
//! what the corresponding spec function says.  Field extraction is by
//! masking and shifting; overlapping encodings are disambiguated strictly
//! by the order of the class checks in [`spec_decode_data`].

use vstd::prelude::*;

use crate::instructions::{
    BranchLinkFlag, Condition, DataArguments, ImmediateDataArguments, Instruction,
    InstructionData, LargeImmediateArguments, LoadArguments, LoadDataSize,
    LoadStoreArguments, LoadStoreIndexingType, LoadStoreOffset, LoadStoreOffsetDirection,
    LoadStoreRegisterOffset, LoadStoreWriteBackFlag, ReadWriteDataArguments,
    ReadWriteImmediateDataArguments, ReadWriteRegisterDataArguments, Register,
    RegisterDataArguments, ShiftOperand, ShiftType, StoreArguments, StoreDataSize,
    UpdateStatusFlags, instruction_wf,
};

verus! {

/// A word that does not decode.  Each variant carries the offending word
/// for diagnostics.
#[derive(Clone, Copy, Debug, PartialEq, Eq, Structural)]
pub enum DecodeError {
    /// No instruction class matches the word.
    UnknownInstruction { word: u32 },
    /// The condition field holds the reserved pattern `0xF`.
    UnknownCondition { word: u32 },
    /// The data-processing opcode is not one of the supported operations.
    UnknownOpcode { word: u32 },
    /// The opcode of the extra data-processing space is not a half-word move.
    UnknownExtraOpcode { word: u32 },
    /// The size field of an extra load/store holds the reserved pattern.
    UnknownDataSize { word: u32 },
}

pub const EQUAL_CONDITION: u32 = 0x0;

pub const NOT_EQUAL_CONDITION: u32 = 0x1;

pub const CARRY_SET_CONDITION: u32 = 0x2;

pub const CARRY_CLEAR_CONDITION: u32 = 0x3;

pub const NEGATIVE_CONDITION: u32 = 0x4;

pub const POSITIVE_CONDITION: u32 = 0x5;

pub const OVERFLOW_CONDITION: u32 = 0x6;

pub const NO_OVERFLOW_CONDITION: u32 = 0x7;

pub const UNSIGNED_HIGHER_CONDITION: u32 = 0x8;

pub const UNSIGNED_LOWER_OR_SAME_CONDITION: u32 = 0x9;

pub const GREATER_THAN_OR_EQUAL_CONDITION: u32 = 0xa;

pub const LESS_THAN_CONDITION: u32 = 0xb;

pub const GREATER_THAN_CONDITION: u32 = 0xc;

pub const LESS_THAN_OR_EQUAL_CONDITION: u32 = 0xd;

pub const ALWAYS_CONDITION: u32 = 0xe;

pub const CONDITION_MASK: u32 = 0xf0000000;

pub const INSTRUCTION_CLASS_MASK: u32 = 0x0e000000;

pub const BRANCH_INSTRUCTION_CLASS: u32 = 0x0a000000;

pub const DATA_PROCESSING_REGISTER_INSTRUCTION_CLASS: u32 = 0x00000000;

pub const DATA_PROCESSING_IMMEDIATE_INSTRUCTION_CLASS: u32 = 0x02000000;

pub const LOAD_STORE_IMMEDIATE_INSTRUCTION_CLASS: u32 = 0x04000000;

pub const LOAD_STORE_REGISTER_INSTRUCTION_CLASS: u32 = 0x06000000;

pub const SUPERVISOR_CALL_INSTRUCTION_CLASS: u32 = 0x0e000000;

pub const EXTRA_LOAD_STORES_FLAG: u32 = 0x00000090;

pub const DATA_PROCESSING_IMMEDIATE_EXTRA_INSTRUCTIONS_MASK: u32 = 0x01900000;

pub const DATA_PROCESSING_IMMEDIATE_EXTRA_INSTRUCTIONS_VALUE: u32 = 0x01000000;

pub const UPDATE_STATUS_BIT: u32 = 0x00100000;

pub const IMMEDIATE_MODE_BIT: u32 = 0x02000000;

pub const OPCODE_MASK: u32 = 0x01e00000;

pub const ADD_OPCODE: u32 = 0x4;

pub const ADD_WITH_CARRY_OPCODE: u32 = 0x5;

pub const AND_OPCODE: u32 = 0x0;

pub const BRANCH_EXCHANGE_OPCODE: u32 = 0x9;

pub const COMPARE_OPCODE: u32 = 0xa;

pub const MOVE_OPCODE: u32 = 0xd;

pub const MOVE_HALFWORD_OPCODE: u32 = 0x8;

pub const MOVE_HALFWORD_TOP_OPCODE: u32 = 0xa;

pub const MOVE_NOT_OPCODE: u32 = 0xf;

pub const OR_OPCODE: u32 = 0xc;

pub const SUBTRACT_OPCODE: u32 = 0x2;

pub const SHIFT_TYPE_LOGICAL_SHIFT_LEFT: u32 = 0x00;

pub const SHIFT_TYPE_LOGICAL_SHIFT_RIGHT: u32 = 0x20;

pub const SHIFT_TYPE_ARITHMETIC_SHIFT_RIGHT: u32 = 0x40;

pub const SHIFT_TYPE_ROTATE_RIGHT: u32 = 0x60;

pub const SHIFT_TYPE_MASK: u32 = 0x00000060;

pub const SHIFT_IMMEDIATE_BIT: u32 = 0x00000010;

/// `v` rotated right by `r` bit positions within a 32-bit word.
pub open spec fn spec_rotate_right32(v: u32, r: u32) -> u32
    recommends
        r < 32,
{
    if r == 0 {
        v
    } else {
        (v >> r) | (v << (32 - r))
    }
}

/// Bounds of every bit field the decoder extracts, as functions of the
/// instruction word.
proof fn lemma_field_bounds(w: u32)
    by (bit_vector)
    ensures
        ((w & 0xf0000000) >> 28) < 16,
        (w & 0x0000000f) < 16,
        ((w & 0x00000f00) >> 8) < 16,
        ((w & 0x0000f000) >> 12) < 16,
        ((w & 0x000f0000) >> 16) < 16,
        ((w & 0x00000f80) >> 7) < 32,
        ((w & 0x00000f00) >> 7) <= 30,
        (w & 0x00000fff) < 0x1000,
        (w & 0x00ffffff) < 0x1000000,
        ((w & 0x01e00000) >> 21) < 16,
        ((w & 0x00000060) >> 5) < 4,
        ((w & 0x0000000f) | ((w & 0x00000f00) >> 4)) < 0x100,
        (((w & 0x000f0000) >> 4) | (w & 0x00000fff)) < 0x10000,
{
}

/// The condition encoded in bits [31:28], or `None` for the reserved
/// pattern `0xF`.
pub open spec fn spec_decode_condition(word: u32) -> Option<Condition> {
    let condition_bits = (word & CONDITION_MASK) >> 28;
    if condition_bits == EQUAL_CONDITION {
        Some(Condition::Equal)
    } else if condition_bits == NOT_EQUAL_CONDITION {
        Some(Condition::NotEqual)
    } else if condition_bits == CARRY_SET_CONDITION {
        Some(Condition::CarrySet)
    } else if condition_bits == CARRY_CLEAR_CONDITION {
        Some(Condition::CarryClear)
    } else if condition_bits == NEGATIVE_CONDITION {
        Some(Condition::Negative)
    } else if condition_bits == POSITIVE_CONDITION {
        Some(Condition::Positive)
    } else if condition_bits == OVERFLOW_CONDITION {
        Some(Condition::Overflow)
    } else if condition_bits == NO_OVERFLOW_CONDITION {
        Some(Condition::NoOverflow)
    } else if condition_bits == UNSIGNED_HIGHER_CONDITION {
        Some(Condition::UnsignedHigher)
    } else if condition_bits == UNSIGNED_LOWER_OR_SAME_CONDITION {
        Some(Condition::UnsignedLowerOrSame)
    } else if condition_bits == GREATER_THAN_OR_EQUAL_CONDITION {
        Some(Condition::GreaterThanOrEqual)
    } else if condition_bits == LESS_THAN_CONDITION {
        Some(Condition::LessThan)
    } else if condition_bits == GREATER_THAN_CONDITION {
        Some(Condition::GreaterThan)
    } else if condition_bits == LESS_THAN_OR_EQUAL_CONDITION {
        Some(Condition::LessThanOrEqual)
    } else if condition_bits == ALWAYS_CONDITION {
        Some(Condition::Always)
    } else {
        None
    }
}

/// The immediate operand of a data-processing instruction: the 8-bit
/// immediate rotated right by twice the 4-bit rotate field, the carry bit
/// the rotation leaves in bit 31, and the rotate amount itself.
pub open spec fn spec_decode_shifted_immediate(word: u32) -> (u32, bool, u8) {
    let rotate = ((word & 0x00000f00) >> 7) as u8;
    let immediate = spec_rotate_right32(word & 0x000000ff, rotate as u32);
    let carry = (immediate & 0x80000000) != 0;
    (immediate, carry, rotate)
}

/// The register-shift operand fields of a data-processing instruction.
pub open spec fn spec_decode_register_shift_arguments(word: u32) -> (
    Register,
    ShiftType,
    ShiftOperand,
) {
    let operand_register = (word & 0x0000000f) as u8;
    let shift_type_bits = word & SHIFT_TYPE_MASK;
    let shift_operand = if (word & SHIFT_IMMEDIATE_BIT) == 0 {
        ShiftOperand::Immediate(((word & 0x00000f80) >> 7) as u8)
    } else {
        ShiftOperand::Register(((word & 0x00000f00) >> 8) as u8)
    };
    let shift_type = if shift_type_bits == SHIFT_TYPE_LOGICAL_SHIFT_LEFT {
        ShiftType::LogicalShiftLeft
    } else if shift_type_bits == SHIFT_TYPE_LOGICAL_SHIFT_RIGHT {
        ShiftType::LogicalShiftRight
    } else if shift_type_bits == SHIFT_TYPE_ARITHMETIC_SHIFT_RIGHT {
        ShiftType::ArithmeticShiftRight
    } else {
        ShiftType::RotateRight
    };
    (operand_register, shift_type, shift_operand)
}

/// The operands of a data operation that only writes a register
/// (move and move-not); the register is taken from bits [15:12].
pub open spec fn spec_decode_write_arguments(word: u32) -> DataArguments {
    let register = ((word & 0x0000f000) >> 12) as u8;
    if (word & IMMEDIATE_MODE_BIT) != 0 {
        let (immediate, carry, rotate) = spec_decode_shifted_immediate(word);
        DataArguments::Immediate(ImmediateDataArguments { register, immediate, carry, rotate })
    } else {
        let (operand_register, shift_type, shift_operand) = spec_decode_register_shift_arguments(
            word,
        );
        DataArguments::Register(
            RegisterDataArguments { register, operand_register, shift_type, shift_operand },
        )
    }
}

/// The operands of a data operation that only reads a register (compare);
/// the register is taken from bits [19:16].
pub open spec fn spec_decode_read_arguments(word: u32) -> DataArguments {
    let register = ((word & 0x000f0000) >> 16) as u8;
    if (word & IMMEDIATE_MODE_BIT) != 0 {
        let (immediate, carry, rotate) = spec_decode_shifted_immediate(word);
        DataArguments::Immediate(ImmediateDataArguments { register, immediate, carry, rotate })
    } else {
        let (operand_register, shift_type, shift_operand) = spec_decode_register_shift_arguments(
            word,
        );
        DataArguments::Register(
            RegisterDataArguments { register, operand_register, shift_type, shift_operand },
        )
    }
}

/// The operands of a two-register ALU operation: source from bits [19:16],
/// destination from bits [15:12].
pub open spec fn spec_decode_read_write_arguments(word: u32) -> ReadWriteDataArguments {
    let source_register = ((word & 0x000f0000) >> 16) as u8;
    let destination_register = ((word & 0x0000f000) >> 12) as u8;
    if (word & IMMEDIATE_MODE_BIT) != 0 {
        let (immediate, carry, rotate) = spec_decode_shifted_immediate(word);
        ReadWriteDataArguments::Immediate(
            ReadWriteImmediateDataArguments {
                source_register,
                destination_register,
                immediate,
                carry,
                rotate,
            },
        )
    } else {
        let (operand_register, shift_type, shift_operand) = spec_decode_register_shift_arguments(
            word,
        );
        ReadWriteDataArguments::Register(
            ReadWriteRegisterDataArguments {
                source_register,
                destination_register,
                operand_register,
                shift_type,
                shift_operand,
            },
        )
    }
}

/// The operands of a half-word move: register from bits [15:12], 16-bit
/// immediate assembled from bits [19:16] and [11:0].
pub open spec fn spec_decode_large_immediate_arguments(word: u32) -> LargeImmediateArguments {
    LargeImmediateArguments {
        register: ((word & 0x0000f000) >> 12) as u8,
        immediate: (((word & 0x000f0000) >> 4) | (word & 0x00000fff)) as u16,
    }
}

/// A branch: the 24-bit offset is sign-extended with the class's fixed
/// upper-bit pattern, shifted left by 2 for word alignment and biased by 8
/// so that it is relative to the fetch address; bit 24 selects linking.
pub open spec fn spec_decode_branch(word: u32) -> InstructionData {
    let raw_offset = word & 0x00ffffff;
    let sign_extended = if (raw_offset & 0x00800000) != 0 {
        raw_offset | 0x3f000000
    } else {
        raw_offset
    };
    let adjusted = vstd::wrapping::u32_specs::wrapping_add(sign_extended << 2, 8);
    let link_flag = if (word & 0x01000000) != 0 {
        BranchLinkFlag::LinkReturnAddress
    } else {
        BranchLinkFlag::DoNotLinkReturnAddress
    };
    InstructionData::Branch(adjusted as i32, link_flag)
}

/// A data-processing instruction of the ordinary opcode space.
pub open spec fn spec_decode_data_processing(word: u32) -> Result<InstructionData, DecodeError> {
    let update_status = if (word & UPDATE_STATUS_BIT) != 0 {
        UpdateStatusFlags::UpdateStatusFlags
    } else {
        UpdateStatusFlags::DoNotUpdateStatusFlags
    };
    let opcode = (word & OPCODE_MASK) >> 21;
    if opcode == ADD_OPCODE {
        Ok(InstructionData::Add(spec_decode_read_write_arguments(word), update_status))
    } else if opcode == ADD_WITH_CARRY_OPCODE {
        Ok(InstructionData::AddWithCarry(spec_decode_read_write_arguments(word), update_status))
    } else if opcode == AND_OPCODE {
        Ok(InstructionData::And(spec_decode_read_write_arguments(word), update_status))
    } else if opcode == BRANCH_EXCHANGE_OPCODE {
        Ok(InstructionData::BranchExchange((word & 0x0000000f) as u8))
    } else if opcode == COMPARE_OPCODE {
        Ok(InstructionData::Compare(spec_decode_read_arguments(word)))
    } else if opcode == MOVE_OPCODE {
        Ok(InstructionData::Move(spec_decode_write_arguments(word), update_status))
    } else if opcode == MOVE_NOT_OPCODE {
        Ok(InstructionData::MoveNot(spec_decode_write_arguments(word), update_status))
    } else if opcode == OR_OPCODE {
        Ok(InstructionData::Or(spec_decode_read_write_arguments(word), update_status))
    } else if opcode == SUBTRACT_OPCODE {
        Ok(InstructionData::Subtract(spec_decode_read_write_arguments(word), update_status))
    } else {
        Err(DecodeError::UnknownOpcode { word })
    }
}

/// A half-word move of the extra data-processing immediate space.
pub open spec fn spec_decode_extra_data_processing_immediate(word: u32) -> Result<
    InstructionData,
    DecodeError,
> {
    let opcode = (word & OPCODE_MASK) >> 21;
    if opcode == MOVE_HALFWORD_OPCODE {
        Ok(InstructionData::MoveHalfWord(spec_decode_large_immediate_arguments(word)))
    } else if opcode == MOVE_HALFWORD_TOP_OPCODE {
        Ok(InstructionData::MoveTop(spec_decode_large_immediate_arguments(word)))
    } else {
        Err(DecodeError::UnknownExtraOpcode { word })
    }
}

/// The addressing fields shared by the regular load/store classes.  The
/// write-back flag is forced on whenever indexing is post-indexed,
/// whatever the raw bit holds: addresses are always updated after a
/// post-indexed access.
pub open spec fn spec_decode_regular_load_store(word: u32) -> InstructionData {
    let indexing_type = if (word & 0x01000000) != 0 {
        LoadStoreIndexingType::PreIndexed
    } else {
        LoadStoreIndexingType::PostIndexed
    };
    let offset_direction = if (word & 0x00800000) != 0 {
        LoadStoreOffsetDirection::Positive
    } else {
        LoadStoreOffsetDirection::Negative
    };
    let data_size_is_byte = (word & 0x00400000) != 0;
    let write_back = if indexing_type == LoadStoreIndexingType::PostIndexed {
        LoadStoreWriteBackFlag::WriteBack
    } else if (word & 0x00200000) != 0 {
        LoadStoreWriteBackFlag::WriteBack
    } else {
        LoadStoreWriteBackFlag::DoNotWriteBack
    };
    let load_operation = (word & 0x00100000) != 0;
    let address_register = ((word & 0x000f0000) >> 16) as u8;
    let value_register = ((word & 0x0000f000) >> 12) as u8;
    let offset = if (word & 0x02000000) == 0 {
        LoadStoreOffset::Immediate((word & 0x00000fff) as u16)
    } else {
        let shift_type_bits = (word & 0x00000060) >> 5;
        let shift_type = if shift_type_bits == 0 {
            ShiftType::LogicalShiftLeft
        } else if shift_type_bits == 1 {
            ShiftType::LogicalShiftRight
        } else if shift_type_bits == 2 {
            ShiftType::ArithmeticShiftRight
        } else {
            ShiftType::RotateRight
        };
        let raw_amount = ((word & 0x00000f80) >> 7) as u8;
        let shift_operand = if shift_type != ShiftType::LogicalShiftLeft && raw_amount == 0 {
            32u8
        } else {
            raw_amount
        };
        LoadStoreOffset::Register(
            LoadStoreRegisterOffset {
                register: (word & 0x0000000f) as u8,
                shift_type,
                shift_operand,
            },
        )
    };
    let common_arguments = LoadStoreArguments {
        indexing_type,
        write_back,
        offset_direction,
        value_register,
        address_register,
        offset,
    };
    if load_operation {
        InstructionData::Load(
            LoadArguments {
                data_size: if data_size_is_byte {
                    LoadDataSize::Byte
                } else {
                    LoadDataSize::Word
                },
                common_arguments,
            },
        )
    } else {
        InstructionData::Store(
            StoreArguments {
                data_size: if data_size_is_byte {
                    StoreDataSize::Byte
                } else {
                    StoreDataSize::Word
                },
                common_arguments,
            },
        )
    }
}

/// An extra load/store (half-word, signed-byte and double-word forms).
/// The 8-bit immediate offset is split over two nibbles of the carrier
/// field; the write-back flag is forced on for post-indexing exactly as in
/// the regular forms.
pub open spec fn spec_decode_extra_load_store(word: u32) -> Result<InstructionData, DecodeError> {
    let indexing_type = if (word & 0x01000000) != 0 {
        LoadStoreIndexingType::PreIndexed
    } else {
        LoadStoreIndexingType::PostIndexed
    };
    let offset_direction = if (word & 0x00800000) != 0 {
        LoadStoreOffsetDirection::Positive
    } else {
        LoadStoreOffsetDirection::Negative
    };
    let write_back = if indexing_type == LoadStoreIndexingType::PostIndexed {
        LoadStoreWriteBackFlag::WriteBack
    } else if (word & 0x00200000) != 0 {
        LoadStoreWriteBackFlag::WriteBack
    } else {
        LoadStoreWriteBackFlag::DoNotWriteBack
    };
    let load_operation = (word & 0x00100000) != 0;
    let data_size = (word & 0x00000060) >> 5;
    let address_register = ((word & 0x000f0000) >> 16) as u8;
    let value_register = ((word & 0x0000f000) >> 12) as u8;
    let offset = if (word & 0x00400000) != 0 {
        LoadStoreOffset::Immediate(((word & 0x0000000f) | ((word & 0x00000f00) >> 4)) as u16)
    } else {
        LoadStoreOffset::Register(
            LoadStoreRegisterOffset {
                register: (word & 0x0000000f) as u8,
                shift_type: ShiftType::LogicalShiftLeft,
                shift_operand: 0,
            },
        )
    };
    let common_arguments = LoadStoreArguments {
        indexing_type,
        write_back,
        offset_direction,
        value_register,
        address_register,
        offset,
    };
    if !load_operation && data_size == 1 {
        Ok(
            InstructionData::Store(
                StoreArguments { data_size: StoreDataSize::HalfWord, common_arguments },
            ),
        )
    } else if !load_operation && data_size == 2 {
        Ok(
            InstructionData::Load(
                LoadArguments { data_size: LoadDataSize::DoubleWord, common_arguments },
            ),
        )
    } else if !load_operation && data_size == 3 {
        Ok(
            InstructionData::Store(
                StoreArguments { data_size: StoreDataSize::DoubleWord, common_arguments },
            ),
        )
    } else if load_operation && data_size == 1 {
        Ok(
            InstructionData::Load(
                LoadArguments { data_size: LoadDataSize::UnsignedHalfWord, common_arguments },
            ),
        )
    } else if load_operation && data_size == 2 {
        Ok(
            InstructionData::Load(
                LoadArguments { data_size: LoadDataSize::SignedByte, common_arguments },
            ),
        )
    } else if load_operation && data_size == 3 {
        Ok(
            InstructionData::Load(
                LoadArguments { data_size: LoadDataSize::SignedHalfWord, common_arguments },
            ),
        )
    } else {
        Err(DecodeError::UnknownDataSize { word })
    }
}

/// The operation and operands encoded in `word`, dispatched on the class
/// bits [27:25]; the two reserved sub-patterns (half-word moves inside the
/// immediate data-processing space, extra loads/stores inside the register
/// data-processing space) are tested before the ordinary decoders.
pub open spec fn spec_decode_data(word: u32) -> Result<InstructionData, DecodeError> {
    let instruction_class = word & INSTRUCTION_CLASS_MASK;
    if instruction_class == BRANCH_INSTRUCTION_CLASS {
        Ok(spec_decode_branch(word))
    } else if instruction_class == DATA_PROCESSING_IMMEDIATE_INSTRUCTION_CLASS {
        if (word & DATA_PROCESSING_IMMEDIATE_EXTRA_INSTRUCTIONS_MASK)
            == DATA_PROCESSING_IMMEDIATE_EXTRA_INSTRUCTIONS_VALUE {
            spec_decode_extra_data_processing_immediate(word)
        } else {
            spec_decode_data_processing(word)
        }
    } else if instruction_class == DATA_PROCESSING_REGISTER_INSTRUCTION_CLASS {
        if (word & EXTRA_LOAD_STORES_FLAG) == EXTRA_LOAD_STORES_FLAG {
            spec_decode_extra_load_store(word)
        } else {
            spec_decode_data_processing(word)
        }
    } else if instruction_class == LOAD_STORE_IMMEDIATE_INSTRUCTION_CLASS || instruction_class
        == LOAD_STORE_REGISTER_INSTRUCTION_CLASS {
        Ok(spec_decode_regular_load_store(word))
    } else if instruction_class == SUPERVISOR_CALL_INSTRUCTION_CLASS && (word & 0x0f000000)
        == 0x0f000000 {
        Ok(InstructionData::SupervisorCall(word & 0x00ffffff))
    } else {
        Err(DecodeError::UnknownInstruction { word })
    }
}

/// The decoding of a whole instruction word: its condition and its
/// operation, or the first decode error found.
pub open spec fn spec_decode(word: u32) -> Result<Instruction, DecodeError> {
    match spec_decode_condition(word) {
        None => Err(DecodeError::UnknownCondition { word }),
        Some(condition) => match spec_decode_data(word) {
            Ok(data) => Ok((condition, data)),
            Err(e) => Err(e),
        },
    }
}

/// Decodes one instruction word, or reports which part of the word does
/// not decode.  Every successfully decoded instruction is well formed.
pub fn decode(encoded_instruction: u32) -> (r: Result<Instruction, DecodeError>)
    ensures
        r == spec_decode(encoded_instruction),
        r matches Ok(instr) ==> instruction_wf(instr),
{
    let condition = match decode_condition(encoded_instruction) {
        Ok(c) => c,
        Err(e) => {
            return Err(e);
        },
    };
    let instruction_class = encoded_instruction & INSTRUCTION_CLASS_MASK;
    if instruction_class == BRANCH_INSTRUCTION_CLASS {
        Ok((condition, decode_branch(encoded_instruction)))
    } else if instruction_class == DATA_PROCESSING_IMMEDIATE_INSTRUCTION_CLASS {
        if (encoded_instruction & DATA_PROCESSING_IMMEDIATE_EXTRA_INSTRUCTIONS_MASK)
            == DATA_PROCESSING_IMMEDIATE_EXTRA_INSTRUCTIONS_VALUE {
            match decode_extra_data_processing_immediate(encoded_instruction) {
                Ok(data) => Ok((condition, data)),
                Err(e) => Err(e),
            }
        } else {
            match decode_data_processing(encoded_instruction) {
                Ok(data) => Ok((condition, data)),
                Err(e) => Err(e),
            }
        }
    } else if instruction_class == DATA_PROCESSING_REGISTER_INSTRUCTION_CLASS {
        if (encoded_instruction & EXTRA_LOAD_STORES_FLAG) == EXTRA_LOAD_STORES_FLAG {
            match decode_extra_load_store(encoded_instruction) {
                Ok(data) => Ok((condition, data)),
                Err(e) => Err(e),
            }
        } else {
            match decode_data_processing(encoded_instruction) {
                Ok(data) => Ok((condition, data)),
                Err(e) => Err(e),
            }
        }
    } else if instruction_class == LOAD_STORE_IMMEDIATE_INSTRUCTION_CLASS || instruction_class
        == LOAD_STORE_REGISTER_INSTRUCTION_CLASS {
        Ok((condition, decode_regular_load_store(encoded_instruction)))
    } else if instruction_class == SUPERVISOR_CALL_INSTRUCTION_CLASS && (encoded_instruction
        & 0x0f000000) == 0x0f000000 {
        proof {
            lemma_field_bounds(encoded_instruction);
        }
        Ok((condition, InstructionData::SupervisorCall(encoded_instruction & 0x00ffffff)))
    } else {
        Err(DecodeError::UnknownInstruction { word: encoded_instruction })
    }
}

/// Decodes the condition field; the reserved pattern `0xF` is an error.
fn decode_condition(encoded_instruction: u32) -> (r: Result<Condition, DecodeError>)
    ensures
        match spec_decode_condition(encoded_instruction) {
            Some(condition) => r == Ok::<Condition, DecodeError>(condition),
            None => r == Err::<Condition, DecodeError>(
                DecodeError::UnknownCondition { word: encoded_instruction },
            ),
        },
{
    let condition_bits = (encoded_instruction & CONDITION_MASK) >> 28;
    if condition_bits == EQUAL_CONDITION {
        Ok(Condition::Equal)
    } else if condition_bits == NOT_EQUAL_CONDITION {
        Ok(Condition::NotEqual)
    } else if condition_bits == CARRY_SET_CONDITION {
        Ok(Condition::CarrySet)
    } else if condition_bits == CARRY_CLEAR_CONDITION {
        Ok(Condition::CarryClear)
    } else if condition_bits == NEGATIVE_CONDITION {
        Ok(Condition::Negative)
    } else if condition_bits == POSITIVE_CONDITION {
        Ok(Condition::Positive)
    } else if condition_bits == OVERFLOW_CONDITION {
        Ok(Condition::Overflow)
    } else if condition_bits == NO_OVERFLOW_CONDITION {
        Ok(Condition::NoOverflow)
    } else if condition_bits == UNSIGNED_HIGHER_CONDITION {
        Ok(Condition::UnsignedHigher)
    } else if condition_bits == UNSIGNED_LOWER_OR_SAME_CONDITION {
        Ok(Condition::UnsignedLowerOrSame)
    } else if condition_bits == GREATER_THAN_OR_EQUAL_CONDITION {
        Ok(Condition::GreaterThanOrEqual)
    } else if condition_bits == LESS_THAN_CONDITION {
        Ok(Condition::LessThan)
    } else if condition_bits == GREATER_THAN_CONDITION {
        Ok(Condition::GreaterThan)
    } else if condition_bits == LESS_THAN_OR_EQUAL_CONDITION {
        Ok(Condition::LessThanOrEqual)
    } else if condition_bits == ALWAYS_CONDITION {
        Ok(Condition::Always)
    } else {
        Err(DecodeError::UnknownCondition { word: encoded_instruction })
    }
}

/// Decodes the branch offset and link flag.
fn decode_branch(encoded_instruction: u32) -> (r: InstructionData)
    ensures
        r == spec_decode_branch(encoded_instruction),
{
    let raw_offset = encoded_instruction & 0x00ffffff;
    let sign_extended = if (raw_offset & 0x00800000) != 0 {
        raw_offset | 0x3f000000
    } else {
        raw_offset
    };
    let adjusted = (sign_extended << 2u32).wrapping_add(8);
    let link_flag = if (encoded_instruction & 0x01000000) != 0 {
        BranchLinkFlag::LinkReturnAddress
    } else {
        BranchLinkFlag::DoNotLinkReturnAddress
    };
    InstructionData::Branch(#[verifier::truncate] (adjusted as i32), link_flag)
}

/// Decodes an ordinary data-processing instruction.
fn decode_data_processing(encoded_instruction: u32) -> (r: Result<InstructionData, DecodeError>)
    ensures
        r == spec_decode_data_processing(encoded_instruction),
        r matches Ok(data) ==> data.wf(),
{
    proof {
        lemma_field_bounds(encoded_instruction);
    }
    let update_status = if (encoded_instruction & UPDATE_STATUS_BIT) != 0 {
        UpdateStatusFlags::UpdateStatusFlags
    } else {
        UpdateStatusFlags::DoNotUpdateStatusFlags
    };
    let opcode = (encoded_instruction & OPCODE_MASK) >> 21;
    if opcode == ADD_OPCODE {
        Ok(InstructionData::Add(decode_read_write_arguments(encoded_instruction), update_status))
    } else if opcode == ADD_WITH_CARRY_OPCODE {
        Ok(
            InstructionData::AddWithCarry(
                decode_read_write_arguments(encoded_instruction),
                update_status,
            ),
        )
    } else if opcode == AND_OPCODE {
        Ok(InstructionData::And(decode_read_write_arguments(encoded_instruction), update_status))
    } else if opcode == BRANCH_EXCHANGE_OPCODE {
        Ok(InstructionData::BranchExchange((encoded_instruction & 0x0000000f) as u8))
    } else if opcode == COMPARE_OPCODE {
        Ok(InstructionData::Compare(decode_read_arguments(encoded_instruction)))
    } else if opcode == MOVE_OPCODE {
        Ok(InstructionData::Move(decode_write_arguments(encoded_instruction), update_status))
    } else if opcode == MOVE_NOT_OPCODE {
        Ok(InstructionData::MoveNot(decode_write_arguments(encoded_instruction), update_status))
    } else if opcode == OR_OPCODE {
        Ok(InstructionData::Or(decode_read_write_arguments(encoded_instruction), update_status))
    } else if opcode == SUBTRACT_OPCODE {
        Ok(
            InstructionData::Subtract(
                decode_read_write_arguments(encoded_instruction),
                update_status,
            ),
        )
    } else {
        Err(DecodeError::UnknownOpcode { word: encoded_instruction })
    }
}

/// Decodes a half-word move of the extra data-processing immediate space.
fn decode_extra_data_processing_immediate(encoded_instruction: u32) -> (r: Result<
    InstructionData,
    DecodeError,
>)
    ensures
        r == spec_decode_extra_data_processing_immediate(encoded_instruction),
        r matches Ok(data) ==> data.wf(),
{
    proof {
        lemma_field_bounds(encoded_instruction);
    }
    let opcode = (encoded_instruction & OPCODE_MASK) >> 21;
    if opcode == MOVE_HALFWORD_OPCODE {
        Ok(InstructionData::MoveHalfWord(decode_large_immediate_arguments(encoded_instruction)))
    } else if opcode == MOVE_HALFWORD_TOP_OPCODE {
        Ok(InstructionData::MoveTop(decode_large_immediate_arguments(encoded_instruction)))
    } else {
        Err(DecodeError::UnknownExtraOpcode { word: encoded_instruction })
    }
}

/// Decodes a regular (word or byte) load/store.
fn decode_regular_load_store(encoded_instruction: u32) -> (r: InstructionData)
    ensures
        r == spec_decode_regular_load_store(encoded_instruction),
        r.wf(),
{
    proof {
        lemma_field_bounds(encoded_instruction);
    }
    let indexing_type = if (encoded_instruction & 0x01000000) != 0 {
        LoadStoreIndexingType::PreIndexed
    } else {
        LoadStoreIndexingType::PostIndexed
    };
    let offset_direction = if (encoded_instruction & 0x00800000) != 0 {
        LoadStoreOffsetDirection::Positive
    } else {
        LoadStoreOffsetDirection::Negative
    };
    let data_size_is_byte = (encoded_instruction & 0x00400000) != 0;
    let write_back = if matches!(indexing_type, LoadStoreIndexingType::PostIndexed) {
        LoadStoreWriteBackFlag::WriteBack
    } else if (encoded_instruction & 0x00200000) != 0 {
        LoadStoreWriteBackFlag::WriteBack
    } else {
        LoadStoreWriteBackFlag::DoNotWriteBack
    };
    let load_operation = (encoded_instruction & 0x00100000) != 0;
    let address_register = ((encoded_instruction & 0x000f0000) >> 16) as u8;
    let value_register = ((encoded_instruction & 0x0000f000) >> 12) as u8;
    let offset = if (encoded_instruction & 0x02000000) == 0 {
        LoadStoreOffset::Immediate((encoded_instruction & 0x00000fff) as u16)
    } else {
        let shift_type_bits = (encoded_instruction & 0x00000060) >> 5;
        let shift_type = if shift_type_bits == 0 {
            ShiftType::LogicalShiftLeft
        } else if shift_type_bits == 1 {
            ShiftType::LogicalShiftRight
        } else if shift_type_bits == 2 {
            ShiftType::ArithmeticShiftRight
        } else {
            ShiftType::RotateRight
        };
        let raw_amount = ((encoded_instruction & 0x00000f80) >> 7) as u8;
        let shift_operand = if !matches!(shift_type, ShiftType::LogicalShiftLeft) && raw_amount
            == 0 {
            32u8
        } else {
            raw_amount
        };
        LoadStoreOffset::Register(
            LoadStoreRegisterOffset {
                register: (encoded_instruction & 0x0000000f) as u8,
                shift_type,
                shift_operand,
            },
        )
    };
    let common_arguments = LoadStoreArguments {
        indexing_type,
        write_back,
        offset_direction,
        value_register,
        address_register,
        offset,
    };
    if load_operation {
        InstructionData::Load(
            LoadArguments {
                data_size: if data_size_is_byte {
                    LoadDataSize::Byte
                } else {
                    LoadDataSize::Word
                },
                common_arguments,
            },
        )
    } else {
        InstructionData::Store(
            StoreArguments {
                data_size: if data_size_is_byte {
                    StoreDataSize::Byte
                } else {
                    StoreDataSize::Word
                },
                common_arguments,
            },
        )
    }
}

/// Decodes an extra load/store (half-word, signed-byte, double-word).
fn decode_extra_load_store(encoded_instruction: u32) -> (r: Result<InstructionData, DecodeError>)
    ensures
        r == spec_decode_extra_load_store(encoded_instruction),
        r matches Ok(data) ==> data.wf(),
{
    proof {
        lemma_field_bounds(encoded_instruction);
    }
    let indexing_type = if (encoded_instruction & 0x01000000) != 0 {
        LoadStoreIndexingType::PreIndexed
    } else {
        LoadStoreIndexingType::PostIndexed
    };
    let offset_direction = if (encoded_instruction & 0x00800000) != 0 {
        LoadStoreOffsetDirection::Positive
    } else {
        LoadStoreOffsetDirection::Negative
    };
    let write_back = if matches!(indexing_type, LoadStoreIndexingType::PostIndexed) {
        LoadStoreWriteBackFlag::WriteBack
    } else if (encoded_instruction & 0x00200000) != 0 {
        LoadStoreWriteBackFlag::WriteBack
    } else {
        LoadStoreWriteBackFlag::DoNotWriteBack
    };
    let load_operation = (encoded_instruction & 0x00100000) != 0;
    let data_size = (encoded_instruction & 0x00000060) >> 5;
    let address_register = ((encoded_instruction & 0x000f0000) >> 16) as u8;
    let value_register = ((encoded_instruction & 0x0000f000) >> 12) as u8;
    let offset = if (encoded_instruction & 0x00400000) != 0 {
        LoadStoreOffset::Immediate(
            ((encoded_instruction & 0x0000000f) | ((encoded_instruction & 0x00000f00) >> 4)) as u16,
        )
    } else {
        LoadStoreOffset::Register(
            LoadStoreRegisterOffset {
                register: (encoded_instruction & 0x0000000f) as u8,
                shift_type: ShiftType::LogicalShiftLeft,
                shift_operand: 0,
            },
        )
    };
    let common_arguments = LoadStoreArguments {
        indexing_type,
        write_back,
        offset_direction,
        value_register,
        address_register,
        offset,
    };
    if !load_operation && data_size == 1 {
        Ok(
            InstructionData::Store(
                StoreArguments { data_size: StoreDataSize::HalfWord, common_arguments },
            ),
        )
    } else if !load_operation && data_size == 2 {
        Ok(
            InstructionData::Load(
                LoadArguments { data_size: LoadDataSize::DoubleWord, common_arguments },
            ),
        )
    } else if !load_operation && data_size == 3 {
        Ok(
            InstructionData::Store(
                StoreArguments { data_size: StoreDataSize::DoubleWord, common_arguments },
            ),
        )
    } else if load_operation && data_size == 1 {
        Ok(
            InstructionData::Load(
                LoadArguments { data_size: LoadDataSize::UnsignedHalfWord, common_arguments },
            ),
        )
    } else if load_operation && data_size == 2 {
        Ok(
            InstructionData::Load(
                LoadArguments { data_size: LoadDataSize::SignedByte, common_arguments },
            ),
        )
    } else if load_operation && data_size == 3 {
        Ok(
            InstructionData::Load(
                LoadArguments { data_size: LoadDataSize::SignedHalfWord, common_arguments },
            ),
        )
    } else {
        Err(DecodeError::UnknownDataSize { word: encoded_instruction })
    }
}

/// Decodes the operands of a write-only data operation.
fn decode_write_arguments(encoded_instruction: u32) -> (r: DataArguments)
    ensures
        r == spec_decode_write_arguments(encoded_instruction),
        r.wf(),
{
    proof {
        lemma_field_bounds(encoded_instruction);
    }
    let register = ((encoded_instruction & 0x0000f000) >> 12) as u8;
    if (encoded_instruction & IMMEDIATE_MODE_BIT) != 0 {
        let (immediate, carry, rotate) = decode_shifted_immediate(encoded_instruction);
        DataArguments::Immediate(ImmediateDataArguments { register, immediate, carry, rotate })
    } else {
        let (operand_register, shift_type, shift_operand) = decode_register_shift_arguments(
            encoded_instruction,
        );
        DataArguments::Register(
            RegisterDataArguments { register, operand_register, shift_type, shift_operand },
        )
    }
}

/// Decodes the operands of a read-only data operation.
fn decode_read_arguments(encoded_instruction: u32) -> (r: DataArguments)
    ensures
        r == spec_decode_read_arguments(encoded_instruction),
        r.wf(),
{
    proof {
        lemma_field_bounds(encoded_instruction);
    }
    let register = ((encoded_instruction & 0x000f0000) >> 16) as u8;
    if (encoded_instruction & IMMEDIATE_MODE_BIT) != 0 {
        let (immediate, carry, rotate) = decode_shifted_immediate(encoded_instruction);
        DataArguments::Immediate(ImmediateDataArguments { register, immediate, carry, rotate })
    } else {
        let (operand_register, shift_type, shift_operand) = decode_register_shift_arguments(
            encoded_instruction,
        );
        DataArguments::Register(
            RegisterDataArguments { register, operand_register, shift_type, shift_operand },
        )
    }
}

/// Decodes the operands of a two-register ALU operation.
fn decode_read_write_arguments(encoded_instruction: u32) -> (r: ReadWriteDataArguments)
    ensures
        r == spec_decode_read_write_arguments(encoded_instruction),
        r.wf(),
{
    proof {
        lemma_field_bounds(encoded_instruction);
    }
    let source_register = ((encoded_instruction & 0x000f0000) >> 16) as u8;
    let destination_register = ((encoded_instruction & 0x0000f000) >> 12) as u8;
    if (encoded_instruction & IMMEDIATE_MODE_BIT) != 0 {
        let (immediate, carry, rotate) = decode_shifted_immediate(encoded_instruction);
        ReadWriteDataArguments::Immediate(
            ReadWriteImmediateDataArguments {
                source_register,
                destination_register,
                immediate,
                carry,
                rotate,
            },
        )
    } else {
        let (operand_register, shift_type, shift_operand) = decode_register_shift_arguments(
            encoded_instruction,
        );
        ReadWriteDataArguments::Register(
            ReadWriteRegisterDataArguments {
                source_register,
                destination_register,
                operand_register,
                shift_type,
                shift_operand,
            },
        )
    }
}

/// Decodes the rotated 8-bit immediate of a data-processing instruction,
/// together with the carry bit 31 of the rotated value and the rotate
/// amount.  The 4-bit rotate field encodes the amount divided by two.
fn decode_shifted_immediate(encoded_instruction: u32) -> (r: (u32, bool, u8))
    ensures
        r == spec_decode_shifted_immediate(encoded_instruction),
{
    proof {
        lemma_field_bounds(encoded_instruction);
    }
    let rotate_amount = (encoded_instruction & 0x00000f00) >> 7;
    let raw_immediate = encoded_instruction & 0x000000ff;
    let immediate = if rotate_amount == 0 {
        raw_immediate
    } else {
        (raw_immediate >> rotate_amount) | (raw_immediate << (32 - rotate_amount))
    };
    let carry = (immediate & 0x80000000) != 0;
    (immediate, carry, rotate_amount as u8)
}

/// Decodes the register-shift operand fields.
fn decode_register_shift_arguments(encoded_instruction: u32) -> (r: (
    Register,
    ShiftType,
    ShiftOperand,
))
    ensures
        r == spec_decode_register_shift_arguments(encoded_instruction),
        r.0 <= 15,
        r.2.wf(),
{
    proof {
        lemma_field_bounds(encoded_instruction);
    }
    let operand_register = (encoded_instruction & 0x0000000f) as u8;
    let shift_type_bits = encoded_instruction & SHIFT_TYPE_MASK;
    let shift_operand = if (encoded_instruction & SHIFT_IMMEDIATE_BIT) == 0 {
        ShiftOperand::Immediate(((encoded_instruction & 0x00000f80) >> 7) as u8)
    } else {
        ShiftOperand::Register(((encoded_instruction & 0x00000f00) >> 8) as u8)
    };
    let shift_type = if shift_type_bits == SHIFT_TYPE_LOGICAL_SHIFT_LEFT {
        ShiftType::LogicalShiftLeft
    } else if shift_type_bits == SHIFT_TYPE_LOGICAL_SHIFT_RIGHT {
        ShiftType::LogicalShiftRight
    } else if shift_type_bits == SHIFT_TYPE_ARITHMETIC_SHIFT_RIGHT {
        ShiftType::ArithmeticShiftRight
    } else {
        ShiftType::RotateRight
    };
    (operand_register, shift_type, shift_operand)
}

/// Decodes the operands of a half-word move.
fn decode_large_immediate_arguments(encoded_instruction: u32) -> (r: LargeImmediateArguments)
    ensures
        r == spec_decode_large_immediate_arguments(encoded_instruction),
        r.wf(),
{
    proof {
        lemma_field_bounds(encoded_instruction);
    }
    let register = ((encoded_instruction & 0x0000f000) >> 12) as u8;
    let immediate_high = (encoded_instruction & 0x000f0000) >> 4;
    let immediate_low = encoded_instruction & 0x00000fff;
    LargeImmediateArguments { register, immediate: (immediate_high | immediate_low) as u16 }
}

/// True unless `data` is a post-indexed load or store that does not write
/// back its address register.
pub open spec fn post_indexed_implies_write_back(data: InstructionData) -> bool {
    match data {
        InstructionData::Load(args) => args.common_arguments.indexing_type
            == LoadStoreIndexingType::PostIndexed ==> args.common_arguments.write_back
            == LoadStoreWriteBackFlag::WriteBack,
        InstructionData::Store(args) => args.common_arguments.indexing_type
            == LoadStoreIndexingType::PostIndexed ==> args.common_arguments.write_back
            == LoadStoreWriteBackFlag::WriteBack,
        _ => true,
    }
}

/// Every word that decodes to a post-indexed load or store carries the
/// write-back flag, whatever its raw write-back bit holds: a post-indexed
/// access always updates the address register.
pub proof fn lemma_post_indexed_write_back(word: u32)
    ensures
        match spec_decode(word) {
            Ok(instr) => post_indexed_implies_write_back(instr.1),
            Err(_) => true,
        },
{
}

} // verus!
