use arm_emu::decoding::{DecodeError, decode};
use arm_emu::instructions::{
    BranchLinkFlag, Condition, DataArguments, Instruction, InstructionData, LoadDataSize,
    LoadStoreIndexingType, LoadStoreOffset, LoadStoreOffsetDirection, LoadStoreWriteBackFlag,
    ReadWriteDataArguments, ShiftOperand, ShiftType, StoreDataSize, UpdateStatusFlags,
};

fn decode_ok(word: u32) -> Instruction {
    decode(word).expect("word must decode")
}

#[test]
fn move_immediate_round_trip() {
    // MOV r0, #5, condition always, flags not updated
    let (condition, data) = decode_ok(0xE3A00005);
    assert_eq!(condition, Condition::Always);
    match data {
        InstructionData::Move(DataArguments::Immediate(args), update) => {
            assert_eq!(args.register, 0);
            assert_eq!(args.immediate, 5);
            assert_eq!(args.rotate, 0);
            assert_eq!(update, UpdateStatusFlags::DoNotUpdateStatusFlags);
        },
        other => panic!("expected an immediate move, got {:?}", other),
    }
}

#[test]
fn move_rotated_immediate() {
    // MOVS r0, #0xFF rotated right by 8: value 0xFF000000, carry out set
    let (_, data) = decode_ok(0xE3B004FF);
    match data {
        InstructionData::Move(DataArguments::Immediate(args), update) => {
            assert_eq!(args.immediate, 0xFF000000);
            assert_eq!(args.rotate, 8);
            assert!(args.carry);
            assert_eq!(update, UpdateStatusFlags::UpdateStatusFlags);
        },
        other => panic!("expected an immediate move, got {:?}", other),
    }
}

#[test]
fn move_register_shifted_by_immediate() {
    // MOV r1, r2 LSL #2
    let (_, data) = decode_ok(0xE1A01102);
    match data {
        InstructionData::Move(DataArguments::Register(args), _) => {
            assert_eq!(args.register, 1);
            assert_eq!(args.operand_register, 2);
            assert_eq!(args.shift_type, ShiftType::LogicalShiftLeft);
            assert_eq!(args.shift_operand, ShiftOperand::Immediate(2));
        },
        other => panic!("expected a register move, got {:?}", other),
    }
}

#[test]
fn move_register_shifted_by_register() {
    // MOVS r0, r1 LSL r2
    let (_, data) = decode_ok(0xE1B00211);
    match data {
        InstructionData::Move(DataArguments::Register(args), update) => {
            assert_eq!(args.operand_register, 1);
            assert_eq!(args.shift_type, ShiftType::LogicalShiftLeft);
            assert_eq!(args.shift_operand, ShiftOperand::Register(2));
            assert_eq!(update, UpdateStatusFlags::UpdateStatusFlags);
        },
        other => panic!("expected a register move, got {:?}", other),
    }
}

#[test]
fn add_immediate_decodes_registers() {
    // ADDS r0, r1, #1
    let (_, data) = decode_ok(0xE2910001);
    match data {
        InstructionData::Add(ReadWriteDataArguments::Immediate(args), update) => {
            assert_eq!(args.source_register, 1);
            assert_eq!(args.destination_register, 0);
            assert_eq!(args.immediate, 1);
            assert_eq!(update, UpdateStatusFlags::UpdateStatusFlags);
        },
        other => panic!("expected an immediate add, got {:?}", other),
    }
}

#[test]
fn branch_offset_zero_is_plus_eight() {
    let (_, data) = decode_ok(0xEA000000);
    assert_eq!(data, InstructionData::Branch(8, BranchLinkFlag::DoNotLinkReturnAddress));
}

#[test]
fn branch_to_self_has_offset_zero() {
    // The canonical self-branch: encoded offset -2, so target == fetch address
    let (_, data) = decode_ok(0xEAFFFFFE);
    assert_eq!(data, InstructionData::Branch(0, BranchLinkFlag::DoNotLinkReturnAddress));
}

#[test]
fn branch_with_link_flag() {
    let (_, data) = decode_ok(0xEBFFFFFE);
    assert_eq!(data, InstructionData::Branch(0, BranchLinkFlag::LinkReturnAddress));
}

#[test]
fn branch_exchange_names_its_register() {
    let (_, data) = decode_ok(0xE1200002);
    assert_eq!(data, InstructionData::BranchExchange(2));
}

#[test]
fn load_word_pre_indexed_immediate() {
    // LDR r0, [r1, #4]
    let (_, data) = decode_ok(0xE5910004);
    match data {
        InstructionData::Load(args) => {
            assert_eq!(args.data_size, LoadDataSize::Word);
            let common = args.common_arguments;
            assert_eq!(common.indexing_type, LoadStoreIndexingType::PreIndexed);
            assert_eq!(common.write_back, LoadStoreWriteBackFlag::DoNotWriteBack);
            assert_eq!(common.offset_direction, LoadStoreOffsetDirection::Positive);
            assert_eq!(common.value_register, 0);
            assert_eq!(common.address_register, 1);
            assert_eq!(common.offset, LoadStoreOffset::Immediate(4));
        },
        other => panic!("expected a load, got {:?}", other),
    }
}

#[test]
fn post_indexed_load_forces_write_back() {
    // LDR r0, [r1], #4: the raw write-back bit is clear, but post-indexing
    // always writes the updated address back
    let (_, data) = decode_ok(0xE4910004);
    match data {
        InstructionData::Load(args) => {
            let common = args.common_arguments;
            assert_eq!(common.indexing_type, LoadStoreIndexingType::PostIndexed);
            assert_eq!(common.write_back, LoadStoreWriteBackFlag::WriteBack);
        },
        other => panic!("expected a load, got {:?}", other),
    }
}

#[test]
fn post_indexed_store_forces_write_back() {
    // STR r0, [r1], #4
    let (_, data) = decode_ok(0xE4810004);
    match data {
        InstructionData::Store(args) => {
            let common = args.common_arguments;
            assert_eq!(common.indexing_type, LoadStoreIndexingType::PostIndexed);
            assert_eq!(common.write_back, LoadStoreWriteBackFlag::WriteBack);
        },
        other => panic!("expected a store, got {:?}", other),
    }
}

#[test]
fn store_byte_decodes_size() {
    // STRB r0, [r1]
    let (_, data) = decode_ok(0xE5C10000);
    match data {
        InstructionData::Store(args) => assert_eq!(args.data_size, StoreDataSize::Byte),
        other => panic!("expected a store, got {:?}", other),
    }
}

#[test]
fn load_register_offset() {
    // LDR r0, [r1, r2]
    let (_, data) = decode_ok(0xE7910002);
    match data {
        InstructionData::Load(args) => match args.common_arguments.offset {
            LoadStoreOffset::Register(offset) => {
                assert_eq!(offset.register, 2);
                assert_eq!(offset.shift_type, ShiftType::LogicalShiftLeft);
                assert_eq!(offset.shift_operand, 0);
            },
            other => panic!("expected a register offset, got {:?}", other),
        },
        other => panic!("expected a load, got {:?}", other),
    }
}

#[test]
fn load_register_offset_shift_zero_means_thirty_two() {
    // LDR r0, [r1, r2 LSR #32]: a right-shift amount encoded as 0 means 32
    let (_, data) = decode_ok(0xE7910022);
    match data {
        InstructionData::Load(args) => match args.common_arguments.offset {
            LoadStoreOffset::Register(offset) => {
                assert_eq!(offset.shift_type, ShiftType::LogicalShiftRight);
                assert_eq!(offset.shift_operand, 32);
            },
            other => panic!("expected a register offset, got {:?}", other),
        },
        other => panic!("expected a load, got {:?}", other),
    }
}

#[test]
fn extra_load_half_word_immediate() {
    // LDRH r0, [r1, #0x21]: the 8-bit offset is split over two nibbles
    let (_, data) = decode_ok(0xE1D102B1);
    match data {
        InstructionData::Load(args) => {
            assert_eq!(args.data_size, LoadDataSize::UnsignedHalfWord);
            assert_eq!(args.common_arguments.offset, LoadStoreOffset::Immediate(0x21));
        },
        other => panic!("expected a load, got {:?}", other),
    }
}

#[test]
fn extra_store_half_word() {
    let (_, data) = decode_ok(0xE1C100B0);
    match data {
        InstructionData::Store(args) => assert_eq!(args.data_size, StoreDataSize::HalfWord),
        other => panic!("expected a store, got {:?}", other),
    }
}

#[test]
fn extra_load_signed_byte() {
    let (_, data) = decode_ok(0xE1D100D0);
    match data {
        InstructionData::Load(args) => assert_eq!(args.data_size, LoadDataSize::SignedByte),
        other => panic!("expected a load, got {:?}", other),
    }
}

#[test]
fn extra_load_double_word() {
    let (_, data) = decode_ok(0xE1C100D0);
    match data {
        InstructionData::Load(args) => assert_eq!(args.data_size, LoadDataSize::DoubleWord),
        other => panic!("expected a load, got {:?}", other),
    }
}

#[test]
fn extra_store_double_word() {
    let (_, data) = decode_ok(0xE1C100F0);
    match data {
        InstructionData::Store(args) => assert_eq!(args.data_size, StoreDataSize::DoubleWord),
        other => panic!("expected a store, got {:?}", other),
    }
}

#[test]
fn move_half_word_assembles_immediate() {
    // MOVW r0, #0x1234
    let (_, data) = decode_ok(0xE3010234);
    match data {
        InstructionData::MoveHalfWord(args) => {
            assert_eq!(args.register, 0);
            assert_eq!(args.immediate, 0x1234);
        },
        other => panic!("expected a half-word move, got {:?}", other),
    }
}

#[test]
fn move_half_word_top_assembles_immediate() {
    // MOVT r0, #0xABCD
    let (_, data) = decode_ok(0xE34A0BCD);
    match data {
        InstructionData::MoveTop(args) => {
            assert_eq!(args.register, 0);
            assert_eq!(args.immediate, 0xABCD);
        },
        other => panic!("expected a half-word move-top, got {:?}", other),
    }
}

#[test]
fn supervisor_call_payload() {
    let (_, data) = decode_ok(0xEF000000);
    assert_eq!(data, InstructionData::SupervisorCall(0));
    let (_, data) = decode_ok(0xEF000099);
    assert_eq!(data, InstructionData::SupervisorCall(0x99));
}

#[test]
fn unknown_instruction_class_is_an_error() {
    assert_eq!(
        decode(0xEC000000),
        Err(DecodeError::UnknownInstruction { word: 0xEC000000 })
    );
}

#[test]
fn unknown_opcode_is_an_error() {
    // Exclusive-or is not a supported operation
    assert_eq!(
        decode(0xE0210002),
        Err(DecodeError::UnknownOpcode { word: 0xE0210002 })
    );
}

#[test]
fn unknown_extra_opcode_is_an_error() {
    assert_eq!(
        decode(0xE3200000),
        Err(DecodeError::UnknownExtraOpcode { word: 0xE3200000 })
    );
}

#[test]
fn unknown_extra_data_size_is_an_error() {
    assert_eq!(
        decode(0xE1010090),
        Err(DecodeError::UnknownDataSize { word: 0xE1010090 })
    );
}
