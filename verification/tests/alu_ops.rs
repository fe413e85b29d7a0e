use arm_emu::context::CpuContext;
use arm_emu::decoding::decode;
use arm_emu::exec::{ExecuteError, execute, logical_shift_left, logical_shift_right};
use arm_emu::instructions::Instruction;

fn run(context: &mut CpuContext, word: u32) -> Result<Option<Vec<u8>>, ExecuteError> {
    let instruction: Instruction = decode(word).expect("word must decode");
    execute(context, instruction)
}

#[test]
fn add_wraps_and_sets_carry_and_zero() {
    // ADDS r0, r1, #1 with r1 = 0xFFFFFFFF
    let mut context = CpuContext::create();
    context.set_register(1, 0xFFFFFFFF);
    run(&mut context, 0xE2910001).unwrap();
    assert_eq!(context.get_register(0), 0);
    let status = context.get_status();
    assert!(status.carry);
    assert!(status.zero);
    assert!(!status.negative);
    assert!(!status.overflow);
}

#[test]
fn add_signed_overflow() {
    // ADDS r0, r1, #1 with r1 = 0x7FFFFFFF: positive + positive gives negative
    let mut context = CpuContext::create();
    context.set_register(1, 0x7FFFFFFF);
    run(&mut context, 0xE2910001).unwrap();
    assert_eq!(context.get_register(0), 0x80000000);
    let status = context.get_status();
    assert!(!status.carry);
    assert!(!status.zero);
    assert!(status.negative);
    assert!(status.overflow);
}

#[test]
fn subtract_borrow_clears_carry() {
    // SUBS r0, r1, #1 with r1 = 0
    let mut context = CpuContext::create();
    context.set_register(1, 0);
    run(&mut context, 0xE2510001).unwrap();
    assert_eq!(context.get_register(0), 0xFFFFFFFF);
    let status = context.get_status();
    assert!(!status.carry);
    assert!(!status.zero);
    assert!(status.negative);
}

#[test]
fn subtract_without_borrow_sets_carry() {
    // SUBS r0, r1, #1 with r1 = 5
    let mut context = CpuContext::create();
    context.set_register(1, 5);
    run(&mut context, 0xE2510001).unwrap();
    assert_eq!(context.get_register(0), 4);
    let status = context.get_status();
    assert!(status.carry);
    assert!(!status.zero);
    assert!(!status.negative);
}

#[test]
fn add_with_carry_includes_prior_carry() {
    // ADCS r0, r1, #0 with r1 = 0xFFFFFFFF and carry set: 0xFFFFFFFF + 0 + 1
    let mut context = CpuContext::create();
    context.set_register(1, 0xFFFFFFFF);
    context.set_status(None, None, Some(true), None);
    run(&mut context, 0xE2B10000).unwrap();
    assert_eq!(context.get_register(0), 0);
    let status = context.get_status();
    assert!(status.carry, "the carry test covers the carry-inclusive sum");
    assert!(status.zero);
}

#[test]
fn add_with_carry_clear_adds_nothing() {
    let mut context = CpuContext::create();
    context.set_register(1, 7);
    run(&mut context, 0xE2B10000).unwrap();
    assert_eq!(context.get_register(0), 7);
}

#[test]
fn compare_equal_sets_zero_and_carry() {
    // CMP r1, #5 with r1 = 5; the difference is discarded
    let mut context = CpuContext::create();
    context.set_register(1, 5);
    run(&mut context, 0xE3510005).unwrap();
    assert_eq!(context.get_register(0), 0);
    let status = context.get_status();
    assert!(status.zero);
    assert!(status.carry);
    assert!(!status.negative);
    assert!(!status.overflow);
}

#[test]
fn compare_smaller_clears_carry() {
    // CMP r1, #5 with r1 = 3: borrow occurred
    let mut context = CpuContext::create();
    context.set_register(1, 3);
    run(&mut context, 0xE3510005).unwrap();
    let status = context.get_status();
    assert!(!status.zero);
    assert!(!status.carry);
    assert!(status.negative);
}

#[test]
fn and_masks_bits() {
    // ANDS r0, r1, #0xF0
    let mut context = CpuContext::create();
    context.set_register(1, 0xFF);
    run(&mut context, 0xE21100F0).unwrap();
    assert_eq!(context.get_register(0), 0xF0);
    assert!(!context.get_status().zero);
}

#[test]
fn or_merges_bits() {
    // ORRS r0, r1, #0x0F
    let mut context = CpuContext::create();
    context.set_register(1, 0xF0);
    run(&mut context, 0xE391000F).unwrap();
    assert_eq!(context.get_register(0), 0xFF);
}

#[test]
fn move_not_inverts() {
    // MVN r0, #0
    let mut context = CpuContext::create();
    run(&mut context, 0xE3E00000).unwrap();
    assert_eq!(context.get_register(0), 0xFFFFFFFF);
}

#[test]
fn move_immediate_with_rotate_zero_keeps_prior_carry() {
    // MOVS r0, #5: rotate 0 leaves the carry flag untouched
    let mut context = CpuContext::create();
    context.set_status(None, None, Some(true), None);
    run(&mut context, 0xE3B00005).unwrap();
    assert!(context.get_status().carry);
    let mut context = CpuContext::create();
    run(&mut context, 0xE3B00005).unwrap();
    assert!(!context.get_status().carry);
}

#[test]
fn move_rotated_immediate_sets_decoded_carry() {
    // MOVS r0, #0xFF rotated by 8 gives 0xFF000000 and carry out set
    let mut context = CpuContext::create();
    run(&mut context, 0xE3B004FF).unwrap();
    assert_eq!(context.get_register(0), 0xFF000000);
    let status = context.get_status();
    assert!(status.carry);
    assert!(status.negative);
}

#[test]
fn move_register_shift_by_register_amount() {
    // MOVS r0, r1 LSL r2 with r1 = 1, r2 = 4
    let mut context = CpuContext::create();
    context.set_register(1, 1);
    context.set_register(2, 4);
    run(&mut context, 0xE1B00211).unwrap();
    assert_eq!(context.get_register(0), 16);
}

#[test]
fn move_register_shift_right_carry_out() {
    // MOVS r0, r1 LSR #1 with r1 = 3: result 1, carry = dropped bit
    let mut context = CpuContext::create();
    context.set_register(1, 3);
    run(&mut context, 0xE1B000A1).unwrap();
    assert_eq!(context.get_register(0), 1);
    assert!(context.get_status().carry);
}

#[test]
fn arithmetic_shift_right_operand_is_unimplemented() {
    // MOVS r0, r1 ASR #1 decodes but the executor traps
    let mut context = CpuContext::create();
    let result = run(&mut context, 0xE1B000C1);
    assert_eq!(result, Err(ExecuteError::UnimplementedInstruction));
}

#[test]
fn logical_shift_left_by_thirty_two_and_beyond() {
    // Shifting 1 left by exactly 32 gives 0 with carry set; by 33 gives 0
    // with carry clear
    assert_eq!(logical_shift_left(0x00000001, 32, false), (0, true));
    assert_eq!(logical_shift_left(0x00000001, 33, false), (0, false));
}

#[test]
fn logical_shift_left_ordinary_amounts() {
    assert_eq!(logical_shift_left(1, 0, true), (1, true));
    assert_eq!(logical_shift_left(1, 0, false), (1, false));
    assert_eq!(logical_shift_left(0x80000001, 1, false), (2, true));
}

#[test]
fn logical_shift_right_edge_amounts() {
    assert_eq!(logical_shift_right(0x80000000, 32, false), (0, true));
    assert_eq!(logical_shift_right(0x7FFFFFFF, 32, false), (0, false));
    assert_eq!(logical_shift_right(0x80000000, 33, true), (0, false));
    assert_eq!(logical_shift_right(3, 1, false), (1, true));
}

#[test]
fn move_half_word_zero_extends() {
    // MOVW r0, #0x1234 with high bits previously set
    let mut context = CpuContext::create();
    context.set_register(0, 0xFFFFFFFF);
    run(&mut context, 0xE3010234).unwrap();
    assert_eq!(context.get_register(0), 0x1234);
}

#[test]
fn move_half_word_top_preserves_low_half() {
    // MOVT r0, #0xABCD over r0 = 0x1234
    let mut context = CpuContext::create();
    context.set_register(0, 0x1234);
    run(&mut context, 0xE34A0BCD).unwrap();
    assert_eq!(context.get_register(0), 0xABCD1234);
}

#[test]
fn unmet_condition_only_advances_the_program_counter() {
    // ADDSEQ r0, r1, #1 with the zero flag clear: no effect but the
    // program counter advance
    let mut context = CpuContext::create();
    context.set_register(1, 41);
    context.set_program_counter(0x100);
    run(&mut context, 0x02910001).unwrap();
    assert_eq!(context.get_register(0), 0);
    assert_eq!(context.get_program_counter(), 0x104);
    assert!(!context.get_status().zero);
}
