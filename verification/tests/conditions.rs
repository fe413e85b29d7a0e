use arm_emu::context::CpuContext;
use arm_emu::decoding::{DecodeError, decode};
use arm_emu::exec::is_condition_met;
use arm_emu::instructions::Condition;

fn context_with_flags(negative: bool, zero: bool, carry: bool, overflow: bool) -> CpuContext {
    let mut context = CpuContext::create();
    context.set_status(Some(negative), Some(zero), Some(carry), Some(overflow));
    context
}

fn met(condition: Condition, negative: bool, zero: bool, carry: bool, overflow: bool) -> bool {
    let context = context_with_flags(negative, zero, carry, overflow);
    is_condition_met(&context, &condition)
}

#[test]
fn condition_truth_table_all_flag_combinations() {
    let conditions = [
        Condition::Equal,
        Condition::NotEqual,
        Condition::CarrySet,
        Condition::CarryClear,
        Condition::Negative,
        Condition::Positive,
        Condition::Overflow,
        Condition::NoOverflow,
        Condition::UnsignedHigher,
        Condition::UnsignedLowerOrSame,
        Condition::GreaterThanOrEqual,
        Condition::LessThan,
        Condition::GreaterThan,
        Condition::LessThanOrEqual,
        Condition::Always,
    ];
    for bits in 0..16u32 {
        let n = bits & 8 != 0;
        let z = bits & 4 != 0;
        let c = bits & 2 != 0;
        let v = bits & 1 != 0;
        for condition in conditions.iter() {
            let expected = match condition {
                Condition::Equal => z,
                Condition::NotEqual => !z,
                Condition::CarrySet => c,
                Condition::CarryClear => !c,
                Condition::Negative => n,
                Condition::Positive => !n,
                Condition::Overflow => v,
                Condition::NoOverflow => !v,
                Condition::UnsignedHigher => c && !z,
                Condition::UnsignedLowerOrSame => !c || z,
                Condition::GreaterThanOrEqual => n == v,
                Condition::LessThan => n != v,
                Condition::GreaterThan => !z && n == v,
                Condition::LessThanOrEqual => z || n != v,
                Condition::Always => true,
            };
            assert_eq!(met(*condition, n, z, c, v), expected, "condition {:?} at NZCV {:04b}", condition, bits);
        }
    }
}

#[test]
fn condition_field_decodes_each_code() {
    let expected = [
        Condition::Equal,
        Condition::NotEqual,
        Condition::CarrySet,
        Condition::CarryClear,
        Condition::Negative,
        Condition::Positive,
        Condition::Overflow,
        Condition::NoOverflow,
        Condition::UnsignedHigher,
        Condition::UnsignedLowerOrSame,
        Condition::GreaterThanOrEqual,
        Condition::LessThan,
        Condition::GreaterThan,
        Condition::LessThanOrEqual,
        Condition::Always,
    ];
    for (code, condition) in expected.iter().enumerate() {
        // MOV r0, #5 under each condition code
        let word = ((code as u32) << 28) | 0x03A00005;
        let (decoded_condition, _) = decode(word).expect("defined condition must decode");
        assert_eq!(decoded_condition, *condition);
    }
}

#[test]
fn reserved_condition_code_is_an_error() {
    assert_eq!(
        decode(0xF3A00005),
        Err(DecodeError::UnknownCondition { word: 0xF3A00005 })
    );
}
