use arm_emu::context::{CpuContext, MEMORY_SIZE, MemoryFault};
use arm_emu::decoding::decode;
use arm_emu::exec::{ExecuteError, execute};
use arm_emu::instructions::Instruction;

fn run(context: &mut CpuContext, word: u32) -> Result<Option<Vec<u8>>, ExecuteError> {
    let instruction: Instruction = decode(word).expect("word must decode");
    execute(context, instruction)
}

#[test]
fn words_are_little_endian() {
    let mut context = CpuContext::create();
    context.write_word(0x100, 0xAABBCCDD).unwrap();
    assert_eq!(context.read_byte(0x100), Ok(0xDD));
    assert_eq!(context.read_byte(0x101), Ok(0xCC));
    assert_eq!(context.read_byte(0x102), Ok(0xBB));
    assert_eq!(context.read_byte(0x103), Ok(0xAA));
    assert_eq!(context.read_word(0x100), Ok(0xAABBCCDD));
    assert_eq!(context.read_half_word(0x100), Ok(0xCCDD));
    assert_eq!(context.read_half_word(0x102), Ok(0xAABB));
}

#[test]
fn write_half_word_preserves_neighbours() {
    let mut context = CpuContext::create();
    context.write_word(0x100, 0xAABBCCDD).unwrap();
    context.write_half_word(0x100, 0x1122).unwrap();
    assert_eq!(context.read_word(0x100), Ok(0xAABB1122));
}

#[test]
fn out_of_range_accesses_fault() {
    let mut context = CpuContext::create();
    let last = (MEMORY_SIZE - 1) as u32;
    assert_eq!(context.read_byte(last), Ok(0));
    assert_eq!(context.read_word(last), Err(MemoryFault { address: last }));
    assert_eq!(context.read_byte(MEMORY_SIZE as u32), Err(MemoryFault { address: 0x10000 }));
    assert_eq!(context.write_word(last, 1), Err(MemoryFault { address: last }));
    assert_eq!(context.write_byte(0xFFFFFFFF, 1), Err(MemoryFault { address: 0xFFFFFFFF }));
    assert_eq!(context.read_half_word(last), Err(MemoryFault { address: last }));
}

#[test]
fn write_memory_loads_an_image_at_offset_zero() {
    let mut context = CpuContext::create();
    context.write_word(8, 0xDDCCBBAA).unwrap();
    context.write_memory(&vec![1, 2, 3, 4]);
    assert_eq!(context.read_byte(0), Ok(1));
    assert_eq!(context.read_byte(3), Ok(4));
    // the rest of memory keeps its previous contents
    assert_eq!(context.read_word(8), Ok(0xDDCCBBAA));
}

#[test]
fn read_string_stops_at_the_null() {
    let mut context = CpuContext::create();
    context.write_byte(0x200, b'H').unwrap();
    context.write_byte(0x201, b'i').unwrap();
    context.write_byte(0x202, 0).unwrap();
    assert_eq!(context.read_string(0x200), Ok(vec![b'H', b'i']));
    assert_eq!(context.read_string(0x202), Ok(vec![]));
}

#[test]
fn read_string_without_a_null_faults() {
    let mut context = CpuContext::create();
    for address in 0x300..0x10000u32 {
        context.write_byte(address, 1).unwrap();
    }
    assert_eq!(context.read_string(0x300), Err(MemoryFault { address: 0x10000 }));
    assert_eq!(context.read_string(0xFFFFFFFF), Err(MemoryFault { address: 0xFFFFFFFF }));
}

#[test]
fn byte_store_preserves_the_containing_word() {
    // STRB r0, [r1] with the containing word 0xAABBCCDD and r0 = 0x11:
    // only the lowest byte changes
    let mut context = CpuContext::create();
    context.write_word(0x100, 0xAABBCCDD).unwrap();
    context.set_register(0, 0x11);
    context.set_register(1, 0x100);
    run(&mut context, 0xE5C10000).unwrap();
    assert_eq!(context.read_word(0x100), Ok(0xAABBCC11));
}

#[test]
fn store_and_load_word_round_trip() {
    // STR r0, [r1, #4], then LDR r2, [r1, #4]
    let mut context = CpuContext::create();
    context.set_register(0, 0x12345678);
    context.set_register(1, 0x100);
    run(&mut context, 0xE5810004).unwrap();
    assert_eq!(context.read_word(0x104), Ok(0x12345678));
    run(&mut context, 0xE5912004).unwrap();
    assert_eq!(context.get_register(2), 0x12345678);
}

#[test]
fn load_byte_zero_extends() {
    // LDRB r0, [r1]
    let mut context = CpuContext::create();
    context.write_word(0x100, 0xFFFFFF80).unwrap();
    context.set_register(1, 0x100);
    run(&mut context, 0xE5D10000).unwrap();
    assert_eq!(context.get_register(0), 0x80);
}

#[test]
fn load_half_word_zero_extends() {
    // LDRH r0, [r1]
    let mut context = CpuContext::create();
    context.write_word(0x100, 0xFFFF8001).unwrap();
    context.set_register(1, 0x100);
    run(&mut context, 0xE1D100B0).unwrap();
    assert_eq!(context.get_register(0), 0x8001);
}

#[test]
fn store_half_word_writes_low_sixteen_bits() {
    // STRH r0, [r1]
    let mut context = CpuContext::create();
    context.write_word(0x100, 0xAABBCCDD).unwrap();
    context.set_register(0, 0x99887766);
    context.set_register(1, 0x100);
    run(&mut context, 0xE1C100B0).unwrap();
    assert_eq!(context.read_word(0x100), Ok(0xAABB7766));
}

#[test]
fn post_indexed_load_writes_back_the_updated_address() {
    // LDR r0, [r1], #4: the access uses the unmodified base and the base
    // register is updated afterwards, though the raw write-back bit is 0
    let mut context = CpuContext::create();
    context.write_word(0x100, 0xCAFE0001).unwrap();
    context.set_register(1, 0x100);
    run(&mut context, 0xE4910004).unwrap();
    assert_eq!(context.get_register(0), 0xCAFE0001);
    assert_eq!(context.get_register(1), 0x104);
}

#[test]
fn pre_indexed_write_back_stores_the_effective_address() {
    // LDR r0, [r1, #4]! (write-back bit set)
    let mut context = CpuContext::create();
    context.write_word(0x104, 7).unwrap();
    context.set_register(1, 0x100);
    run(&mut context, 0xE5B10004).unwrap();
    assert_eq!(context.get_register(0), 7);
    assert_eq!(context.get_register(1), 0x104);
}

#[test]
fn register_offset_load_applies_the_shift() {
    // LDR r0, [r1, r2] with r2 = 8
    let mut context = CpuContext::create();
    context.write_word(0x108, 42).unwrap();
    context.set_register(1, 0x100);
    context.set_register(2, 8);
    run(&mut context, 0xE7910002).unwrap();
    assert_eq!(context.get_register(0), 42);
}

#[test]
fn load_outside_memory_is_a_fault() {
    // LDR r0, [r1] with r1 beyond the end of memory
    let mut context = CpuContext::create();
    context.set_register(1, 0x20000);
    let result = run(&mut context, 0xE5910000);
    assert_eq!(result, Err(ExecuteError::MemoryAccessFault { address: 0x20000 }));
}

#[test]
fn double_word_load_is_unimplemented() {
    // LDRD r0, [r1]
    let mut context = CpuContext::create();
    let result = run(&mut context, 0xE1C100D0);
    assert_eq!(result, Err(ExecuteError::UnimplementedInstruction));
}

#[test]
fn signed_byte_load_is_unimplemented() {
    // LDRSB r0, [r1]
    let mut context = CpuContext::create();
    let result = run(&mut context, 0xE1D100D0);
    assert_eq!(result, Err(ExecuteError::UnimplementedInstruction));
}

#[test]
fn double_word_store_is_unimplemented() {
    // STRD r0, [r1]
    let mut context = CpuContext::create();
    let result = run(&mut context, 0xE1C100F0);
    assert_eq!(result, Err(ExecuteError::UnimplementedInstruction));
}
