use arm_emu::context::CpuContext;
use arm_emu::decoding::decode;
use arm_emu::exec::{ExecuteError, execute};
use arm_emu::instructions::Instruction;
use arm_emu::syscall::execute_system_call;

fn run(context: &mut CpuContext, word: u32) -> Result<Option<Vec<u8>>, ExecuteError> {
    let instruction: Instruction = decode(word).expect("word must decode");
    execute(context, instruction)
}

#[test]
fn self_branch_halts_the_machine() {
    // B . at address 0x100: the computed target equals the fetch address,
    // so the machine halts instead of looping
    let mut context = CpuContext::create();
    context.set_program_counter(0x100);
    let result = run(&mut context, 0xEAFFFFFE);
    assert_eq!(result, Ok(None));
    assert!(context.is_halted());
    // the unconditional advance of step 1 still stands
    assert_eq!(context.get_program_counter(), 0x104);
    // a halted machine performs no further execution: the run loop stops
    // on is_halted before fetching again
}

#[test]
fn self_branch_with_link_still_halts_and_links() {
    let mut context = CpuContext::create();
    context.set_program_counter(0x100);
    run(&mut context, 0xEBFFFFFE).unwrap();
    assert!(context.is_halted());
    assert_eq!(context.get_register(14), 0x104);
}

#[test]
fn branch_jumps_relative_to_the_fetch_address() {
    // B with encoded offset 0 targets fetch + 8
    let mut context = CpuContext::create();
    context.set_program_counter(0x100);
    run(&mut context, 0xEA000000).unwrap();
    assert!(!context.is_halted());
    assert_eq!(context.get_program_counter(), 0x108);
}

#[test]
fn branch_with_link_stores_the_return_address() {
    let mut context = CpuContext::create();
    context.set_program_counter(0x100);
    run(&mut context, 0xEB000000).unwrap();
    assert_eq!(context.get_register(14), 0x104);
    assert_eq!(context.get_program_counter(), 0x108);
}

#[test]
fn backwards_branch() {
    // encoded offset -4: target = fetch + 8 - 16 = fetch - 8
    let mut context = CpuContext::create();
    context.set_program_counter(0x100);
    run(&mut context, 0xEAFFFFFC).unwrap();
    assert_eq!(context.get_program_counter(), 0xF8);
}

#[test]
fn branch_exchange_takes_the_register_value() {
    // BX r2 with r2 = 0x2000
    let mut context = CpuContext::create();
    context.set_register(2, 0x2000);
    run(&mut context, 0xE1200002).unwrap();
    assert_eq!(context.get_program_counter(), 0x2000);
}

#[test]
fn conditional_branch_not_taken() {
    // BEQ with the zero flag clear: only the program counter advance
    let mut context = CpuContext::create();
    context.set_program_counter(0x100);
    run(&mut context, 0x0A000010).unwrap();
    assert_eq!(context.get_program_counter(), 0x104);
    assert!(!context.is_halted());
}

#[test]
fn exit_system_call_halts() {
    // SVC 0 with r7 = 1
    let mut context = CpuContext::create();
    context.set_register(7, 1);
    let result = run(&mut context, 0xEF000000);
    assert_eq!(result, Ok(None));
    assert!(context.is_halted());
}

#[test]
fn write_system_call_returns_the_bytes() {
    // SVC 0 with r7 = 4, r0 = 1 (standard output), r1 = address of "OK\0"
    let mut context = CpuContext::create();
    context.write_byte(0x400, b'O').unwrap();
    context.write_byte(0x401, b'K').unwrap();
    context.write_byte(0x402, 0).unwrap();
    context.set_register(7, 4);
    context.set_register(0, 1);
    context.set_register(1, 0x400);
    let result = run(&mut context, 0xEF000000);
    assert_eq!(result, Ok(Some(vec![b'O', b'K'])));
    assert!(!context.is_halted());
}

#[test]
fn write_system_call_rejects_other_descriptors() {
    let mut context = CpuContext::create();
    context.set_register(7, 4);
    context.set_register(0, 2);
    let result = run(&mut context, 0xEF000000);
    assert_eq!(result, Err(ExecuteError::UnsupportedFileDescriptor { descriptor: 2 }));
}

#[test]
fn write_system_call_faults_without_a_terminator() {
    let mut context = CpuContext::create();
    for address in 0..0x10000u32 {
        context.write_byte(address, 1).unwrap();
    }
    context.set_register(7, 4);
    context.set_register(0, 1);
    context.set_register(1, 0x500);
    let result = run(&mut context, 0xEF000000);
    assert_eq!(result, Err(ExecuteError::MemoryAccessFault { address: 0x10000 }));
}

#[test]
fn unknown_system_call_number_is_an_error() {
    let mut context = CpuContext::create();
    context.set_register(7, 9);
    let result = run(&mut context, 0xEF000000);
    assert_eq!(result, Err(ExecuteError::UnsupportedSystemCall { number: 9 }));
}

#[test]
fn nonzero_supervisor_immediate_is_an_error() {
    let mut context = CpuContext::create();
    let result = run(&mut context, 0xEF000099);
    assert_eq!(result, Err(ExecuteError::UnsupportedSupervisorCall { immediate: 0x99 }));
}

#[test]
fn system_call_dispatch_direct() {
    // the dispatcher itself, without going through the executor
    let mut context = CpuContext::create();
    context.set_register(7, 1);
    assert_eq!(execute_system_call(&mut context), Ok(None));
    assert!(context.is_halted());
}
