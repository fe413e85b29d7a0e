use arm_emu::context::CpuContext;
use arm_emu::file::find_entry_point;

#[test]
fn a_new_machine_is_zeroed_and_running() {
    let context = CpuContext::create();
    for register in 0..16u8 {
        if register == 15 {
            continue;
        }
        assert_eq!(context.get_register(register), 0);
    }
    assert_eq!(context.get_program_counter(), 0);
    assert_eq!(context.read_word(0), Ok(0));
    assert!(!context.is_halted());
    let status = context.get_status();
    assert!(!status.negative && !status.zero && !status.carry && !status.overflow);
}

#[test]
fn register_well_known_indices() {
    assert_eq!(CpuContext::get_link_return_register(), 14);
    assert_eq!(CpuContext::get_program_counter_register(), 15);
}

#[test]
fn reading_the_program_counter_adds_four() {
    // the stored value plus 4: together with the run loop's advance this
    // yields the architectural "PC reads as fetch + 8"
    let mut context = CpuContext::create();
    context.set_program_counter(0x100);
    assert_eq!(context.get_program_counter(), 0x100);
    assert_eq!(context.get_register(15), 0x104);
}

#[test]
fn set_status_updates_only_named_flags() {
    let mut context = CpuContext::create();
    context.set_status(Some(true), None, Some(true), None);
    let status = context.get_status();
    assert!(status.negative && !status.zero && status.carry && !status.overflow);
    context.set_status(None, Some(true), Some(false), None);
    let status = context.get_status();
    assert!(status.negative && status.zero && !status.carry && !status.overflow);
}

#[test]
fn halt_is_sticky_state() {
    let mut context = CpuContext::create();
    context.halt();
    assert!(context.is_halted());
}

#[test]
fn status_text_formats_the_flags() {
    let mut context = CpuContext::create();
    assert_eq!(context.debug_get_status(), "(NZCV) 0000");
    context.set_status(Some(true), None, Some(true), None);
    assert_eq!(context.debug_get_status(), "(NZCV) 1010");
}

#[test]
fn register_text_formats_all_sixteen_registers() {
    let mut context = CpuContext::create();
    context.set_register(1, 0xDEADBEEF);
    context.set_register(15, 0x00000100);
    let text = context.debug_get_registers();
    let lines: Vec<&str> = text.lines().collect();
    assert_eq!(lines.len(), 16);
    assert_eq!(lines[0], "R0: 00000000");
    assert_eq!(lines[1], "R1: DEADBEEF");
    assert_eq!(lines[10], "R10: 00000000");
    assert_eq!(lines[15], "R15: 00000100");
}

#[test]
fn entry_point_found_in_a_recognized_image() {
    let mut image = vec![0x7F, 0x45, 0x4C, 0x46, 0x01, 0x01, 0x01, 0x00];
    image.resize(0x18, 0);
    image.extend_from_slice(&[0x34, 0x12, 0x00, 0x00]);
    image.push(0);
    assert_eq!(find_entry_point(&image), Some(0x1234));
}

#[test]
fn entry_point_absent_without_the_signature() {
    let mut image = vec![0x7F, 0x45, 0x4C, 0x47, 0x01, 0x01, 0x01, 0x00];
    image.resize(0x20, 0);
    assert_eq!(find_entry_point(&image), None);
}

#[test]
fn entry_point_absent_in_a_short_image() {
    let image = vec![0x7F, 0x45, 0x4C, 0x46, 0x01, 0x01, 0x01, 0x00];
    assert_eq!(find_entry_point(&image), None);
}
