//! The executor: applies one decoded instruction to the machine state.
//!
//! The semantics of a step is stated once, as the spec function
//! [`spec_execute`]: advance the program counter by one instruction width,
//! evaluate the condition against the flags, and dispatch to the
//! operation's own transition.  Every executable function is proved to
//! take the machine to exactly the state the spec functions describe and
//! to return exactly the outcome they name.  A step never prints and
//! never aborts: unimplemented operations, out-of-range memory accesses
//! and unsupported supervisor calls are reported as an [`ExecuteError`].

use vstd::prelude::*;
use vstd::wrapping::u32_specs;

use crate::context::{
    CpuContext, MachineView, StatusFlags, access_in_bounds, machine_wf, spec_get_register,
    spec_merge_status, spec_read_half_word, spec_read_word, spec_set_register,
    spec_write_half_word, spec_write_word,
};
use crate::decoding::spec_rotate_right32;
use crate::instructions::{
    BranchLinkFlag, Condition, DataArguments, Instruction, InstructionData, LargeImmediateArguments,
    LoadArguments, LoadDataSize, LoadStoreIndexingType, LoadStoreOffset,
    LoadStoreOffsetDirection, LoadStoreWriteBackFlag, ReadWriteDataArguments, Register,
    ShiftOperand, ShiftType, StoreArguments, StoreDataSize, UpdateStatusFlags, instruction_wf,
};
use crate::syscall;

verus! {

/// Width of one instruction in bytes.
pub const INSTRUCTION_SIZE: u32 = 4;

/// A failure while executing a successfully decoded instruction.  All
/// variants are recoverable by the caller; the executor itself never
/// aborts.
#[derive(Clone, Copy, Debug, PartialEq, Eq, Structural)]
pub enum ExecuteError {
    /// The instruction decoded but its operation or operand form is not
    /// supported by the executor.
    UnimplementedInstruction,
    /// A memory access fell outside the backing memory.
    MemoryAccessFault { address: u32 },
    /// The supervisor-call immediate is not the system-call marker.
    UnsupportedSupervisorCall { immediate: u32 },
    /// The system-call number is not recognized.
    UnsupportedSystemCall { number: u32 },
    /// The write system call named a descriptor other than standard
    /// output.
    UnsupportedFileDescriptor { descriptor: u32 },
}

/// The outcome of one full step: the machine afterwards, and either the
/// bytes the step asks the caller to write to standard output (`Ok`),
/// or the error that stopped it.
pub ghost struct ExecOutcome {
    pub machine: MachineView,
    pub result: Result<Option<Seq<u8>>, ExecuteError>,
}

/// The outcome of one operation that produces no output: the machine
/// afterwards and the error, if any, that stopped it.
pub ghost struct StepOutcome {
    pub machine: MachineView,
    pub error: Option<ExecuteError>,
}

/// The unit result corresponding to a step outcome.
pub open spec fn step_result(step: StepOutcome) -> Result<(), ExecuteError> {
    match step.error {
        None => Ok(()),
        Some(e) => Err(e),
    }
}

/// True iff the executable outcome `r` denotes the spec outcome `s`.
pub open spec fn output_matches(
    r: Result<Option<Vec<u8>>, ExecuteError>,
    s: Result<Option<Seq<u8>>, ExecuteError>,
) -> bool {
    match (r, s) {
        (Ok(None), Ok(None)) => true,
        (Ok(Some(bytes)), Ok(Some(expected))) => bytes@ == expected,
        (Err(e1), Err(e2)) => e1 == e2,
        _ => false,
    }
}

/// The condition truth table: whether `condition` holds of `status`.
pub open spec fn spec_condition_met(condition: Condition, status: StatusFlags) -> bool {
    match condition {
        Condition::Equal => status.zero,
        Condition::NotEqual => !status.zero,
        Condition::CarrySet => status.carry,
        Condition::CarryClear => !status.carry,
        Condition::Negative => status.negative,
        Condition::Positive => !status.negative,
        Condition::Overflow => status.overflow,
        Condition::NoOverflow => !status.overflow,
        Condition::UnsignedHigher => status.carry && !status.zero,
        Condition::UnsignedLowerOrSame => !status.carry || status.zero,
        Condition::GreaterThanOrEqual => status.negative == status.overflow,
        Condition::LessThan => status.negative != status.overflow,
        Condition::GreaterThan => !status.zero && status.negative == status.overflow,
        Condition::LessThanOrEqual => status.zero || status.negative != status.overflow,
        Condition::Always => true,
    }
}

/// Bit 31 of `value`: the sign of the value read as a two's-complement
/// number.
pub open spec fn spec_sign(value: u32) -> bool {
    (value & 0x80000000) != 0
}

/// The logical left shift of the barrel shifter: the shifted value and the
/// carry it leaves.  A shift by 0 leaves the value and the prior carry; by
/// 1 to 31 the carry is the last bit shifted out; by exactly 32 the result
/// is 0 and the carry is bit 0; beyond 32 both are 0.
pub open spec fn spec_logical_shift_left(value: u32, bits: u8, carry_in: bool) -> (u32, bool) {
    if bits == 0 {
        (value, carry_in)
    } else if bits < 32 {
        ((value << (bits as u32)), (value & (1u32 << ((32 - bits) as u32))) != 0)
    } else if bits > 32 {
        (0u32, false)
    } else {
        (0u32, (value & 1) != 0)
    }
}

/// The logical right shift of the barrel shifter, mirroring the left
/// shift: by exactly 32 the carry is the original sign bit.
pub open spec fn spec_logical_shift_right(value: u32, bits: u8, carry_in: bool) -> (u32, bool) {
    if bits == 0 {
        (value, carry_in)
    } else if bits < 32 {
        ((value >> (bits as u32)), (value & (1u32 << ((bits - 1) as u32))) != 0)
    } else if bits > 32 {
        (0u32, false)
    } else {
        (0u32, spec_sign(value))
    }
}

/// The shift amount named by a shift operand: the immediate itself, or the
/// low byte of the named register's value.
pub open spec fn spec_shift_operand_amount(m: MachineView, operand: ShiftOperand) -> u8
    recommends
        machine_wf(m),
        operand.wf(),
{
    match operand {
        ShiftOperand::Immediate(amount) => amount,
        ShiftOperand::Register(r) => spec_get_register(m, r) as u8,
    }
}

/// The value and carry produced by shifting `register`'s value, or `None`
/// for the shift types the executor does not implement (arithmetic right
/// shift and rotate right of ALU operands).
pub open spec fn spec_apply_shift_operand(
    m: MachineView,
    register: Register,
    shift_type: ShiftType,
    shift_operand: ShiftOperand,
) -> Option<(u32, bool)>
    recommends
        machine_wf(m),
        register <= 15,
        shift_operand.wf(),
{
    let raw = spec_get_register(m, register);
    let amount = spec_shift_operand_amount(m, shift_operand);
    match shift_type {
        ShiftType::LogicalShiftLeft => Some(spec_logical_shift_left(raw, amount, m.status.carry)),
        ShiftType::LogicalShiftRight => Some(
            spec_logical_shift_right(raw, amount, m.status.carry),
        ),
        _ => None,
    }
}

/// The (register, operand value, carry) triple of a one-register data
/// operation.  For an immediate whose rotate field is 0 the decoded carry
/// is undefined and the prior carry flag is used instead.
pub open spec fn spec_get_data_arguments(m: MachineView, args: DataArguments) -> Option<
    (Register, u32, bool),
>
    recommends
        machine_wf(m),
        args.wf(),
{
    match args {
        DataArguments::Immediate(a) => Some(
            (a.register, a.immediate, if a.rotate == 0 {
                m.status.carry
            } else {
                a.carry
            }),
        ),
        DataArguments::Register(a) => match spec_apply_shift_operand(
            m,
            a.operand_register,
            a.shift_type,
            a.shift_operand,
        ) {
            Some((operand, carry)) => Some((a.register, operand, carry)),
            None => None,
        },
    }
}

/// The (destination, source value, operand value, carry) tuple of a
/// two-register ALU operation.
pub open spec fn spec_get_read_write_data_arguments(
    m: MachineView,
    args: ReadWriteDataArguments,
) -> Option<(Register, u32, u32, bool)>
    recommends
        machine_wf(m),
        args.wf(),
{
    match args {
        ReadWriteDataArguments::Immediate(a) => Some(
            (
                a.destination_register,
                spec_get_register(m, a.source_register),
                a.immediate,
                a.carry,
            ),
        ),
        ReadWriteDataArguments::Register(a) => match spec_apply_shift_operand(
            m,
            a.operand_register,
            a.shift_type,
            a.shift_operand,
        ) {
            Some((operand, carry)) => Some(
                (a.destination_register, spec_get_register(m, a.source_register), operand, carry),
            ),
            None => None,
        },
    }
}

/// Move: the destination takes the operand; when flags are updated, N and
/// Z follow the value and C takes the shifter carry, V untouched.
pub open spec fn spec_execute_move(
    m: MachineView,
    args: DataArguments,
    update_status: UpdateStatusFlags,
) -> StepOutcome
    recommends
        machine_wf(m),
        args.wf(),
{
    match spec_get_data_arguments(m, args) {
        None => StepOutcome { machine: m, error: Some(ExecuteError::UnimplementedInstruction) },
        Some((register, value, carry)) => {
            let m1 = spec_set_register(m, register, value);
            let m2 = if update_status == UpdateStatusFlags::UpdateStatusFlags {
                MachineView {
                    status: spec_merge_status(
                        m1.status,
                        Some(spec_sign(value)),
                        Some(value == 0),
                        Some(carry),
                        None,
                    ),
                    ..m1
                }
            } else {
                m1
            };
            StepOutcome { machine: m2, error: None }
        },
    }
}

/// Move-not: as move, with the operand inverted bitwise before use.
pub open spec fn spec_execute_move_not(
    m: MachineView,
    args: DataArguments,
    update_status: UpdateStatusFlags,
) -> StepOutcome
    recommends
        machine_wf(m),
        args.wf(),
{
    match spec_get_data_arguments(m, args) {
        None => StepOutcome { machine: m, error: Some(ExecuteError::UnimplementedInstruction) },
        Some((register, raw_value, carry)) => {
            let value = !raw_value;
            let m1 = spec_set_register(m, register, value);
            let m2 = if update_status == UpdateStatusFlags::UpdateStatusFlags {
                MachineView {
                    status: spec_merge_status(
                        m1.status,
                        Some(spec_sign(value)),
                        Some(value == 0),
                        Some(carry),
                        None,
                    ),
                    ..m1
                }
            } else {
                m1
            };
            StepOutcome { machine: m2, error: None }
        },
    }
}

/// Add: wrapping sum; when flags are updated, C reports unsigned overflow
/// of the sum and V reports signed overflow (operand signs match and
/// differ from the result sign).
pub open spec fn spec_execute_add(
    m: MachineView,
    args: ReadWriteDataArguments,
    update_status: UpdateStatusFlags,
) -> StepOutcome
    recommends
        machine_wf(m),
        args.wf(),
{
    match spec_get_read_write_data_arguments(m, args) {
        None => StepOutcome { machine: m, error: Some(ExecuteError::UnimplementedInstruction) },
        Some((destination_register, original, operand, _carry)) => {
            let result = u32_specs::wrapping_add(original, operand);
            let m1 = spec_set_register(m, destination_register, result);
            let m2 = if update_status == UpdateStatusFlags::UpdateStatusFlags {
                MachineView {
                    status: spec_merge_status(
                        m1.status,
                        Some(spec_sign(result)),
                        Some(result == 0),
                        Some(original + operand > u32::MAX),
                        Some(
                            spec_sign(original) == spec_sign(operand) && spec_sign(original)
                                != spec_sign(result),
                        ),
                    ),
                    ..m1
                }
            } else {
                m1
            };
            StepOutcome { machine: m2, error: None }
        },
    }
}

/// Add-with-carry: as add, with the prior carry flag added into the sum;
/// the C flag reports unsigned overflow of the carry-inclusive sum.
pub open spec fn spec_execute_add_with_carry(
    m: MachineView,
    args: ReadWriteDataArguments,
    update_status: UpdateStatusFlags,
) -> StepOutcome
    recommends
        machine_wf(m),
        args.wf(),
{
    match spec_get_read_write_data_arguments(m, args) {
        None => StepOutcome { machine: m, error: Some(ExecuteError::UnimplementedInstruction) },
        Some((destination_register, original, operand, _carry)) => {
            let carry_in: u32 = if m.status.carry {
                1
            } else {
                0
            };
            let result = u32_specs::wrapping_add(
                u32_specs::wrapping_add(original, operand),
                carry_in,
            );
            let m1 = spec_set_register(m, destination_register, result);
            let m2 = if update_status == UpdateStatusFlags::UpdateStatusFlags {
                MachineView {
                    status: spec_merge_status(
                        m1.status,
                        Some(spec_sign(result)),
                        Some(result == 0),
                        Some(original + operand + carry_in > u32::MAX),
                        Some(
                            spec_sign(original) == spec_sign(operand) && spec_sign(original)
                                != spec_sign(result),
                        ),
                    ),
                    ..m1
                }
            } else {
                m1
            };
            StepOutcome { machine: m2, error: None }
        },
    }
}

/// Subtract: wrapping difference; when flags are updated, C is set when no
/// borrow occurred (result at most the source) and V reports signed
/// overflow of the subtraction.
pub open spec fn spec_execute_subtract(
    m: MachineView,
    args: ReadWriteDataArguments,
    update_status: UpdateStatusFlags,
) -> StepOutcome
    recommends
        machine_wf(m),
        args.wf(),
{
    match spec_get_read_write_data_arguments(m, args) {
        None => StepOutcome { machine: m, error: Some(ExecuteError::UnimplementedInstruction) },
        Some((destination_register, original, operand, _carry)) => {
            let result = u32_specs::wrapping_sub(original, operand);
            let m1 = spec_set_register(m, destination_register, result);
            let m2 = if update_status == UpdateStatusFlags::UpdateStatusFlags {
                MachineView {
                    status: spec_merge_status(
                        m1.status,
                        Some(spec_sign(result)),
                        Some(result == 0),
                        Some(result <= original),
                        Some(
                            spec_sign(original) != spec_sign(operand) && spec_sign(original)
                                != spec_sign(result),
                        ),
                    ),
                    ..m1
                }
            } else {
                m1
            };
            StepOutcome { machine: m2, error: None }
        },
    }
}

/// Bitwise or: when flags are updated, N and Z follow the result and C
/// takes the shifter carry, V untouched.
pub open spec fn spec_execute_or(
    m: MachineView,
    args: ReadWriteDataArguments,
    update_status: UpdateStatusFlags,
) -> StepOutcome
    recommends
        machine_wf(m),
        args.wf(),
{
    match spec_get_read_write_data_arguments(m, args) {
        None => StepOutcome { machine: m, error: Some(ExecuteError::UnimplementedInstruction) },
        Some((destination_register, original, operand, carry)) => {
            let result = original | operand;
            let m1 = spec_set_register(m, destination_register, result);
            let m2 = if update_status == UpdateStatusFlags::UpdateStatusFlags {
                MachineView {
                    status: spec_merge_status(
                        m1.status,
                        Some(spec_sign(result)),
                        Some(result == 0),
                        Some(carry),
                        None,
                    ),
                    ..m1
                }
            } else {
                m1
            };
            StepOutcome { machine: m2, error: None }
        },
    }
}

/// Bitwise and: as or.
pub open spec fn spec_execute_and(
    m: MachineView,
    args: ReadWriteDataArguments,
    update_status: UpdateStatusFlags,
) -> StepOutcome
    recommends
        machine_wf(m),
        args.wf(),
{
    match spec_get_read_write_data_arguments(m, args) {
        None => StepOutcome { machine: m, error: Some(ExecuteError::UnimplementedInstruction) },
        Some((destination_register, original, operand, carry)) => {
            let result = original & operand;
            let m1 = spec_set_register(m, destination_register, result);
            let m2 = if update_status == UpdateStatusFlags::UpdateStatusFlags {
                MachineView {
                    status: spec_merge_status(
                        m1.status,
                        Some(spec_sign(result)),
                        Some(result == 0),
                        Some(carry),
                        None,
                    ),
                    ..m1
                }
            } else {
                m1
            };
            StepOutcome { machine: m2, error: None }
        },
    }
}

/// Compare: the wrapping difference is discarded, and all four flags are
/// always updated, exactly as a flag-setting subtract would set them.
pub open spec fn spec_execute_compare(m: MachineView, args: DataArguments) -> StepOutcome
    recommends
        machine_wf(m),
        args.wf(),
{
    match spec_get_data_arguments(m, args) {
        None => StepOutcome { machine: m, error: Some(ExecuteError::UnimplementedInstruction) },
        Some((register, operand, _carry)) => {
            let original = spec_get_register(m, register);
            let result = u32_specs::wrapping_sub(original, operand);
            let m1 = MachineView {
                status: spec_merge_status(
                    m.status,
                    Some(spec_sign(result)),
                    Some(result == 0),
                    Some(result <= original),
                    Some(
                        spec_sign(original) != spec_sign(operand) && spec_sign(original)
                            != spec_sign(result),
                    ),
                ),
                ..m
            };
            StepOutcome { machine: m1, error: None }
        },
    }
}

/// Branch: the target is the fetch address plus the decoded offset (which
/// already carries the architectural +8 bias).  A linking branch first
/// stores the address of the next instruction in the link register.  A
/// branch whose target is its own fetch address halts the machine instead
/// of looping.
pub open spec fn spec_execute_branch(m: MachineView, address: i32, link: BranchLinkFlag) -> MachineView
    recommends
        machine_wf(m),
{
    let original_program_counter = m.registers[15];
    let m1 = if link == BranchLinkFlag::LinkReturnAddress {
        spec_set_register(m, 14, original_program_counter)
    } else {
        m
    };
    let fetch_address = u32_specs::wrapping_sub(original_program_counter, INSTRUCTION_SIZE);
    let destination = u32_specs::wrapping_add(fetch_address, address as u32);
    if destination == fetch_address {
        MachineView { halted: true, ..m1 }
    } else {
        spec_set_register(m1, 15, destination)
    }
}

/// Branch-exchange: the program counter takes the register's value as an
/// operand read observes it.
pub open spec fn spec_execute_branch_exchange(m: MachineView, register: Register) -> MachineView
    recommends
        machine_wf(m),
        register <= 15,
{
    spec_set_register(m, 15, spec_get_register(m, register))
}

/// Half-word move: the register takes the zero-extended 16-bit immediate.
pub open spec fn spec_execute_move_half_word(
    m: MachineView,
    args: LargeImmediateArguments,
) -> MachineView
    recommends
        machine_wf(m),
        args.wf(),
{
    spec_set_register(m, args.register, args.immediate as u32)
}

/// Half-word move-top: the high half of the register is replaced by the
/// immediate, the low half preserved.
pub open spec fn spec_execute_move_half_word_top(
    m: MachineView,
    args: LargeImmediateArguments,
) -> MachineView
    recommends
        machine_wf(m),
        args.wf(),
{
    let original = spec_get_register(m, args.register);
    spec_set_register(m, args.register, (original & 0x0000ffff) | ((args.immediate as u32) << 16))
}

/// The offset value of a load/store: the 12-bit immediate, or a register
/// value shifted by an immediate amount.  An amount of 32 yields 0 for a
/// logical right shift and the unchanged value for a rotate; arithmetic
/// right shift is not implemented (`None`).
pub open spec fn spec_ls_offset(m: MachineView, offset: LoadStoreOffset) -> Option<u32>
    recommends
        machine_wf(m),
        offset.wf(),
{
    match offset {
        LoadStoreOffset::Immediate(value) => Some(value as u32),
        LoadStoreOffset::Register(args) => {
            let base = spec_get_register(m, args.register);
            match args.shift_type {
                ShiftType::LogicalShiftLeft => Some(base << (args.shift_operand as u32)),
                ShiftType::LogicalShiftRight => Some(
                    if args.shift_operand == 32 {
                        0u32
                    } else {
                        base >> (args.shift_operand as u32)
                    },
                ),
                ShiftType::RotateRight => Some(
                    if args.shift_operand == 32 {
                        base
                    } else {
                        spec_rotate_right32(base, args.shift_operand as u32)
                    },
                ),
                ShiftType::ArithmeticShiftRight => None,
            }
        },
    }
}

/// The base address adjusted by the offset in the given direction, with
/// wrapping arithmetic.
pub open spec fn spec_apply_offset(
    address: u32,
    offset: u32,
    direction: LoadStoreOffsetDirection,
) -> u32 {
    match direction {
        LoadStoreOffsetDirection::Positive => u32_specs::wrapping_add(address, offset),
        LoadStoreOffsetDirection::Negative => u32_specs::wrapping_sub(address, offset),
    }
}

/// The value a load of the given size reads at `address`: zero-extended
/// into 32 bits for byte and half-word loads.  The double-word and signed
/// forms are not implemented.
pub open spec fn spec_load_value(m: MachineView, address: u32, size: LoadDataSize) -> Result<
    u32,
    ExecuteError,
>
    recommends
        machine_wf(m),
{
    match size {
        LoadDataSize::Word => if access_in_bounds(m.memory, address as int, 4) {
            Ok(spec_read_word(m.memory, address as int))
        } else {
            Err(ExecuteError::MemoryAccessFault { address })
        },
        LoadDataSize::Byte => if access_in_bounds(m.memory, address as int, 1) {
            Ok(m.memory[address as int] as u32)
        } else {
            Err(ExecuteError::MemoryAccessFault { address })
        },
        LoadDataSize::UnsignedHalfWord => if access_in_bounds(m.memory, address as int, 2) {
            Ok(spec_read_half_word(m.memory, address as int) as u32)
        } else {
            Err(ExecuteError::MemoryAccessFault { address })
        },
        _ => Err(ExecuteError::UnimplementedInstruction),
    }
}

/// Load: resolve the effective address (pre-indexing applies the offset
/// before the access), read the value, write the adjusted address back
/// into the address register when requested, then write the loaded value
/// into the value register.  A fault or unimplemented size aborts before
/// the write-back.
pub open spec fn spec_execute_load(m: MachineView, args: LoadArguments) -> StepOutcome
    recommends
        machine_wf(m),
        args.wf(),
{
    let common = args.common_arguments;
    let base = spec_get_register(m, common.address_register);
    match spec_ls_offset(m, common.offset) {
        None => StepOutcome { machine: m, error: Some(ExecuteError::UnimplementedInstruction) },
        Some(offset) => {
            let address = if common.indexing_type == LoadStoreIndexingType::PreIndexed {
                spec_apply_offset(base, offset, common.offset_direction)
            } else {
                base
            };
            match spec_load_value(m, address, args.data_size) {
                Err(e) => StepOutcome { machine: m, error: Some(e) },
                Ok(data) => {
                    let m1 = if common.write_back == LoadStoreWriteBackFlag::WriteBack {
                        let write_back_address = if common.indexing_type
                            == LoadStoreIndexingType::PreIndexed {
                            address
                        } else {
                            spec_apply_offset(address, offset, common.offset_direction)
                        };
                        spec_set_register(m, common.address_register, write_back_address)
                    } else {
                        m
                    };
                    let m2 = spec_set_register(m1, common.value_register, data);
                    StepOutcome { machine: m2, error: None }
                },
            }
        },
    }
}

/// Store: resolve the effective address as a load does, read the value
/// register, write the adjusted address back when requested, then write
/// the value to memory: the whole word for a word store, only the low
/// byte or half-word for the narrow stores, which leave the neighbouring
/// bytes of the containing word untouched.  A fault or the unimplemented
/// double-word size aborts after the write-back, which is already
/// applied.
pub open spec fn spec_execute_store(m: MachineView, args: StoreArguments) -> StepOutcome
    recommends
        machine_wf(m),
        args.wf(),
{
    let common = args.common_arguments;
    let base = spec_get_register(m, common.address_register);
    match spec_ls_offset(m, common.offset) {
        None => StepOutcome { machine: m, error: Some(ExecuteError::UnimplementedInstruction) },
        Some(offset) => {
            let address = if common.indexing_type == LoadStoreIndexingType::PreIndexed {
                spec_apply_offset(base, offset, common.offset_direction)
            } else {
                base
            };
            let data = spec_get_register(m, common.value_register);
            let m1 = if common.write_back == LoadStoreWriteBackFlag::WriteBack {
                let write_back_address = if common.indexing_type
                    == LoadStoreIndexingType::PreIndexed {
                    address
                } else {
                    spec_apply_offset(address, offset, common.offset_direction)
                };
                spec_set_register(m, common.address_register, write_back_address)
            } else {
                m
            };
            match args.data_size {
                StoreDataSize::Word => if access_in_bounds(m1.memory, address as int, 4) {
                    StepOutcome {
                        machine: MachineView {
                            memory: spec_write_word(m1.memory, address as int, data),
                            ..m1
                        },
                        error: None,
                    }
                } else {
                    StepOutcome {
                        machine: m1,
                        error: Some(ExecuteError::MemoryAccessFault { address }),
                    }
                },
                StoreDataSize::Byte => if access_in_bounds(m1.memory, address as int, 1) {
                    StepOutcome {
                        machine: MachineView {
                            memory: m1.memory.update(address as int, data as u8),
                            ..m1
                        },
                        error: None,
                    }
                } else {
                    StepOutcome {
                        machine: m1,
                        error: Some(ExecuteError::MemoryAccessFault { address }),
                    }
                },
                StoreDataSize::HalfWord => if access_in_bounds(m1.memory, address as int, 2) {
                    StepOutcome {
                        machine: MachineView {
                            memory: spec_write_half_word(m1.memory, address as int, data as u16),
                            ..m1
                        },
                        error: None,
                    }
                } else {
                    StepOutcome {
                        machine: m1,
                        error: Some(ExecuteError::MemoryAccessFault { address }),
                    }
                },
                StoreDataSize::DoubleWord => StepOutcome {
                    machine: m1,
                    error: Some(ExecuteError::UnimplementedInstruction),
                },
            }
        },
    }
}

/// Lifts a step outcome into a full outcome that produces no output.
pub open spec fn outcome_of_step(step: StepOutcome) -> ExecOutcome {
    ExecOutcome {
        machine: step.machine,
        result: match step.error {
            None => Ok(None),
            Some(e) => Err(e),
        },
    }
}

/// The transition of one operation against an already-advanced machine.
pub open spec fn spec_execute_data(m: MachineView, data: InstructionData) -> ExecOutcome
    recommends
        machine_wf(m),
        data.wf(),
{
    match data {
        InstructionData::Add(args, update_status) => outcome_of_step(
            spec_execute_add(m, args, update_status),
        ),
        InstructionData::AddWithCarry(args, update_status) => outcome_of_step(
            spec_execute_add_with_carry(m, args, update_status),
        ),
        InstructionData::And(args, update_status) => outcome_of_step(
            spec_execute_and(m, args, update_status),
        ),
        InstructionData::Branch(address, link) => ExecOutcome {
            machine: spec_execute_branch(m, address, link),
            result: Ok(None),
        },
        InstructionData::BranchExchange(register) => ExecOutcome {
            machine: spec_execute_branch_exchange(m, register),
            result: Ok(None),
        },
        InstructionData::Compare(args) => outcome_of_step(spec_execute_compare(m, args)),
        InstructionData::Load(args) => outcome_of_step(spec_execute_load(m, args)),
        InstructionData::Move(args, update_status) => outcome_of_step(
            spec_execute_move(m, args, update_status),
        ),
        InstructionData::MoveHalfWord(args) => ExecOutcome {
            machine: spec_execute_move_half_word(m, args),
            result: Ok(None),
        },
        InstructionData::MoveNot(args, update_status) => outcome_of_step(
            spec_execute_move_not(m, args, update_status),
        ),
        InstructionData::MoveTop(args) => ExecOutcome {
            machine: spec_execute_move_half_word_top(m, args),
            result: Ok(None),
        },
        InstructionData::Or(args, update_status) => outcome_of_step(
            spec_execute_or(m, args, update_status),
        ),
        InstructionData::SupervisorCall(immediate) => if immediate != 0 {
            ExecOutcome {
                machine: m,
                result: Err(ExecuteError::UnsupportedSupervisorCall { immediate }),
            }
        } else {
            syscall::spec_system_call(m)
        },
        InstructionData::Store(args) => outcome_of_step(spec_execute_store(m, args)),
        InstructionData::Subtract(args, update_status) => outcome_of_step(
            spec_execute_subtract(m, args, update_status),
        ),
    }
}

/// One full step: the program counter is advanced by one instruction
/// width unconditionally before anything else; then, when the condition
/// does not hold of the flags, nothing further happens; otherwise the
/// operation's transition is applied.
pub open spec fn spec_execute(m: MachineView, instr: Instruction) -> ExecOutcome
    recommends
        machine_wf(m),
        instruction_wf(instr),
{
    let m1 = spec_set_register(m, 15, u32_specs::wrapping_add(m.registers[15], INSTRUCTION_SIZE));
    if !spec_condition_met(instr.0, m1.status) {
        ExecOutcome { machine: m1, result: Ok(None) }
    } else {
        spec_execute_data(m1, instr.1)
    }
}

/// Executes one decoded instruction: advances the program counter,
/// evaluates the condition and applies the operation.  On success the
/// result carries the bytes the caller must write to standard output, if
/// the instruction was a write system call; the executor itself never
/// prints and never exits.
pub fn execute(context: &mut CpuContext, instr: Instruction) -> (r: Result<
    Option<Vec<u8>>,
    ExecuteError,
>)
    requires
        old(context).wf(),
        instruction_wf(instr),
    ensures
        final(context).wf(),
        final(context)@ == spec_execute(old(context)@, instr).machine,
        output_matches(r, spec_execute(old(context)@, instr).result),
{
    let program_counter = context.get_program_counter();
    context.set_program_counter(program_counter.wrapping_add(INSTRUCTION_SIZE));
    if !is_condition_met(context, &instr.0) {
        return Ok(None);
    }
    match instr.1 {
        InstructionData::Add(args, update_status) => lift_step(
            execute_add(context, &args, update_status),
        ),
        InstructionData::AddWithCarry(args, update_status) => lift_step(
            execute_add_with_carry(context, &args, update_status),
        ),
        InstructionData::And(args, update_status) => lift_step(
            execute_and(context, &args, update_status),
        ),
        InstructionData::Branch(address, link) => {
            execute_branch(context, address, link);
            Ok(None)
        },
        InstructionData::BranchExchange(register) => {
            execute_branch_exchange(context, register);
            Ok(None)
        },
        InstructionData::Compare(args) => lift_step(execute_compare(context, &args)),
        InstructionData::Load(args) => lift_step(execute_load(context, &args)),
        InstructionData::Move(args, update_status) => lift_step(
            execute_move(context, &args, update_status),
        ),
        InstructionData::MoveHalfWord(args) => {
            execute_move_half_word(context, &args);
            Ok(None)
        },
        InstructionData::MoveNot(args, update_status) => lift_step(
            execute_move_not(context, &args, update_status),
        ),
        InstructionData::MoveTop(args) => {
            execute_move_half_word_top(context, &args);
            Ok(None)
        },
        InstructionData::Or(args, update_status) => lift_step(
            execute_or(context, &args, update_status),
        ),
        InstructionData::SupervisorCall(immediate) => execute_supervisor_call(context, immediate),
        InstructionData::Store(args) => lift_step(execute_store(context, &args)),
        InstructionData::Subtract(args, update_status) => lift_step(
            execute_subtract(context, &args, update_status),
        ),
    }
}

/// Turns the unit result of a single operation into the result of a full
/// step, which carries no output bytes.
fn lift_step(step: Result<(), ExecuteError>) -> (r: Result<Option<Vec<u8>>, ExecuteError>)
    ensures
        match (step, r) {
            (Ok(()), Ok(None)) => true,
            (Err(e1), Err(e2)) => e1 == e2,
            _ => false,
        },
{
    match step {
        Ok(()) => Ok(None),
        Err(e) => Err(e),
    }
}

/// Whether the instruction's condition holds of the current flags,
/// following the condition truth table.
pub fn is_condition_met(context: &CpuContext, condition: &Condition) -> (r: bool)
    ensures
        r == spec_condition_met(*condition, context@.status),
{
    let status = context.get_status();
    match condition {
        Condition::Equal => status.zero,
        Condition::NotEqual => !status.zero,
        Condition::CarrySet => status.carry,
        Condition::CarryClear => !status.carry,
        Condition::Negative => status.negative,
        Condition::Positive => !status.negative,
        Condition::Overflow => status.overflow,
        Condition::NoOverflow => !status.overflow,
        Condition::UnsignedHigher => status.carry && !status.zero,
        Condition::UnsignedLowerOrSame => !status.carry || status.zero,
        Condition::GreaterThanOrEqual => status.negative == status.overflow,
        Condition::LessThan => status.negative != status.overflow,
        Condition::GreaterThan => !status.zero && status.negative == status.overflow,
        Condition::LessThanOrEqual => status.zero || status.negative != status.overflow,
        Condition::Always => true,
    }
}

/// Bit 31 of `value`.
pub fn get_sign(value: u32) -> (r: bool)
    ensures
        r == spec_sign(value),
{
    (value & 0x80000000) != 0
}

/// The barrel shifter's logical left shift; `carry_in` is the prior carry
/// flag, returned unchanged for a shift by 0.
pub fn logical_shift_left(value: u32, bits: u8, carry_in: bool) -> (r: (u32, bool))
    ensures
        r == spec_logical_shift_left(value, bits, carry_in),
{
    if bits == 0 {
        (value, carry_in)
    } else if bits < 32 {
        ((value << (bits as u32)), (value & (1u32 << ((32 - bits) as u32))) != 0)
    } else if bits > 32 {
        (0, false)
    } else {
        (0, (value & 1) != 0)
    }
}

/// The barrel shifter's logical right shift, mirroring the left shift.
pub fn logical_shift_right(value: u32, bits: u8, carry_in: bool) -> (r: (u32, bool))
    ensures
        r == spec_logical_shift_right(value, bits, carry_in),
{
    if bits == 0 {
        (value, carry_in)
    } else if bits < 32 {
        ((value >> (bits as u32)), (value & (1u32 << ((bits - 1) as u32))) != 0)
    } else if bits > 32 {
        (0, false)
    } else {
        (0, get_sign(value))
    }
}

/// Resolves a shifted register operand to its value and carry, or reports
/// the shift types the executor does not implement.
pub fn apply_shift_operand(
    context: &CpuContext,
    register: u8,
    shift_type: &ShiftType,
    shift_operand: &ShiftOperand,
) -> (r: Result<(u32, bool), ExecuteError>)
    requires
        context.wf(),
        register <= 15,
        shift_operand.wf(),
    ensures
        match spec_apply_shift_operand(context@, register, *shift_type, *shift_operand) {
            Some(value_carry) => r == Ok::<(u32, bool), ExecuteError>(value_carry),
            None => r == Err::<(u32, bool), ExecuteError>(ExecuteError::UnimplementedInstruction),
        },
{
    let raw = context.get_register(register);
    let amount = match shift_operand {
        ShiftOperand::Immediate(immediate) => *immediate,
        ShiftOperand::Register(amount_register) => #[verifier::truncate] (context.get_register(
            *amount_register,
        ) as u8),
    };
    match shift_type {
        ShiftType::LogicalShiftLeft => Ok(
            logical_shift_left(raw, amount, context.get_status().carry),
        ),
        ShiftType::LogicalShiftRight => Ok(
            logical_shift_right(raw, amount, context.get_status().carry),
        ),
        _ => Err(ExecuteError::UnimplementedInstruction),
    }
}

/// Resolves the operands of a one-register data operation.
pub fn get_data_arguments(context: &CpuContext, args: &DataArguments) -> (r: Result<
    (Register, u32, bool),
    ExecuteError,
>)
    requires
        context.wf(),
        args.wf(),
    ensures
        match spec_get_data_arguments(context@, *args) {
            Some(t) => r == Ok::<(Register, u32, bool), ExecuteError>(t),
            None => r == Err::<(Register, u32, bool), ExecuteError>(
                ExecuteError::UnimplementedInstruction,
            ),
        },
{
    match args {
        DataArguments::Immediate(a) => {
            let carry = if a.rotate == 0 {
                context.get_status().carry
            } else {
                a.carry
            };
            Ok((a.register, a.immediate, carry))
        },
        DataArguments::Register(a) => {
            match apply_shift_operand(context, a.operand_register, &a.shift_type, &a.shift_operand) {
                Ok((operand, carry)) => Ok((a.register, operand, carry)),
                Err(e) => Err(e),
            }
        },
    }
}

/// Resolves the operands of a two-register ALU operation.
pub fn get_read_write_data_arguments(context: &CpuContext, args: &ReadWriteDataArguments) -> (r:
    Result<(Register, u32, u32, bool), ExecuteError>)
    requires
        context.wf(),
        args.wf(),
    ensures
        match spec_get_read_write_data_arguments(context@, *args) {
            Some(t) => r == Ok::<(Register, u32, u32, bool), ExecuteError>(t),
            None => r == Err::<(Register, u32, u32, bool), ExecuteError>(
                ExecuteError::UnimplementedInstruction,
            ),
        },
{
    match args {
        ReadWriteDataArguments::Immediate(a) => {
            let original = context.get_register(a.source_register);
            Ok((a.destination_register, original, a.immediate, a.carry))
        },
        ReadWriteDataArguments::Register(a) => {
            let original = context.get_register(a.source_register);
            match apply_shift_operand(context, a.operand_register, &a.shift_type, &a.shift_operand) {
                Ok((operand, carry)) => Ok((a.destination_register, original, operand, carry)),
                Err(e) => Err(e),
            }
        },
    }
}

/// Executes a move.
pub fn execute_move(
    context: &mut CpuContext,
    args: &DataArguments,
    update_status: UpdateStatusFlags,
) -> (r: Result<(), ExecuteError>)
    requires
        old(context).wf(),
        args.wf(),
    ensures
        final(context).wf(),
        final(context)@ == spec_execute_move(old(context)@, *args, update_status).machine,
        r == step_result(spec_execute_move(old(context)@, *args, update_status)),
{
    let (register, value, carry) = match get_data_arguments(context, args) {
        Ok(t) => t,
        Err(e) => {
            return Err(e);
        },
    };
    context.set_register(register, value);
    if matches!(update_status, UpdateStatusFlags::UpdateStatusFlags) {
        context.set_status(Some(get_sign(value)), Some(value == 0), Some(carry), None);
    }
    Ok(())
}

/// Executes a move-not.
pub fn execute_move_not(
    context: &mut CpuContext,
    args: &DataArguments,
    update_status: UpdateStatusFlags,
) -> (r: Result<(), ExecuteError>)
    requires
        old(context).wf(),
        args.wf(),
    ensures
        final(context).wf(),
        final(context)@ == spec_execute_move_not(old(context)@, *args, update_status).machine,
        r == step_result(spec_execute_move_not(old(context)@, *args, update_status)),
{
    let (register, raw_value, carry) = match get_data_arguments(context, args) {
        Ok(t) => t,
        Err(e) => {
            return Err(e);
        },
    };
    let value = !raw_value;
    context.set_register(register, value);
    if matches!(update_status, UpdateStatusFlags::UpdateStatusFlags) {
        context.set_status(Some(get_sign(value)), Some(value == 0), Some(carry), None);
    }
    Ok(())
}

/// Executes an add.
pub fn execute_add(
    context: &mut CpuContext,
    args: &ReadWriteDataArguments,
    update_status: UpdateStatusFlags,
) -> (r: Result<(), ExecuteError>)
    requires
        old(context).wf(),
        args.wf(),
    ensures
        final(context).wf(),
        final(context)@ == spec_execute_add(old(context)@, *args, update_status).machine,
        r == step_result(spec_execute_add(old(context)@, *args, update_status)),
{
    let (destination_register, original, operand, _carry) = match get_read_write_data_arguments(
        context,
        args,
    ) {
        Ok(t) => t,
        Err(e) => {
            return Err(e);
        },
    };
    let result = original.wrapping_add(operand);
    context.set_register(destination_register, result);
    if matches!(update_status, UpdateStatusFlags::UpdateStatusFlags) {
        let unsigned_overflow = (original as u64) + (operand as u64) > (u32::MAX as u64);
        let signed_overflow = get_sign(original) == get_sign(operand) && get_sign(original)
            != get_sign(result);
        context.set_status(
            Some(get_sign(result)),
            Some(result == 0),
            Some(unsigned_overflow),
            Some(signed_overflow),
        );
    }
    Ok(())
}

/// Executes an add-with-carry.
pub fn execute_add_with_carry(
    context: &mut CpuContext,
    args: &ReadWriteDataArguments,
    update_status: UpdateStatusFlags,
) -> (r: Result<(), ExecuteError>)
    requires
        old(context).wf(),
        args.wf(),
    ensures
        final(context).wf(),
        final(context)@ == spec_execute_add_with_carry(old(context)@, *args, update_status).machine,
        r == step_result(spec_execute_add_with_carry(old(context)@, *args, update_status)),
{
    let (destination_register, original, operand, _carry) = match get_read_write_data_arguments(
        context,
        args,
    ) {
        Ok(t) => t,
        Err(e) => {
            return Err(e);
        },
    };
    let carry_in: u32 = if context.get_status().carry {
        1
    } else {
        0
    };
    let result = original.wrapping_add(operand).wrapping_add(carry_in);
    context.set_register(destination_register, result);
    if matches!(update_status, UpdateStatusFlags::UpdateStatusFlags) {
        let unsigned_overflow = (original as u64) + (operand as u64) + (carry_in as u64) > (
        u32::MAX as u64);
        let signed_overflow = get_sign(original) == get_sign(operand) && get_sign(original)
            != get_sign(result);
        context.set_status(
            Some(get_sign(result)),
            Some(result == 0),
            Some(unsigned_overflow),
            Some(signed_overflow),
        );
    }
    Ok(())
}

/// Executes a subtract.
pub fn execute_subtract(
    context: &mut CpuContext,
    args: &ReadWriteDataArguments,
    update_status: UpdateStatusFlags,
) -> (r: Result<(), ExecuteError>)
    requires
        old(context).wf(),
        args.wf(),
    ensures
        final(context).wf(),
        final(context)@ == spec_execute_subtract(old(context)@, *args, update_status).machine,
        r == step_result(spec_execute_subtract(old(context)@, *args, update_status)),
{
    let (destination_register, original, operand, _carry) = match get_read_write_data_arguments(
        context,
        args,
    ) {
        Ok(t) => t,
        Err(e) => {
            return Err(e);
        },
    };
    let result = original.wrapping_sub(operand);
    context.set_register(destination_register, result);
    if matches!(update_status, UpdateStatusFlags::UpdateStatusFlags) {
        let signed_overflow = get_sign(original) != get_sign(operand) && get_sign(original)
            != get_sign(result);
        context.set_status(
            Some(get_sign(result)),
            Some(result == 0),
            Some(result <= original),
            Some(signed_overflow),
        );
    }
    Ok(())
}

/// Executes a bitwise or.
pub fn execute_or(
    context: &mut CpuContext,
    args: &ReadWriteDataArguments,
    update_status: UpdateStatusFlags,
) -> (r: Result<(), ExecuteError>)
    requires
        old(context).wf(),
        args.wf(),
    ensures
        final(context).wf(),
        final(context)@ == spec_execute_or(old(context)@, *args, update_status).machine,
        r == step_result(spec_execute_or(old(context)@, *args, update_status)),
{
    let (destination_register, original, operand, carry) = match get_read_write_data_arguments(
        context,
        args,
    ) {
        Ok(t) => t,
        Err(e) => {
            return Err(e);
        },
    };
    let result = original | operand;
    context.set_register(destination_register, result);
    if matches!(update_status, UpdateStatusFlags::UpdateStatusFlags) {
        context.set_status(Some(get_sign(result)), Some(result == 0), Some(carry), None);
    }
    Ok(())
}

/// Executes a bitwise and.
pub fn execute_and(
    context: &mut CpuContext,
    args: &ReadWriteDataArguments,
    update_status: UpdateStatusFlags,
) -> (r: Result<(), ExecuteError>)
    requires
        old(context).wf(),
        args.wf(),
    ensures
        final(context).wf(),
        final(context)@ == spec_execute_and(old(context)@, *args, update_status).machine,
        r == step_result(spec_execute_and(old(context)@, *args, update_status)),
{
    let (destination_register, original, operand, carry) = match get_read_write_data_arguments(
        context,
        args,
    ) {
        Ok(t) => t,
        Err(e) => {
            return Err(e);
        },
    };
    let result = original & operand;
    context.set_register(destination_register, result);
    if matches!(update_status, UpdateStatusFlags::UpdateStatusFlags) {
        context.set_status(Some(get_sign(result)), Some(result == 0), Some(carry), None);
    }
    Ok(())
}

/// Executes a compare; the difference is discarded and the flags are
/// always updated.
pub fn execute_compare(context: &mut CpuContext, args: &DataArguments) -> (r: Result<
    (),
    ExecuteError,
>)
    requires
        old(context).wf(),
        args.wf(),
    ensures
        final(context).wf(),
        final(context)@ == spec_execute_compare(old(context)@, *args).machine,
        r == step_result(spec_execute_compare(old(context)@, *args)),
{
    let (register, operand, _carry) = match get_data_arguments(context, args) {
        Ok(t) => t,
        Err(e) => {
            return Err(e);
        },
    };
    let original = context.get_register(register);
    let result = original.wrapping_sub(operand);
    let signed_overflow = get_sign(original) != get_sign(operand) && get_sign(original) != get_sign(
        result,
    );
    context.set_status(
        Some(get_sign(result)),
        Some(result == 0),
        Some(result <= original),
        Some(signed_overflow),
    );
    Ok(())
}

/// Executes a branch.  The decoded offset is relative to the fetch
/// address; a branch to its own fetch address halts the machine.
pub fn execute_branch(context: &mut CpuContext, address: i32, link: BranchLinkFlag)
    requires
        old(context).wf(),
    ensures
        final(context).wf(),
        final(context)@ == spec_execute_branch(old(context)@, address, link),
{
    let original_program_counter = context.get_program_counter();
    if matches!(link, BranchLinkFlag::LinkReturnAddress) {
        context.set_register(CpuContext::get_link_return_register(), original_program_counter);
    }
    let fetch_address = original_program_counter.wrapping_sub(INSTRUCTION_SIZE);
    let destination = fetch_address.wrapping_add(#[verifier::truncate] (address as u32));
    if destination == fetch_address {
        context.halt();
    } else {
        context.set_program_counter(destination);
    }
}

/// Executes a branch-exchange: the program counter takes the register's
/// observed value.
pub fn execute_branch_exchange(context: &mut CpuContext, register: Register)
    requires
        old(context).wf(),
        register <= 15,
    ensures
        final(context).wf(),
        final(context)@ == spec_execute_branch_exchange(old(context)@, register),
{
    let destination_address = context.get_register(register);
    context.set_program_counter(destination_address);
}

/// Executes a half-word move.
pub fn execute_move_half_word(context: &mut CpuContext, args: &LargeImmediateArguments)
    requires
        old(context).wf(),
        args.wf(),
    ensures
        final(context).wf(),
        final(context)@ == spec_execute_move_half_word(old(context)@, *args),
{
    context.set_register(args.register, args.immediate as u32);
}

/// Executes a half-word move-top: the high half replaced, the low half
/// preserved.
pub fn execute_move_half_word_top(context: &mut CpuContext, args: &LargeImmediateArguments)
    requires
        old(context).wf(),
        args.wf(),
    ensures
        final(context).wf(),
        final(context)@ == spec_execute_move_half_word_top(old(context)@, *args),
{
    let original = context.get_register(args.register);
    let value = (original & 0x0000ffff) | ((args.immediate as u32) << 16u32);
    context.set_register(args.register, value);
}

/// The offset adjusted address, with wrapping arithmetic.
pub fn apply_offset(address: u32, offset: u32, direction: LoadStoreOffsetDirection) -> (r: u32)
    ensures
        r == spec_apply_offset(address, offset, direction),
{
    match direction {
        LoadStoreOffsetDirection::Positive => address.wrapping_add(offset),
        LoadStoreOffsetDirection::Negative => address.wrapping_sub(offset),
    }
}

/// `value` rotated right by `amount` bit positions.
pub fn rotate_right_word(value: u32, amount: u32) -> (r: u32)
    requires
        amount < 32,
    ensures
        r == spec_rotate_right32(value, amount),
{
    if amount == 0 {
        value
    } else {
        (value >> amount) | (value << (32 - amount))
    }
}

/// Resolves a load/store offset to its value, or reports the arithmetic
/// right shift, which the executor does not implement.
pub fn get_load_store_offset(context: &CpuContext, offset: &LoadStoreOffset) -> (r: Result<
    u32,
    ExecuteError,
>)
    requires
        context.wf(),
        offset.wf(),
    ensures
        match spec_ls_offset(context@, *offset) {
            Some(value) => r == Ok::<u32, ExecuteError>(value),
            None => r == Err::<u32, ExecuteError>(ExecuteError::UnimplementedInstruction),
        },
{
    match offset {
        LoadStoreOffset::Immediate(value) => Ok(*value as u32),
        LoadStoreOffset::Register(args) => {
            let base = context.get_register(args.register);
            let amount = args.shift_operand as u32;
            match args.shift_type {
                ShiftType::LogicalShiftLeft => Ok(base << amount),
                ShiftType::LogicalShiftRight => Ok(
                    if amount == 32 {
                        0
                    } else {
                        base >> amount
                    },
                ),
                ShiftType::RotateRight => Ok(
                    if amount == 32 {
                        base
                    } else {
                        rotate_right_word(base, amount)
                    },
                ),
                ShiftType::ArithmeticShiftRight => Err(ExecuteError::UnimplementedInstruction),
            }
        },
    }
}

/// Executes a load.
pub fn execute_load(context: &mut CpuContext, args: &LoadArguments) -> (r: Result<
    (),
    ExecuteError,
>)
    requires
        old(context).wf(),
        args.wf(),
    ensures
        final(context).wf(),
        final(context)@ == spec_execute_load(old(context)@, *args).machine,
        r == step_result(spec_execute_load(old(context)@, *args)),
{
    let base = context.get_register(args.common_arguments.address_register);
    let offset = match get_load_store_offset(context, &args.common_arguments.offset) {
        Ok(value) => value,
        Err(e) => {
            return Err(e);
        },
    };
    let address = if matches!(args.common_arguments.indexing_type, LoadStoreIndexingType::PreIndexed) {
        apply_offset(base, offset, args.common_arguments.offset_direction)
    } else {
        base
    };
    let data = match args.data_size {
        LoadDataSize::Word => match context.read_word(address) {
            Ok(value) => value,
            Err(fault) => {
                return Err(ExecuteError::MemoryAccessFault { address: fault.address });
            },
        },
        LoadDataSize::Byte => match context.read_byte(address) {
            Ok(value) => value as u32,
            Err(fault) => {
                return Err(ExecuteError::MemoryAccessFault { address: fault.address });
            },
        },
        LoadDataSize::UnsignedHalfWord => match context.read_half_word(address) {
            Ok(value) => value as u32,
            Err(fault) => {
                return Err(ExecuteError::MemoryAccessFault { address: fault.address });
            },
        },
        _ => {
            return Err(ExecuteError::UnimplementedInstruction);
        },
    };
    if matches!(args.common_arguments.write_back, LoadStoreWriteBackFlag::WriteBack) {
        let write_back_address = if matches!(
            args.common_arguments.indexing_type,
            LoadStoreIndexingType::PreIndexed,
        ) {
            address
        } else {
            apply_offset(address, offset, args.common_arguments.offset_direction)
        };
        context.set_register(args.common_arguments.address_register, write_back_address);
    }
    context.set_register(args.common_arguments.value_register, data);
    Ok(())
}

/// Executes a store.
pub fn execute_store(context: &mut CpuContext, args: &StoreArguments) -> (r: Result<
    (),
    ExecuteError,
>)
    requires
        old(context).wf(),
        args.wf(),
    ensures
        final(context).wf(),
        final(context)@ == spec_execute_store(old(context)@, *args).machine,
        r == step_result(spec_execute_store(old(context)@, *args)),
{
    let base = context.get_register(args.common_arguments.address_register);
    let offset = match get_load_store_offset(context, &args.common_arguments.offset) {
        Ok(value) => value,
        Err(e) => {
            return Err(e);
        },
    };
    let address = if matches!(args.common_arguments.indexing_type, LoadStoreIndexingType::PreIndexed) {
        apply_offset(base, offset, args.common_arguments.offset_direction)
    } else {
        base
    };
    let data = context.get_register(args.common_arguments.value_register);
    if matches!(args.common_arguments.write_back, LoadStoreWriteBackFlag::WriteBack) {
        let write_back_address = if matches!(
            args.common_arguments.indexing_type,
            LoadStoreIndexingType::PreIndexed,
        ) {
            address
        } else {
            apply_offset(address, offset, args.common_arguments.offset_direction)
        };
        context.set_register(args.common_arguments.address_register, write_back_address);
    }
    let write_result = match args.data_size {
        StoreDataSize::Word => context.write_word(address, data),
        StoreDataSize::Byte => context.write_byte(address, #[verifier::truncate] (data as u8)),
        StoreDataSize::HalfWord => context.write_half_word(
            address,
            #[verifier::truncate] (data as u16),
        ),
        StoreDataSize::DoubleWord => {
            return Err(ExecuteError::UnimplementedInstruction);
        },
    };
    match write_result {
        Ok(()) => Ok(()),
        Err(fault) => Err(ExecuteError::MemoryAccessFault { address: fault.address }),
    }
}

/// Executes a supervisor call: only the system-call marker (immediate 0)
/// is supported; it dispatches to the system-call layer.
pub fn execute_supervisor_call(context: &mut CpuContext, immediate: u32) -> (r: Result<
    Option<Vec<u8>>,
    ExecuteError,
>)
    requires
        old(context).wf(),
    ensures
        final(context).wf(),
        final(context)@ == (if immediate != 0 {
            old(context)@
        } else {
            syscall::spec_system_call(old(context)@).machine
        }),
        (immediate != 0 ==> r == Err::<Option<Vec<u8>>, ExecuteError>(
            ExecuteError::UnsupportedSupervisorCall { immediate },
        )),
        (immediate == 0 ==> output_matches(r, syscall::spec_system_call(old(context)@).result)),
{
    if immediate != 0 {
        return Err(ExecuteError::UnsupportedSupervisorCall { immediate });
    }
    syscall::execute_system_call(context)
}

/// A branch whose computed target equals its own fetch address halts the
/// machine and changes nothing else but the program counter and, for a
/// linking branch, the link register: memory, flags and the outcome are
/// those of a successful step, with no further execution.
pub proof fn lemma_self_branch_halts(
    m: MachineView,
    offset: i32,
    link: BranchLinkFlag,
    condition: Condition,
)
    requires
        machine_wf(m),
        spec_condition_met(condition, m.status),
        u32_specs::wrapping_add(m.registers[15], offset as u32) == m.registers[15],
    ensures
        spec_execute(m, (condition, InstructionData::Branch(offset, link))).machine.halted,
        spec_execute(m, (condition, InstructionData::Branch(offset, link))).machine.memory
            == m.memory,
        spec_execute(m, (condition, InstructionData::Branch(offset, link))).machine.status
            == m.status,
        spec_execute(m, (condition, InstructionData::Branch(offset, link))).result
            == Ok::<Option<Seq<u8>>, ExecuteError>(None),
{
    let m1 = spec_set_register(m, 15, u32_specs::wrapping_add(m.registers[15], INSTRUCTION_SIZE));
    assert(m1.registers[15] == u32_specs::wrapping_add(m.registers[15], 4));
    assert(u32_specs::wrapping_sub(u32_specs::wrapping_add(m.registers[15], 4), 4)
        == m.registers[15]);
}

/// A post-indexed load that writes back (as every decoded post-indexed
/// load does) and loads into a register other than its address register
/// leaves the address register holding the base address adjusted by the
/// offset, whenever the load itself succeeds.
pub proof fn lemma_post_indexed_load_writes_back(m: MachineView, args: LoadArguments)
    requires
        machine_wf(m),
        args.wf(),
        args.common_arguments.indexing_type == LoadStoreIndexingType::PostIndexed,
        args.common_arguments.write_back == LoadStoreWriteBackFlag::WriteBack,
        args.common_arguments.value_register != args.common_arguments.address_register,
        spec_execute_load(m, args).error is None,
    ensures
        spec_execute_load(m, args).machine.registers[args.common_arguments.address_register as int]
            == spec_apply_offset(
            spec_get_register(m, args.common_arguments.address_register),
            spec_ls_offset(m, args.common_arguments.offset)->Some_0,
            args.common_arguments.offset_direction,
        ),
{
}

} // verus!
