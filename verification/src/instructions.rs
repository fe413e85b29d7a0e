//! The instruction model: the tagged-union representation of a decoded
//! instruction and its operand shapes.  Pure data, no behaviour.
//!
//! Register indices, shift amounts and immediates are carried in the
//! narrowest ordinary integer type that holds them; the well-formedness
//! predicates below pin down the exact ranges the decoder produces and the
//! executor relies on.

use vstd::prelude::*;

verus! {

/// A register index.  Valid indices are `0..=15`; register 14 is the
/// conventional link register and register 15 the program counter.
pub type Register = u8;

/// True iff `r` names one of the sixteen general-purpose registers.
pub open spec fn register_wf(r: Register) -> bool {
    r <= 15
}

/// The condition field of an instruction, one variant per defined 4-bit
/// condition code.  The sixteenth code (`0xF`) is reserved and is rejected
/// by the decoder.
#[derive(Clone, Copy, Debug, PartialEq, Eq, Structural)]
pub enum Condition {
    Equal,
    NotEqual,
    CarrySet,
    CarryClear,
    Negative,
    Positive,
    Overflow,
    NoOverflow,
    UnsignedHigher,
    UnsignedLowerOrSame,
    GreaterThanOrEqual,
    LessThan,
    GreaterThan,
    LessThanOrEqual,
    Always,
}

/// Where the shift amount of a register-form operand comes from: a 5-bit
/// immediate, or the low byte of a register.
#[derive(Clone, Copy, Debug, PartialEq, Eq, Structural)]
pub enum ShiftOperand {
    Immediate(u8),
    Register(Register),
}

impl ShiftOperand {
    pub open spec fn wf(self) -> bool {
        match self {
            ShiftOperand::Immediate(amount) => amount <= 31,
            ShiftOperand::Register(r) => register_wf(r),
        }
    }
}

/// The four shift operations of the barrel shifter.
#[derive(Clone, Copy, Debug, PartialEq, Eq, Structural)]
pub enum ShiftType {
    LogicalShiftLeft,
    LogicalShiftRight,
    ArithmeticShiftRight,
    RotateRight,
}

/// Immediate operand of a two-register ALU operation: the 8-bit immediate
/// already rotated into place, the carry the rotation produced, and the
/// rotate amount (even, `0..=30`) used to tell whether that carry is
/// meaningful.
#[derive(Clone, Copy, Debug, PartialEq, Eq, Structural)]
pub struct ReadWriteImmediateDataArguments {
    pub source_register: Register,
    pub destination_register: Register,
    pub immediate: u32,
    pub carry: bool,
    pub rotate: u8,
}

impl ReadWriteImmediateDataArguments {
    pub open spec fn wf(self) -> bool {
        register_wf(self.source_register) && register_wf(self.destination_register)
            && self.rotate <= 30
    }
}

/// Register operand of a two-register ALU operation: the operand register
/// and the shift applied to its value.
#[derive(Clone, Copy, Debug, PartialEq, Eq, Structural)]
pub struct ReadWriteRegisterDataArguments {
    pub source_register: Register,
    pub destination_register: Register,
    pub operand_register: Register,
    pub shift_type: ShiftType,
    pub shift_operand: ShiftOperand,
}

impl ReadWriteRegisterDataArguments {
    pub open spec fn wf(self) -> bool {
        register_wf(self.source_register) && register_wf(self.destination_register)
            && register_wf(self.operand_register) && self.shift_operand.wf()
    }
}

/// Operands of an ALU operation that reads a source register and writes a
/// destination register.
#[derive(Clone, Copy, Debug, PartialEq, Eq, Structural)]
pub enum ReadWriteDataArguments {
    Immediate(ReadWriteImmediateDataArguments),
    Register(ReadWriteRegisterDataArguments),
}

impl ReadWriteDataArguments {
    pub open spec fn wf(self) -> bool {
        match self {
            ReadWriteDataArguments::Immediate(a) => a.wf(),
            ReadWriteDataArguments::Register(a) => a.wf(),
        }
    }
}

/// Immediate operand of a one-register data operation (move, compare).
#[derive(Clone, Copy, Debug, PartialEq, Eq, Structural)]
pub struct ImmediateDataArguments {
    pub register: Register,
    pub immediate: u32,
    pub carry: bool,
    pub rotate: u8,
}

impl ImmediateDataArguments {
    pub open spec fn wf(self) -> bool {
        register_wf(self.register) && self.rotate <= 30
    }
}

/// Register operand of a one-register data operation (move, compare).
#[derive(Clone, Copy, Debug, PartialEq, Eq, Structural)]
pub struct RegisterDataArguments {
    pub register: Register,
    pub operand_register: Register,
    pub shift_type: ShiftType,
    pub shift_operand: ShiftOperand,
}

impl RegisterDataArguments {
    pub open spec fn wf(self) -> bool {
        register_wf(self.register) && register_wf(self.operand_register)
            && self.shift_operand.wf()
    }
}

/// Operands of a data operation with a single named register.
#[derive(Clone, Copy, Debug, PartialEq, Eq, Structural)]
pub enum DataArguments {
    Immediate(ImmediateDataArguments),
    Register(RegisterDataArguments),
}

impl DataArguments {
    pub open spec fn wf(self) -> bool {
        match self {
            DataArguments::Immediate(a) => a.wf(),
            DataArguments::Register(a) => a.wf(),
        }
    }
}

/// Operands of the half-word moves: a register and a 16-bit immediate.
#[derive(Clone, Copy, Debug, PartialEq, Eq, Structural)]
pub struct LargeImmediateArguments {
    pub register: Register,
    pub immediate: u16,
}

impl LargeImmediateArguments {
    pub open spec fn wf(self) -> bool {
        register_wf(self.register)
    }
}

/// Whether an ALU operation updates the condition flags.
#[derive(Clone, Copy, Debug, PartialEq, Eq, Structural)]
pub enum UpdateStatusFlags {
    DoNotUpdateStatusFlags,
    UpdateStatusFlags,
}

/// Whether a branch stores the return address in the link register.
#[derive(Clone, Copy, Debug, PartialEq, Eq, Structural)]
pub enum BranchLinkFlag {
    LinkReturnAddress,
    DoNotLinkReturnAddress,
}

/// A load/store offset taken from a register, shifted by an immediate
/// amount.  An amount of 32 encodes the architectural "shift by 32" that a
/// zero amount means for the non-left shift types.
#[derive(Clone, Copy, Debug, PartialEq, Eq, Structural)]
pub struct LoadStoreRegisterOffset {
    pub register: Register,
    pub shift_type: ShiftType,
    pub shift_operand: u8,
}

impl LoadStoreRegisterOffset {
    pub open spec fn wf(self) -> bool {
        register_wf(self.register) && self.shift_operand <= 32
            && (self.shift_type == ShiftType::LogicalShiftLeft ==> self.shift_operand <= 31)
    }
}

/// The offset of a load/store address: a 12-bit immediate or a shifted
/// register.
#[derive(Clone, Copy, Debug, PartialEq, Eq, Structural)]
pub enum LoadStoreOffset {
    Immediate(u16),
    Register(LoadStoreRegisterOffset),
}

impl LoadStoreOffset {
    pub open spec fn wf(self) -> bool {
        match self {
            LoadStoreOffset::Immediate(v) => v < 0x1000,
            LoadStoreOffset::Register(r) => r.wf(),
        }
    }
}

/// The width and extension of a load.
#[derive(Clone, Copy, Debug, PartialEq, Eq, Structural)]
pub enum LoadDataSize {
    Word,
    Byte,
    DoubleWord,
    UnsignedHalfWord,
    SignedByte,
    SignedHalfWord,
}

/// The width of a store.
#[derive(Clone, Copy, Debug, PartialEq, Eq, Structural)]
pub enum StoreDataSize {
    Word,
    Byte,
    DoubleWord,
    HalfWord,
}

/// Whether the offset is applied before or after the access when forming
/// the effective address.
#[derive(Clone, Copy, Debug, PartialEq, Eq, Structural)]
pub enum LoadStoreIndexingType {
    PreIndexed,
    PostIndexed,
}

/// Whether the offset-adjusted address is stored back into the address
/// register after the access.
#[derive(Clone, Copy, Debug, PartialEq, Eq, Structural)]
pub enum LoadStoreWriteBackFlag {
    WriteBack,
    DoNotWriteBack,
}

/// The sign with which the offset is applied to the base address.
#[derive(Clone, Copy, Debug, PartialEq, Eq, Structural)]
pub enum LoadStoreOffsetDirection {
    Positive,
    Negative,
}

/// The common addressing fields shared by loads and stores.
#[derive(Clone, Copy, Debug, PartialEq, Eq, Structural)]
pub struct LoadStoreArguments {
    pub indexing_type: LoadStoreIndexingType,
    pub write_back: LoadStoreWriteBackFlag,
    pub offset_direction: LoadStoreOffsetDirection,
    pub value_register: Register,
    pub address_register: Register,
    pub offset: LoadStoreOffset,
}

impl LoadStoreArguments {
    pub open spec fn wf(self) -> bool {
        register_wf(self.value_register) && register_wf(self.address_register)
            && self.offset.wf()
    }
}

/// A load: its data size and the common addressing fields.
#[derive(Clone, Copy, Debug, PartialEq, Eq, Structural)]
pub struct LoadArguments {
    pub data_size: LoadDataSize,
    pub common_arguments: LoadStoreArguments,
}

impl LoadArguments {
    pub open spec fn wf(self) -> bool {
        self.common_arguments.wf()
    }
}

/// A store: its data size and the common addressing fields.
#[derive(Clone, Copy, Debug, PartialEq, Eq, Structural)]
pub struct StoreArguments {
    pub data_size: StoreDataSize,
    pub common_arguments: LoadStoreArguments,
}

impl StoreArguments {
    pub open spec fn wf(self) -> bool {
        self.common_arguments.wf()
    }
}

/// One decoded operation together with its operands.  A closed sum type:
/// each variant carries only the fields that operation needs, so an
/// ill-formed combination of operation and operands is unrepresentable.
#[derive(Clone, Copy, Debug, PartialEq, Eq, Structural)]
pub enum InstructionData {
    Add(ReadWriteDataArguments, UpdateStatusFlags),
    AddWithCarry(ReadWriteDataArguments, UpdateStatusFlags),
    And(ReadWriteDataArguments, UpdateStatusFlags),
    Branch(i32, BranchLinkFlag),
    BranchExchange(Register),
    Compare(DataArguments),
    Load(LoadArguments),
    Move(DataArguments, UpdateStatusFlags),
    MoveHalfWord(LargeImmediateArguments),
    MoveNot(DataArguments, UpdateStatusFlags),
    MoveTop(LargeImmediateArguments),
    Or(ReadWriteDataArguments, UpdateStatusFlags),
    SupervisorCall(u32),
    Store(StoreArguments),
    Subtract(ReadWriteDataArguments, UpdateStatusFlags),
}

impl InstructionData {
    pub open spec fn wf(self) -> bool {
        match self {
            InstructionData::Add(args, _) => args.wf(),
            InstructionData::AddWithCarry(args, _) => args.wf(),
            InstructionData::And(args, _) => args.wf(),
            InstructionData::Branch(_, _) => true,
            InstructionData::BranchExchange(r) => register_wf(r),
            InstructionData::Compare(args) => args.wf(),
            InstructionData::Load(args) => args.wf(),
            InstructionData::Move(args, _) => args.wf(),
            InstructionData::MoveHalfWord(args) => args.wf(),
            InstructionData::MoveNot(args, _) => args.wf(),
            InstructionData::MoveTop(args) => args.wf(),
            InstructionData::Or(args, _) => args.wf(),
            InstructionData::SupervisorCall(imm) => imm < 0x1000000,
            InstructionData::Store(args) => args.wf(),
            InstructionData::Subtract(args, _) => args.wf(),
        }
    }
}

/// A decoded instruction: its condition and its operation.
pub type Instruction = (Condition, InstructionData);

/// True iff every operand field of the instruction is within the range its
/// bit field can encode.  The decoder only produces well-formed
/// instructions, and the executor requires one.
pub open spec fn instruction_wf(instr: Instruction) -> bool {
    instr.1.wf()
}

} // verus!
