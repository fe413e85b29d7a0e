//! Machine state: the register file, the condition flags, the flat
//! little-endian memory and the halted flag.
//!
//! The state is modelled by [`MachineView`], a ghost record of the sixteen
//! registers, the memory bytes, the flags and the halted flag.  Every
//! mutating method says in its `ensures` exactly how the new view relates
//! to the old one.  Memory accesses are bounds-checked and report a
//! [`MemoryFault`] carrying the offending address instead of reading or
//! writing out of range.

use vstd::prelude::*;
use vstd::string::StringExecFns;

verus! {

/// Size of the flat memory in bytes.
pub const MEMORY_SIZE: usize = 0x10000;

const LINK_RETURN_REGISTER: u8 = 14;

const PROGRAM_COUNTER_REGISTER: u8 = 15;

/// The four condition flags, each updated independently.
#[derive(Clone, Copy, Debug, PartialEq, Eq, Structural)]
pub struct StatusFlags {
    pub negative: bool,
    pub zero: bool,
    pub carry: bool,
    pub overflow: bool,
}

/// An out-of-range memory access, carrying the offending address.
#[derive(Clone, Copy, Debug, PartialEq, Eq, Structural)]
pub struct MemoryFault {
    pub address: u32,
}

/// The mathematical model of the machine state.
#[verifier::ext_equal]
pub ghost struct MachineView {
    pub registers: Seq<u32>,
    pub memory: Seq<u8>,
    pub status: StatusFlags,
    pub halted: bool,
}

/// A machine view is well formed when it has exactly sixteen registers and
/// a memory of [`MEMORY_SIZE`] bytes.
pub open spec fn machine_wf(m: MachineView) -> bool {
    m.registers.len() == 16 && m.memory.len() == MEMORY_SIZE
}

/// The state of a machine at program start: all registers zero, memory
/// zeroed, flags clear, not halted.
pub open spec fn spec_initial_machine() -> MachineView {
    MachineView {
        registers: Seq::new(16, |i: int| 0u32),
        memory: Seq::new(MEMORY_SIZE as nat, |i: int| 0u8),
        status: StatusFlags { negative: false, zero: false, carry: false, overflow: false },
        halted: false,
    }
}

/// The value an instruction observes when reading register `r`: the stored
/// value, except that the program counter reads as its stored value plus 4.
/// The run loop advances the stored program counter by one instruction
/// width before operands are evaluated, so this yields the architectural
/// "PC reads as fetch address + 8".
pub open spec fn spec_get_register(m: MachineView, r: u8) -> u32
    recommends
        machine_wf(m),
        r <= 15,
{
    if r == 15 {
        vstd::wrapping::u32_specs::wrapping_add(m.registers[15], 4)
    } else {
        m.registers[r as int]
    }
}

/// The machine after register `r` is set to `value`; writes are direct,
/// also for the program counter.
pub open spec fn spec_set_register(m: MachineView, r: u8, value: u32) -> MachineView
    recommends
        machine_wf(m),
        r <= 15,
{
    MachineView { registers: m.registers.update(r as int, value), ..m }
}

/// The flags after an update in which each `Option` replaces the
/// corresponding flag when present and leaves it untouched when absent.
pub open spec fn spec_merge_status(
    s: StatusFlags,
    negative: Option<bool>,
    zero: Option<bool>,
    carry: Option<bool>,
    overflow: Option<bool>,
) -> StatusFlags {
    StatusFlags {
        negative: match negative { Some(v) => v, None => s.negative },
        zero: match zero { Some(v) => v, None => s.zero },
        carry: match carry { Some(v) => v, None => s.carry },
        overflow: match overflow { Some(v) => v, None => s.overflow },
    }
}

/// True iff a `width`-byte access at `a` lies inside `mem`.
pub open spec fn access_in_bounds(mem: Seq<u8>, a: int, width: int) -> bool {
    0 <= a && a + width <= mem.len()
}

/// The little-endian word held by the four bytes of `mem` starting at `a`.
pub open spec fn spec_read_word(mem: Seq<u8>, a: int) -> u32
    recommends
        access_in_bounds(mem, a, 4),
{
    (mem[a] as u32) | ((mem[a + 1] as u32) << 8) | ((mem[a + 2] as u32) << 16) | ((
    mem[a + 3] as u32) << 24)
}

/// The little-endian half-word held by the two bytes of `mem` starting at `a`.
pub open spec fn spec_read_half_word(mem: Seq<u8>, a: int) -> u16
    recommends
        access_in_bounds(mem, a, 2),
{
    (mem[a] as u16) | ((mem[a + 1] as u16) << 8)
}

/// `mem` with the four bytes starting at `a` replaced by the little-endian
/// encoding of `value`.
pub open spec fn spec_write_word(mem: Seq<u8>, a: int, value: u32) -> Seq<u8>
    recommends
        access_in_bounds(mem, a, 4),
{
    mem.update(a, value as u8).update(a + 1, (value >> 8) as u8).update(
        a + 2,
        (value >> 16) as u8,
    ).update(a + 3, (value >> 24) as u8)
}

/// `mem` with the two bytes starting at `a` replaced by the little-endian
/// encoding of `value`.
pub open spec fn spec_write_half_word(mem: Seq<u8>, a: int, value: u16) -> Seq<u8>
    recommends
        access_in_bounds(mem, a, 2),
{
    mem.update(a, value as u8).update(a + 1, (value >> 8) as u8)
}

/// The position of the first zero byte of `mem` at or after `a`, or `None`
/// when no zero byte follows `a`.
pub open spec fn spec_string_end(mem: Seq<u8>, a: int) -> Option<int>
    decreases mem.len() - a,
{
    if a < 0 || a >= mem.len() {
        None
    } else if mem[a] == 0 {
        Some(a)
    } else {
        spec_string_end(mem, a + 1)
    }
}

/// The hexadecimal digit character for a value below 16.
pub open spec fn spec_hex_char(nibble: u8) -> char
    recommends
        nibble < 16,
{
    if nibble == 0 {
        '0'
    } else if nibble == 1 {
        '1'
    } else if nibble == 2 {
        '2'
    } else if nibble == 3 {
        '3'
    } else if nibble == 4 {
        '4'
    } else if nibble == 5 {
        '5'
    } else if nibble == 6 {
        '6'
    } else if nibble == 7 {
        '7'
    } else if nibble == 8 {
        '8'
    } else if nibble == 9 {
        '9'
    } else if nibble == 10 {
        'A'
    } else if nibble == 11 {
        'B'
    } else if nibble == 12 {
        'C'
    } else if nibble == 13 {
        'D'
    } else if nibble == 14 {
        'E'
    } else {
        'F'
    }
}

/// The eight upper-case hexadecimal digits of `value`, most significant
/// first.
pub open spec fn spec_hex32(value: u32) -> Seq<char> {
    seq![
        spec_hex_char(((value >> 28) & 0xf) as u8),
        spec_hex_char(((value >> 24) & 0xf) as u8),
        spec_hex_char(((value >> 20) & 0xf) as u8),
        spec_hex_char(((value >> 16) & 0xf) as u8),
        spec_hex_char(((value >> 12) & 0xf) as u8),
        spec_hex_char(((value >> 8) & 0xf) as u8),
        spec_hex_char(((value >> 4) & 0xf) as u8),
        spec_hex_char((value & 0xf) as u8),
    ]
}

/// The label of a register line: the letter R, the decimal index and a
/// separating colon and space.
pub open spec fn spec_register_label(index: int) -> Seq<char>
    recommends
        0 <= index < 16,
{
    if index < 10 {
        seq!['R', spec_hex_char(index as u8), ':', ' ']
    } else {
        seq!['R', '1', spec_hex_char((index - 10) as u8), ':', ' ']
    }
}

/// One line of the register dump: label, eight hexadecimal digits, and a
/// line break.
pub open spec fn spec_register_line(index: int, value: u32) -> Seq<char>
    recommends
        0 <= index < 16,
{
    spec_register_label(index) + spec_hex32(value) + seq!['\n']
}

/// The register dump text for the first `n` registers, one line each.
pub open spec fn spec_registers_text(registers: Seq<u32>, n: int) -> Seq<char>
    recommends
        n <= registers.len(),
    decreases n,
{
    if n <= 0 {
        Seq::empty()
    } else {
        spec_registers_text(registers, n - 1) + spec_register_line(n - 1, registers[n - 1])
    }
}

/// The flag dump text: the flag names followed by one digit per flag,
/// 1 for set and 0 for clear, in the order N, Z, C, V.
pub open spec fn spec_status_text(status: StatusFlags) -> Seq<char> {
    seq![
        '(',
        'N',
        'Z',
        'C',
        'V',
        ')',
        ' ',
        if status.negative {
            '1'
        } else {
            '0'
        },
        if status.zero {
            '1'
        } else {
            '0'
        },
        if status.carry {
            '1'
        } else {
            '0'
        },
        if status.overflow {
            '1'
        } else {
            '0'
        },
    ]
}

/// Bounds of the nibbles of a 32-bit value.
proof fn lemma_nibble_bounds(value: u32)
    by (bit_vector)
    ensures
        ((value >> 28) & 0xf) < 16,
        ((value >> 24) & 0xf) < 16,
        ((value >> 20) & 0xf) < 16,
        ((value >> 16) & 0xf) < 16,
        ((value >> 12) & 0xf) < 16,
        ((value >> 8) & 0xf) < 16,
        ((value >> 4) & 0xf) < 16,
        (value & 0xf) < 16,
{
}

/// The one-character string naming a hexadecimal digit.
fn hex_digit_str(nibble: u8) -> (s: &'static str)
    requires
        nibble < 16,
    ensures
        s@ == seq![spec_hex_char(nibble)],
{
    proof {
        reveal_strlit("0");
        reveal_strlit("1");
        reveal_strlit("2");
        reveal_strlit("3");
        reveal_strlit("4");
        reveal_strlit("5");
        reveal_strlit("6");
        reveal_strlit("7");
        reveal_strlit("8");
        reveal_strlit("9");
        reveal_strlit("A");
        reveal_strlit("B");
        reveal_strlit("C");
        reveal_strlit("D");
        reveal_strlit("E");
        reveal_strlit("F");
    }
    if nibble == 0 {
        "0"
    } else if nibble == 1 {
        "1"
    } else if nibble == 2 {
        "2"
    } else if nibble == 3 {
        "3"
    } else if nibble == 4 {
        "4"
    } else if nibble == 5 {
        "5"
    } else if nibble == 6 {
        "6"
    } else if nibble == 7 {
        "7"
    } else if nibble == 8 {
        "8"
    } else if nibble == 9 {
        "9"
    } else if nibble == 10 {
        "A"
    } else if nibble == 11 {
        "B"
    } else if nibble == 12 {
        "C"
    } else if nibble == 13 {
        "D"
    } else if nibble == 14 {
        "E"
    } else {
        "F"
    }
}

/// The one-character string for a flag digit: 1 when set, 0 when clear.
fn flag_digit_str(flag: bool) -> (s: &'static str)
    ensures
        s@ == seq![
            if flag {
                '1'
            } else {
                '0'
            },
        ],
{
    proof {
        reveal_strlit("0");
        reveal_strlit("1");
    }
    if flag {
        "1"
    } else {
        "0"
    }
}

/// Appends the eight hexadecimal digits of `value` to `text`.
fn append_hex32(text: &mut String, value: u32)
    ensures
        final(text)@ == old(text)@ + spec_hex32(value),
{
    proof {
        lemma_nibble_bounds(value);
    }
    text.append(hex_digit_str(((value >> 28) & 0xf) as u8));
    text.append(hex_digit_str(((value >> 24) & 0xf) as u8));
    text.append(hex_digit_str(((value >> 20) & 0xf) as u8));
    text.append(hex_digit_str(((value >> 16) & 0xf) as u8));
    text.append(hex_digit_str(((value >> 12) & 0xf) as u8));
    text.append(hex_digit_str(((value >> 8) & 0xf) as u8));
    text.append(hex_digit_str(((value >> 4) & 0xf) as u8));
    text.append(hex_digit_str((value & 0xf) as u8));
    proof {
        assert(text@ =~= old(text)@ + spec_hex32(value));
    }
}

/// The machine state: registers, memory, flags and the halted flag.
pub struct CpuContext {
    registers: Vec<u32>,
    memory: Vec<u8>,
    status: StatusFlags,
    halted: bool,
}

impl View for CpuContext {
    type V = MachineView;

    closed spec fn view(&self) -> MachineView {
        MachineView {
            registers: self.registers@,
            memory: self.memory@,
            status: self.status,
            halted: self.halted,
        }
    }
}

impl CpuContext {
    /// Well-formedness of the machine state.
    pub open spec fn wf(&self) -> bool {
        machine_wf(self@)
    }

    /// Creates a machine at program start: registers and memory zeroed,
    /// flags clear, not halted.
    pub fn create() -> (context: CpuContext)
        ensures
            context.wf(),
            context@ == spec_initial_machine(),
    {
        let mut registers: Vec<u32> = Vec::new();
        let mut i: usize = 0;
        while i < 16
            invariant
                i <= 16,
                registers@.len() == i,
                forall|k: int| 0 <= k < i ==> registers@[k] == 0u32,
            decreases 16 - i,
        {
            registers.push(0);
            i = i + 1;
        }
        let mut memory: Vec<u8> = Vec::new();
        let mut j: usize = 0;
        while j < MEMORY_SIZE
            invariant
                j <= MEMORY_SIZE,
                memory@.len() == j,
                forall|k: int| 0 <= k < j ==> memory@[k] == 0u8,
            decreases MEMORY_SIZE - j,
        {
            memory.push(0);
            j = j + 1;
        }
        let context = CpuContext {
            registers,
            memory,
            status: StatusFlags { negative: false, zero: false, carry: false, overflow: false },
            halted: false,
        };
        proof {
            assert(context@.registers =~= spec_initial_machine().registers);
            assert(context@.memory =~= spec_initial_machine().memory);
            assert(context@ =~= spec_initial_machine());
        }
        context
    }

    /// Copies `data` into memory starting at offset 0; the rest of memory
    /// keeps its previous contents.
    pub fn write_memory(&mut self, data: &Vec<u8>)
        requires
            old(self).wf(),
            data@.len() <= MEMORY_SIZE,
        ensures
            final(self).wf(),
            final(self)@ == (MachineView {
                memory: data@ + old(self)@.memory.skip(data@.len() as int),
                ..old(self)@
            }),
    {
        let mut i: usize = 0;
        while i < data.len()
            invariant
                old(self).wf(),
                self.wf(),
                i <= data@.len(),
                data@.len() <= MEMORY_SIZE,
                self@.registers == old(self)@.registers,
                self@.status == old(self)@.status,
                self@.halted == old(self)@.halted,
                self@.memory.len() == old(self)@.memory.len(),
                forall|k: int| 0 <= k < i ==> self@.memory[k] == data@[k],
                forall|k: int| i <= k < self@.memory.len() ==> self@.memory[k] == old(
                    self,
                )@.memory[k],
            decreases data@.len() - i,
        {
            let byte = data[i];
            self.memory.set(i, byte);
            i = i + 1;
        }
        proof {
            assert(self@.memory =~= data@ + old(self)@.memory.skip(data@.len() as int));
            assert(self@ =~= (MachineView {
                memory: data@ + old(self)@.memory.skip(data@.len() as int),
                ..old(self)@
            }));
        }
    }

    /// The index of the conventional link register.
    pub fn get_link_return_register() -> (r: u8)
        ensures
            r == 14,
    {
        LINK_RETURN_REGISTER
    }

    /// The index of the program counter register.
    pub fn get_program_counter_register() -> (r: u8)
        ensures
            r == 15,
    {
        PROGRAM_COUNTER_REGISTER
    }

    /// The stored program counter, without the read bias applied by
    /// [`Self::get_register`].
    pub fn get_program_counter(&self) -> (value: u32)
        requires
            self.wf(),
        ensures
            value == self@.registers[15],
    {
        self.registers[PROGRAM_COUNTER_REGISTER as usize]
    }

    /// Sets the program counter directly.
    pub fn set_program_counter(&mut self, value: u32)
        requires
            old(self).wf(),
        ensures
            final(self).wf(),
            final(self)@ == spec_set_register(old(self)@, 15, value),
    {
        self.set_register(PROGRAM_COUNTER_REGISTER, value)
    }

    /// The value of `register` as an instruction operand observes it; the
    /// program counter reads as its stored value plus 4.
    pub fn get_register(&self, register: u8) -> (value: u32)
        requires
            self.wf(),
            register <= 15,
        ensures
            value == spec_get_register(self@, register),
    {
        let value = self.registers[register as usize];
        if register == PROGRAM_COUNTER_REGISTER {
            value.wrapping_add(4)
        } else {
            value
        }
    }

    /// Stores `value` into `register`; writes are direct, also for the
    /// program counter.
    pub fn set_register(&mut self, register: u8, value: u32)
        requires
            old(self).wf(),
            register <= 15,
        ensures
            final(self).wf(),
            final(self)@ == spec_set_register(old(self)@, register, value),
    {
        self.registers.set(register as usize, value);
    }

    /// The current condition flags.
    pub fn get_status(&self) -> (status: StatusFlags)
        ensures
            status == self@.status,
    {
        self.status
    }

    /// Updates each flag for which a value is given and leaves the others
    /// untouched.
    pub fn set_status(
        &mut self,
        negative: Option<bool>,
        zero: Option<bool>,
        carry: Option<bool>,
        overflow: Option<bool>,
    )
        ensures
            final(self)@ == (MachineView {
                status: spec_merge_status(old(self)@.status, negative, zero, carry, overflow),
                ..old(self)@
            }),
    {
        match negative {
            Some(v) => self.status.negative = v,
            None => {},
        }
        match zero {
            Some(v) => self.status.zero = v,
            None => {},
        }
        match carry {
            Some(v) => self.status.carry = v,
            None => {},
        }
        match overflow {
            Some(v) => self.status.overflow = v,
            None => {},
        }
    }

    /// Reads the little-endian word at `address`, or reports a fault when
    /// any of its four bytes lies outside memory.
    pub fn read_word(&self, address: u32) -> (r: Result<u32, MemoryFault>)
        requires
            self.wf(),
        ensures
            match r {
                Ok(value) => access_in_bounds(self@.memory, address as int, 4) && value
                    == spec_read_word(self@.memory, address as int),
                Err(fault) => !access_in_bounds(self@.memory, address as int, 4) && fault
                    == (MemoryFault { address }),
            },
    {
        let len = self.memory.len();
        if len >= 4 && (address as usize) <= len - 4 {
            let a = address as usize;
            let b0 = self.memory[a] as u32;
            let b1 = self.memory[a + 1] as u32;
            let b2 = self.memory[a + 2] as u32;
            let b3 = self.memory[a + 3] as u32;
            Ok(b0 | (b1 << 8) | (b2 << 16) | (b3 << 24))
        } else {
            Err(MemoryFault { address })
        }
    }

    /// Reads the byte at `address`, or reports a fault when it lies outside
    /// memory.
    pub fn read_byte(&self, address: u32) -> (r: Result<u8, MemoryFault>)
        requires
            self.wf(),
        ensures
            match r {
                Ok(value) => access_in_bounds(self@.memory, address as int, 1) && value
                    == self@.memory[address as int],
                Err(fault) => !access_in_bounds(self@.memory, address as int, 1) && fault
                    == (MemoryFault { address }),
            },
    {
        if (address as usize) < self.memory.len() {
            Ok(self.memory[address as usize])
        } else {
            Err(MemoryFault { address })
        }
    }

    /// Reads the little-endian half-word at `address`, or reports a fault
    /// when either of its two bytes lies outside memory.
    pub fn read_half_word(&self, address: u32) -> (r: Result<u16, MemoryFault>)
        requires
            self.wf(),
        ensures
            match r {
                Ok(value) => access_in_bounds(self@.memory, address as int, 2) && value
                    == spec_read_half_word(self@.memory, address as int),
                Err(fault) => !access_in_bounds(self@.memory, address as int, 2) && fault
                    == (MemoryFault { address }),
            },
    {
        let len = self.memory.len();
        if len >= 2 && (address as usize) <= len - 2 {
            let a = address as usize;
            let b0 = self.memory[a] as u16;
            let b1 = self.memory[a + 1] as u16;
            Ok(b0 | (b1 << 8))
        } else {
            Err(MemoryFault { address })
        }
    }

    /// Writes `value` at `address` in little-endian order, or reports a
    /// fault, leaving the machine unchanged, when any of the four bytes
    /// would fall outside memory.
    pub fn write_word(&mut self, address: u32, value: u32) -> (r: Result<(), MemoryFault>)
        requires
            old(self).wf(),
        ensures
            final(self).wf(),
            match r {
                Ok(()) => access_in_bounds(old(self)@.memory, address as int, 4) && final(self)@
                    == (MachineView {
                    memory: spec_write_word(old(self)@.memory, address as int, value),
                    ..old(self)@
                }),
                Err(fault) => !access_in_bounds(old(self)@.memory, address as int, 4) && fault
                    == (MemoryFault { address }) && final(self)@ == old(self)@,
            },
    {
        let len = self.memory.len();
        if len >= 4 && (address as usize) <= len - 4 {
            let a = address as usize;
            self.memory.set(a, #[verifier::truncate] (value as u8));
            self.memory.set(a + 1, #[verifier::truncate] ((value >> 8) as u8));
            self.memory.set(a + 2, #[verifier::truncate] ((value >> 16) as u8));
            self.memory.set(a + 3, #[verifier::truncate] ((value >> 24) as u8));
            Ok(())
        } else {
            Err(MemoryFault { address })
        }
    }

    /// Writes the byte `value` at `address`, or reports a fault, leaving
    /// the machine unchanged, when `address` lies outside memory.
    pub fn write_byte(&mut self, address: u32, value: u8) -> (r: Result<(), MemoryFault>)
        requires
            old(self).wf(),
        ensures
            final(self).wf(),
            match r {
                Ok(()) => access_in_bounds(old(self)@.memory, address as int, 1) && final(self)@
                    == (MachineView {
                    memory: old(self)@.memory.update(address as int, value),
                    ..old(self)@
                }),
                Err(fault) => !access_in_bounds(old(self)@.memory, address as int, 1) && fault
                    == (MemoryFault { address }) && final(self)@ == old(self)@,
            },
    {
        if (address as usize) < self.memory.len() {
            self.memory.set(address as usize, value);
            Ok(())
        } else {
            Err(MemoryFault { address })
        }
    }

    /// Writes `value` at `address` in little-endian order, or reports a
    /// fault, leaving the machine unchanged, when either of the two bytes
    /// would fall outside memory.
    pub fn write_half_word(&mut self, address: u32, value: u16) -> (r: Result<(), MemoryFault>)
        requires
            old(self).wf(),
        ensures
            final(self).wf(),
            match r {
                Ok(()) => access_in_bounds(old(self)@.memory, address as int, 2) && final(self)@
                    == (MachineView {
                    memory: spec_write_half_word(old(self)@.memory, address as int, value),
                    ..old(self)@
                }),
                Err(fault) => !access_in_bounds(old(self)@.memory, address as int, 2) && fault
                    == (MemoryFault { address }) && final(self)@ == old(self)@,
            },
    {
        let len = self.memory.len();
        if len >= 2 && (address as usize) <= len - 2 {
            let a = address as usize;
            self.memory.set(a, #[verifier::truncate] (value as u8));
            self.memory.set(a + 1, #[verifier::truncate] ((value >> 8) as u8));
            Ok(())
        } else {
            Err(MemoryFault { address })
        }
    }

    /// Reads the run of non-zero bytes starting at `address`, up to but not
    /// including the first zero byte.  Reports a fault when `address` lies
    /// outside memory or no zero byte follows it; the fault carries the
    /// first address the scan could not read.
    pub fn read_string(&self, address: u32) -> (r: Result<Vec<u8>, MemoryFault>)
        requires
            self.wf(),
        ensures
            match r {
                Ok(bytes) => ({
                    let end = spec_string_end(self@.memory, address as int);
                    end is Some && bytes@ == self@.memory.subrange(address as int, end->Some_0)
                }),
                Err(fault) => spec_string_end(self@.memory, address as int) is None && fault == (
                MemoryFault {
                    address: if address as int >= self@.memory.len() {
                        address
                    } else {
                        self@.memory.len() as u32
                    },
                }),
            },
    {
        let mut bytes: Vec<u8> = Vec::new();
        let mut current: u32 = address;
        if (address as usize) >= self.memory.len() {
            return Err(MemoryFault { address });
        }
        while (current as usize) < self.memory.len()
            invariant
                self.wf(),
                address <= current,
                current as int <= self@.memory.len(),
                spec_string_end(self@.memory, address as int) == spec_string_end(
                    self@.memory,
                    current as int,
                ),
                bytes@ == self@.memory.subrange(address as int, current as int),
            decreases self@.memory.len() - current,
        {
            let byte = self.memory[current as usize];
            if byte == 0 {
                return Ok(bytes);
            }
            bytes.push(byte);
            proof {
                assert(bytes@ =~= self@.memory.subrange(address as int, current + 1));
            }
            current = current + 1;
        }
        Err(MemoryFault { address: current })
    }

    /// The register dump: one line per register, `R` and the decimal
    /// index, a colon and space, and the value as eight upper-case
    /// hexadecimal digits.
    pub fn debug_get_registers(&self) -> (r: String)
        requires
            self.wf(),
        ensures
            r@ == spec_registers_text(self@.registers, 16),
    {
        let mut result = String::new();
        let mut i: usize = 0;
        while i < 16
            invariant
                self.wf(),
                i <= 16,
                result@ == spec_registers_text(self@.registers, i as int),
            decreases 16 - i,
        {
            proof {
                reveal_strlit("R");
                reveal_strlit("1");
                reveal_strlit(": ");
                reveal_strlit("\n");
            }
            result.append("R");
            if i < 10 {
                result.append(hex_digit_str(i as u8));
            } else {
                result.append("1");
                result.append(hex_digit_str((i - 10) as u8));
            }
            result.append(": ");
            append_hex32(&mut result, self.registers[i]);
            result.append("\n");
            proof {
                assert(result@ =~= spec_registers_text(self@.registers, i as int)
                    + spec_register_line(i as int, self@.registers[i as int]));
                assert(result@ =~= spec_registers_text(self@.registers, i + 1));
            }
            i = i + 1;
        }
        result
    }

    /// The flag dump: the flag names and one digit per flag, 1 for set
    /// and 0 for clear, in the order N, Z, C, V.
    pub fn debug_get_status(&self) -> (r: String)
        ensures
            r@ == spec_status_text(self@.status),
    {
        proof {
            reveal_strlit("(NZCV) ");
        }
        let status = self.status;
        let mut result = String::new();
        result.append("(NZCV) ");
        result.append(flag_digit_str(status.negative));
        result.append(flag_digit_str(status.zero));
        result.append(flag_digit_str(status.carry));
        result.append(flag_digit_str(status.overflow));
        proof {
            assert(result@ =~= spec_status_text(self@.status));
        }
        result
    }

    /// True once the machine has halted; the run loop stops then.
    pub fn is_halted(&self) -> (halted: bool)
        ensures
            halted == self@.halted,
    {
        self.halted
    }

    /// Halts the machine.
    pub fn halt(&mut self)
        ensures
            final(self)@ == (MachineView { halted: true, ..old(self)@ }),
    {
        self.halted = true
    }
}

} // verus!
