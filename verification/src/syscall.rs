//! The system-call layer: a small table mapping call numbers to host
//! operations, dispatched on a fixed register.
//!
//! The exit call halts the machine; the write call checks that the named
//! descriptor is standard output and resolves the null-terminated run of
//! memory to write.  The layer itself owns no state and performs no host
//! I/O: the resolved bytes are returned to the caller, which is the only
//! layer allowed to print.

use vstd::prelude::*;

use crate::context::{CpuContext, MachineView, machine_wf, spec_get_register, spec_string_end};
use crate::exec::{ExecOutcome, ExecuteError, output_matches};

verus! {

/// The number of the process-exit system call.
pub const EXIT_SYSTEM_CALL: u32 = 0x1;

/// The number of the write system call.
pub const WRITE_SYSTEM_CALL: u32 = 0x4;

/// The register holding the system-call number.
pub const SYSTEM_CALL_REGISTER: u8 = 7;

/// The write system call: register 0 names the file descriptor, which
/// must be standard output (1), and register 1 the address of a
/// null-terminated run of bytes; the run, without its terminator, is the
/// output of the step.  The machine itself is unchanged.
pub open spec fn spec_write_call(m: MachineView) -> ExecOutcome
    recommends
        machine_wf(m),
{
    let file_descriptor = spec_get_register(m, 0);
    let address = spec_get_register(m, 1);
    if file_descriptor != 1 {
        ExecOutcome {
            machine: m,
            result: Err(ExecuteError::UnsupportedFileDescriptor { descriptor: file_descriptor }),
        }
    } else {
        match spec_string_end(m.memory, address as int) {
            Some(end) => ExecOutcome {
                machine: m,
                result: Ok(Some(m.memory.subrange(address as int, end))),
            },
            None => ExecOutcome {
                machine: m,
                result: Err(
                    ExecuteError::MemoryAccessFault {
                        address: if address as int >= m.memory.len() {
                            address
                        } else {
                            m.memory.len() as u32
                        },
                    },
                ),
            },
        }
    }
}

/// The system-call dispatch: the exit call halts the machine, the write
/// call resolves its output bytes, and any other number is an error.
pub open spec fn spec_system_call(m: MachineView) -> ExecOutcome
    recommends
        machine_wf(m),
{
    let number = spec_get_register(m, SYSTEM_CALL_REGISTER);
    if number == EXIT_SYSTEM_CALL {
        ExecOutcome { machine: MachineView { halted: true, ..m }, result: Ok(None) }
    } else if number == WRITE_SYSTEM_CALL {
        spec_write_call(m)
    } else {
        ExecOutcome { machine: m, result: Err(ExecuteError::UnsupportedSystemCall { number }) }
    }
}

/// Dispatches the system call named by register 7: exit halts the
/// machine; write returns the bytes the caller must print to standard
/// output; any other number, and any descriptor other than standard
/// output, is an error.
pub fn execute_system_call(context: &mut CpuContext) -> (r: Result<Option<Vec<u8>>, ExecuteError>)
    requires
        old(context).wf(),
    ensures
        final(context).wf(),
        final(context)@ == spec_system_call(old(context)@).machine,
        output_matches(r, spec_system_call(old(context)@).result),
{
    let system_call = context.get_register(SYSTEM_CALL_REGISTER);
    if system_call == EXIT_SYSTEM_CALL {
        context.halt();
        Ok(None)
    } else if system_call == WRITE_SYSTEM_CALL {
        write(context)
    } else {
        Err(ExecuteError::UnsupportedSystemCall { number: system_call })
    }
}

/// Resolves the write system call against an unchanged machine.
fn write(context: &CpuContext) -> (r: Result<Option<Vec<u8>>, ExecuteError>)
    requires
        context.wf(),
    ensures
        output_matches(r, spec_write_call(context@).result),
{
    let file_descriptor = context.get_register(0);
    let address = context.get_register(1);
    if file_descriptor != 1 {
        return Err(ExecuteError::UnsupportedFileDescriptor { descriptor: file_descriptor });
    }
    match context.read_string(address) {
        Ok(bytes) => Ok(Some(bytes)),
        Err(fault) => Err(ExecuteError::MemoryAccessFault { address: fault.address }),
    }
}

} // verus!
