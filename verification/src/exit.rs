//! The reasons for which a guest hands control back to the hypervisor.

use vstd::prelude::*;

verus! {

/// The width of a memory access.
///
/// A "word" is 16 bits here, as on x86.
#[derive(Clone, Copy, Debug, PartialEq, Eq, Structural)]
pub enum AccessWidth {
    /// 8-bit access.
    Byte,
    /// 16-bit access.
    Word,
    /// 32-bit access.
    Dword,
    /// 64-bit access.
    Qword,
}

/// The width that a number of bytes stands for, if it is one of 1, 2, 4 and 8.
pub open spec fn width_of_bytes(bytes: int) -> Option<AccessWidth> {
    if bytes == 1 {
        Some(AccessWidth::Byte)
    } else if bytes == 2 {
        Some(AccessWidth::Word)
    } else if bytes == 4 {
        Some(AccessWidth::Dword)
    } else if bytes == 8 {
        Some(AccessWidth::Qword)
    } else {
        None
    }
}

impl AccessWidth {
    /// The number of bytes of the access.
    pub open spec fn spec_size(self) -> int {
        match self {
            AccessWidth::Byte => 1,
            AccessWidth::Word => 2,
            AccessWidth::Dword => 4,
            AccessWidth::Qword => 8,
        }
    }

    /// The number of bytes of the access.
    pub fn size(&self) -> (bytes: usize)
        ensures
            bytes == self.spec_size(),
            width_of_bytes(bytes as int) == Some(*self),
    {
        match self {
            AccessWidth::Byte => 1,
            AccessWidth::Word => 2,
            AccessWidth::Dword => 4,
            AccessWidth::Qword => 8,
        }
    }

    /// The width of an access of `bytes` bytes.
    ///
    /// Fails on every number but 1, 2, 4 and 8.
    pub fn try_from_bytes(bytes: usize) -> (width: Result<AccessWidth, ()>)
        ensures
            width.is_ok() <==> width_of_bytes(bytes as int).is_some(),
            width.is_ok() ==> Some(width.unwrap()) == width_of_bytes(bytes as int),
    {
        match bytes {
            1 => Ok(AccessWidth::Byte),
            2 => Ok(AccessWidth::Word),
            4 => Ok(AccessWidth::Dword),
            8 => Ok(AccessWidth::Qword),
            _ => Err(()),
        }
    }
}

/// Why a run of a vCPU ended.
///
/// Addresses are guest-physical addresses as plain numbers; a system register
/// is named by its packed address (see [`crate::exception_utils::exception_sysreg_addr`]).
#[non_exhaustive]
#[allow(inconsistent_fields)]
#[derive(Clone, Copy, Debug, PartialEq, Eq)]
pub enum AxVCpuExitReason {
    /// The guest asked the hypervisor for a service.
    Hypercall {
        /// The number of the service.
        nr: u64,
        /// Its arguments.
        args: [u64; 6],
    },
    /// The guest read from memory-mapped I/O.
    MmioRead {
        /// The guest-physical address read from.
        addr: u64,
        /// The width of the access.
        width: AccessWidth,
        /// The index of the guest register that receives the value.
        reg: usize,
        /// The width of that register.
        reg_width: AccessWidth,
        /// Whether the value is sign-extended to fill the register.
        signed_ext: bool,
    },
    /// The guest wrote to memory-mapped I/O.
    MmioWrite {
        /// The guest-physical address written to.
        addr: u64,
        /// The width of the access.
        width: AccessWidth,
        /// The value written, as the whole source register held it.
        data: u64,
    },
    /// The guest read a system register.
    SysRegRead {
        /// The packed address of the system register.
        addr: usize,
        /// The index of the guest register that receives the value.
        reg: usize,
    },
    /// The guest wrote a system register.
    SysRegWrite {
        /// The packed address of the system register.
        addr: usize,
        /// The value written.
        value: u64,
    },
    /// A physical interrupt arrived while the guest ran.
    ExternalInterrupt,
    /// The guest asked for another CPU to be started.
    CpuUp {
        /// The affinity value of the CPU to start.
        target_cpu: u64,
        /// The guest-physical address at which it starts.
        entry_point: u64,
        /// The value it finds in `x0`.
        arg: u64,
    },
    /// The guest powered this CPU down.
    CpuDown {
        /// The requested power state.
        _state: u64,
    },
    /// The guest asked for the whole machine to be shut down.
    SystemDown,
    /// The exit was handled inside the core.
    Nothing,
    /// The guest sends an inter-processor interrupt.
    SendIPI {
        /// `Aff3.Aff2.Aff1.0` of the targets.
        target_cpu: u64,
        /// The bitmask of `Aff0` values of the targets.
        target_cpu_aux: u64,
        /// Whether the interrupt goes to every CPU but the sender.
        send_to_all: bool,
        /// Whether the interrupt goes to the sender.
        send_to_self: bool,
        /// The interrupt number.
        vector: u64,
    },
}

} // verus!
