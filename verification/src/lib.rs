//! The EL2 core of an AArch64 hypervisor, as verified logic over plain values.
//!
//! The crate holds the guest trap frame and system-register bank, the decoder
//! of the exception syndrome, the classifier that turns a guest exit into an
//! exit reason, the per-CPU enable/disable rules and the vCPU set-up rules.
//! Reading and writing the machine's registers, and the world switch itself,
//! belong to the caller: every function here works on values handed to it.

use vstd::prelude::*;

pub mod arch;
pub mod context_frame;
pub mod error;
pub mod exception;
pub mod exception_utils;
pub mod exit;
pub mod fields;
pub mod gic;
pub mod irq;
pub mod pcpu;
pub mod registers;
pub mod sync;
pub mod sysreg;
pub mod system_registers;
pub mod vcpu;

pub use error::ErrorKind;
pub use exit::{AccessWidth, AxVCpuExitReason};
pub use pcpu::Aarch64PerCpu;
pub use system_registers::Aarch64EmuRegs;
pub use vcpu::{Aarch64VCpu, Aarch64VCpuCreateConfig, Aarch64VCpuSetupConfig};

verus! {

/// The guest's trap frame.
pub type TrapFrame = context_frame::Aarch64ContextFrame;

/// What the host gives the core: the handler of a physical interrupt that
/// arrives while no guest runs.
pub trait HalIf {
    /// Handles the interrupt that is pending on the current CPU.
    fn irq_hanlder();
}

/// Says whether this platform has the virtualization extension.
///
/// Every AArch64 core this library is meant for has EL2, so the answer is
/// always yes.
pub fn has_hardware_support() -> (supported: bool)
    ensures
        supported,
{
    true
}

} // verus!
