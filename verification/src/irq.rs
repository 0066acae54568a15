//! Interrupts that arrive while a guest runs.

use vstd::prelude::*;
use crate::context_frame::Aarch64ContextFrame;
use crate::error::ErrorKind;
use crate::exit::AxVCpuExitReason;

verus! {

/// Classifies an IRQ taken from the guest: it is an external interrupt, which
/// the hypervisor acknowledges and injects. The frame is not changed.
pub fn handle_exception_irq(ctx: &mut Aarch64ContextFrame) -> (exit: Result<
    AxVCpuExitReason,
    ErrorKind,
>)
    ensures
        exit == Ok::<AxVCpuExitReason, ErrorKind>(AxVCpuExitReason::ExternalInterrupt),
        *final(ctx) == *old(ctx),
{
    Ok(AxVCpuExitReason::ExternalInterrupt)
}

} // verus!
