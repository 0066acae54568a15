//! The entry points of the classifier of synchronous exceptions, by what they handle.

use vstd::prelude::*;
use crate::context_frame::Aarch64ContextFrame;
use crate::error::ErrorKind;
use crate::exception::{
    handle_data_abort, handle_exception_sync, is_hypercall_of, spec_advance,
    spec_data_abort_classifiable, spec_data_abort_exit, spec_data_abort_frame, spec_psci_call,
    spec_sync_exit_handled, spec_system_register_exit, spec_system_register_gprs, Syndrome,
};
use crate::exception_utils::{
    spec_class, spec_class_value, spec_data_abort_is_translate_fault, ExceptionClass,
    EC_DATA_ABORT_LOWER_EL,
};
use crate::exit::AxVCpuExitReason;

verus! {

/// Classifies a synchronous exception taken from the guest; the same as
/// [`handle_exception_sync`].
pub fn exception_handle_sync(ctx: &mut Aarch64ContextFrame, syn: &Syndrome) -> (exit: Result<
    AxVCpuExitReason,
    ErrorKind,
>)
    requires
        spec_sync_exit_handled(*syn),
    ensures
        spec_class(syn.esr) == Some(ExceptionClass::DataAbortLowerEL) ==> {
            &&& exit == spec_data_abort_exit(*old(ctx), *syn)
            &&& *final(ctx) == spec_data_abort_frame(*old(ctx), *syn)
        },
        spec_class(syn.esr) == Some(ExceptionClass::HVC64) ==> {
            &&& *final(ctx) == *old(ctx)
            &&& spec_psci_call(*old(ctx)).is_some() ==> exit == spec_psci_call(*old(ctx)).unwrap()
            &&& spec_psci_call(*old(ctx)).is_none() ==> is_hypercall_of(exit, *old(ctx))
        },
        spec_class(syn.esr) == Some(ExceptionClass::TrappedMsrMrs) ==> {
            &&& exit == Ok::<AxVCpuExitReason, ErrorKind>(
                spec_system_register_exit(*old(ctx), syn.esr),
            )
            &&& final(ctx).elr == spec_advance(*old(ctx), syn.esr).elr
            &&& final(ctx).gpr@ == spec_system_register_gprs(*old(ctx), syn.esr)
            &&& final(ctx).sp_el0 == old(ctx).sp_el0
            &&& final(ctx).spsr == old(ctx).spsr
        },
{
    handle_exception_sync(ctx, syn)
}

/// Classifies a data abort taken from the guest; the same as [`handle_data_abort`].
pub fn data_abort_handler(context_frame: &mut Aarch64ContextFrame, syn: &Syndrome) -> (exit: Result<
    AxVCpuExitReason,
    ErrorKind,
>)
    requires
        spec_class_value(syn.esr) == EC_DATA_ABORT_LOWER_EL ==> spec_data_abort_classifiable(
            syn.esr,
        ),
    ensures
        exit == spec_data_abort_exit(*old(context_frame), *syn),
        *final(context_frame) == spec_data_abort_frame(*old(context_frame), *syn),
        exit.is_err() <==> (spec_class_value(syn.esr) != EC_DATA_ABORT_LOWER_EL
            || !spec_data_abort_is_translate_fault(syn.esr)),
{
    handle_data_abort(context_frame, syn)
}

} // verus!
