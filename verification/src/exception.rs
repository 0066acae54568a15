//! The classifier of guest exits: from the kind of trap, the syndrome and the
//! trap frame to the reason that the hypervisor acts on.

use vstd::prelude::*;
use crate::context_frame::Aarch64ContextFrame;
use crate::error::ErrorKind;
use crate::exception_utils::{
    exception_class, exception_data_abort_access_is_sign_ext,
    exception_data_abort_access_is_write, exception_data_abort_access_reg,
    exception_data_abort_access_reg_width, exception_data_abort_access_width,
    exception_data_abort_handleable, exception_data_abort_is_permission_fault,
    exception_data_abort_is_translate_fault, exception_fault_addr, exception_iss,
    exception_next_instruction_step, exception_sysreg_addr, exception_sysreg_direction_write,
    exception_sysreg_gpr, spec_class, spec_class_value, spec_data_abort_access_is_sign_ext,
    spec_data_abort_access_is_write, spec_data_abort_access_reg,
    spec_data_abort_access_reg_width, spec_data_abort_access_width, spec_data_abort_handleable,
    spec_data_abort_is_permission_fault, spec_data_abort_is_translate_fault, spec_fault_addr,
    spec_iss, spec_next_instruction_step, spec_sysreg_addr, spec_sysreg_direction_write,
    spec_sysreg_gpr, ExceptionClass, EC_DATA_ABORT_LOWER_EL, ICC_SGI1R_EL1,
};
use crate::exit::{width_of_bytes, AccessWidth, AxVCpuExitReason};

verus! {

/// The number that the exception vectors pass for a synchronous exception.
pub const EXCEPTION_SYNC: usize = 0;

/// The number that the exception vectors pass for an IRQ.
pub const EXCEPTION_IRQ: usize = 1;

/// The first function number of the 32-bit power-state interface.
pub const PSCI_FN_BASE_32: u64 = 0x8400_0000;

/// The first function number of the 64-bit power-state interface.
pub const PSCI_FN_BASE_64: u64 = 0xC400_0000;

/// The number of function numbers in each of the two ranges.
pub const PSCI_FN_COUNT: u64 = 0x20;

/// The offset of CPU_OFF in its range.
pub const PSCI_FN_CPU_OFF: u64 = 0x2;

/// The offset of CPU_ON in its range.
pub const PSCI_FN_CPU_ON: u64 = 0x3;

/// The offset of SYSTEM_OFF in its range.
pub const PSCI_FN_SYSTEM_OFF: u64 = 0x8;

/// The four kinds of exception that a vector is entered for.
#[derive(Clone, Copy, Debug, PartialEq, Eq, Structural)]
pub enum TrapKind {
    /// A synchronous exception.
    Synchronous,
    /// An interrupt request.
    Irq,
    /// A fast interrupt request.
    Fiq,
    /// A system error.
    SError,
}

impl TrapKind {
    /// The number that stands for the kind in the exception vectors.
    pub open spec fn spec_number(self) -> u8 {
        match self {
            TrapKind::Synchronous => 0,
            TrapKind::Irq => 1,
            TrapKind::Fiq => 2,
            TrapKind::SError => 3,
        }
    }

    /// The number that stands for the kind in the exception vectors.
    pub fn number(&self) -> (n: u8)
        ensures
            n == self.spec_number(),
    {
        match self {
            TrapKind::Synchronous => 0,
            TrapKind::Irq => 1,
            TrapKind::Fiq => 2,
            TrapKind::SError => 3,
        }
    }

    /// The kind that a number stands for; `None` for a number above 3.
    pub fn try_from_u8(n: u8) -> (kind: Option<TrapKind>)
        ensures
            n <= 3 <==> kind.is_some(),
            kind.is_some() ==> kind.unwrap().spec_number() == n,
    {
        match n {
            0 => Some(TrapKind::Synchronous),
            1 => Some(TrapKind::Irq),
            2 => Some(TrapKind::Fiq),
            3 => Some(TrapKind::SError),
            _ => None,
        }
    }
}

/// Where an exception was taken from.
#[derive(Clone, Copy, Debug, PartialEq, Eq, Structural)]
pub enum TrapSource {
    /// The current exception level, on SP_EL0.
    CurrentSpEl0,
    /// The current exception level, on its own stack pointer.
    CurrentSpElx,
    /// A lower exception level in AArch64 state.
    LowerAArch64,
    /// A lower exception level in AArch32 state.
    LowerAArch32,
}

impl TrapSource {
    /// The number that stands for the source in the exception vectors.
    pub open spec fn spec_number(self) -> u8 {
        match self {
            TrapSource::CurrentSpEl0 => 0,
            TrapSource::CurrentSpElx => 1,
            TrapSource::LowerAArch64 => 2,
            TrapSource::LowerAArch32 => 3,
        }
    }

    /// The number that stands for the source in the exception vectors.
    pub fn number(&self) -> (n: u8)
        ensures
            n == self.spec_number(),
    {
        match self {
            TrapSource::CurrentSpEl0 => 0,
            TrapSource::CurrentSpElx => 1,
            TrapSource::LowerAArch64 => 2,
            TrapSource::LowerAArch32 => 3,
        }
    }

    /// The source that a number stands for; `None` for a number above 3.
    pub fn try_from_u8(n: u8) -> (source: Option<TrapSource>)
        ensures
            n <= 3 <==> source.is_some(),
            source.is_some() ==> source.unwrap().spec_number() == n,
    {
        match n {
            0 => Some(TrapSource::CurrentSpEl0),
            1 => Some(TrapSource::CurrentSpElx),
            2 => Some(TrapSource::LowerAArch64),
            3 => Some(TrapSource::LowerAArch32),
            _ => None,
        }
    }
}

/// The size in bytes of one entry of the vector table: 32 instructions.
pub const VECTOR_ENTRY_SIZE: usize = 0x80;

/// The number of entries of the vector table: four kinds for each of four sources.
pub const VECTOR_ENTRIES: usize = 16;

/// The byte offset, from the base of the vector table, of the entry for a kind
/// of exception from a source: the sources follow each other, and within a
/// source the kinds.
pub open spec fn spec_vector_offset(kind: TrapKind, source: TrapSource) -> int {
    0x80 * (4 * source.spec_number() + kind.spec_number())
}

/// The byte offset of the entry of the vector table for a kind of exception
/// from a source. It is a multiple of the entry size inside the table.
pub fn vector_offset(kind: TrapKind, source: TrapSource) -> (offset: usize)
    ensures
        offset == spec_vector_offset(kind, source),
        offset % VECTOR_ENTRY_SIZE == 0,
        offset < VECTOR_ENTRIES * VECTOR_ENTRY_SIZE,
{
    let entry: usize = 4 * (source.number() as usize) + (kind.number() as usize);
    VECTOR_ENTRY_SIZE * entry
}

/// What the CPU reports of an exception: the syndrome and the two fault address registers.
#[derive(Clone, Copy, Debug, PartialEq, Eq, Structural)]
pub struct Syndrome {
    /// ESR_EL2 as it was at exception entry.
    pub esr: u64,
    /// FAR_EL2 as it was at exception entry.
    pub far: u64,
    /// HPFAR_EL2 as it was at exception entry.
    pub hpfar: u64,
}

/// Where the exit path goes once the guest's registers are saved.
#[derive(Clone, Copy, Debug, PartialEq, Eq, Structural)]
pub enum ExitRoute {
    /// A guest was running: go back into the host's call of `run`.
    ReturnToHost,
    /// No guest was running: hand the interrupt to the host's handler and return from the exception.
    DispatchIrq,
}

/// Whether a vector has a handler: only synchronous exceptions and IRQs
/// from a lower exception level in AArch64 state have one.
pub open spec fn spec_vector_is_handled(kind: TrapKind, source: TrapSource) -> bool {
    source == TrapSource::LowerAArch64 && (kind == TrapKind::Synchronous || kind == TrapKind::Irq)
}

/// Whether the vector for this kind and source has a handler. Every other
/// vector is invalid, and entering it is fatal.
pub fn vector_is_handled(kind: TrapKind, source: TrapSource) -> (handled: bool)
    ensures
        handled == spec_vector_is_handled(kind, source),
{
    match source {
        TrapSource::LowerAArch64 => match kind {
            TrapKind::Synchronous => true,
            TrapKind::Irq => true,
            _ => false,
        },
        _ => false,
    }
}

/// Picks the route of the exit path by the per-CPU flag that says whether a vCPU is running.
pub fn vmexit_route(vcpu_running: bool) -> (route: ExitRoute)
    ensures
        vcpu_running ==> route == ExitRoute::ReturnToHost,
        !vcpu_running ==> route == ExitRoute::DispatchIrq,
{
    if vcpu_running {
        ExitRoute::ReturnToHost
    } else {
        ExitRoute::DispatchIrq
    }
}

/// The offset of a function number in the power-state range that holds it.
pub open spec fn spec_psci_fn_offset(func: u64) -> Option<u64> {
    if PSCI_FN_BASE_32 <= func < PSCI_FN_BASE_32 + PSCI_FN_COUNT {
        Some((func - PSCI_FN_BASE_32) as u64)
    } else if PSCI_FN_BASE_64 <= func < PSCI_FN_BASE_64 + PSCI_FN_COUNT {
        Some((func - PSCI_FN_BASE_64) as u64)
    } else {
        None
    }
}

/// What a power-state call with the given registers asks for; `None` where x0
/// is in neither range of function numbers.
pub open spec fn spec_psci_call(ctx: Aarch64ContextFrame) -> Option<
    Result<AxVCpuExitReason, ErrorKind>,
> {
    match spec_psci_fn_offset(ctx.gpr[0]) {
        None => None,
        Some(offset) => Some(
            if offset == PSCI_FN_CPU_OFF {
                Ok(AxVCpuExitReason::CpuDown { _state: ctx.gpr[1] })
            } else if offset == PSCI_FN_CPU_ON {
                Ok(
                    AxVCpuExitReason::CpuUp {
                        target_cpu: ctx.gpr[1],
                        entry_point: ctx.gpr[2],
                        arg: ctx.gpr[3],
                    },
                )
            } else if offset == PSCI_FN_SYSTEM_OFF {
                Ok(AxVCpuExitReason::SystemDown)
            } else {
                Err(ErrorKind::Unsupported)
            },
        ),
    }
}

/// Whether `exit` is the hypercall that the frame's registers describe:
/// the number in x0, the six arguments in x1 to x6.
pub open spec fn is_hypercall_of(
    exit: Result<AxVCpuExitReason, ErrorKind>,
    ctx: Aarch64ContextFrame,
) -> bool {
    exit matches Ok(AxVCpuExitReason::Hypercall { nr, args }) && nr == ctx.gpr[0] && args@
        == ctx.gpr@.subrange(1, 7)
}

/// The interrupt that a value written to ICC_SGI1R_EL1 asks for.
pub open spec fn spec_decode_sgi1r(val: u64) -> AxVCpuExitReason {
    AxVCpuExitReason::SendIPI {
        target_cpu: (((val >> 48) & 0xff) << 24) | (((val >> 32) & 0xff) << 16) | (((val >> 16)
            & 0xff) << 8),
        target_cpu_aux: val & 0xffff,
        send_to_all: (val >> 40) & 1 == 1,
        send_to_self: false,
        vector: (val >> 24) & 0xf,
    }
}

/// The exit for a memory-mapped I/O access with the given decoded fields.
pub open spec fn spec_mmio_exit(
    addr: u64,
    access_width: int,
    is_write: bool,
    reg: usize,
    reg_width: int,
    signed_ext: bool,
    data: u64,
) -> Result<AxVCpuExitReason, ErrorKind> {
    match (width_of_bytes(access_width), width_of_bytes(reg_width)) {
        (Some(width), Some(rw)) => if is_write {
            Ok(AxVCpuExitReason::MmioWrite { addr, width, data })
        } else {
            Ok(AxVCpuExitReason::MmioRead { addr, width, reg, reg_width: rw, signed_ext })
        },
        _ => Err(ErrorKind::InvalidInput),
    }
}

/// The address `step` bytes after `pc`, in the 64-bit address space.
pub open spec fn spec_step_over(pc: u64, step: u64) -> u64 {
    if pc + step > u64::MAX {
        (pc + step - 0x1_0000_0000_0000_0000) as u64
    } else {
        (pc + step) as u64
    }
}

/// The frame after the trapped instruction has been stepped over.
pub open spec fn spec_advance(ctx: Aarch64ContextFrame, esr: u64) -> Aarch64ContextFrame {
    Aarch64ContextFrame { elr: spec_step_over(ctx.elr, spec_next_instruction_step(esr)), ..ctx }
}

/// Whether a data abort can be classified: its syndrome describes the access,
/// and it is a translation or a permission fault.
pub open spec fn spec_data_abort_classifiable(esr: u64) -> bool {
    spec_data_abort_handleable(esr) && (spec_data_abort_is_translate_fault(esr)
        || spec_data_abort_is_permission_fault(esr))
}

/// The exit that a data abort leads to.
pub open spec fn spec_data_abort_exit(ctx: Aarch64ContextFrame, syn: Syndrome) -> Result<
    AxVCpuExitReason,
    ErrorKind,
> {
    if spec_class_value(syn.esr) != EC_DATA_ABORT_LOWER_EL {
        Err(ErrorKind::IllFormed)
    } else if !spec_data_abort_is_translate_fault(syn.esr) {
        Err(ErrorKind::Unsupported)
    } else {
        spec_mmio_exit(
            spec_fault_addr(syn.far, syn.hpfar),
            spec_data_abort_access_width(syn.esr),
            spec_data_abort_access_is_write(syn.esr),
            spec_data_abort_access_reg(syn.esr) as usize,
            spec_data_abort_access_reg_width(syn.esr),
            spec_data_abort_access_is_sign_ext(syn.esr),
            ctx.spec_gpr(spec_data_abort_access_reg(syn.esr) as int),
        )
    }
}

/// The frame that a data abort leaves: the trapped instruction is stepped over
/// exactly where an exit is produced.
pub open spec fn spec_data_abort_frame(
    ctx: Aarch64ContextFrame,
    syn: Syndrome,
) -> Aarch64ContextFrame {
    if spec_data_abort_exit(ctx, syn).is_ok() {
        spec_advance(ctx, syn.esr)
    } else {
        ctx
    }
}

/// Whether a trapped access is a read of ICC_SGI1R_EL1, which the core answers itself.
pub open spec fn spec_is_sgi1r_read(esr: u64) -> bool {
    spec_sysreg_addr(spec_iss(esr)) == ICC_SGI1R_EL1 && !spec_sysreg_direction_write(spec_iss(esr))
}

/// The exit that a trapped access to a system register leads to.
pub open spec fn spec_system_register_exit(ctx: Aarch64ContextFrame, esr: u64) -> AxVCpuExitReason {
    let iss = spec_iss(esr);
    let addr = spec_sysreg_addr(iss);
    let reg = spec_sysreg_gpr(iss);
    if spec_sysreg_direction_write(iss) {
        if addr == ICC_SGI1R_EL1 {
            spec_decode_sgi1r(ctx.spec_gpr(reg as int))
        } else {
            AxVCpuExitReason::SysRegWrite { addr: addr as usize, value: ctx.spec_gpr(reg as int) }
        }
    } else {
        if addr == ICC_SGI1R_EL1 {
            AxVCpuExitReason::Nothing
        } else {
            AxVCpuExitReason::SysRegRead { addr: addr as usize, reg: reg as usize }
        }
    }
}

/// The general-purpose registers that a trapped access to a system register
/// leaves: a read of ICC_SGI1R_EL1 puts zero into its destination.
pub open spec fn spec_system_register_gprs(ctx: Aarch64ContextFrame, esr: u64) -> Seq<u64> {
    let reg = spec_sysreg_gpr(spec_iss(esr));
    if spec_is_sgi1r_read(esr) && reg < 31 {
        ctx.gpr@.update(reg as int, 0)
    } else {
        ctx.gpr@
    }
}

/// Whether a synchronous exit can be classified. Where it cannot, the exit is fatal.
pub open spec fn spec_sync_exit_handled(syn: Syndrome) -> bool {
    match spec_class(syn.esr) {
        Some(ExceptionClass::DataAbortLowerEL) => spec_data_abort_classifiable(syn.esr),
        Some(_) => true,
        None => false,
    }
}

/// The interrupt that a value written to ICC_SGI1R_EL1 asks for: the target's
/// `Aff3.Aff2.Aff1` in `target_cpu`, the target list in `target_cpu_aux`,
/// IRM as `send_to_all`, the interrupt number as `vector`; never to the sender alone.
pub fn decode_sgi1r(val: u64) -> (exit: AxVCpuExitReason)
    ensures
        exit == spec_decode_sgi1r(val),
{
    let aff3: u64 = (val >> 48) & 0xff;
    let aff2: u64 = (val >> 32) & 0xff;
    let aff1: u64 = (val >> 16) & 0xff;
    AxVCpuExitReason::SendIPI {
        target_cpu: (aff3 << 24) | (aff2 << 16) | (aff1 << 8),
        target_cpu_aux: val & 0xffff,
        send_to_all: (val >> 40) & 1 == 1,
        send_to_self: false,
        vector: (val >> 24) & 0xf,
    }
}

/// The exit for a memory-mapped I/O access, from its decoded fields.
///
/// Fails with `InvalidInput` if and only if the width of the access or of the
/// register is none of 1, 2, 4 and 8 bytes.
pub fn mmio_exit(
    addr: u64,
    access_width: usize,
    is_write: bool,
    reg: usize,
    reg_width: usize,
    signed_ext: bool,
    data: u64,
) -> (exit: Result<AxVCpuExitReason, ErrorKind>)
    ensures
        exit == spec_mmio_exit(
            addr,
            access_width as int,
            is_write,
            reg,
            reg_width as int,
            signed_ext,
            data,
        ),
        exit.is_err() <==> (width_of_bytes(access_width as int).is_none() || width_of_bytes(
            reg_width as int,
        ).is_none()),
{
    let width = match AccessWidth::try_from_bytes(access_width) {
        Ok(width) => width,
        Err(_) => return Err(ErrorKind::InvalidInput),
    };
    let reg_width = match AccessWidth::try_from_bytes(reg_width) {
        Ok(reg_width) => reg_width,
        Err(_) => return Err(ErrorKind::InvalidInput),
    };
    if is_write {
        return Ok(AxVCpuExitReason::MmioWrite { addr, width, data });
    }
    Ok(AxVCpuExitReason::MmioRead { addr, width, reg, reg_width, signed_ext })
}

/// Classifies a power-state call made with HVC.
///
/// Returns `None` if and only if x0 is in neither range of function numbers.
/// In a range, offset 2 powers the CPU down, offset 3 starts another CPU,
/// offset 8 shuts the machine down, and every other offset is `Unsupported`.
pub fn handle_psci_call(ctx: &Aarch64ContextFrame) -> (call: Option<
    Result<AxVCpuExitReason, ErrorKind>,
>)
    ensures
        call == spec_psci_call(*ctx),
{
    let func: u64 = ctx.gpr[0];
    let offset: u64 = if PSCI_FN_BASE_32 <= func && func < PSCI_FN_BASE_32 + PSCI_FN_COUNT {
        func - PSCI_FN_BASE_32
    } else if PSCI_FN_BASE_64 <= func && func < PSCI_FN_BASE_64 + PSCI_FN_COUNT {
        func - PSCI_FN_BASE_64
    } else {
        return None;
    };
    if offset == PSCI_FN_CPU_OFF {
        Some(Ok(AxVCpuExitReason::CpuDown { _state: ctx.gpr[1] }))
    } else if offset == PSCI_FN_CPU_ON {
        Some(
            Ok(
                AxVCpuExitReason::CpuUp {
                    target_cpu: ctx.gpr[1],
                    entry_point: ctx.gpr[2],
                    arg: ctx.gpr[3],
                },
            ),
        )
    } else if offset == PSCI_FN_SYSTEM_OFF {
        Some(Ok(AxVCpuExitReason::SystemDown))
    } else {
        Some(Err(ErrorKind::Unsupported))
    }
}

/// Classifies an HVC: a power-state call where x0 names one, else a hypercall
/// with the number in x0 and the arguments in x1 to x6. The frame is not changed.
pub fn handle_hypercall(ctx: &Aarch64ContextFrame) -> (exit: Result<AxVCpuExitReason, ErrorKind>)
    ensures
        spec_psci_call(*ctx).is_some() ==> exit == spec_psci_call(*ctx).unwrap(),
        spec_psci_call(*ctx).is_none() ==> is_hypercall_of(exit, *ctx),
{
    if let Some(result) = handle_psci_call(ctx) {
        return result;
    }
    let args: [u64; 6] = [
        ctx.gpr[1],
        ctx.gpr[2],
        ctx.gpr[3],
        ctx.gpr[4],
        ctx.gpr[5],
        ctx.gpr[6],
    ];
    assert(args@ =~= ctx.gpr@.subrange(1, 7));
    Ok(AxVCpuExitReason::Hypercall { nr: ctx.gpr[0], args })
}

/// Classifies a data abort taken from the guest.
///
/// A syndrome of another class is `IllFormed`, and a permission fault is
/// `Unsupported`; neither changes the frame. Otherwise the trapped
/// instruction is stepped over and the access is returned as a read or a write.
/// The abort must be one that can be classified: with a syndrome that
/// describes the access, and a translation or permission fault.
pub fn handle_data_abort(ctx: &mut Aarch64ContextFrame, syn: &Syndrome) -> (exit: Result<
    AxVCpuExitReason,
    ErrorKind,
>)
    requires
        spec_class_value(syn.esr) == EC_DATA_ABORT_LOWER_EL ==> spec_data_abort_classifiable(
            syn.esr,
        ),
    ensures
        exit == spec_data_abort_exit(*old(ctx), *syn),
        *final(ctx) == spec_data_abort_frame(*old(ctx), *syn),
        exit.is_err() <==> (spec_class_value(syn.esr) != EC_DATA_ABORT_LOWER_EL
            || !spec_data_abort_is_translate_fault(syn.esr)),
        !(exit matches Err(ErrorKind::InvalidInput)),
{
    let addr: u64 = match exception_fault_addr(syn.esr, syn.far, syn.hpfar) {
        Ok(addr) => addr,
        Err(e) => return Err(e),
    };
    if !exception_data_abort_is_translate_fault(syn.esr) {
        return Err(ErrorKind::Unsupported);
    }
    let access_width: usize = exception_data_abort_access_width(syn.esr);
    let is_write: bool = exception_data_abort_access_is_write(syn.esr);
    let signed_ext: bool = exception_data_abort_access_is_sign_ext(syn.esr);
    let reg: usize = exception_data_abort_access_reg(syn.esr);
    let reg_width: usize = exception_data_abort_access_reg_width(syn.esr);
    let data: u64 = ctx.gpr(reg);
    let exit = mmio_exit(addr, access_width, is_write, reg, reg_width, signed_ext, data);
    let pc: u64 = ctx.exception_pc().wrapping_add(exception_next_instruction_step(syn.esr));
    ctx.set_exception_pc(pc);
    assert(ctx.gpr@ =~= old(ctx).gpr@);
    exit
}

/// Classifies a trapped access to a system register.
///
/// The trapped instruction is stepped over. A write to ICC_SGI1R_EL1 becomes the
/// interrupt it asks for; a read of it puts zero into its destination and needs
/// nothing more. Every other access is returned as a read or a write.
pub fn handle_system_register(ctx: &mut Aarch64ContextFrame, syn: &Syndrome) -> (exit: Result<
    AxVCpuExitReason,
    ErrorKind,
>)
    ensures
        exit == Ok::<AxVCpuExitReason, ErrorKind>(spec_system_register_exit(*old(ctx), syn.esr)),
        final(ctx).elr == spec_advance(*old(ctx), syn.esr).elr,
        final(ctx).gpr@ == spec_system_register_gprs(*old(ctx), syn.esr),
        final(ctx).sp_el0 == old(ctx).sp_el0,
        final(ctx).spsr == old(ctx).spsr,
{
    let iss: u64 = exception_iss(syn.esr);
    let addr: usize = exception_sysreg_addr(iss);
    let write: bool = exception_sysreg_direction_write(iss);
    let reg: usize = exception_sysreg_gpr(iss);
    let pc: u64 = ctx.exception_pc().wrapping_add(exception_next_instruction_step(syn.esr));
    ctx.set_exception_pc(pc);
    assert(ctx.gpr@ =~= old(ctx).gpr@);
    let value: u64 = ctx.gpr(reg);
    if addr == ICC_SGI1R_EL1 {
        if write {
            return Ok(decode_sgi1r(value));
        }
        ctx.set_gpr(reg, 0);
        return Ok(AxVCpuExitReason::Nothing);
    }
    if write {
        return Ok(AxVCpuExitReason::SysRegWrite { addr, value });
    }
    Ok(AxVCpuExitReason::SysRegRead { addr, reg })
}

/// Whether a synchronous exit can be classified by [`handle_exception_sync`]:
/// its class is a data abort that can be classified, an HVC, or a trapped
/// access to a system register. Every other synchronous exit is fatal.
pub fn sync_exit_handled(syn: &Syndrome) -> (handled: bool)
    ensures
        handled == spec_sync_exit_handled(*syn),
{
    match exception_class(syn.esr) {
        Some(ExceptionClass::DataAbortLowerEL) => {
            exception_data_abort_handleable(syn.esr) && (exception_data_abort_is_translate_fault(
                syn.esr,
            ) || exception_data_abort_is_permission_fault(syn.esr))
        },
        Some(_) => true,
        None => false,
    }
}

/// Classifies a synchronous exception taken from the guest, by its exception class.
pub fn handle_exception_sync(ctx: &mut Aarch64ContextFrame, syn: &Syndrome) -> (exit: Result<
    AxVCpuExitReason,
    ErrorKind,
>)
    requires
        spec_sync_exit_handled(*syn),
    ensures
        spec_class(syn.esr) == Some(ExceptionClass::DataAbortLowerEL) ==> {
            &&& exit == spec_data_abort_exit(*old(ctx), *syn)
            &&& *final(ctx) == spec_data_abort_frame(*old(ctx), *syn)
        },
        spec_class(syn.esr) == Some(ExceptionClass::HVC64) ==> {
            &&& *final(ctx) == *old(ctx)
            &&& spec_psci_call(*old(ctx)).is_some() ==> exit == spec_psci_call(*old(ctx)).unwrap()
            &&& spec_psci_call(*old(ctx)).is_none() ==> is_hypercall_of(exit, *old(ctx))
        },
        spec_class(syn.esr) == Some(ExceptionClass::TrappedMsrMrs) ==> {
            &&& exit == Ok::<AxVCpuExitReason, ErrorKind>(
                spec_system_register_exit(*old(ctx), syn.esr),
            )
            &&& final(ctx).elr == spec_advance(*old(ctx), syn.esr).elr
            &&& final(ctx).gpr@ == spec_system_register_gprs(*old(ctx), syn.esr)
            &&& final(ctx).sp_el0 == old(ctx).sp_el0
            &&& final(ctx).spsr == old(ctx).spsr
        },
{
    match exception_class(syn.esr) {
        Some(ExceptionClass::DataAbortLowerEL) => handle_data_abort(ctx, syn),
        Some(ExceptionClass::HVC64) => handle_hypercall(ctx),
        _ => handle_system_register(ctx, syn),
    }
}

/// The dispatch of power-state calls: in either range of function numbers,
/// offset 2 powers the CPU down with the state in x1, offset 3 starts the CPU
/// named in x1 at the address in x2 with the argument in x3, offset 8 shuts
/// the machine down, and every other offset is unsupported. A number in
/// neither range is no power-state call.
pub proof fn lemma_psci_dispatch(ctx: Aarch64ContextFrame, offset: u64)
    ensures
        offset < PSCI_FN_COUNT && (ctx.gpr[0] == PSCI_FN_BASE_32 + offset || ctx.gpr[0]
            == PSCI_FN_BASE_64 + offset) ==> spec_psci_call(ctx) == Some(
            if offset == 2 {
                Ok::<AxVCpuExitReason, ErrorKind>(AxVCpuExitReason::CpuDown { _state: ctx.gpr[1] })
            } else if offset == 3 {
                Ok::<AxVCpuExitReason, ErrorKind>(
                    AxVCpuExitReason::CpuUp {
                        target_cpu: ctx.gpr[1],
                        entry_point: ctx.gpr[2],
                        arg: ctx.gpr[3],
                    },
                )
            } else if offset == 8 {
                Ok::<AxVCpuExitReason, ErrorKind>(AxVCpuExitReason::SystemDown)
            } else {
                Err::<AxVCpuExitReason, ErrorKind>(ErrorKind::Unsupported)
            },
        ),
        !(0x8400_0000 <= ctx.gpr[0] <= 0x8400_001F) && !(0xC400_0000 <= ctx.gpr[0] <= 0xC400_001F)
            ==> spec_psci_call(ctx).is_none(),
{
}

/// The value written to ICC_SGI1R_EL1, from its fields.
pub open spec fn spec_sgi1r(aff3: u64, aff2: u64, aff1: u64, irm: bool, intid: u64, targets: u64) -> u64 {
    (aff3 << 48) | (if irm {
        1u64 << 40
    } else {
        0u64
    }) | (aff2 << 32) | (intid << 24) | (aff1 << 16) | targets
}

/// Decoding a value written to ICC_SGI1R_EL1 gives back its fields: the
/// affinity of the targets as `Aff3.Aff2.Aff1.0`, the target list, the
/// interrupt number, and `send_to_all` exactly where IRM (bit 40) is set.
pub proof fn lemma_sgi1r_fields(aff3: u64, aff2: u64, aff1: u64, irm: bool, intid: u64, targets: u64)
    requires
        aff3 < 0x100,
        aff2 < 0x100,
        aff1 < 0x100,
        intid < 16,
        targets < 0x1_0000,
    ensures
        spec_decode_sgi1r(spec_sgi1r(aff3, aff2, aff1, irm, intid, targets)) == (
        AxVCpuExitReason::SendIPI {
            target_cpu: (aff3 << 24) | (aff2 << 16) | (aff1 << 8),
            target_cpu_aux: targets,
            send_to_all: irm,
            send_to_self: false,
            vector: intid,
        }),
{
    let m: u64 = if irm { 1u64 << 40 } else { 0u64 };
    let val: u64 = (aff3 << 48) | m | (aff2 << 32) | (intid << 24) | (aff1 << 16) | targets;
    assert(val == spec_sgi1r(aff3, aff2, aff1, irm, intid, targets));
    assert((val >> 48) & 0xff == aff3 && (val >> 32) & 0xff == aff2 && (val >> 16) & 0xff == aff1
        && val & 0xffff == targets && (val >> 24) & 0xf == intid && ((val >> 40) & 1 == 1) == (m
        != 0)) by (bit_vector)
        requires
            val == (aff3 << 48) | m | (aff2 << 32) | (intid << 24) | (aff1 << 16) | targets,
            m == 1u64 << 40 || m == 0,
            aff3 < 0x100,
            aff2 < 0x100,
            aff1 < 0x100,
            intid < 16,
            targets < 0x1_0000,
    ;
    assert((1u64 << 40) != 0) by (bit_vector);
}

/// After a data abort that yields an exit, and after every trapped access to a
/// system register, the guest resumes exactly one instruction further: 4 bytes
/// where the syndrome's IL bit is set, 2 where it is not (modulo 2^64). A data
/// abort that yields an error leaves the resume address alone.
pub proof fn lemma_elr_advance(ctx: Aarch64ContextFrame, syn: Syndrome)
    ensures
        spec_data_abort_exit(ctx, syn).is_ok() ==> spec_data_abort_frame(ctx, syn).elr as int == (
        ctx.elr + (if (syn.esr >> 25) & 1 == 1 {
            4int
        } else {
            2int
        })) % 0x1_0000_0000_0000_0000,
        spec_data_abort_exit(ctx, syn).is_err() ==> spec_data_abort_frame(ctx, syn) == ctx,
        spec_advance(ctx, syn.esr).elr as int == (ctx.elr + (if (syn.esr >> 25) & 1 == 1 {
            4int
        } else {
            2int
        })) % 0x1_0000_0000_0000_0000,
        ctx.elr + 4 <= u64::MAX ==> spec_advance(ctx, syn.esr).elr == ctx.elr
            + spec_next_instruction_step(syn.esr),
{
}

} // verus!
