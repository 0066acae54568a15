//! The virtual CPU: its state, how it is set up, and what happens around a run of the guest.
//!
//! A run has three steps. [`Aarch64VCpu::restore_vm_system_regs`] gives the
//! registers that the CPU is to hold; the caller loads them and switches to
//! the guest; when the guest traps, the caller reads the registers back and
//! [`Aarch64VCpu::vmexit_handler`] turns the trap into an exit reason.

use vstd::prelude::*;
use crate::context_frame::{Aarch64ContextFrame, GuestSystemRegisters};
use crate::error::ErrorKind;
use crate::exception::{
    handle_exception_sync, is_hypercall_of, spec_advance, spec_data_abort_exit,
    spec_data_abort_frame, spec_psci_call, spec_sync_exit_handled, spec_system_register_exit,
    spec_system_register_gprs, sync_exit_handled, vmexit_route, ExitRoute, Syndrome, TrapKind,
};
use crate::exception_utils::{spec_class, ExceptionClass};
use crate::exit::AxVCpuExitReason;
use crate::fields::{
    cnthctl_el1_physical, hcr_guest, hcr_virtual_interrupts, spec_vtcr, spsr_guest_entry, vtcr,
    CNTHCTL_EL1_PHYSICAL, HCR_GUEST, HCR_VIRTUAL_INTERRUPTS, SPSR_GUEST_ENTRY,
};
use crate::pcpu::{max_gpt_level, pa_bits, spec_max_gpt_level, spec_pa_bits};

verus! {

/// SCTLR_EL1 as a guest finds it: the reserved-one bits, with the MMU and the caches off.
pub const SCTLR_EL1_RESET: u64 = 0x30C5_0830;

/// The bit of VMPIDR_EL2 that is always one.
pub const VMPIDR_RES1: u64 = 0x8000_0000;

/// The registers of a vCPU that are saved and restored around a run of the guest.
#[derive(Clone, Copy, Debug, Default)]
pub struct VmCpuRegisters {
    /// The guest's trap frame.
    pub trap_context_regs: Aarch64ContextFrame,
    /// The guest's system registers.
    pub vm_system_regs: GuestSystemRegisters,
}

/// What a vCPU is created with.
#[derive(Clone, Debug, Default)]
pub struct Aarch64VCpuCreateConfig {
    /// The MPIDR_EL1 value that the guest reads on this vCPU.
    pub mpidr_el1: u64,
    /// The guest-physical address of the device tree, which the guest finds in x0.
    pub dtb_addr: u64,
}

/// What a vCPU is set up with.
#[derive(Clone, Debug, Default)]
pub struct Aarch64VCpuSetupConfig {
    /// Whether physical interrupts go to the guest directly.
    pub passthrough_interrupt: bool,
    /// Whether the guest uses the physical timer directly.
    pub passthrough_timer: bool,
}

/// A virtual CPU of a guest.
#[derive(Clone, Copy, Debug)]
pub struct Aarch64VCpu {
    /// The guest's trap frame. The exception vectors save into it.
    pub ctx: Aarch64ContextFrame,
    /// The top of the host's stack while the guest runs.
    pub host_stack_top: u64,
    /// The guest's system registers.
    pub guest_system_regs: GuestSystemRegisters,
    /// The MPIDR_EL1 value of the vCPU.
    pub mpidr: u64,
    /// The number of levels of the guest's stage-2 page table.
    pub pt_level: usize,
    /// The number of physical address bits of the CPU.
    pub pa_bits: usize,
}

/// The PS field of VTCR_EL2 for a number of physical address bits.
pub open spec fn spec_vtcr_ps(pa_bits: int) -> u64 {
    if pa_bits >= 52 {
        6
    } else if pa_bits >= 48 {
        5
    } else if pa_bits >= 44 {
        4
    } else if pa_bits >= 42 {
        3
    } else if pa_bits >= 40 {
        2
    } else if pa_bits >= 36 {
        1
    } else {
        0
    }
}

/// The SL0 field of VTCR_EL2: a table of 4 levels starts at level 0 (0b10), one of 3 at level 1 (0b01).
pub open spec fn spec_vtcr_sl0(pt_level: int) -> u64 {
    if pt_level == 4 {
        2
    } else {
        1
    }
}

/// The T0SZ field of VTCR_EL2: 16 for 48 bits of guest addresses in 4 levels, 25 for 39 bits in 3.
pub open spec fn spec_vtcr_t0sz(pt_level: int) -> u64 {
    if pt_level == 4 {
        16
    } else {
        25
    }
}

/// VTCR_EL2 for a number of physical address bits and of page-table levels.
pub open spec fn spec_stage2_control(pa_bits: int, pt_level: int) -> u64 {
    spec_vtcr(spec_vtcr_ps(pa_bits), spec_vtcr_sl0(pt_level), spec_vtcr_t0sz(pt_level))
}

/// VTTBR_EL2 with the low 16 bits of `vmid` or-ed into its bits 63 to 48.
pub open spec fn spec_vttbr_with_vmid(vttbr: u64, vmid: u64) -> u64 {
    vttbr | ((vmid & 0xffff) << 48)
}

/// The system registers after set-up: the defaults of the architecture, the
/// guest's HCR_EL2 and VMPIDR_EL2, every other register as before.
pub open spec fn spec_setup_regs(
    regs: GuestSystemRegisters,
    mpidr: u64,
    passthrough_interrupt: bool,
    passthrough_timer: bool,
) -> GuestSystemRegisters {
    GuestSystemRegisters {
        cntvoff_el2: 0,
        cntkctl_el1: 0,
        cnthctl_el2: if passthrough_timer {
            CNTHCTL_EL1_PHYSICAL
        } else {
            0
        },
        sctlr_el1: SCTLR_EL1_RESET,
        pmcr_el0: 0,
        hcr_el2: if passthrough_interrupt {
            HCR_GUEST
        } else {
            HCR_GUEST | HCR_VIRTUAL_INTERRUPTS
        },
        vmpidr_el2: VMPIDR_RES1 | mpidr,
        ..regs
    }
}

impl Aarch64VCpu {
    /// The number of levels is the one that goes with the number of address bits.
    pub open spec fn wf(self) -> bool {
        self.pt_level == spec_max_gpt_level(self.pa_bits as int)
    }

    /// A vCPU with every register zero but x0, which holds the address of the
    /// device tree. `mmfr0` is the CPU's ID_AA64MMFR0_EL1, from which the number
    /// of address bits and of page-table levels are taken.
    pub fn new(config: Aarch64VCpuCreateConfig, mmfr0: u64) -> (vcpu: Result<Self, ErrorKind>)
        ensures
            vcpu matches Ok(v) && {
                &&& v.wf()
                &&& v.ctx.gpr@ == Aarch64ContextFrame::spec_zero_gprs().update(
                    0,
                    config.dtb_addr,
                )
                &&& v.ctx.sp_el0 == 0
                &&& v.ctx.elr == 0
                &&& v.ctx.spsr == 0
                &&& v.host_stack_top == 0
                &&& v.guest_system_regs == GuestSystemRegisters::spec_zero()
                &&& v.mpidr == config.mpidr_el1
                &&& v.pa_bits == spec_pa_bits(mmfr0 & 0xf)
                &&& v.pt_level == spec_max_gpt_level(spec_pa_bits(mmfr0 & 0xf))
            },
    {
        let bits: usize = pa_bits(mmfr0);
        let mut ctx = Aarch64ContextFrame::new();
        ctx.set_argument(config.dtb_addr);
        Ok(
            Aarch64VCpu {
                ctx,
                host_stack_top: 0,
                guest_system_regs: GuestSystemRegisters::new(),
                mpidr: config.mpidr_el1,
                pt_level: max_gpt_level(bits),
                pa_bits: bits,
            },
        )
    }

    /// Prepares the vCPU for its first entry: the guest starts in EL1h with
    /// D, A, I and F masked, and its system registers hold the defaults.
    pub fn setup(&mut self, config: Aarch64VCpuSetupConfig) -> (done: Result<(), ErrorKind>)
        ensures
            done.is_ok(),
            final(self).ctx.spsr == SPSR_GUEST_ENTRY,
            final(self).ctx.gpr == old(self).ctx.gpr,
            final(self).ctx.elr == old(self).ctx.elr,
            final(self).ctx.sp_el0 == old(self).ctx.sp_el0,
            final(self).guest_system_regs == spec_setup_regs(
                old(self).guest_system_regs,
                old(self).mpidr,
                config.passthrough_interrupt,
                config.passthrough_timer,
            ),
            final(self).host_stack_top == old(self).host_stack_top,
            final(self).mpidr == old(self).mpidr,
            final(self).pt_level == old(self).pt_level,
            final(self).pa_bits == old(self).pa_bits,
    {
        self.init_hv(config);
        Ok(())
    }

    /// Sets the guest-physical address at which the guest starts or resumes.
    pub fn set_entry(&mut self, entry: u64) -> (done: Result<(), ErrorKind>)
        ensures
            done.is_ok(),
            final(self).ctx.elr == entry,
            final(self).ctx.gpr == old(self).ctx.gpr,
            final(self).ctx.sp_el0 == old(self).ctx.sp_el0,
            final(self).ctx.spsr == old(self).ctx.spsr,
            final(self).guest_system_regs == old(self).guest_system_regs,
            final(self).host_stack_top == old(self).host_stack_top,
            final(self).mpidr == old(self).mpidr,
            final(self).pt_level == old(self).pt_level,
            final(self).pa_bits == old(self).pa_bits,
    {
        self.set_elr(entry);
        Ok(())
    }

    /// Sets the host-physical address of the root of the guest's stage-2 page table.
    pub fn set_ept_root(&mut self, ept_root: u64) -> (done: Result<(), ErrorKind>)
        ensures
            done.is_ok(),
            final(self).guest_system_regs == (GuestSystemRegisters {
                vttbr_el2: ept_root,
                ..old(self).guest_system_regs
            }),
            final(self).ctx == old(self).ctx,
            final(self).host_stack_top == old(self).host_stack_top,
            final(self).mpidr == old(self).mpidr,
            final(self).pt_level == old(self).pt_level,
            final(self).pa_bits == old(self).pa_bits,
    {
        self.guest_system_regs.vttbr_el2 = ept_root;
        Ok(())
    }

    /// Computes the stage-2 registers for the CPU that the vCPU is to run on:
    /// VTCR_EL2 from the number of address bits and of page-table levels, and
    /// VTTBR_EL2 with the low 16 bits of `vmid` or-ed into its bits 63 to 48.
    /// The caller writes both to the CPU and invalidates the guest's TLB entries.
    pub fn setup_current_cpu(&mut self, vmid: usize) -> (done: Result<(), ErrorKind>)
        ensures
            done.is_ok(),
            final(self).guest_system_regs == (GuestSystemRegisters {
                vtcr_el2: spec_stage2_control(old(self).pa_bits as int, old(self).pt_level as int),
                vttbr_el2: spec_vttbr_with_vmid(old(self).guest_system_regs.vttbr_el2, vmid as u64),
                ..old(self).guest_system_regs
            }),
            final(self).ctx == old(self).ctx,
            final(self).host_stack_top == old(self).host_stack_top,
            final(self).mpidr == old(self).mpidr,
            final(self).pt_level == old(self).pt_level,
            final(self).pa_bits == old(self).pa_bits,
    {
        let (sl0, t0sz): (u64, u64) = if self.pt_level == 4 {
            (2, 16)
        } else {
            (1, 25)
        };
        let bits: usize = self.pa_bits;
        let ps: u64 = if bits >= 52 {
            6
        } else if bits >= 48 {
            5
        } else if bits >= 44 {
            4
        } else if bits >= 42 {
            3
        } else if bits >= 40 {
            2
        } else if bits >= 36 {
            1
        } else {
            0
        };
        self.guest_system_regs.vtcr_el2 = vtcr(ps, sl0, t0sz);
        let vttbr: u64 = self.guest_system_regs.vttbr_el2;
        self.guest_system_regs.vttbr_el2 = vttbr | ((vmid as u64 & 0xffff) << 48);
        Ok(())
    }

    /// Binds the vCPU to the current CPU. Nothing is to be done for it.
    pub fn bind(&mut self) -> (done: Result<(), ErrorKind>)
        ensures
            done.is_ok(),
            *final(self) == *old(self),
    {
        Ok(())
    }

    /// Takes the vCPU off the current CPU. Nothing is to be done for it.
    pub fn unbind(&mut self) -> (done: Result<(), ErrorKind>)
        ensures
            done.is_ok(),
            *final(self) == *old(self),
    {
        Ok(())
    }

    /// Sets a general-purpose register of the guest. To be called only while the guest does not run.
    pub fn set_gpr(&mut self, idx: usize, val: u64)
        requires
            idx <= 31,
        ensures
            idx < 31 ==> final(self).ctx.gpr@ == old(self).ctx.gpr@.update(idx as int, val),
            idx == 31 ==> final(self).ctx.gpr == old(self).ctx.gpr,
            final(self).ctx.sp_el0 == old(self).ctx.sp_el0,
            final(self).ctx.elr == old(self).ctx.elr,
            final(self).ctx.spsr == old(self).ctx.spsr,
            final(self).guest_system_regs == old(self).guest_system_regs,
            final(self).host_stack_top == old(self).host_stack_top,
            final(self).mpidr == old(self).mpidr,
            final(self).pt_level == old(self).pt_level,
            final(self).pa_bits == old(self).pa_bits,
    {
        self.ctx.set_gpr(idx, val);
    }

    /// Sets a general-purpose register of the guest where `idx` names one;
    /// says whether it did. An index above 31 names no register.
    pub fn try_set_gpr(&mut self, idx: usize, val: u64) -> (done: bool)
        ensures
            done == (idx <= 31),
            idx < 31 ==> final(self).ctx.gpr@ == old(self).ctx.gpr@.update(idx as int, val),
            idx >= 31 ==> final(self).ctx.gpr == old(self).ctx.gpr,
            final(self).ctx.sp_el0 == old(self).ctx.sp_el0,
            final(self).ctx.elr == old(self).ctx.elr,
            final(self).ctx.spsr == old(self).ctx.spsr,
            final(self).guest_system_regs == old(self).guest_system_regs,
            final(self).host_stack_top == old(self).host_stack_top,
            final(self).mpidr == old(self).mpidr,
            final(self).pt_level == old(self).pt_level,
            final(self).pa_bits == old(self).pa_bits,
    {
        if idx <= 31 {
            self.ctx.set_gpr(idx, val);
            true
        } else {
            false
        }
    }

    /// What a general-purpose register of the guest holds; index 31 reads as zero.
    pub fn get_gpr(&self, idx: usize) -> (val: u64)
        requires
            idx <= 31,
        ensures
            val == self.ctx.spec_gpr(idx as int),
    {
        self.ctx.gpr(idx)
    }

    /// Puts a value into the guest's x0, where it expects the result of a
    /// hypercall or of an emulated read.
    pub fn set_return_value(&mut self, val: u64)
        ensures
            final(self).ctx.gpr@ == old(self).ctx.gpr@.update(0, val),
            final(self).ctx.sp_el0 == old(self).ctx.sp_el0,
            final(self).ctx.elr == old(self).ctx.elr,
            final(self).ctx.spsr == old(self).ctx.spsr,
            final(self).guest_system_regs == old(self).guest_system_regs,
            final(self).host_stack_top == old(self).host_stack_top,
            final(self).mpidr == old(self).mpidr,
            final(self).pt_level == old(self).pt_level,
            final(self).pa_bits == old(self).pa_bits,
    {
        self.ctx.set_argument(val);
    }

    /// The first step of a run: gives the system registers that the CPU is to
    /// hold when the guest is entered. The vCPU itself is not changed.
    pub fn restore_vm_system_regs(&self, cpu: &mut GuestSystemRegisters)
        ensures
            *final(cpu) == self.guest_system_regs,
    {
        self.guest_system_regs.restore(cpu);
    }

    /// Whether an exit of this kind, with this syndrome, can be handled by
    /// [`Aarch64VCpu::vmexit_handler`]. An FIQ, a system error and a synchronous
    /// exception that cannot be classified are fatal.
    pub fn vmexit_handled(kind: TrapKind, syn: &Syndrome) -> (handled: bool)
        ensures
            handled == spec_vmexit_handled(kind, *syn),
    {
        match kind {
            TrapKind::Synchronous => sync_exit_handled(syn),
            TrapKind::Irq => true,
            _ => false,
        }
    }

    /// The last step of a run: takes over the system registers as read from the
    /// CPU, keeps the guest's SP_EL0 in the trap frame, and classifies the exit.
    /// An IRQ is an external interrupt; a synchronous exception is classified by its syndrome.
    pub fn vmexit_handler(
        &mut self,
        exit_reason: TrapKind,
        syn: &Syndrome,
        cpu: &GuestSystemRegisters,
    ) -> (exit: Result<AxVCpuExitReason, ErrorKind>)
        requires
            spec_vmexit_handled(exit_reason, *syn),
        ensures
            final(self).guest_system_regs == *cpu,
            final(self).host_stack_top == old(self).host_stack_top,
            final(self).mpidr == old(self).mpidr,
            final(self).pt_level == old(self).pt_level,
            final(self).pa_bits == old(self).pa_bits,
            exit_reason == TrapKind::Irq ==> {
                &&& exit == Ok::<AxVCpuExitReason, ErrorKind>(AxVCpuExitReason::ExternalInterrupt)
                &&& final(self).ctx == spec_saved_frame(old(self).ctx, *cpu)
            },
            exit_reason == TrapKind::Synchronous && spec_class(syn.esr) == Some(
                ExceptionClass::DataAbortLowerEL,
            ) ==> {
                &&& exit == spec_data_abort_exit(spec_saved_frame(old(self).ctx, *cpu), *syn)
                &&& final(self).ctx == spec_data_abort_frame(
                    spec_saved_frame(old(self).ctx, *cpu),
                    *syn,
                )
            },
            exit_reason == TrapKind::Synchronous && spec_class(syn.esr) == Some(
                ExceptionClass::HVC64,
            ) ==> {
                &&& final(self).ctx == spec_saved_frame(old(self).ctx, *cpu)
                &&& spec_psci_call(old(self).ctx).is_some() ==> exit == spec_psci_call(
                    old(self).ctx,
                ).unwrap()
                &&& spec_psci_call(old(self).ctx).is_none() ==> is_hypercall_of(exit, old(self).ctx)
            },
            exit_reason == TrapKind::Synchronous && spec_class(syn.esr) == Some(
                ExceptionClass::TrappedMsrMrs,
            ) ==> {
                &&& exit == Ok::<AxVCpuExitReason, ErrorKind>(
                    spec_system_register_exit(old(self).ctx, syn.esr),
                )
                &&& final(self).ctx.elr == spec_advance(old(self).ctx, syn.esr).elr
                &&& final(self).ctx.gpr@ == spec_system_register_gprs(old(self).ctx, syn.esr)
                &&& final(self).ctx.sp_el0 == cpu.sp_el0
                &&& final(self).ctx.spsr == old(self).ctx.spsr
            },
    {
        self.guest_system_regs.store(cpu);
        self.ctx.sp_el0 = self.guest_system_regs.sp_el0;
        match exit_reason {
            TrapKind::Synchronous => handle_exception_sync(&mut self.ctx, syn),
            _ => Ok(AxVCpuExitReason::ExternalInterrupt),
        }
    }

    /// Sets the processor state for the first entry and the defaults of the system registers.
    fn init_hv(&mut self, config: Aarch64VCpuSetupConfig)
        ensures
            final(self).ctx.spsr == SPSR_GUEST_ENTRY,
            final(self).ctx.gpr == old(self).ctx.gpr,
            final(self).ctx.elr == old(self).ctx.elr,
            final(self).ctx.sp_el0 == old(self).ctx.sp_el0,
            final(self).guest_system_regs == spec_setup_regs(
                old(self).guest_system_regs,
                old(self).mpidr,
                config.passthrough_interrupt,
                config.passthrough_timer,
            ),
            final(self).host_stack_top == old(self).host_stack_top,
            final(self).mpidr == old(self).mpidr,
            final(self).pt_level == old(self).pt_level,
            final(self).pa_bits == old(self).pa_bits,
    {
        self.ctx.spsr = spsr_guest_entry();
        self.init_vm_context(config);
    }

    /// Sets the defaults of the guest's system registers.
    fn init_vm_context(&mut self, config: Aarch64VCpuSetupConfig)
        ensures
            final(self).ctx == old(self).ctx,
            final(self).guest_system_regs == spec_setup_regs(
                old(self).guest_system_regs,
                old(self).mpidr,
                config.passthrough_interrupt,
                config.passthrough_timer,
            ),
            final(self).host_stack_top == old(self).host_stack_top,
            final(self).mpidr == old(self).mpidr,
            final(self).pt_level == old(self).pt_level,
            final(self).pa_bits == old(self).pa_bits,
    {
        self.guest_system_regs.cntvoff_el2 = 0;
        self.guest_system_regs.cntkctl_el1 = 0;
        self.guest_system_regs.cnthctl_el2 = if config.passthrough_timer {
            cnthctl_el1_physical()
        } else {
            0
        };
        self.guest_system_regs.sctlr_el1 = SCTLR_EL1_RESET;
        self.guest_system_regs.pmcr_el0 = 0;
        let mut hcr: u64 = hcr_guest();
        if !config.passthrough_interrupt {
            hcr = hcr | hcr_virtual_interrupts();
        }
        self.guest_system_regs.hcr_el2 = hcr;
        self.guest_system_regs.vmpidr_el2 = VMPIDR_RES1 | self.mpidr;
    }

    /// Sets the address to which the guest returns.
    fn set_elr(&mut self, elr: u64)
        ensures
            final(self).ctx.elr == elr,
            final(self).ctx.gpr == old(self).ctx.gpr,
            final(self).ctx.sp_el0 == old(self).ctx.sp_el0,
            final(self).ctx.spsr == old(self).ctx.spsr,
            final(self).guest_system_regs == old(self).guest_system_regs,
            final(self).host_stack_top == old(self).host_stack_top,
            final(self).mpidr == old(self).mpidr,
            final(self).pt_level == old(self).pt_level,
            final(self).pa_bits == old(self).pa_bits,
    {
        self.ctx.set_exception_pc(elr);
    }
}

/// The trap frame with the guest's SP_EL0 as the CPU held it at the exit.
pub open spec fn spec_saved_frame(
    ctx: Aarch64ContextFrame,
    cpu: GuestSystemRegisters,
) -> Aarch64ContextFrame {
    Aarch64ContextFrame { sp_el0: cpu.sp_el0, ..ctx }
}

/// Whether an exit can be handled: an IRQ, or a synchronous exception that can be classified.
pub open spec fn spec_vmexit_handled(kind: TrapKind, syn: Syndrome) -> bool {
    match kind {
        TrapKind::Synchronous => spec_sync_exit_handled(syn),
        TrapKind::Irq => true,
        _ => false,
    }
}

/// Where a CPU executes.
#[derive(Clone, Copy, Debug, PartialEq, Eq, Structural)]
pub enum World {
    /// In the hypervisor or the host.
    Host,
    /// In a guest, at EL1.
    Guest,
}

/// The per-CPU flag that says whether a vCPU is running, with the world that the CPU is in.
#[derive(Clone, Copy, Debug, PartialEq, Eq, Structural)]
pub struct RunState {
    /// The per-CPU flag: set when the host's context is saved, cleared when `run` has returned.
    pub vcpu_running: bool,
    /// Where the CPU executes.
    pub world: World,
}

impl RunState {
    /// The flag is set exactly while the CPU is in a guest. This holds whenever
    /// an exception can be taken: in the guest, and in the host outside of `run`.
    pub open spec fn wf(self) -> bool {
        self.vcpu_running <==> self.world == World::Guest
    }

    /// A CPU in the host, with no vCPU running.
    pub fn new() -> (state: Self)
        ensures
            state.wf(),
            !state.vcpu_running,
            state.world == World::Host,
    {
        RunState { vcpu_running: false, world: World::Host }
    }

    /// Whether a vCPU is running on the CPU.
    pub fn vcpu_running(&self) -> (running: bool)
        ensures
            running == self.vcpu_running,
    {
        self.vcpu_running
    }

    /// Whether the guest can be entered: the CPU is in the host and no vCPU
    /// runs on it. A run inside a run is not allowed.
    pub fn can_enter(&self) -> (ok: bool)
        ensures
            ok == (self.world == World::Host && !self.vcpu_running),
    {
        match self.world {
            World::Host => !self.vcpu_running,
            World::Guest => false,
        }
    }

    /// The host's context is saved and the guest is entered: the flag is set.
    pub fn set_vcpu_running(&mut self)
        requires
            old(self).world == World::Host,
            !old(self).vcpu_running,
        ensures
            final(self).vcpu_running,
            final(self).world == World::Guest,
            final(self).wf(),
    {
        self.vcpu_running = true;
        self.world = World::Guest;
    }

    /// An exception is taken to EL2. The flag, as the exit path finds it, picks
    /// the route: it is set if and only if the exception came from a guest.
    pub fn take_exception(&mut self) -> (route: ExitRoute)
        requires
            old(self).wf(),
        ensures
            route == ExitRoute::ReturnToHost <==> old(self).world == World::Guest,
            route == ExitRoute::DispatchIrq <==> old(self).world == World::Host,
            old(self).vcpu_running <==> old(self).world == World::Guest,
            final(self).vcpu_running == old(self).vcpu_running,
            final(self).world == World::Host,
    {
        self.world = World::Host;
        vmexit_route(self.vcpu_running)
    }

    /// `run` has returned into the host: the flag is cleared.
    pub fn clear_vcpu_running(&mut self)
        ensures
            !final(self).vcpu_running,
            final(self).world == old(self).world,
            old(self).world == World::Host ==> final(self).wf(),
    {
        self.vcpu_running = false;
    }
}

/// Where a guest's page-table root has its upper 16 bits zero, VTTBR_EL2
/// holds the VMID in bits 63 to 48 and the root in bits 47 to 0.
pub proof fn lemma_vttbr_fields(root: u64, vmid: u64)
    requires
        root <= 0xffff_ffff_ffff,
    ensures
        spec_vttbr_with_vmid(root, vmid) >> 48 == vmid & 0xffff,
        spec_vttbr_with_vmid(root, vmid) & 0xffff_ffff_ffff == root,
{
    assert((root | ((vmid & 0xffff) << 48)) >> 48 == vmid & 0xffff && (root | ((vmid & 0xffff)
        << 48)) & 0xffff_ffff_ffff == root) by (bit_vector)
        requires
            root <= 0xffff_ffff_ffff,
    ;
}

/// For every number of address bits that a CPU reports, VTCR_EL2 is the row of
/// the table: below 44 bits the walk starts at level 1 with T0SZ 25, from 44
/// bits on at level 0 with T0SZ 16, and PS names the width.
pub proof fn lemma_stage2_control_table(parange: u64)
    ensures
        ({
            let bits = spec_pa_bits(parange);
            let level = spec_max_gpt_level(bits);
            let ps: u64 = if parange <= 6 { parange } else { 0 };
            spec_stage2_control(bits, level) == if bits >= 44 {
                spec_vtcr(ps, 2, 16)
            } else {
                spec_vtcr(ps, 1, 25)
            }
        }),
{
}

} // verus!
