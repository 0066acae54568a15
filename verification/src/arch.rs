//! The architecture's vCPU and per-CPU state under the names that the
//! architecture-independent part of a hypervisor uses.

use vstd::prelude::*;
use crate::error::ErrorKind;
use crate::pcpu::{
    spec_disabled, spec_enabled, spec_max_gpt_level, spec_pa_bits, Aarch64PerCpu, El2Control,
};
use crate::vcpu::{Aarch64VCpu, Aarch64VCpuCreateConfig};
use crate::context_frame::{Aarch64ContextFrame, GuestSystemRegisters};

verus! {

/// The VMIDBits field of ID_AA64MMFR1_EL1: bits 11 to 8.
pub open spec fn spec_vmid_bits(mmfr1: u64) -> u64 {
    (mmfr1 >> 8) & 0xf
}

/// Says whether the CPU supports virtualization, from its ID_AA64MMFR1_EL1:
/// it does where the field VMIDBits is not zero.
pub fn has_hardware_support(mmfr1: u64) -> (supported: Result<bool, ErrorKind>)
    ensures
        supported == Ok::<bool, ErrorKind>(spec_vmid_bits(mmfr1) != 0),
{
    let vmid_bits: u64 = (mmfr1 >> 8) & 0xf;
    Ok(vmid_bits != 0)
}

/// What a vCPU of this architecture is created with.
#[derive(Clone, Copy, Debug, Default)]
pub struct AxArchVCpuConfig {
    /// The MPIDR_EL1 value that the guest reads on the vCPU.
    pub mpidr_el1: u64,
    /// The guest-physical address of the device tree.
    pub dtb_addr: u64,
    /// The CPU's ID_AA64MMFR0_EL1.
    pub mmfr0: u64,
}

/// A vCPU of this architecture.
#[derive(Clone, Copy, Debug)]
pub struct AxArchVCpu {
    /// The vCPU itself.
    pub vcpu: Aarch64VCpu,
}

impl AxArchVCpu {
    /// A vCPU with every register zero but x0, which holds the address of the device tree.
    pub fn new(config: AxArchVCpuConfig) -> (vcpu: Result<Self, ErrorKind>)
        ensures
            vcpu matches Ok(v) && {
                &&& v.vcpu.wf()
                &&& v.vcpu.ctx.gpr@ == Aarch64ContextFrame::spec_zero_gprs().update(
                    0,
                    config.dtb_addr,
                )
                &&& v.vcpu.ctx.sp_el0 == 0
                &&& v.vcpu.ctx.elr == 0
                &&& v.vcpu.ctx.spsr == 0
                &&& v.vcpu.host_stack_top == 0
                &&& v.vcpu.guest_system_regs == GuestSystemRegisters::spec_zero()
                &&& v.vcpu.mpidr == config.mpidr_el1
                &&& v.vcpu.pa_bits == spec_pa_bits(config.mmfr0 & 0xf)
                &&& v.vcpu.pt_level == spec_max_gpt_level(spec_pa_bits(config.mmfr0 & 0xf))
            },
    {
        let create = Aarch64VCpuCreateConfig {
            mpidr_el1: config.mpidr_el1,
            dtb_addr: config.dtb_addr,
        };
        match Aarch64VCpu::new(create, config.mmfr0) {
            Ok(vcpu) => Ok(AxArchVCpu { vcpu }),
            Err(e) => Err(e),
        }
    }

    /// Sets the guest-physical address at which the guest starts.
    pub fn set_entry(&mut self, entry: u64) -> (done: Result<(), ErrorKind>)
        ensures
            done.is_ok(),
            final(self).vcpu.ctx.elr == entry,
            final(self).vcpu.ctx.gpr == old(self).vcpu.ctx.gpr,
            final(self).vcpu.ctx.sp_el0 == old(self).vcpu.ctx.sp_el0,
            final(self).vcpu.ctx.spsr == old(self).vcpu.ctx.spsr,
            final(self).vcpu.guest_system_regs == old(self).vcpu.guest_system_regs,
            final(self).vcpu.host_stack_top == old(self).vcpu.host_stack_top,
            final(self).vcpu.mpidr == old(self).vcpu.mpidr,
            final(self).vcpu.pt_level == old(self).vcpu.pt_level,
            final(self).vcpu.pa_bits == old(self).vcpu.pa_bits,
    {
        self.vcpu.set_entry(entry)
    }

    /// Sets the host-physical address of the root of the guest's stage-2 page table.
    pub fn set_ept_root(&mut self, ept_root: u64) -> (done: Result<(), ErrorKind>)
        ensures
            done.is_ok(),
            final(self).vcpu.guest_system_regs == (GuestSystemRegisters {
                vttbr_el2: ept_root,
                ..old(self).vcpu.guest_system_regs
            }),
            final(self).vcpu.ctx == old(self).vcpu.ctx,
            final(self).vcpu.host_stack_top == old(self).vcpu.host_stack_top,
            final(self).vcpu.mpidr == old(self).vcpu.mpidr,
            final(self).vcpu.pt_level == old(self).vcpu.pt_level,
            final(self).vcpu.pa_bits == old(self).vcpu.pa_bits,
    {
        self.vcpu.set_ept_root(ept_root)
    }

    /// Binds the vCPU to the current CPU. Nothing is to be done for it.
    pub fn bind(&mut self) -> (done: Result<(), ErrorKind>)
        ensures
            done.is_ok(),
            *final(self) == *old(self),
    {
        Ok(())
    }

    /// Takes the vCPU off the current CPU. Nothing is to be done for it.
    pub fn unbind(&mut self) -> (done: Result<(), ErrorKind>)
        ensures
            done.is_ok(),
            *final(self) == *old(self),
    {
        Ok(())
    }
}

/// The per-CPU state of this architecture.
#[derive(Clone, Copy, Debug)]
pub struct AxArchPerCpuState {
    /// The controller of the CPU's virtualization controls.
    pub pcpu: Aarch64PerCpu,
}

impl AxArchPerCpuState {
    /// The state of the CPU with the given number, on which virtualization was never enabled.
    pub fn new(cpu_id: usize) -> (state: Self)
        ensures
            state.pcpu.cpu_id == cpu_id,
            state.pcpu.ori_vbar == 0,
    {
        AxArchPerCpuState { pcpu: Aarch64PerCpu::new(cpu_id) }
    }

    /// Whether virtualization is enabled on the CPU: HCR_EL2.VM.
    pub fn is_enabled(&self, cpu: &El2Control) -> (enabled: bool)
        ensures
            enabled == cpu.spec_vm_enabled(),
    {
        self.pcpu.is_enabled(cpu)
    }

    /// Enables virtualization on the CPU; see [`Aarch64PerCpu::hardware_enable`].
    pub fn hardware_enable(&mut self, cpu: &mut El2Control, vector_base: u64) -> (done: Result<
        (),
        ErrorKind,
    >)
        ensures
            old(cpu).spec_vm_enabled() ==> {
                &&& done == Err::<(), ErrorKind>(ErrorKind::AlreadyEnabled)
                &&& *final(cpu) == *old(cpu)
                &&& final(self).pcpu == old(self).pcpu
            },
            !old(cpu).spec_vm_enabled() ==> {
                &&& done.is_ok()
                &&& final(self).pcpu.ori_vbar == old(cpu).vbar_el2
                &&& final(self).pcpu.cpu_id == old(self).pcpu.cpu_id
                &&& *final(cpu) == spec_enabled(*old(cpu), vector_base)
                &&& final(cpu).spec_vm_enabled()
            },
    {
        self.pcpu.hardware_enable(cpu, vector_base)
    }

    /// Disables virtualization on the CPU; see [`Aarch64PerCpu::hardware_disable`].
    pub fn hardware_disable(&mut self, cpu: &mut El2Control) -> (done: Result<(), ErrorKind>)
        ensures
            final(self).pcpu == old(self).pcpu,
            !old(cpu).spec_vm_enabled() ==> {
                &&& done == Err::<(), ErrorKind>(ErrorKind::NotEnabled)
                &&& *final(cpu) == *old(cpu)
            },
            old(cpu).spec_vm_enabled() ==> {
                &&& done.is_ok()
                &&& *final(cpu) == spec_disabled(*old(cpu), old(self).pcpu.ori_vbar)
                &&& !final(cpu).spec_vm_enabled()
            },
    {
        self.pcpu.hardware_disable(cpu)
    }
}

} // verus!
