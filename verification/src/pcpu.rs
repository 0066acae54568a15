//! The per-CPU controller: switching the virtualization controls of EL2 on and off.

use vstd::prelude::*;
use crate::error::ErrorKind;
use crate::fields::{hcr_guest, HCR_GUEST, HCR_VM};

verus! {

/// The control registers of EL2 that the controller reads and writes, as plain values.
#[derive(Clone, Copy, Debug, PartialEq, Eq, Structural)]
pub struct El2Control {
    /// VBAR_EL2, the base of the exception vectors of EL2.
    pub vbar_el2: u64,
    /// HCR_EL2, the hypervisor configuration register.
    pub hcr_el2: u64,
}

impl El2Control {
    /// Whether HCR_EL2.VM is set.
    pub open spec fn spec_vm_enabled(self) -> bool {
        self.hcr_el2 & HCR_VM == HCR_VM
    }
}

/// The number of address bits that a value of ID_AA64MMFR0_EL1.PARange stands for.
pub open spec fn spec_pa_bits(parange: u64) -> int {
    if parange == 0 {
        32
    } else if parange == 1 {
        36
    } else if parange == 2 {
        40
    } else if parange == 3 {
        42
    } else if parange == 4 {
        44
    } else if parange == 5 {
        48
    } else if parange == 6 {
        52
    } else {
        32
    }
}

/// The number of levels of a guest's stage-2 page table: 4 with at least 44 address bits, else 3.
pub open spec fn spec_max_gpt_level(pa_bits: int) -> int {
    if pa_bits >= 44 {
        4
    } else {
        3
    }
}

/// Two to the power of `pa_bits`, for the widths that a CPU can report.
pub open spec fn spec_pa_limit(pa_bits: int) -> int {
    if pa_bits == 36 {
        0x10_0000_0000
    } else if pa_bits == 40 {
        0x100_0000_0000
    } else if pa_bits == 42 {
        0x400_0000_0000
    } else if pa_bits == 44 {
        0x1000_0000_0000
    } else if pa_bits == 48 {
        0x1_0000_0000_0000
    } else if pa_bits == 52 {
        0x10_0000_0000_0000
    } else {
        0x1_0000_0000
    }
}

/// The number of physical address bits that the CPU reports in ID_AA64MMFR0_EL1.
///
/// The field values 0 to 6 stand for 32, 36, 40, 42, 44, 48 and 52 bits;
/// every other value is taken as 32.
pub fn pa_bits(mmfr0: u64) -> (bits: usize)
    ensures
        bits == spec_pa_bits(mmfr0 & 0xf),
        32 <= bits <= 52,
{
    let parange: u64 = crate::fields::parange_field(mmfr0);
    match parange {
        1 => 36,
        2 => 40,
        3 => 42,
        4 => 44,
        5 => 48,
        6 => 52,
        _ => 32,
    }
}

/// The number of levels of a guest's stage-2 page table for a width of physical addresses.
pub fn max_gpt_level(pa_bits: usize) -> (levels: usize)
    ensures
        levels == spec_max_gpt_level(pa_bits as int),
        levels == 3 || levels == 4,
{
    if pa_bits >= 44 {
        4
    } else {
        3
    }
}

/// The control registers after virtualization was enabled: the core's vectors
/// in VBAR_EL2, and VM, RW and TSC set in HCR_EL2.
pub open spec fn spec_enabled(cpu: El2Control, vector_base: u64) -> El2Control {
    El2Control { vbar_el2: vector_base, hcr_el2: cpu.hcr_el2 | HCR_GUEST }
}

/// The control registers after virtualization was disabled: the remembered
/// vectors in VBAR_EL2, and VM cleared in HCR_EL2.
pub open spec fn spec_disabled(cpu: El2Control, ori_vbar: u64) -> El2Control {
    El2Control { vbar_el2: ori_vbar, hcr_el2: cpu.hcr_el2 & !HCR_VM }
}

/// What one physical CPU remembers across enabling and disabling virtualization.
#[derive(Clone, Copy, Debug, PartialEq, Eq, Structural)]
pub struct Aarch64PerCpu {
    /// The number of the CPU.
    pub cpu_id: usize,
    /// VBAR_EL2 as the host had it before virtualization was enabled.
    pub ori_vbar: u64,
}

impl Aarch64PerCpu {
    /// The state of a CPU on which virtualization was never enabled.
    pub fn new(cpu_id: usize) -> (pcpu: Self)
        ensures
            pcpu.cpu_id == cpu_id,
            pcpu.ori_vbar == 0,
    {
        Aarch64PerCpu { cpu_id, ori_vbar: 0 }
    }

    /// Whether virtualization is enabled on the CPU: HCR_EL2.VM.
    pub fn is_enabled(&self, cpu: &El2Control) -> (enabled: bool)
        ensures
            enabled == cpu.spec_vm_enabled(),
    {
        cpu.hcr_el2 & HCR_VM == HCR_VM
    }

    /// Enables virtualization: remembers the host's VBAR_EL2, installs
    /// `vector_base` in its place, and sets VM, RW and TSC in HCR_EL2.
    ///
    /// Fails with `AlreadyEnabled`, changing nothing, if and only if HCR_EL2.VM is set already.
    pub fn hardware_enable(&mut self, cpu: &mut El2Control, vector_base: u64) -> (done: Result<
        (),
        ErrorKind,
    >)
        ensures
            old(cpu).spec_vm_enabled() ==> {
                &&& done == Err::<(), ErrorKind>(ErrorKind::AlreadyEnabled)
                &&& *final(cpu) == *old(cpu)
                &&& *final(self) == *old(self)
            },
            !old(cpu).spec_vm_enabled() ==> {
                &&& done.is_ok()
                &&& final(self).ori_vbar == old(cpu).vbar_el2
                &&& final(self).cpu_id == old(self).cpu_id
                &&& *final(cpu) == spec_enabled(*old(cpu), vector_base)
                &&& final(cpu).spec_vm_enabled()
            },
    {
        if self.is_enabled(cpu) {
            return Err(ErrorKind::AlreadyEnabled);
        }
        self.ori_vbar = cpu.vbar_el2;
        cpu.vbar_el2 = vector_base;
        let hcr: u64 = cpu.hcr_el2;
        let bits: u64 = hcr_guest();
        assert((hcr | 0x8008_0001) & 1 == 1) by (bit_vector);
        cpu.hcr_el2 = hcr | bits;
        Ok(())
    }

    /// Disables virtualization: puts the host's VBAR_EL2 back and clears HCR_EL2.VM.
    ///
    /// Fails with `NotEnabled`, changing nothing, if and only if HCR_EL2.VM is not set.
    pub fn hardware_disable(&mut self, cpu: &mut El2Control) -> (done: Result<(), ErrorKind>)
        ensures
            *final(self) == *old(self),
            !old(cpu).spec_vm_enabled() ==> {
                &&& done == Err::<(), ErrorKind>(ErrorKind::NotEnabled)
                &&& *final(cpu) == *old(cpu)
            },
            old(cpu).spec_vm_enabled() ==> {
                &&& done.is_ok()
                &&& *final(cpu) == spec_disabled(*old(cpu), old(self).ori_vbar)
                &&& !final(cpu).spec_vm_enabled()
            },
    {
        if !self.is_enabled(cpu) {
            return Err(ErrorKind::NotEnabled);
        }
        cpu.vbar_el2 = self.ori_vbar;
        let hcr: u64 = cpu.hcr_el2;
        assert((hcr & !1u64) & 1 != 1) by (bit_vector);
        cpu.hcr_el2 = hcr & !HCR_VM;
        Ok(())
    }

    /// The number of levels of a guest's stage-2 page table on this CPU,
    /// from the CPU's ID_AA64MMFR0_EL1: 4 with at least 44 address bits, else 3.
    pub fn max_guest_page_table_levels(&self, mmfr0: u64) -> (levels: usize)
        ensures
            levels == spec_max_gpt_level(spec_pa_bits(mmfr0 & 0xf)),
    {
        max_gpt_level(pa_bits(mmfr0))
    }

    /// The range of physical addresses of this CPU, from its ID_AA64MMFR0_EL1:
    /// from zero up to, and without, two to the power of the number of address bits.
    pub fn pa_range(&self, mmfr0: u64) -> (range: core::ops::Range<u64>)
        ensures
            range.start == 0,
            range.end == spec_pa_limit(spec_pa_bits(mmfr0 & 0xf)),
    {
        let bits: usize = pa_bits(mmfr0);
        let end: u64 = match bits {
            36 => 0x10_0000_0000,
            40 => 0x100_0000_0000,
            42 => 0x400_0000_0000,
            44 => 0x1000_0000_0000,
            48 => 0x1_0000_0000_0000,
            52 => 0x10_0000_0000_0000,
            _ => 0x1_0000_0000,
        };
        0..end
    }
}

/// Enabling virtualization on a CPU on which it is off, and disabling it
/// again, leaves VBAR_EL2 as it was and HCR_EL2.VM off as it was, whatever
/// vector base was installed in between. The second argument of
/// `spec_disabled` is what enabling remembered: VBAR_EL2 as it was before.
pub proof fn lemma_enable_disable_round_trip(cpu: El2Control, vector_base: u64)
    requires
        !cpu.spec_vm_enabled(),
    ensures
        spec_enabled(cpu, vector_base).spec_vm_enabled(),
        spec_disabled(spec_enabled(cpu, vector_base), cpu.vbar_el2).vbar_el2 == cpu.vbar_el2,
        spec_disabled(spec_enabled(cpu, vector_base), cpu.vbar_el2).spec_vm_enabled()
            == cpu.spec_vm_enabled(),
        spec_disabled(spec_enabled(cpu, vector_base), cpu.vbar_el2).hcr_el2 & HCR_VM == cpu.hcr_el2
            & HCR_VM,
{
    let h: u64 = cpu.hcr_el2;
    assert((h | 0x8008_0001) & 1 == 1) by (bit_vector);
    assert(h & 1 != 1 ==> ((h | 0x8008_0001) & !1u64) & 1 == h & 1) by (bit_vector);
}

} // verus!
