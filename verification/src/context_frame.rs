//! The guest's trap frame and its bank of system registers.

use vstd::prelude::*;

verus! {

/// The number of general-purpose registers that the frame holds: x0 to x30.
pub const GPR_COUNT: usize = 31;

/// The number of 8-byte slots of the trap frame: x0 to x30, SP_EL0, ELR, SPSR.
pub const TRAP_FRAME_SLOTS: usize = 34;

/// The size in bytes of the trap frame as the exception vectors save it.
pub const TRAP_FRAME_SIZE: usize = 34 * 8;

/// The byte offset, from the start of a vCPU, of the slot that holds the top of the host's stack.
pub const HOST_STACK_TOP_OFFSET: usize = 34 * 8;

/// The slot of the guest's SP_EL0.
pub const SLOT_SP_EL0: usize = 31;

/// The slot of the exception return address.
pub const SLOT_ELR: usize = 32;

/// The slot of the saved processor state.
pub const SLOT_SPSR: usize = 33;

/// The guest's registers as they are saved when it traps and loaded when it is entered.
#[derive(Clone, Copy, Debug, PartialEq, Eq)]
pub struct Aarch64ContextFrame {
    /// x0 to x30.
    pub gpr: [u64; 31],
    /// The stack pointer of EL0 as the guest sees it.
    pub sp_el0: u64,
    /// The address at which the guest resumes.
    pub elr: u64,
    /// The processor state with which the guest resumes.
    pub spsr: u64,
}

impl Aarch64ContextFrame {
    /// What the register with the given index holds; index 31 names the zero register.
    pub open spec fn spec_gpr(self, index: int) -> u64 {
        if 0 <= index < 31 {
            self.gpr[index]
        } else {
            0
        }
    }

    /// What the slot with the given index holds in the saved frame.
    pub open spec fn spec_slot(self, slot: int) -> u64 {
        if 0 <= slot < 31 {
            self.gpr[slot]
        } else if slot == 31 {
            self.sp_el0
        } else if slot == 32 {
            self.elr
        } else {
            self.spsr
        }
    }

    /// The byte offset of a slot from the start of the frame.
    pub open spec fn spec_slot_offset(slot: int) -> int {
        8 * slot
    }

    /// Thirty-one registers that hold zero.
    pub open spec fn spec_zero_gprs() -> Seq<u64> {
        Seq::new(31, |i: int| 0u64)
    }

    /// Every register of the frame is zero.
    pub open spec fn is_zero(self) -> bool {
        &&& self.gpr@ == Self::spec_zero_gprs()
        &&& self.sp_el0 == 0
        &&& self.elr == 0
        &&& self.spsr == 0
    }

    /// A frame with every register zero.
    pub fn new() -> (frame: Self)
        ensures
            frame.is_zero(),
            forall|i: int| 0 <= i < 34 ==> frame.spec_slot(i) == 0,
    {
        let frame = Aarch64ContextFrame { gpr: [0u64;31], sp_el0: 0, elr: 0, spsr: 0 };
        assert(frame.gpr@ =~= Self::spec_zero_gprs());
        frame
    }

    /// The address at which the guest resumes.
    pub fn exception_pc(&self) -> (pc: u64)
        ensures
            pc == self.elr,
    {
        self.elr
    }

    /// Sets the address at which the guest resumes; nothing else changes.
    pub fn set_exception_pc(&mut self, pc: u64)
        ensures
            final(self).elr == pc,
            final(self).gpr == old(self).gpr,
            final(self).sp_el0 == old(self).sp_el0,
            final(self).spsr == old(self).spsr,
    {
        self.elr = pc;
    }

    /// Sets x0, the register in which the guest finds its first argument or a returned value.
    pub fn set_argument(&mut self, arg: u64)
        ensures
            final(self).gpr@ == old(self).gpr@.update(0, arg),
            final(self).sp_el0 == old(self).sp_el0,
            final(self).elr == old(self).elr,
            final(self).spsr == old(self).spsr,
    {
        self.gpr[0] = arg;
    }

    /// Sets a general-purpose register. A write to index 31, the zero register, changes nothing.
    pub fn set_gpr(&mut self, index: usize, val: u64)
        requires
            index <= 31,
        ensures
            index < 31 ==> final(self).gpr@ == old(self).gpr@.update(index as int, val),
            index == 31 ==> final(self).gpr == old(self).gpr,
            final(self).sp_el0 == old(self).sp_el0,
            final(self).elr == old(self).elr,
            final(self).spsr == old(self).spsr,
    {
        if index < 31 {
            self.gpr[index] = val;
        }
    }

    /// What a general-purpose register holds. Index 31, the zero register, reads as zero.
    pub fn gpr(&self, index: usize) -> (val: u64)
        requires
            index <= 31,
        ensures
            val == self.spec_gpr(index as int),
    {
        if index < 31 {
            self.gpr[index]
        } else {
            0
        }
    }

    /// Whether `index` names a register of the frame or the zero register.
    pub fn is_gpr_index(index: usize) -> (valid: bool)
        ensures
            valid == (index <= 31),
    {
        index <= 31
    }

    /// What a slot of the saved frame holds.
    pub fn slot(&self, slot: usize) -> (val: u64)
        requires
            slot < 34,
        ensures
            val == self.spec_slot(slot as int),
    {
        if slot < 31 {
            self.gpr[slot]
        } else if slot == SLOT_SP_EL0 {
            self.sp_el0
        } else if slot == SLOT_ELR {
            self.elr
        } else {
            self.spsr
        }
    }

    /// Sets a slot of the saved frame; the other slots keep their values.
    pub fn set_slot(&mut self, slot: usize, val: u64)
        requires
            slot < 34,
        ensures
            final(self).spec_slot(slot as int) == val,
            forall|i: int| 0 <= i < 34 && i != slot ==> final(self).spec_slot(i) == old(self).spec_slot(i),
    {
        if slot < 31 {
            self.gpr[slot] = val;
        } else if slot == SLOT_SP_EL0 {
            self.sp_el0 = val;
        } else if slot == SLOT_ELR {
            self.elr = val;
        } else {
            self.spsr = val;
        }
    }
}

impl Default for Aarch64ContextFrame {
    fn default() -> (frame: Self)
        ensures
            frame.is_zero(),
            forall|i: int| 0 <= i < 34 ==> frame.spec_slot(i) == 0,
    {
        Aarch64ContextFrame::new()
    }
}

/// The frame is 34 slots of 8 bytes, the last three being SP_EL0, ELR and SPSR,
/// and the slot for the top of the host's stack follows it directly.
pub proof fn lemma_frame_layout()
    ensures
        TRAP_FRAME_SIZE == 34 * 8,
        TRAP_FRAME_SIZE == 272,
        TRAP_FRAME_SIZE == Aarch64ContextFrame::spec_slot_offset(TRAP_FRAME_SLOTS as int),
        HOST_STACK_TOP_OFFSET == TRAP_FRAME_SIZE,
        Aarch64ContextFrame::spec_slot_offset(SLOT_SP_EL0 as int) == 248,
        Aarch64ContextFrame::spec_slot_offset(SLOT_ELR as int) == 256,
        Aarch64ContextFrame::spec_slot_offset(SLOT_SPSR as int) == 264,
{
}

/// The system registers that are swapped when the CPU changes between host and guest.
///
/// A value of this type is either the bank that a vCPU keeps for its guest, or a
/// reading of the same registers from the CPU.
#[derive(Clone, Copy, Debug, Default, PartialEq, Eq, Structural)]
pub struct GuestSystemRegisters {
    /// CNTVOFF_EL2.
    pub cntvoff_el2: u64,
    /// CNTKCTL_EL1.
    pub cntkctl_el1: u64,
    /// CNTHCTL_EL2.
    pub cnthctl_el2: u64,
    /// VMPIDR_EL2.
    pub vmpidr_el2: u64,
    /// SP_EL0.
    pub sp_el0: u64,
    /// SP_EL1.
    pub sp_el1: u64,
    /// ELR_EL1.
    pub elr_el1: u64,
    /// SPSR_EL1.
    pub spsr_el1: u64,
    /// SCTLR_EL1.
    pub sctlr_el1: u64,
    /// TTBR0_EL1.
    pub ttbr0_el1: u64,
    /// TTBR1_EL1.
    pub ttbr1_el1: u64,
    /// TCR_EL1.
    pub tcr_el1: u64,
    /// MAIR_EL1.
    pub mair_el1: u64,
    /// VBAR_EL1.
    pub vbar_el1: u64,
    /// TPIDR_EL1.
    pub tpidr_el1: u64,
    /// PMCR_EL0.
    pub pmcr_el0: u64,
    /// HCR_EL2.
    pub hcr_el2: u64,
    /// VTCR_EL2.
    pub vtcr_el2: u64,
    /// VTTBR_EL2.
    pub vttbr_el2: u64,
}

impl GuestSystemRegisters {
    /// The bank after a store: every register as the CPU holds it.
    pub open spec fn spec_store(self, cpu: GuestSystemRegisters) -> GuestSystemRegisters {
        cpu
    }

    /// The CPU's registers after a restore: every register as the bank holds it.
    pub open spec fn spec_restore(self, cpu: GuestSystemRegisters) -> GuestSystemRegisters {
        self
    }

    /// A bank with every register zero.
    pub fn new() -> (bank: Self)
        ensures
            bank == GuestSystemRegisters::spec_zero(),
    {
        GuestSystemRegisters {
            cntvoff_el2: 0,
            cntkctl_el1: 0,
            cnthctl_el2: 0,
            vmpidr_el2: 0,
            sp_el0: 0,
            sp_el1: 0,
            elr_el1: 0,
            spsr_el1: 0,
            sctlr_el1: 0,
            ttbr0_el1: 0,
            ttbr1_el1: 0,
            tcr_el1: 0,
            mair_el1: 0,
            vbar_el1: 0,
            tpidr_el1: 0,
            pmcr_el0: 0,
            hcr_el2: 0,
            vtcr_el2: 0,
            vttbr_el2: 0,
        }
    }

    /// The bank with every register zero.
    pub open spec fn spec_zero() -> GuestSystemRegisters {
        GuestSystemRegisters {
            cntvoff_el2: 0,
            cntkctl_el1: 0,
            cnthctl_el2: 0,
            vmpidr_el2: 0,
            sp_el0: 0,
            sp_el1: 0,
            elr_el1: 0,
            spsr_el1: 0,
            sctlr_el1: 0,
            ttbr0_el1: 0,
            ttbr1_el1: 0,
            tcr_el1: 0,
            mair_el1: 0,
            vbar_el1: 0,
            tpidr_el1: 0,
            pmcr_el0: 0,
            hcr_el2: 0,
            vtcr_el2: 0,
            vttbr_el2: 0,
        }
    }

    /// Takes the registers over from a reading of the CPU, right after the guest has left it.
    pub fn store(&mut self, cpu: &GuestSystemRegisters)
        ensures
            *final(self) == old(self).spec_store(*cpu),
    {
        *self = *cpu;
    }

    /// Gives the registers that the CPU is to hold when the guest is entered.
    pub fn restore(&self, cpu: &mut GuestSystemRegisters)
        ensures
            *final(cpu) == self.spec_restore(*old(cpu)),
    {
        *cpu = *self;
    }
}

/// A store followed by a restore leaves every register of the CPU as it was,
/// whatever the bank held before.
pub proof fn lemma_store_restore_identity(bank: GuestSystemRegisters, cpu: GuestSystemRegisters)
    ensures
        bank.spec_store(cpu).spec_restore(cpu) == cpu,
        bank.spec_store(cpu).spec_restore(cpu).sctlr_el1 == cpu.sctlr_el1,
        bank.spec_store(cpu).spec_restore(cpu).hcr_el2 == cpu.hcr_el2,
        bank.spec_store(cpu).spec_restore(cpu).vtcr_el2 == cpu.vtcr_el2,
        bank.spec_store(cpu).spec_restore(cpu).vttbr_el2 == cpu.vttbr_el2,
        bank.spec_store(cpu).spec_restore(cpu).vmpidr_el2 == cpu.vmpidr_el2,
        bank.spec_store(cpu).spec_restore(cpu).sp_el0 == cpu.sp_el0,
{
}

/// A restore followed by a store leaves every register of the bank as it was.
pub proof fn lemma_restore_store_identity(bank: GuestSystemRegisters, cpu: GuestSystemRegisters)
    ensures
        bank.spec_store(bank.spec_restore(cpu)) == bank,
{
}

} // verus!
