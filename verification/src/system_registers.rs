//! The system registers that the hypervisor emulates for a guest: which
//! register is handled how.
//!
//! A handler names what is to be done; doing it (arming a timer, reading the
//! counter) is the caller's part.

use vstd::prelude::*;
use aarch64_sysreg::SystemRegType;

verus! {

/// The number of the interrupt of the physical timer.
pub const TIMER_IRQ: u32 = 30;

/// The list register that makes the timer interrupt pending for the guest:
/// the interrupt number in bits 9 to 0, bit 19 and bit 28 (pending) set.
pub const TIMER_LIST_REGISTER: u32 = 0x1008_001e;

/// The list register that makes the timer interrupt pending for the guest.
pub fn timer_list_register() -> (lr: u32)
    ensures
        lr == TIMER_LIST_REGISTER,
        lr == TIMER_IRQ | (1u32 << 19) | (1u32 << 28),
{
    assert(0x1008_001eu32 == 30u32 | (1u32 << 19) | (1u32 << 28)) by (bit_vector);
    TIMER_LIST_REGISTER
}

/// The hypervisor control register of the interrupt controller with the
/// virtual CPU interface enabled (bit 0); every other bit as in `hcr`.
pub fn gich_hcr_enabled(hcr: u32) -> (enabled: u32)
    ensures
        enabled == hcr | 1,
{
    hcr | 1
}

/// The kind of an emulated register.
#[derive(Clone, Copy, Debug, PartialEq, Eq, Structural)]
pub enum EmuRegType {
    /// A system register.
    SysReg,
}

/// The timer registers that are emulated.
#[derive(Clone, Copy, Debug, PartialEq, Eq, Structural)]
pub enum TimerRegister {
    /// CNTPCT_EL0, the physical counter.
    Cntpct,
    /// CNTP_TVAL_EL0, the timer value of the physical timer.
    CntpTval,
    /// CNTP_CTL_EL0, the control register of the physical timer.
    CntpCtl,
    /// CNTP_CVAL_EL0, the compare value of the physical timer.
    CntpCval,
}

/// What is done with a value that the guest writes to an emulated register.
#[derive(Clone, Copy, Debug, PartialEq, Eq, Structural)]
pub enum EmuWriteHandler {
    /// The write is noted and not handled.
    Ignore,
    /// The write is accepted and has no effect.
    Accept,
    /// A timer is armed that expires the written number of nanoseconds from now.
    ArmTimer,
    /// The value is written to the timer value register of the CPU.
    WriteTimerValue,
    /// Interrupts are enabled on the CPU.
    EnableIrqs,
}

/// What is done when the guest reads an emulated register.
#[derive(Clone, Copy, Debug, PartialEq, Eq, Structural)]
pub enum EmuReadHandler {
    /// The read is noted and not handled.
    Ignore,
    /// The read is accepted; the destination register is left alone.
    Accept,
    /// The destination register receives the physical counter of the CPU.
    ReadCounter,
}

impl EmuWriteHandler {
    /// Whether the handler handles the write: every handler but `Ignore` does.
    pub fn handled(&self) -> (handled: bool)
        ensures
            handled == (*self != EmuWriteHandler::Ignore),
    {
        match self {
            EmuWriteHandler::Ignore => false,
            _ => true,
        }
    }
}

impl EmuReadHandler {
    /// Whether the handler handles the read: every handler but `Ignore` does.
    pub fn handled(&self) -> (handled: bool)
        ensures
            handled == (*self != EmuReadHandler::Ignore),
    {
        match self {
            EmuReadHandler::Ignore => false,
            _ => true,
        }
    }
}

/// An emulated register with its handlers.
#[derive(Clone, Copy, Debug, PartialEq, Eq, Structural)]
pub struct EmuRegEntry {
    /// The kind of the register.
    pub emu_type: EmuRegType,
    /// The packed address of the register.
    pub addr: usize,
    /// What is done with a write.
    pub handle_write: EmuWriteHandler,
    /// What is done with a read.
    pub handle_read: EmuReadHandler,
}

/// The emulated registers of a guest, in the order in which they are searched.
#[derive(Clone, Debug)]
pub struct Aarch64EmuRegs {
    /// The registers.
    pub emu_regs: Vec<EmuRegEntry>,
}

/// The packed address of a timer register.
pub open spec fn spec_sysreg_id(reg: TimerRegister) -> usize {
    match reg {
        TimerRegister::Cntpct => 0x32_f800,
        TimerRegister::CntpTval => 0x30_f804,
        TimerRegister::CntpCtl => 0x32_f804,
        TimerRegister::CntpCval => 0x34_f804,
    }
}

/// Whether some entry has the address.
pub open spec fn has_entry(entries: Seq<EmuRegEntry>, addr: usize) -> bool {
    exists|i: int| 0 <= i < entries.len() && (#[trigger] entries[i]).addr == addr
}

/// Whether entry `i` is the first with the address.
pub open spec fn is_first_match(entries: Seq<EmuRegEntry>, addr: usize, i: int) -> bool {
    &&& 0 <= i < entries.len()
    &&& entries[i].addr == addr
    &&& forall|j: int| 0 <= j < i ==> (#[trigger] entries[j]).addr != addr
}

/// Gives the number of `aarch64_sysreg`'s `SystemRegType` for a timer register.
///
/// Trusted: CNTPCT_EL0, CNTP_TVAL_EL0, CNTP_CTL_EL0 and CNTP_CVAL_EL0 have the
/// numbers 0x32f800, 0x30f804, 0x32f804 and 0x34f804 there.
#[verifier::external_body]
fn sysreg_id(reg: TimerRegister) -> (id: usize)
    ensures
        id == spec_sysreg_id(reg),
{
    let outside = match reg {
        TimerRegister::Cntpct => SystemRegType::CNTPCT_EL0,
        TimerRegister::CntpTval => SystemRegType::CNTP_TVAL_EL0,
        TimerRegister::CntpCtl => SystemRegType::CNTP_CTL_EL0,
        TimerRegister::CntpCval => SystemRegType::CNTP_CVAL_EL0,
    };
    outside as usize
}

impl TimerRegister {
    /// The packed address of the register.
    pub fn addr(&self) -> (addr: usize)
        ensures
            addr == spec_sysreg_id(*self),
    {
        sysreg_id(*self)
    }
}

impl Aarch64EmuRegs {
    /// The registers that are emulated from the start: the timer value, which
    /// arms a timer when written; the timer control, which accepts every access;
    /// and the counter, which reads as the CPU's counter.
    pub fn new() -> (regs: Self)
        ensures
            regs.emu_regs@ == seq![
                EmuRegEntry {
                    emu_type: EmuRegType::SysReg,
                    addr: spec_sysreg_id(TimerRegister::CntpTval),
                    handle_write: EmuWriteHandler::ArmTimer,
                    handle_read: EmuReadHandler::Accept,
                },
                EmuRegEntry {
                    emu_type: EmuRegType::SysReg,
                    addr: spec_sysreg_id(TimerRegister::CntpCtl),
                    handle_write: EmuWriteHandler::Accept,
                    handle_read: EmuReadHandler::Accept,
                },
                EmuRegEntry {
                    emu_type: EmuRegType::SysReg,
                    addr: spec_sysreg_id(TimerRegister::Cntpct),
                    handle_write: EmuWriteHandler::Accept,
                    handle_read: EmuReadHandler::ReadCounter,
                },
            ],
    {
        let mut emu_regs: Vec<EmuRegEntry> = Vec::new();
        emu_regs.push(
            EmuRegEntry {
                emu_type: EmuRegType::SysReg,
                addr: TimerRegister::CntpTval.addr(),
                handle_write: EmuWriteHandler::ArmTimer,
                handle_read: EmuReadHandler::Accept,
            },
        );
        emu_regs.push(
            EmuRegEntry {
                emu_type: EmuRegType::SysReg,
                addr: TimerRegister::CntpCtl.addr(),
                handle_write: EmuWriteHandler::Accept,
                handle_read: EmuReadHandler::Accept,
            },
        );
        emu_regs.push(
            EmuRegEntry {
                emu_type: EmuRegType::SysReg,
                addr: TimerRegister::Cntpct.addr(),
                handle_write: EmuWriteHandler::Accept,
                handle_read: EmuReadHandler::ReadCounter,
            },
        );
        let regs = Aarch64EmuRegs { emu_regs };
        assert(regs.emu_regs@ =~= seq![
            EmuRegEntry {
                emu_type: EmuRegType::SysReg,
                addr: spec_sysreg_id(TimerRegister::CntpTval),
                handle_write: EmuWriteHandler::ArmTimer,
                handle_read: EmuReadHandler::Accept,
            },
            EmuRegEntry {
                emu_type: EmuRegType::SysReg,
                addr: spec_sysreg_id(TimerRegister::CntpCtl),
                handle_write: EmuWriteHandler::Accept,
                handle_read: EmuReadHandler::Accept,
            },
            EmuRegEntry {
                emu_type: EmuRegType::SysReg,
                addr: spec_sysreg_id(TimerRegister::Cntpct),
                handle_write: EmuWriteHandler::Accept,
                handle_read: EmuReadHandler::ReadCounter,
            },
        ]);
        regs
    }

    /// The index of the first register with the address; `None` if and only if there is none.
    pub fn find(&self, addr: usize) -> (index: Option<usize>)
        ensures
            index matches Some(i) ==> is_first_match(self.emu_regs@, addr, i as int),
            index.is_none() ==> !has_entry(self.emu_regs@, addr),
            index.is_some() <==> has_entry(self.emu_regs@, addr),
    {
        let mut i: usize = 0;
        while i < self.emu_regs.len()
            invariant
                0 <= i <= self.emu_regs@.len(),
                forall|j: int| 0 <= j < i ==> (#[trigger] self.emu_regs@[j]).addr != addr,
            decreases self.emu_regs@.len() - i,
        {
            if self.emu_regs[i].addr == addr {
                return Some(i);
            }
            i = i + 1;
        }
        None
    }

    /// What is done with a write to the register at `addr`: the write handler
    /// of the first register with that address. `None` if and only if no
    /// register has it; such a write is not handled.
    pub fn emu_register_handle_write(&self, addr: usize, value: u64) -> (handler: Option<
        EmuWriteHandler,
    >)
        ensures
            handler.is_some() <==> has_entry(self.emu_regs@, addr),
            handler matches Some(h) ==> exists|i: int|
                is_first_match(self.emu_regs@, addr, i) && h == self.emu_regs@[i].handle_write,
    {
        match self.find(addr) {
            Some(i) => Some(self.emu_regs[i].handle_write),
            None => None,
        }
    }

    /// What is done with a read of the register at `addr` into the guest's
    /// register `reg`: the read handler of the first register with that address.
    /// `None` if and only if no register has it; such a read is not handled.
    pub fn emu_register_handle_read(&self, addr: usize, reg: usize) -> (handler: Option<
        EmuReadHandler,
    >)
        ensures
            handler.is_some() <==> has_entry(self.emu_regs@, addr),
            handler matches Some(h) ==> exists|i: int|
                is_first_match(self.emu_regs@, addr, i) && h == self.emu_regs@[i].handle_read,
    {
        match self.find(addr) {
            Some(i) => Some(self.emu_regs[i].handle_read),
            None => None,
        }
    }
}

} // verus!
