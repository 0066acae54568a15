//! A list of emulated registers that grows: registers are added to it by address.

use vstd::prelude::*;
use crate::system_registers::{
    has_entry, is_first_match, Aarch64EmuRegs, EmuReadHandler, EmuRegEntry, EmuRegType,
    EmuWriteHandler, TimerRegister, spec_sysreg_id,
};

verus! {

/// The entry that `emu_register_add` makes for an address and its handlers.
pub open spec fn spec_entry(
    addr: usize,
    handle_write: EmuWriteHandler,
    handle_read: EmuReadHandler,
) -> EmuRegEntry {
    EmuRegEntry { emu_type: EmuRegType::SysReg, addr, handle_write, handle_read }
}

/// The list with which a guest starts: the counter, which reads as the CPU's
/// counter; the timer value, which is written through; the timer control,
/// whose write enables interrupts; and the compare value, which is not handled.
pub fn default_registers() -> (regs: Aarch64EmuRegs)
    ensures
        regs.emu_regs@ == seq![
            spec_entry(
                spec_sysreg_id(TimerRegister::Cntpct),
                EmuWriteHandler::Ignore,
                EmuReadHandler::ReadCounter,
            ),
            spec_entry(
                spec_sysreg_id(TimerRegister::CntpTval),
                EmuWriteHandler::WriteTimerValue,
                EmuReadHandler::Ignore,
            ),
            spec_entry(
                spec_sysreg_id(TimerRegister::CntpCtl),
                EmuWriteHandler::EnableIrqs,
                EmuReadHandler::Ignore,
            ),
            spec_entry(
                spec_sysreg_id(TimerRegister::CntpCval),
                EmuWriteHandler::Ignore,
                EmuReadHandler::Ignore,
            ),
        ],
{
    let mut regs = Aarch64EmuRegs { emu_regs: Vec::new() };
    let _: bool = emu_register_add(
        &mut regs,
        TimerRegister::Cntpct.addr(),
        EmuWriteHandler::Ignore,
        EmuReadHandler::ReadCounter,
    );
    let _: bool = emu_register_add(
        &mut regs,
        TimerRegister::CntpTval.addr(),
        EmuWriteHandler::WriteTimerValue,
        EmuReadHandler::Ignore,
    );
    let _: bool = emu_register_add(
        &mut regs,
        TimerRegister::CntpCtl.addr(),
        EmuWriteHandler::EnableIrqs,
        EmuReadHandler::Ignore,
    );
    let _: bool = emu_register_add(
        &mut regs,
        TimerRegister::CntpCval.addr(),
        EmuWriteHandler::Ignore,
        EmuReadHandler::Ignore,
    );
    regs
}

/// Adds a register to the end of the list, unless the list has one with the
/// same address; says whether it was added.
pub fn emu_register_add(
    regs: &mut Aarch64EmuRegs,
    addr: usize,
    handle_write: EmuWriteHandler,
    handle_read: EmuReadHandler,
) -> (added: bool)
    ensures
        added == !has_entry(old(regs).emu_regs@, addr),
        added ==> final(regs).emu_regs@ == old(regs).emu_regs@.push(
            spec_entry(addr, handle_write, handle_read),
        ),
        !added ==> final(regs).emu_regs@ == old(regs).emu_regs@,
{
    if regs.find(addr).is_some() {
        return false;
    }
    regs.emu_regs.push(
        EmuRegEntry { emu_type: EmuRegType::SysReg, addr, handle_write, handle_read },
    );
    true
}

/// What is done with a write to the register at `addr`, which the list must
/// hold: the write handler of the first register with that address.
pub fn emu_register_handle_write(regs: &Aarch64EmuRegs, addr: usize, reg: usize, value: u64) -> (handler:
    EmuWriteHandler)
    requires
        has_entry(regs.emu_regs@, addr),
    ensures
        exists|i: int|
            is_first_match(regs.emu_regs@, addr, i) && handler == regs.emu_regs@[i].handle_write,
{
    match regs.emu_register_handle_write(addr, value) {
        Some(handler) => handler,
        None => EmuWriteHandler::Ignore,
    }
}

/// What is done with a read of the register at `addr`, which the list must
/// hold: the read handler of the first register with that address.
pub fn emu_register_handle_read(regs: &Aarch64EmuRegs, addr: usize, reg: usize) -> (handler:
    EmuReadHandler)
    requires
        has_entry(regs.emu_regs@, addr),
    ensures
        exists|i: int|
            is_first_match(regs.emu_regs@, addr, i) && handler == regs.emu_regs@[i].handle_read,
{
    match regs.emu_register_handle_read(addr, reg) {
        Some(handler) => handler,
        None => EmuReadHandler::Ignore,
    }
}

} // verus!
