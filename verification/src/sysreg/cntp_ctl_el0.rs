//! CNTP_CTL_EL0 as an emulated device.

use vstd::prelude::*;
use crate::sysreg::SysRegAddrRange;
use crate::system_registers::{spec_sysreg_id, TimerRegister};

verus! {

/// The emulated CNTP_CTL_EL0.
#[derive(Clone, Copy, Debug, PartialEq, Eq, Structural)]
pub struct SysCntpCtlEl0 {}

impl SysCntpCtlEl0 {
    /// The device.
    pub fn new() -> (device: Self)
        ensures
            device == (SysCntpCtlEl0 {  }),
    {
        SysCntpCtlEl0 {  }
    }

    /// The addresses that the device answers: the one address of CNTP_CTL_EL0.
    pub fn address_range(&self) -> (range: SysRegAddrRange)
        ensures
            range.start == spec_sysreg_id(TimerRegister::CntpCtl),
            range.end == spec_sysreg_id(TimerRegister::CntpCtl),
    {
        let addr: usize = TimerRegister::CntpCtl.addr();
        SysRegAddrRange { start: addr, end: addr }
    }
}

} // verus!
