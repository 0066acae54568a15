//! CNTPCT_EL0 as an emulated device.

use vstd::prelude::*;
use crate::sysreg::SysRegAddrRange;
use crate::system_registers::{spec_sysreg_id, TimerRegister};

verus! {

/// The emulated CNTPCT_EL0.
#[derive(Clone, Copy, Debug, PartialEq, Eq, Structural)]
pub struct SysCntpctEl0 {}

impl SysCntpctEl0 {
    /// The device.
    pub fn new() -> (device: Self)
        ensures
            device == (SysCntpctEl0 {  }),
    {
        SysCntpctEl0 {  }
    }

    /// The addresses that the device answers: the one address of CNTPCT_EL0.
    pub fn address_range(&self) -> (range: SysRegAddrRange)
        ensures
            range.start == spec_sysreg_id(TimerRegister::Cntpct),
            range.end == spec_sysreg_id(TimerRegister::Cntpct),
    {
        let addr: usize = TimerRegister::Cntpct.addr();
        SysRegAddrRange { start: addr, end: addr }
    }

    /// What a read gives: the physical counter of the CPU, as the caller read it.
    pub fn handle_read(&self, counter: u64) -> (value: u64)
        ensures
            value == counter,
    {
        counter
    }
}

} // verus!
