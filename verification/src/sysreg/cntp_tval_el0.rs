//! CNTP_TVAL_EL0 as an emulated device.

use vstd::prelude::*;
use crate::sysreg::SysRegAddrRange;
use crate::system_registers::{spec_sysreg_id, TimerRegister};

verus! {

/// The emulated CNTP_TVAL_EL0.
#[derive(Clone, Copy, Debug, PartialEq, Eq, Structural)]
pub struct SysCntpTvalEl0 {}

impl SysCntpTvalEl0 {
    /// The device.
    pub fn new() -> (device: Self)
        ensures
            device == (SysCntpTvalEl0 {  }),
    {
        SysCntpTvalEl0 {  }
    }

    /// The addresses that the device answers: the one address of CNTP_TVAL_EL0.
    pub fn address_range(&self) -> (range: SysRegAddrRange)
        ensures
            range.start == spec_sysreg_id(TimerRegister::CntpTval),
            range.end == spec_sysreg_id(TimerRegister::CntpTval),
    {
        let addr: usize = TimerRegister::CntpTval.addr();
        SysRegAddrRange { start: addr, end: addr }
    }

    /// The time at which the timer that a write arms expires: the written
    /// number of nanoseconds after `now`. `None` if and only if that time does
    /// not fit in 64 bits.
    pub fn handle_write(&self, now: u64, val: u64) -> (deadline: Option<u64>)
        ensures
            now + val <= u64::MAX ==> deadline == Some((now + val) as u64),
            now + val > u64::MAX ==> deadline.is_none(),
    {
        now.checked_add(val)
    }
}

} // verus!
