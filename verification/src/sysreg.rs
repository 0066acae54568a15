//! The emulated timer registers as devices on the system-register bus.

use vstd::prelude::*;

pub mod cntp_ctl_el0;
pub mod cntp_tval_el0;
pub mod cntpct_el0;

verus! {

/// A range of packed system-register addresses, both ends included.
#[derive(Clone, Copy, Debug, PartialEq, Eq, Structural)]
pub struct SysRegAddrRange {
    /// The first address of the range.
    pub start: usize,
    /// The last address of the range.
    pub end: usize,
}

} // verus!
