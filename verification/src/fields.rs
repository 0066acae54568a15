//! The register fields that the core sets, taken from `aarch64_cpu`.
//!
//! Each function here asks `aarch64_cpu` (through `tock_registers`) for the
//! value of a group of fields; what it states of the result is trusted.

use vstd::prelude::*;
use aarch64_cpu::registers::{CNTHCTL_EL2, HCR_EL2, ID_AA64MMFR0_EL1, SPSR_EL1, VTCR_EL2};
use tock_registers::LocalRegisterCopy;

verus! {

/// HCR_EL2.VM, bit 0: stage-2 translation is on.
pub const HCR_VM: u64 = 0x1;

/// HCR_EL2.FMO, bit 3: physical FIQs are routed to EL2 and virtual FIQs are enabled.
pub const HCR_FMO: u64 = 0x8;

/// HCR_EL2.IMO, bit 4: physical IRQs are routed to EL2 and virtual IRQs are enabled.
pub const HCR_IMO: u64 = 0x10;

/// HCR_EL2.TSC, bit 19: an SMC at EL1 traps to EL2.
pub const HCR_TSC: u64 = 0x8_0000;

/// HCR_EL2.RW, bit 31: EL1 is AArch64.
pub const HCR_RW: u64 = 0x8000_0000;

/// HCR_EL2 for a guest: VM, RW and TSC.
pub const HCR_GUEST: u64 = 0x8008_0001;

/// HCR_EL2 bits that route physical interrupts to EL2: IMO and FMO.
pub const HCR_VIRTUAL_INTERRUPTS: u64 = 0x18;

/// SPSR for entering a guest: EL1h (0b0101) with D, A, I and F (bits 9 to 6) masked.
pub const SPSR_GUEST_ENTRY: u64 = 0x3c5;

/// CNTHCTL_EL2 bits that let EL1 use the physical timer and counter: EL1PCEN and EL1PCTEN.
pub const CNTHCTL_EL1_PHYSICAL: u64 = 0x3;

/// VTCR_EL2 bits common to every guest: 4KB granule, inner shareable,
/// write-back read-allocate write-allocate for both cacheability fields.
pub const VTCR_COMMON: u64 = 0x3500;

/// VTCR_EL2 from its PS, SL0 and T0SZ fields, over the common bits.
pub open spec fn spec_vtcr(ps: u64, sl0: u64, t0sz: u64) -> u64 {
    VTCR_COMMON | ((ps & 0x7) << 16) | ((sl0 & 0x3) << 6) | (t0sz & 0x3f)
}

/// Adds up `aarch64_cpu`'s `SPSR_EL1` fields `M::EL1h` and `D`, `A`, `I`, `F::Masked`.
///
/// Trusted: M is bits 3 to 0 and EL1h is 0b0101 there; D, A, I and F are bits 9,
/// 8, 7 and 6, and `Masked` is 1.
#[verifier::external_body]
pub(crate) fn spsr_guest_entry() -> (spsr: u64)
    ensures
        spsr == SPSR_GUEST_ENTRY,
{
    (SPSR_EL1::M::EL1h + SPSR_EL1::I::Masked + SPSR_EL1::F::Masked + SPSR_EL1::A::Masked
        + SPSR_EL1::D::Masked).value
}

/// Adds up `aarch64_cpu`'s `HCR_EL2` fields `VM::Enable`, `RW::EL1IsAarch64`
/// and `TSC::EnableTrapEl1SmcToEl2`.
///
/// Trusted: the three are single bits 0, 31 and 19, each with the value 1.
#[verifier::external_body]
pub(crate) fn hcr_guest() -> (hcr: u64)
    ensures
        hcr == HCR_GUEST,
{
    (HCR_EL2::VM::Enable + HCR_EL2::RW::EL1IsAarch64 + HCR_EL2::TSC::EnableTrapEl1SmcToEl2).value
}

/// Adds up `aarch64_cpu`'s `HCR_EL2` fields `IMO::EnableVirtualIRQ` and `FMO::EnableVirtualFIQ`.
///
/// Trusted: the two are single bits 4 and 3, each with the value 1.
#[verifier::external_body]
pub(crate) fn hcr_virtual_interrupts() -> (hcr: u64)
    ensures
        hcr == HCR_VIRTUAL_INTERRUPTS,
{
    (HCR_EL2::IMO::EnableVirtualIRQ + HCR_EL2::FMO::EnableVirtualFIQ).value
}

/// Adds up `aarch64_cpu`'s `CNTHCTL_EL2` fields `EL1PCEN::SET` and `EL1PCTEN::SET`.
///
/// Trusted: the two are single bits 1 and 0.
#[verifier::external_body]
pub(crate) fn cnthctl_el1_physical() -> (cnthctl: u64)
    ensures
        cnthctl == CNTHCTL_EL1_PHYSICAL,
{
    (CNTHCTL_EL2::EL1PCEN::SET + CNTHCTL_EL2::EL1PCTEN::SET).value
}

/// Adds up `aarch64_cpu`'s `VTCR_EL2` fields `TG0::Granule4KB`, `SH0::Inner`,
/// `ORGN0::NormalWBRAWA`, `IRGN0::NormalWBRAWA` and the given values of `PS`,
/// `SL0` and `T0SZ`.
///
/// Trusted: TG0 is bits 15 and 14 (4KB is 0), SH0 bits 13 and 12 (inner is 3),
/// ORGN0 bits 11 and 10 and IRGN0 bits 9 and 8 (write-back read-allocate
/// write-allocate is 1), PS bits 18 to 16, SL0 bits 7 and 6, T0SZ bits 5 to 0;
/// a value is cut to the width of its field.
#[verifier::external_body]
pub(crate) fn vtcr(ps: u64, sl0: u64, t0sz: u64) -> (vtcr: u64)
    ensures
        vtcr == spec_vtcr(ps, sl0, t0sz),
{
    (VTCR_EL2::TG0::Granule4KB + VTCR_EL2::SH0::Inner + VTCR_EL2::ORGN0::NormalWBRAWA
        + VTCR_EL2::IRGN0::NormalWBRAWA + VTCR_EL2::PS.val(ps) + VTCR_EL2::SL0.val(sl0)
        + VTCR_EL2::T0SZ.val(t0sz)).value
}

/// Reads `aarch64_cpu`'s field `ID_AA64MMFR0_EL1::PARange` out of a copy of that register.
///
/// Trusted: the field is bits 3 to 0.
#[verifier::external_body]
pub(crate) fn parange_field(mmfr0: u64) -> (parange: u64)
    ensures
        parange == mmfr0 & 0xf,
{
    LocalRegisterCopy::<u64, ID_AA64MMFR0_EL1::Register>::new(mmfr0).read(ID_AA64MMFR0_EL1::PARange)
}

/// The bits of HCR_EL2 for a guest are VM, RW and TSC, and the two
/// interrupt-routing bits are IMO and FMO.
pub proof fn lemma_hcr_bits()
    ensures
        HCR_GUEST == HCR_VM | HCR_RW | HCR_TSC,
        HCR_VIRTUAL_INTERRUPTS == HCR_IMO | HCR_FMO,
        HCR_GUEST & HCR_VIRTUAL_INTERRUPTS == 0,
{
    assert(0x8008_0001u64 == 0x1u64 | 0x8000_0000u64 | 0x8_0000u64) by (bit_vector);
    assert(0x18u64 == 0x10u64 | 0x8u64) by (bit_vector);
    assert(0x8008_0001u64 & 0x18u64 == 0) by (bit_vector);
}

} // verus!
