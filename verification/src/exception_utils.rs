//! Decoders of the exception syndrome register.
//!
//! Every function here is a total function of the value that ESR_EL2 held at
//! exception entry (and, for the fault address, of FAR_EL2 and HPFAR_EL2).

use vstd::prelude::*;
use crate::error::ErrorKind;
use aarch64_cpu::registers::ESR_EL2;
use tock_registers::LocalRegisterCopy;

verus! {

/// The exception class of an HVC instruction executed in AArch64 state.
pub const EC_HVC64: u64 = 0x16;

/// The exception class of a trapped MSR, MRS or system instruction.
pub const EC_TRAPPED_MSR_MRS: u64 = 0x18;

/// The exception class of a data abort taken from a lower exception level.
pub const EC_DATA_ABORT_LOWER_EL: u64 = 0x24;

/// The packed address of ICC_SGI1R_EL1.
pub const ICC_SGI1R_EL1: usize = 0x3A_3016;

/// The exception classes that the core handles.
#[derive(Clone, Copy, Debug, PartialEq, Eq, Structural)]
pub enum ExceptionClass {
    /// A data abort taken from a lower exception level.
    DataAbortLowerEL,
    /// An HVC instruction executed in AArch64 state.
    HVC64,
    /// A trapped MSR, MRS or system instruction.
    TrappedMsrMrs,
}

/// The EC field: bits 31 to 26 of the syndrome.
pub open spec fn spec_class_value(esr: u64) -> u64 {
    (esr >> 26) & 0x3f
}

/// The ISS field: bits 24 to 0 of the syndrome.
pub open spec fn spec_iss(esr: u64) -> u64 {
    esr & 0x1ff_ffff
}

/// The handled exception class that a syndrome names, if it names one.
pub open spec fn spec_class(esr: u64) -> Option<ExceptionClass> {
    let ec = spec_class_value(esr);
    if ec == EC_DATA_ABORT_LOWER_EL {
        Some(ExceptionClass::DataAbortLowerEL)
    } else if ec == EC_HVC64 {
        Some(ExceptionClass::HVC64)
    } else if ec == EC_TRAPPED_MSR_MRS {
        Some(ExceptionClass::TrappedMsrMrs)
    } else {
        None
    }
}

/// The length in bytes of the trapped instruction: 4 where IL (bit 25) is set, else 2.
pub open spec fn spec_next_instruction_step(esr: u64) -> u64 {
    if (esr >> 25) & 1 == 1 {
        4
    } else {
        2
    }
}

/// The guest-physical address of a fault: bits 39 to 4 of HPFAR_EL2 as the
/// page number, bits 11 to 0 of FAR_EL2 as the offset in the page.
pub open spec fn spec_fault_addr(far: u64, hpfar: u64) -> u64 {
    (((hpfar >> 4) & 0xf_ffff_ffff) << 12) | (far & 0xfff)
}

/// SAS, bits 23 and 22 of the syndrome of a data abort.
pub open spec fn spec_sas(esr: u64) -> u64 {
    (esr >> 22) & 0x3
}

/// The width in bytes of the aborted access: two to the power of SAS.
pub open spec fn spec_data_abort_access_width(esr: u64) -> int {
    let sas = spec_sas(esr);
    if sas == 0 {
        1
    } else if sas == 1 {
        2
    } else if sas == 2 {
        4
    } else {
        8
    }
}

/// WnR, bit 6: the aborted access was a write.
pub open spec fn spec_data_abort_access_is_write(esr: u64) -> bool {
    esr & 0x40 != 0
}

/// SRT, bits 20 to 16: the register that the aborted access loads or stores.
pub open spec fn spec_data_abort_access_reg(esr: u64) -> u64 {
    (esr >> 16) & 0x1f
}

/// The width in bytes of that register: 8 where SF (bit 15) is set, else 4.
pub open spec fn spec_data_abort_access_reg_width(esr: u64) -> int {
    if (esr >> 15) & 1 == 1 {
        8
    } else {
        4
    }
}

/// SSE, bit 21: the loaded value is sign-extended.
pub open spec fn spec_data_abort_access_is_sign_ext(esr: u64) -> bool {
    (esr >> 21) & 1 == 1
}

/// ISV, bit 24: the syndrome describes the aborted access.
pub open spec fn spec_data_abort_handleable(esr: u64) -> bool {
    (esr >> 24) & 1 == 1
}

/// The fault status code is a translation fault of some level (0b0001xx).
pub open spec fn spec_data_abort_is_translate_fault(esr: u64) -> bool {
    esr & 0x3c == 0x04
}

/// The fault status code is a permission fault of some level (0b0011xx).
pub open spec fn spec_data_abort_is_permission_fault(esr: u64) -> bool {
    esr & 0x3c == 0x0c
}

/// The packed address of a trapped system register: Op0, Op2, Op1, CRn and CRm
/// where the syndrome has them, every other bit zero.
pub open spec fn spec_sysreg_addr(iss: u64) -> u64 {
    iss & 0x3f_fc1e
}

/// Bit 0 of the syndrome of a trapped system-register access is zero for a write.
pub open spec fn spec_sysreg_direction_write(iss: u64) -> bool {
    iss & 1 == 0
}

/// Rt, bits 9 to 5: the register that the trapped instruction names.
pub open spec fn spec_sysreg_gpr(iss: u64) -> u64 {
    (iss >> 5) & 0x1f
}

/// The syndrome of a trapped access to a system register, from its fields.
pub open spec fn spec_sysreg_iss(op0: u64, op2: u64, op1: u64, crn: u64, rt: u64, crm: u64, read: bool) -> u64 {
    (op0 << 20) | (op2 << 17) | (op1 << 14) | (crn << 10) | (rt << 5) | (crm << 1) | (if read {
        1u64
    } else {
        0u64
    })
}

/// Reads the EC field out of a copy of ESR_EL2 with `read_as_enum` of
/// `tock_registers::LocalRegisterCopy`, over `aarch64_cpu`'s `ESR_EL2::EC`.
///
/// Trusted: the field is bits 31 to 26, and the three classes that the core
/// handles have the values 0x24, 0x16 and 0x18 there.
#[verifier::external_body]
fn syndrome_class(esr: u64) -> (class: Option<ExceptionClass>)
    ensures
        class == spec_class(esr),
{
    let copy = LocalRegisterCopy::<u64, ESR_EL2::Register>::new(esr);
    match copy.read_as_enum(ESR_EL2::EC) {
        Some(ESR_EL2::EC::Value::DataAbortLowerEL) => Some(ExceptionClass::DataAbortLowerEL),
        Some(ESR_EL2::EC::Value::HVC64) => Some(ExceptionClass::HVC64),
        Some(ESR_EL2::EC::Value::TrappedMsrMrs) => Some(ExceptionClass::TrappedMsrMrs),
        _ => None,
    }
}

/// The handled exception class that the syndrome names; `None` for every other class.
pub fn exception_class(esr: u64) -> (class: Option<ExceptionClass>)
    ensures
        class == spec_class(esr),
{
    syndrome_class(esr)
}

/// The EC field of the syndrome, a number below 64.
pub fn exception_class_value(esr: u64) -> (ec: usize)
    ensures
        ec == spec_class_value(esr),
        ec < 64,
{
    let ec: u64 = (esr >> 26) & 0x3f;
    assert((esr >> 26) & 0x3f < 64) by (bit_vector);
    ec as usize
}

/// The ISS field of the syndrome.
pub fn exception_iss(esr: u64) -> (iss: u64)
    ensures
        iss == spec_iss(esr),
        iss < 0x200_0000,
{
    assert(esr & 0x1ff_ffff < 0x200_0000) by (bit_vector);
    esr & 0x1ff_ffff
}

/// The guest-physical address that a data abort faulted on.
///
/// Fails with `IllFormed` if and only if the syndrome is not that of a data
/// abort from a lower exception level.
pub fn exception_fault_addr(esr: u64, far: u64, hpfar: u64) -> (addr: Result<u64, ErrorKind>)
    ensures
        spec_class_value(esr) == EC_DATA_ABORT_LOWER_EL ==> addr == Ok::<u64, ErrorKind>(
            spec_fault_addr(far, hpfar),
        ),
        spec_class_value(esr) != EC_DATA_ABORT_LOWER_EL ==> addr == Err::<u64, ErrorKind>(
            ErrorKind::IllFormed,
        ),
{
    if (esr >> 26) & 0x3f != EC_DATA_ABORT_LOWER_EL {
        return Err(ErrorKind::IllFormed);
    }
    Ok((((hpfar >> 4) & 0xf_ffff_ffff) << 12) | (far & 0xfff))
}

/// The width in bytes of the access that a data abort stopped.
pub fn exception_data_abort_access_width(esr: u64) -> (width: usize)
    ensures
        width == spec_data_abort_access_width(esr),
        width == 1 || width == 2 || width == 4 || width == 8,
{
    let sas: u64 = (esr >> 22) & 0x3;
    if sas == 0 {
        1
    } else if sas == 1 {
        2
    } else if sas == 2 {
        4
    } else {
        8
    }
}

/// Whether the access that a data abort stopped was a write.
pub fn exception_data_abort_access_is_write(esr: u64) -> (write: bool)
    ensures
        write == spec_data_abort_access_is_write(esr),
{
    esr & 0x40 != 0
}

/// The index of the register that the aborted access loads or stores, at most 31.
pub fn exception_data_abort_access_reg(esr: u64) -> (reg: usize)
    ensures
        reg == spec_data_abort_access_reg(esr),
        reg <= 31,
{
    let reg: u64 = (esr >> 16) & 0x1f;
    assert((esr >> 16) & 0x1f <= 31) by (bit_vector);
    reg as usize
}

/// The width in bytes of the register that the aborted access loads or stores.
pub fn exception_data_abort_access_reg_width(esr: u64) -> (width: usize)
    ensures
        width == spec_data_abort_access_reg_width(esr),
        width == 4 || width == 8,
{
    if (esr >> 15) & 1 == 1 {
        8
    } else {
        4
    }
}

/// Whether the value that the aborted access loads is sign-extended.
pub fn exception_data_abort_access_is_sign_ext(esr: u64) -> (signed: bool)
    ensures
        signed == spec_data_abort_access_is_sign_ext(esr),
{
    (esr >> 21) & 1 == 1
}

/// Whether the syndrome of a data abort describes the access, so that it can be emulated.
pub fn exception_data_abort_handleable(esr: u64) -> (handleable: bool)
    ensures
        handleable == spec_data_abort_handleable(esr),
{
    (esr >> 24) & 1 == 1
}

/// Whether a data abort is a translation fault.
pub fn exception_data_abort_is_translate_fault(esr: u64) -> (fault: bool)
    ensures
        fault == spec_data_abort_is_translate_fault(esr),
{
    esr & 0x3c == 0x04
}

/// Whether a data abort is a permission fault.
pub fn exception_data_abort_is_permission_fault(esr: u64) -> (fault: bool)
    ensures
        fault == spec_data_abort_is_permission_fault(esr),
{
    esr & 0x3c == 0x0c
}

/// The length in bytes of the trapped instruction.
pub fn exception_next_instruction_step(esr: u64) -> (step: u64)
    ensures
        step == spec_next_instruction_step(esr),
        step == 2 || step == 4,
{
    if (esr >> 25) & 1 == 1 {
        4
    } else {
        2
    }
}

/// The packed address of the system register that a trapped access names.
pub fn exception_sysreg_addr(iss: u64) -> (addr: usize)
    ensures
        addr == spec_sysreg_addr(iss),
        addr <= 0x3f_fc1e,
{
    let addr: u64 = iss & 0x3f_fc1e;
    assert(iss & 0x3f_fc1e <= 0x3f_fc1e) by (bit_vector);
    addr as usize
}

/// Whether a trapped access to a system register is a write.
pub fn exception_sysreg_direction_write(iss: u64) -> (write: bool)
    ensures
        write == spec_sysreg_direction_write(iss),
{
    iss & 1 == 0
}

/// The index of the register that a trapped access to a system register names, at most 31.
pub fn exception_sysreg_gpr(iss: u64) -> (reg: usize)
    ensures
        reg == spec_sysreg_gpr(iss),
        reg <= 31,
{
    let reg: u64 = (iss >> 5) & 0x1f;
    assert((iss >> 5) & 0x1f <= 31) by (bit_vector);
    reg as usize
}

/// The packed address of a system register holds its five fields and nothing
/// else: it is the same for a read and a write, whatever register the
/// instruction names.
pub proof fn lemma_sysreg_addr_packing(op0: u64, op2: u64, op1: u64, crn: u64, rt: u64, crm: u64, read: bool)
    requires
        op0 < 4,
        op2 < 8,
        op1 < 8,
        crn < 16,
        rt < 32,
        crm < 16,
    ensures
        spec_sysreg_addr(spec_sysreg_iss(op0, op2, op1, crn, rt, crm, read)) == (op0 << 20) | (op2
            << 17) | (op1 << 14) | (crn << 10) | (crm << 1),
        spec_sysreg_gpr(spec_sysreg_iss(op0, op2, op1, crn, rt, crm, read)) == rt,
        spec_sysreg_direction_write(spec_sysreg_iss(op0, op2, op1, crn, rt, crm, read)) == !read,
{
    let d: u64 = if read { 1 } else { 0 };
    let iss: u64 = (op0 << 20) | (op2 << 17) | (op1 << 14) | (crn << 10) | (rt << 5) | (crm << 1) | d;
    assert(iss == spec_sysreg_iss(op0, op2, op1, crn, rt, crm, read));
    assert(iss & 0x3f_fc1e == (op0 << 20) | (op2 << 17) | (op1 << 14) | (crn << 10) | (crm << 1)
        && (iss >> 5) & 0x1f == rt && iss & 1 == d) by (bit_vector)
        requires
            iss == (op0 << 20) | (op2 << 17) | (op1 << 14) | (crn << 10) | (rt << 5) | (crm << 1) | d,
            op0 < 4,
            op2 < 8,
            op1 < 8,
            crn < 16,
            rt < 32,
            crm < 16,
            d < 2,
    ;
}

/// The syndrome of a data abort from a lower exception level, from its fields.
pub open spec fn spec_data_abort_esr(
    il: bool,
    isv: bool,
    sas: u64,
    sse: bool,
    srt: u64,
    sf: bool,
    wnr: bool,
    dfsc: u64,
) -> u64 {
    (EC_DATA_ABORT_LOWER_EL << 26) | (spec_bit(il) << 25) | (spec_bit(isv) << 24) | (sas << 22) | (
    spec_bit(sse) << 21) | (srt << 16) | (spec_bit(sf) << 15) | (spec_bit(wnr) << 6) | dfsc
}

/// One for a set bit, zero for a clear one.
pub open spec fn spec_bit(b: bool) -> u64 {
    if b {
        1
    } else {
        0
    }
}

/// The decoders of a data abort give back the fields that its syndrome was
/// made of: the class, the length of the instruction, whether the syndrome
/// is valid, the width of the access, the register and its width, the
/// direction, the sign extension, and the kind of fault.
pub proof fn lemma_data_abort_fields(
    il: bool,
    isv: bool,
    sas: u64,
    sse: bool,
    srt: u64,
    sf: bool,
    wnr: bool,
    dfsc: u64,
)
    requires
        sas < 4,
        srt < 32,
        dfsc < 64,
    ensures
        ({
            let esr = spec_data_abort_esr(il, isv, sas, sse, srt, sf, wnr, dfsc);
            &&& spec_class(esr) == Some(ExceptionClass::DataAbortLowerEL)
            &&& spec_next_instruction_step(esr) == (if il {
                4u64
            } else {
                2u64
            })
            &&& spec_data_abort_handleable(esr) == isv
            &&& spec_sas(esr) == sas
            &&& spec_data_abort_access_is_sign_ext(esr) == sse
            &&& spec_data_abort_access_reg(esr) == srt
            &&& spec_data_abort_access_reg_width(esr) == (if sf {
                8int
            } else {
                4int
            })
            &&& spec_data_abort_access_is_write(esr) == wnr
            &&& spec_data_abort_is_translate_fault(esr) == (4 <= dfsc < 8)
            &&& spec_data_abort_is_permission_fault(esr) == (12 <= dfsc < 16)
        }),
{
    let (bil, bisv, bsse, bsf, bwnr) = (
        spec_bit(il),
        spec_bit(isv),
        spec_bit(sse),
        spec_bit(sf),
        spec_bit(wnr),
    );
    let esr: u64 = (0x24u64 << 26) | (bil << 25) | (bisv << 24) | (sas << 22) | (bsse << 21) | (srt
        << 16) | (bsf << 15) | (bwnr << 6) | dfsc;
    assert(esr == spec_data_abort_esr(il, isv, sas, sse, srt, sf, wnr, dfsc));
    assert((esr >> 26) & 0x3f == 0x24 && (esr >> 25) & 1 == bil && (esr >> 24) & 1 == bisv && (esr
        >> 22) & 0x3 == sas && (esr >> 21) & 1 == bsse && (esr >> 16) & 0x1f == srt && (esr >> 15)
        & 1 == bsf && (esr & 0x40 != 0) == (bwnr == 1) && esr & 0x3c == dfsc & 0x3c) by (bit_vector)
        requires
            esr == (0x24u64 << 26) | (bil << 25) | (bisv << 24) | (sas << 22) | (bsse << 21) | (srt
                << 16) | (bsf << 15) | (bwnr << 6) | dfsc,
            bil < 2,
            bisv < 2,
            bsse < 2,
            bsf < 2,
            bwnr < 2,
            sas < 4,
            srt < 32,
            dfsc < 64,
    ;
    assert((dfsc & 0x3c == 0x04) == (4 <= dfsc && dfsc < 8) && (dfsc & 0x3c == 0x0c) == (12 <= dfsc
        && dfsc < 16)) by (bit_vector)
        requires
            dfsc < 64,
    ;
}

/// ICC_SGI1R_EL1 is the register with Op0 3, Op1 0, CRn 12, CRm 11 and Op2 5.
pub proof fn lemma_sgi1r_address()
    ensures
        ICC_SGI1R_EL1 == (3u64 << 20) | (5u64 << 17) | (0u64 << 14) | (12u64 << 10) | (11u64 << 1),
{
    assert(0x3A_3016 == (3u64 << 20) | (5u64 << 17) | (0u64 << 14) | (12u64 << 10) | (11u64 << 1))
        by (bit_vector);
}

} // verus!
