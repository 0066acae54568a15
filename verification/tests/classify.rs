use arm_vcpu::context_frame::Aarch64ContextFrame;
use arm_vcpu::error::ErrorKind;
use arm_vcpu::exception::{
    decode_sgi1r, handle_data_abort, handle_exception_sync, handle_hypercall, handle_psci_call,
    handle_system_register, mmio_exit, sync_exit_handled, vector_is_handled, vmexit_route,
    vector_offset, ExitRoute, Syndrome, TrapKind, TrapSource, EXCEPTION_IRQ, EXCEPTION_SYNC,
    VECTOR_ENTRIES, VECTOR_ENTRY_SIZE,
};
use arm_vcpu::exit::{AccessWidth, AxVCpuExitReason};
use arm_vcpu::irq::handle_exception_irq;
use arm_vcpu::sync::{data_abort_handler, exception_handle_sync};

const ESR_LDR_W0: u64 = 0x9380_0004;
const ESR_STRH_W2: u64 = 0x9342_0044;
const ESR_HVC: u64 = 0x5A00_0000;
const ESR_SYSREG: u64 = 0x6200_0000;

fn data_abort(esr: u64, ipa: u64) -> Syndrome {
    Syndrome { esr, far: ipa & 0xfff, hpfar: (ipa >> 12) << 4 }
}

fn frame_at(pc: u64) -> Aarch64ContextFrame {
    let mut ctx = Aarch64ContextFrame::new();
    ctx.set_exception_pc(pc);
    ctx
}

#[test]
fn mmio_read_scenario() {
    let mut ctx = frame_at(0x4008_0000);
    ctx.set_gpr(1, 0xFEC0_1000);
    let syn = data_abort(ESR_LDR_W0, 0xFEC0_1000);
    assert!(sync_exit_handled(&syn));
    let exit = handle_exception_sync(&mut ctx, &syn);
    assert_eq!(
        exit,
        Ok(AxVCpuExitReason::MmioRead {
            addr: 0xFEC0_1000,
            width: AccessWidth::Dword,
            reg: 0,
            reg_width: AccessWidth::Dword,
            signed_ext: false,
        })
    );
    assert_eq!(ctx.exception_pc(), 0x4008_0004);
    assert_eq!(ctx.gpr(1), 0xFEC0_1000);
}

#[test]
fn mmio_write_scenario() {
    let mut ctx = frame_at(0x4008_0000);
    ctx.set_gpr(2, 0x1234_5678);
    ctx.set_gpr(3, 0xFEC0_2000);
    let syn = data_abort(ESR_STRH_W2, 0xFEC0_2000);
    let exit = handle_exception_sync(&mut ctx, &syn);
    assert_eq!(
        exit,
        Ok(AxVCpuExitReason::MmioWrite {
            addr: 0xFEC0_2000,
            width: AccessWidth::Word,
            data: 0x1234_5678,
        })
    );
    assert_eq!(ctx.exception_pc(), 0x4008_0004);
}

#[test]
fn mmio_read_sign_extended_into_x_register() {
    // ldrsb x5, [..]: SAS=0, SSE=1, SRT=5, SF=1, IL=1.
    let esr: u64 = (0x24 << 26) | (1 << 25) | (1 << 24) | (1 << 21) | (5 << 16) | (1 << 15) | 0x05;
    let mut ctx = frame_at(0x1000);
    let exit = handle_data_abort(&mut ctx, &data_abort(esr, 0x0900_0abc));
    assert_eq!(
        exit,
        Ok(AxVCpuExitReason::MmioRead {
            addr: 0x0900_0abc,
            width: AccessWidth::Byte,
            reg: 5,
            reg_width: AccessWidth::Qword,
            signed_ext: true,
        })
    );
    assert_eq!(ctx.exception_pc(), 0x1004);
}

#[test]
fn mmio_write_from_zero_register_stores_zero() {
    // str xzr, [..]: SAS=3, WnR=1, SRT=31, SF=1.
    let esr: u64 = (0x24 << 26) | (1 << 25) | (1 << 24) | (3 << 22) | (31 << 16) | (1 << 15) | (1 << 6) | 0x07;
    let mut ctx = frame_at(0x2000);
    ctx.set_gpr(30, 0xdead);
    let exit = data_abort_handler(&mut ctx, &data_abort(esr, 0x0800_0008));
    assert_eq!(
        exit,
        Ok(AxVCpuExitReason::MmioWrite { addr: 0x0800_0008, width: AccessWidth::Qword, data: 0 })
    );
}

#[test]
fn data_abort_of_16_bit_instruction_advances_by_two() {
    let esr: u64 = ESR_LDR_W0 & !(1 << 25);
    let mut ctx = frame_at(0x4008_0000);
    let exit = handle_data_abort(&mut ctx, &data_abort(esr, 0xFEC0_1000));
    assert!(exit.is_ok());
    assert_eq!(ctx.exception_pc(), 0x4008_0002);
}

#[test]
fn elr_wraps_at_the_top_of_the_address_space() {
    let mut ctx = frame_at(0xFFFF_FFFF_FFFF_FFFC);
    let exit = handle_data_abort(&mut ctx, &data_abort(ESR_LDR_W0, 0xFEC0_1000));
    assert!(exit.is_ok());
    assert_eq!(ctx.exception_pc(), 0);
}

#[test]
fn permission_fault_is_unsupported_and_keeps_the_frame() {
    let esr: u64 = (ESR_LDR_W0 & !0x3f) | 0x0d;
    let mut ctx = frame_at(0x4008_0000);
    let before = ctx;
    let syn = data_abort(esr, 0xFEC0_1000);
    assert!(sync_exit_handled(&syn));
    assert_eq!(handle_exception_sync(&mut ctx, &syn), Err(ErrorKind::Unsupported));
    assert_eq!(ctx, before);
}

#[test]
fn data_abort_handler_on_another_class_is_ill_formed() {
    let mut ctx = frame_at(0x4008_0000);
    let before = ctx;
    let syn = Syndrome { esr: ESR_HVC, far: 0, hpfar: 0 };
    assert_eq!(handle_data_abort(&mut ctx, &syn), Err(ErrorKind::IllFormed));
    assert_eq!(ctx, before);
}

#[test]
fn fatal_exits_are_told_apart() {
    // A data abort without a valid syndrome.
    let no_isv = data_abort(ESR_LDR_W0 & !(1 << 24), 0xFEC0_1000);
    assert!(!sync_exit_handled(&no_isv));
    // A data abort that is neither a translation nor a permission fault (access flag fault).
    let access_flag = data_abort((ESR_LDR_W0 & !0x3f) | 0x09, 0xFEC0_1000);
    assert!(!sync_exit_handled(&access_flag));
    // An instruction abort from a lower level.
    assert!(!sync_exit_handled(&Syndrome { esr: 0x20 << 26, far: 0, hpfar: 0 }));
    assert!(sync_exit_handled(&Syndrome { esr: ESR_HVC, far: 0, hpfar: 0 }));
    assert!(sync_exit_handled(&Syndrome { esr: ESR_SYSREG, far: 0, hpfar: 0 }));
}

#[test]
fn mmio_exit_rejects_other_widths() {
    assert_eq!(mmio_exit(0x1000, 3, false, 0, 4, false, 0), Err(ErrorKind::InvalidInput));
    assert_eq!(mmio_exit(0x1000, 4, true, 0, 16, false, 0), Err(ErrorKind::InvalidInput));
    assert_eq!(mmio_exit(0x1000, 0, true, 0, 8, false, 0), Err(ErrorKind::InvalidInput));
    assert_eq!(
        mmio_exit(0x1000, 8, true, 7, 8, false, 9),
        Ok(AxVCpuExitReason::MmioWrite { addr: 0x1000, width: AccessWidth::Qword, data: 9 })
    );
    assert_eq!(
        mmio_exit(0x1000, 1, false, 7, 4, true, 9),
        Ok(AxVCpuExitReason::MmioRead {
            addr: 0x1000,
            width: AccessWidth::Byte,
            reg: 7,
            reg_width: AccessWidth::Dword,
            signed_ext: true,
        })
    );
}

#[test]
fn access_width_conversions() {
    assert_eq!(AccessWidth::try_from_bytes(1), Ok(AccessWidth::Byte));
    assert_eq!(AccessWidth::try_from_bytes(2), Ok(AccessWidth::Word));
    assert_eq!(AccessWidth::try_from_bytes(4), Ok(AccessWidth::Dword));
    assert_eq!(AccessWidth::try_from_bytes(8), Ok(AccessWidth::Qword));
    assert_eq!(AccessWidth::try_from_bytes(0), Err(()));
    assert_eq!(AccessWidth::try_from_bytes(3), Err(()));
    assert_eq!(AccessWidth::try_from_bytes(16), Err(()));
    assert_eq!(AccessWidth::Byte.size(), 1);
    assert_eq!(AccessWidth::Word.size(), 2);
    assert_eq!(AccessWidth::Dword.size(), 4);
    assert_eq!(AccessWidth::Qword.size(), 8);
}

#[test]
fn hypercall_scenario() {
    let mut ctx = frame_at(0x4008_0000);
    ctx.set_gpr(0, 0x4321);
    for i in 1..=6usize {
        ctx.set_gpr(i, i as u64);
    }
    let before = ctx;
    let syn = Syndrome { esr: ESR_HVC, far: 0, hpfar: 0 };
    let exit = handle_exception_sync(&mut ctx, &syn);
    assert_eq!(exit, Ok(AxVCpuExitReason::Hypercall { nr: 0x4321, args: [1, 2, 3, 4, 5, 6] }));
    assert_eq!(ctx, before);
    assert_eq!(ctx.exception_pc(), 0x4008_0000);
}

#[test]
fn psci_cpu_on_scenario() {
    let mut ctx = frame_at(0x4008_0000);
    ctx.set_gpr(0, 0xC400_0003);
    ctx.set_gpr(1, 0x1_0000);
    ctx.set_gpr(2, 0x4008_0000);
    ctx.set_gpr(3, 0xCAFE);
    let syn = Syndrome { esr: ESR_HVC, far: 0, hpfar: 0 };
    let exit = exception_handle_sync(&mut ctx, &syn);
    assert_eq!(
        exit,
        Ok(AxVCpuExitReason::CpuUp { target_cpu: 0x1_0000, entry_point: 0x4008_0000, arg: 0xCAFE })
    );
    assert_eq!(ctx.exception_pc(), 0x4008_0000);
}

#[test]
fn system_off_scenario() {
    let mut ctx = frame_at(0);
    ctx.set_gpr(0, 0x8400_0008);
    assert_eq!(handle_hypercall(&ctx), Ok(AxVCpuExitReason::SystemDown));
}

#[test]
fn psci_dispatch_table() {
    for base in [0x8400_0000u64, 0xC400_0000u64] {
        for offset in 0..0x20u64 {
            let mut ctx = frame_at(0);
            ctx.set_gpr(0, base + offset);
            ctx.set_gpr(1, 11);
            ctx.set_gpr(2, 22);
            ctx.set_gpr(3, 33);
            let expected = match offset {
                2 => Ok(AxVCpuExitReason::CpuDown { _state: 11 }),
                3 => Ok(AxVCpuExitReason::CpuUp { target_cpu: 11, entry_point: 22, arg: 33 }),
                8 => Ok(AxVCpuExitReason::SystemDown),
                _ => Err(ErrorKind::Unsupported),
            };
            assert_eq!(handle_psci_call(&ctx), Some(expected));
            assert_eq!(handle_hypercall(&ctx), expected);
        }
    }
}

#[test]
fn hvc_numbers_outside_the_psci_ranges_are_hypercalls() {
    for nr in [0u64, 0x83FF_FFFF, 0x8400_0020, 0xC3FF_FFFF, 0xC400_0020, u64::MAX] {
        let mut ctx = frame_at(0);
        ctx.set_gpr(0, nr);
        ctx.set_gpr(6, 66);
        assert_eq!(handle_psci_call(&ctx), None);
        assert_eq!(
            handle_hypercall(&ctx),
            Ok(AxVCpuExitReason::Hypercall { nr, args: [0, 0, 0, 0, 0, 66] })
        );
    }
}

#[test]
fn sgi1r_decode() {
    // Aff2 = 1, target list = 0b11, interrupt number in bits 27 to 24.
    assert_eq!(
        decode_sgi1r(0x0000_0001_0300_0003),
        AxVCpuExitReason::SendIPI {
            target_cpu: 0x0001_0000,
            target_cpu_aux: 0x3,
            send_to_all: false,
            send_to_self: false,
            vector: 3,
        }
    );
    // The same target without an interrupt number in bits 27 to 24: interrupt 0.
    assert_eq!(
        decode_sgi1r(0x0000_0001_0000_0003),
        AxVCpuExitReason::SendIPI {
            target_cpu: 0x0001_0000,
            target_cpu_aux: 0x3,
            send_to_all: false,
            send_to_self: false,
            vector: 0,
        }
    );
    assert_eq!(
        decode_sgi1r(0x0000_0101_0000_0003),
        AxVCpuExitReason::SendIPI {
            target_cpu: 0x0001_0000,
            target_cpu_aux: 0x3,
            send_to_all: true,
            send_to_self: false,
            vector: 0,
        }
    );
    assert_eq!(
        decode_sgi1r(0x00AB_00CD_0FEF_8001),
        AxVCpuExitReason::SendIPI {
            target_cpu: 0xABCD_EF00,
            target_cpu_aux: 0x8001,
            send_to_all: false,
            send_to_self: false,
            vector: 15,
        }
    );
}

#[test]
fn sgi_to_all_but_self_scenario() {
    let mut ctx = frame_at(0x8000);
    ctx.set_gpr(1, (1 << 40) | (7 << 24));
    // msr ICC_SGI1R_EL1, x1
    let syn = Syndrome { esr: ESR_SYSREG | 0x3A_3016 | (1 << 5), far: 0, hpfar: 0 };
    let exit = handle_exception_sync(&mut ctx, &syn);
    assert_eq!(
        exit,
        Ok(AxVCpuExitReason::SendIPI {
            target_cpu: 0,
            target_cpu_aux: 0,
            send_to_all: true,
            send_to_self: false,
            vector: 7,
        })
    );
    assert_eq!(ctx.exception_pc(), 0x8004);
}

#[test]
fn sgi1r_read_is_zero() {
    let mut ctx = frame_at(0x8000);
    ctx.set_gpr(4, 0x5555);
    // mrs x4, ICC_SGI1R_EL1
    let syn = Syndrome { esr: ESR_SYSREG | 0x3A_3016 | (4 << 5) | 1, far: 0, hpfar: 0 };
    assert_eq!(handle_system_register(&mut ctx, &syn), Ok(AxVCpuExitReason::Nothing));
    assert_eq!(ctx.gpr(4), 0);
    assert_eq!(ctx.exception_pc(), 0x8004);
}

#[test]
fn other_system_registers_are_surfaced() {
    // msr CNTP_TVAL_EL0, x9 (a 16-bit length bit, to see the step of two)
    let mut ctx = frame_at(0x8000);
    ctx.set_gpr(9, 0x777);
    let syn = Syndrome { esr: (0x18 << 26) | 0x30_f804 | (9 << 5), far: 0, hpfar: 0 };
    assert_eq!(
        handle_system_register(&mut ctx, &syn),
        Ok(AxVCpuExitReason::SysRegWrite { addr: 0x30_f804, value: 0x777 })
    );
    assert_eq!(ctx.exception_pc(), 0x8002);
    // mrs x10, CNTPCT_EL0
    let mut ctx = frame_at(0x8000);
    let syn = Syndrome { esr: ESR_SYSREG | 0x32_f800 | (10 << 5) | 1, far: 0, hpfar: 0 };
    assert_eq!(
        handle_exception_sync(&mut ctx, &syn),
        Ok(AxVCpuExitReason::SysRegRead { addr: 0x32_f800, reg: 10 })
    );
    assert_eq!(ctx.exception_pc(), 0x8004);
    assert_eq!(ctx.gpr(10), 0);
}

#[test]
fn irq_is_an_external_interrupt() {
    let mut ctx = frame_at(0x8000);
    let before = ctx;
    assert_eq!(handle_exception_irq(&mut ctx), Ok(AxVCpuExitReason::ExternalInterrupt));
    assert_eq!(ctx, before);
}

#[test]
fn trap_kind_numbers() {
    assert_eq!(TrapKind::try_from_u8(0), Some(TrapKind::Synchronous));
    assert_eq!(TrapKind::try_from_u8(1), Some(TrapKind::Irq));
    assert_eq!(TrapKind::try_from_u8(2), Some(TrapKind::Fiq));
    assert_eq!(TrapKind::try_from_u8(3), Some(TrapKind::SError));
    assert_eq!(TrapKind::try_from_u8(4), None);
    assert_eq!(TrapKind::try_from_u8(255), None);
    assert_eq!(TrapKind::Synchronous.number() as usize, EXCEPTION_SYNC);
    assert_eq!(TrapKind::Irq.number() as usize, EXCEPTION_IRQ);
    assert_eq!(TrapKind::SError.number(), 3);
}

#[test]
fn only_two_vectors_are_handled() {
    let kinds = [TrapKind::Synchronous, TrapKind::Irq, TrapKind::Fiq, TrapKind::SError];
    let sources = [
        TrapSource::CurrentSpEl0,
        TrapSource::CurrentSpElx,
        TrapSource::LowerAArch64,
        TrapSource::LowerAArch32,
    ];
    for kind in kinds {
        for source in sources {
            let expected = source == TrapSource::LowerAArch64
                && (kind == TrapKind::Synchronous || kind == TrapKind::Irq);
            assert_eq!(vector_is_handled(kind, source), expected);
        }
    }
}

#[test]
fn exit_route_follows_the_flag() {
    assert_eq!(vmexit_route(true), ExitRoute::ReturnToHost);
    assert_eq!(vmexit_route(false), ExitRoute::DispatchIrq);
}

#[test]
fn vector_table_offsets() {
    assert_eq!(VECTOR_ENTRY_SIZE, 128);
    assert_eq!(VECTOR_ENTRIES, 16);
    assert_eq!(vector_offset(TrapKind::Synchronous, TrapSource::CurrentSpEl0), 0x000);
    assert_eq!(vector_offset(TrapKind::Irq, TrapSource::CurrentSpElx), 0x280);
    assert_eq!(vector_offset(TrapKind::Synchronous, TrapSource::LowerAArch64), 0x400);
    assert_eq!(vector_offset(TrapKind::Irq, TrapSource::LowerAArch64), 0x480);
    assert_eq!(vector_offset(TrapKind::Fiq, TrapSource::LowerAArch64), 0x500);
    assert_eq!(vector_offset(TrapKind::SError, TrapSource::LowerAArch32), 0x780);
    for n in 0..4u8 {
        assert_eq!(TrapSource::try_from_u8(n).unwrap().number(), n);
    }
    assert_eq!(TrapSource::try_from_u8(4), None);
}
