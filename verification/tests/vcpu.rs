use arm_vcpu::arch::{AxArchPerCpuState, AxArchVCpu, AxArchVCpuConfig};
use arm_vcpu::context_frame::{
    Aarch64ContextFrame, GuestSystemRegisters, HOST_STACK_TOP_OFFSET, SLOT_ELR, SLOT_SPSR,
    SLOT_SP_EL0, TRAP_FRAME_SIZE, TRAP_FRAME_SLOTS,
};
use arm_vcpu::error::ErrorKind;
use arm_vcpu::exception::{ExitRoute, Syndrome, TrapKind};
use arm_vcpu::exit::{AccessWidth, AxVCpuExitReason};
use arm_vcpu::fields::{
    CNTHCTL_EL1_PHYSICAL, HCR_FMO, HCR_GUEST, HCR_IMO, HCR_RW, HCR_TSC, HCR_VIRTUAL_INTERRUPTS,
    HCR_VM, SPSR_GUEST_ENTRY, VTCR_COMMON,
};
use arm_vcpu::has_hardware_support;
use arm_vcpu::pcpu::{max_gpt_level, pa_bits, Aarch64PerCpu, El2Control};
use arm_vcpu::vcpu::{
    Aarch64VCpu, Aarch64VCpuCreateConfig, Aarch64VCpuSetupConfig, RunState, VmCpuRegisters, World,
};

fn vcpu_with(mmfr0: u64) -> Aarch64VCpu {
    Aarch64VCpu::new(Aarch64VCpuCreateConfig { mpidr_el1: 0x0000_0001, dtb_addr: 0x4000_0000 }, mmfr0)
        .unwrap()
}

#[test]
fn hardware_is_supported() {
    assert!(has_hardware_support());
}

#[test]
fn trap_frame_is_34_slots() {
    assert_eq!(TRAP_FRAME_SLOTS, 34);
    assert_eq!(TRAP_FRAME_SIZE, 34 * 8);
    assert_eq!(HOST_STACK_TOP_OFFSET, 34 * 8);
    assert_eq!(core::mem::size_of::<Aarch64ContextFrame>(), 34 * 8);
    assert_eq!((SLOT_SP_EL0, SLOT_ELR, SLOT_SPSR), (31, 32, 33));
}

#[test]
fn trap_frame_slots_follow_the_layout() {
    let mut ctx = Aarch64ContextFrame::new();
    for slot in 0..34usize {
        assert_eq!(ctx.slot(slot), 0);
        ctx.set_slot(slot, 100 + slot as u64);
    }
    for reg in 0..31usize {
        assert_eq!(ctx.gpr(reg), 100 + reg as u64);
        assert_eq!(ctx.gpr[reg], 100 + reg as u64);
    }
    assert_eq!(ctx.sp_el0, 131);
    assert_eq!(ctx.elr, 132);
    assert_eq!(ctx.spsr, 133);
    assert_eq!(ctx.exception_pc(), 132);
}

#[test]
fn zero_register_reads_zero_and_ignores_writes() {
    let mut ctx = Aarch64ContextFrame::default();
    assert_eq!(ctx, Aarch64ContextFrame::new());
    ctx.set_gpr(30, 7);
    let before = ctx;
    ctx.set_gpr(31, 9);
    assert_eq!(ctx, before);
    assert_eq!(ctx.gpr(31), 0);
    assert_eq!(ctx.gpr(30), 7);
    assert!(Aarch64ContextFrame::is_gpr_index(31));
    assert!(!Aarch64ContextFrame::is_gpr_index(32));
    ctx.set_argument(5);
    assert_eq!(ctx.gpr(0), 5);
}

#[test]
fn new_vcpu_is_zero_but_for_the_device_tree() {
    let vcpu = vcpu_with(0x2);
    let mut expected = Aarch64ContextFrame::new();
    expected.set_gpr(0, 0x4000_0000);
    assert_eq!(vcpu.ctx, expected);
    assert_eq!(vcpu.host_stack_top, 0);
    assert_eq!(vcpu.guest_system_regs, GuestSystemRegisters::new());
    assert_eq!(vcpu.guest_system_regs, GuestSystemRegisters::default());
    assert_eq!(vcpu.mpidr, 1);
    assert_eq!(vcpu.pa_bits, 40);
    assert_eq!(vcpu.pt_level, 3);
    let regs = VmCpuRegisters::default();
    assert_eq!(regs.trap_context_regs, Aarch64ContextFrame::new());
    assert_eq!(regs.vm_system_regs, GuestSystemRegisters::new());
}

#[test]
fn pa_bits_table() {
    let expected = [32usize, 36, 40, 42, 44, 48, 52, 32, 32, 32, 32, 32, 32, 32, 32, 32];
    for parange in 0..16u64 {
        assert_eq!(pa_bits(parange), expected[parange as usize]);
        assert_eq!(pa_bits(0xffff_ffff_ffff_fff0 | parange), expected[parange as usize]);
    }
    for bits in 0..64usize {
        assert_eq!(max_gpt_level(bits), if bits >= 44 { 4 } else { 3 });
    }
}

#[test]
fn setup_with_passthrough() {
    let mut vcpu = vcpu_with(0x2);
    vcpu.guest_system_regs.ttbr0_el1 = 0x1234;
    let done = vcpu.setup(Aarch64VCpuSetupConfig { passthrough_interrupt: true, passthrough_timer: true });
    assert_eq!(done, Ok(()));
    assert_eq!(vcpu.ctx.spsr, 0x3c5);
    assert_eq!(SPSR_GUEST_ENTRY, 0x3c5);
    let regs = vcpu.guest_system_regs;
    assert_eq!(regs.sctlr_el1, 0x30C5_0830);
    assert_eq!(regs.cntvoff_el2, 0);
    assert_eq!(regs.cntkctl_el1, 0);
    assert_eq!(regs.cnthctl_el2, 0x3);
    assert_eq!(CNTHCTL_EL1_PHYSICAL, 0x3);
    assert_eq!(regs.hcr_el2, 0x8008_0001);
    assert_eq!(regs.vmpidr_el2, 0x8000_0001);
    assert_eq!(regs.ttbr0_el1, 0x1234);
    assert_eq!(vcpu.ctx.gpr(0), 0x4000_0000);
}

#[test]
fn setup_without_passthrough() {
    let mut vcpu = vcpu_with(0x2);
    let done = vcpu.setup(Aarch64VCpuSetupConfig::default());
    assert_eq!(done, Ok(()));
    let regs = vcpu.guest_system_regs;
    assert_eq!(regs.cnthctl_el2, 0);
    assert_eq!(regs.hcr_el2, 0x8008_0019);
    assert_eq!(HCR_GUEST, HCR_VM | HCR_RW | HCR_TSC);
    assert_eq!(HCR_VIRTUAL_INTERRUPTS, HCR_IMO | HCR_FMO);
    assert_eq!(regs.hcr_el2, HCR_GUEST | HCR_VIRTUAL_INTERRUPTS);
}

#[test]
fn entry_and_page_table_root() {
    let mut vcpu = vcpu_with(0x5);
    assert_eq!(vcpu.set_entry(0x4008_0000), Ok(()));
    assert_eq!(vcpu.ctx.exception_pc(), 0x4008_0000);
    assert_eq!(vcpu.set_ept_root(0x8_1234_5000), Ok(()));
    assert_eq!(vcpu.guest_system_regs.vttbr_el2, 0x8_1234_5000);
    assert_eq!(vcpu.bind(), Ok(()));
    assert_eq!(vcpu.unbind(), Ok(()));
}

#[test]
fn stage2_registers_for_each_width() {
    // (PARange, PS, SL0, T0SZ)
    let rows = [
        (0u64, 0u64, 1u64, 25u64),
        (1, 1, 1, 25),
        (2, 2, 1, 25),
        (3, 3, 1, 25),
        (4, 4, 2, 16),
        (5, 5, 2, 16),
        (6, 6, 2, 16),
    ];
    assert_eq!(VTCR_COMMON, 0x3500);
    for (parange, ps, sl0, t0sz) in rows {
        let mut vcpu = vcpu_with(parange);
        vcpu.set_ept_root(0x8000_0000).unwrap();
        assert_eq!(vcpu.setup_current_cpu(0x12), Ok(()));
        assert_eq!(vcpu.guest_system_regs.vtcr_el2, 0x3500 | (ps << 16) | (sl0 << 6) | t0sz);
        assert_eq!(vcpu.guest_system_regs.vttbr_el2, 0x0012_0000_8000_0000);
    }
    let mut vcpu = vcpu_with(2);
    vcpu.setup_current_cpu(0).unwrap();
    assert_eq!(vcpu.guest_system_regs.vtcr_el2, 0x2_3559);
}

#[test]
fn vmid_is_cut_to_16_bits() {
    let mut vcpu = vcpu_with(2);
    vcpu.set_ept_root(0x4000).unwrap();
    vcpu.setup_current_cpu(0x1_ABCD).unwrap();
    assert_eq!(vcpu.guest_system_regs.vttbr_el2, 0xABCD_0000_0000_4000);
}

#[test]
fn guest_registers() {
    let mut vcpu = vcpu_with(2);
    vcpu.set_gpr(5, 55);
    assert_eq!(vcpu.get_gpr(5), 55);
    vcpu.set_gpr(31, 1);
    assert_eq!(vcpu.get_gpr(31), 0);
    assert!(vcpu.try_set_gpr(30, 3));
    assert_eq!(vcpu.get_gpr(30), 3);
    let before = vcpu.ctx;
    assert!(!vcpu.try_set_gpr(32, 3));
    assert!(vcpu.try_set_gpr(31, 3));
    assert_eq!(vcpu.ctx, before);
    vcpu.set_return_value(0xfeed);
    assert_eq!(vcpu.get_gpr(0), 0xfeed);
}

#[test]
fn store_then_restore_is_the_identity() {
    let mut cpu = GuestSystemRegisters::new();
    cpu.sctlr_el1 = 1;
    cpu.hcr_el2 = 2;
    cpu.vtcr_el2 = 3;
    cpu.vttbr_el2 = 4;
    cpu.vmpidr_el2 = 5;
    cpu.sp_el0 = 6;
    cpu.cntvoff_el2 = 7;
    cpu.cntkctl_el1 = 8;
    cpu.cnthctl_el2 = 9;
    cpu.pmcr_el0 = 10;
    cpu.tcr_el1 = 11;
    let before = cpu;
    let mut bank = GuestSystemRegisters::new();
    bank.sp_el0 = 99;
    bank.store(&cpu);
    assert_eq!(bank, before);
    let mut other = GuestSystemRegisters::new();
    other.hcr_el2 = 77;
    bank.restore(&mut other);
    assert_eq!(other, before);
    bank.restore(&mut cpu);
    assert_eq!(cpu, before);
}

#[test]
fn a_run_ends_in_an_exit() {
    let mut vcpu = vcpu_with(2);
    vcpu.setup(Aarch64VCpuSetupConfig::default()).unwrap();
    vcpu.set_entry(0x4008_0000).unwrap();
    let mut cpu = GuestSystemRegisters::new();
    vcpu.restore_vm_system_regs(&mut cpu);
    assert_eq!(cpu, vcpu.guest_system_regs);
    // The guest ran, changed its SP_EL0 and read a device register.
    cpu.sp_el0 = 0x7000;
    cpu.sctlr_el1 |= 1;
    let syn = Syndrome { esr: 0x9380_0004, far: 0x1000, hpfar: 0xFEC010 };
    assert!(Aarch64VCpu::vmexit_handled(TrapKind::Synchronous, &syn));
    let exit = vcpu.vmexit_handler(TrapKind::Synchronous, &syn, &cpu);
    assert_eq!(
        exit,
        Ok(AxVCpuExitReason::MmioRead {
            addr: 0xFEC0_1000,
            width: AccessWidth::Dword,
            reg: 0,
            reg_width: AccessWidth::Dword,
            signed_ext: false,
        })
    );
    assert_eq!(vcpu.guest_system_regs, cpu);
    assert_eq!(vcpu.ctx.sp_el0, 0x7000);
    assert_eq!(vcpu.ctx.exception_pc(), 0x4008_0004);
}

#[test]
fn an_irq_ends_a_run_without_touching_the_resume_address() {
    let mut vcpu = vcpu_with(2);
    vcpu.set_entry(0x4008_0000).unwrap();
    let mut cpu = GuestSystemRegisters::new();
    cpu.sp_el0 = 0x10;
    let syn = Syndrome { esr: 0, far: 0, hpfar: 0 };
    assert!(Aarch64VCpu::vmexit_handled(TrapKind::Irq, &syn));
    assert!(!Aarch64VCpu::vmexit_handled(TrapKind::Fiq, &syn));
    assert!(!Aarch64VCpu::vmexit_handled(TrapKind::SError, &syn));
    assert!(!Aarch64VCpu::vmexit_handled(TrapKind::Synchronous, &syn));
    let exit = vcpu.vmexit_handler(TrapKind::Irq, &syn, &cpu);
    assert_eq!(exit, Ok(AxVCpuExitReason::ExternalInterrupt));
    assert_eq!(vcpu.ctx.exception_pc(), 0x4008_0000);
    assert_eq!(vcpu.ctx.sp_el0, 0x10);
}

#[test]
fn enable_then_disable_round_trip() {
    let mut pcpu = Aarch64PerCpu::new(3);
    assert_eq!(pcpu.cpu_id, 3);
    let mut cpu = El2Control { vbar_el2: 0xffff_0000_4020_0800, hcr_el2: 0x0800_0030 };
    let before = cpu;
    assert!(!pcpu.is_enabled(&cpu));
    assert_eq!(pcpu.hardware_enable(&mut cpu, 0x4030_0000), Ok(()));
    assert!(pcpu.is_enabled(&cpu));
    assert_eq!(cpu.vbar_el2, 0x4030_0000);
    assert_eq!(cpu.hcr_el2, 0x0800_0030 | 0x8008_0001);
    assert_eq!(pcpu.ori_vbar, before.vbar_el2);
    assert_eq!(pcpu.hardware_disable(&mut cpu), Ok(()));
    assert!(!pcpu.is_enabled(&cpu));
    assert_eq!(cpu.vbar_el2, before.vbar_el2);
    assert_eq!(cpu.hcr_el2 & HCR_VM, before.hcr_el2 & HCR_VM);
    assert_eq!(cpu.hcr_el2, 0x8808_0030);
}

#[test]
fn enabling_twice_fails() {
    let mut pcpu = Aarch64PerCpu::new(0);
    let mut cpu = El2Control { vbar_el2: 0x1000, hcr_el2: 0 };
    assert_eq!(pcpu.hardware_enable(&mut cpu, 0x2000), Ok(()));
    let enabled = cpu;
    let remembered = pcpu;
    assert_eq!(pcpu.hardware_enable(&mut cpu, 0x3000), Err(ErrorKind::AlreadyEnabled));
    assert_eq!(cpu, enabled);
    assert_eq!(pcpu, remembered);
}

#[test]
fn disabling_what_is_not_enabled_fails() {
    let mut pcpu = Aarch64PerCpu::new(0);
    let mut cpu = El2Control { vbar_el2: 0x1000, hcr_el2: 0x8000_0000 };
    let before = cpu;
    assert_eq!(pcpu.hardware_disable(&mut cpu), Err(ErrorKind::NotEnabled));
    assert_eq!(cpu, before);
    assert_eq!(ErrorKind::NotEnabled.name(), "NotEnabled");
    assert_eq!(ErrorKind::AlreadyEnabled.name(), "AlreadyEnabled");
    assert_eq!(ErrorKind::InvalidInput.name(), "InvalidInput");
    assert_eq!(ErrorKind::Unsupported.name(), "Unsupported");
    assert_eq!(ErrorKind::IllFormed.name(), "IllFormed");
}

#[test]
fn page_table_levels_and_address_range() {
    let pcpu = Aarch64PerCpu::new(0);
    assert_eq!(pcpu.max_guest_page_table_levels(0x3), 3);
    assert_eq!(pcpu.max_guest_page_table_levels(0x4), 4);
    assert_eq!(pcpu.max_guest_page_table_levels(0x6), 4);
    assert_eq!(pcpu.max_guest_page_table_levels(0xf), 3);
    let expected = [32u32, 36, 40, 42, 44, 48, 52];
    for parange in 0..7u64 {
        assert_eq!(pcpu.pa_range(parange), 0..(1u64 << expected[parange as usize]));
    }
    assert_eq!(pcpu.pa_range(0x9), 0..(1u64 << 32));
}

#[test]
fn arch_per_cpu_state() {
    let mut state = AxArchPerCpuState::new(2);
    assert_eq!(state.pcpu.cpu_id, 2);
    let mut cpu = El2Control { vbar_el2: 0x1000, hcr_el2: 0 };
    assert!(!state.is_enabled(&cpu));
    assert_eq!(state.hardware_disable(&mut cpu), Err(ErrorKind::NotEnabled));
    assert_eq!(state.hardware_enable(&mut cpu, 0x2000), Ok(()));
    assert!(state.is_enabled(&cpu));
    assert_eq!(state.hardware_enable(&mut cpu, 0x2000), Err(ErrorKind::AlreadyEnabled));
    assert_eq!(state.hardware_disable(&mut cpu), Ok(()));
    assert_eq!(cpu.vbar_el2, 0x1000);
    assert!(!state.is_enabled(&cpu));
}

#[test]
fn arch_vcpu() {
    let config = AxArchVCpuConfig { mpidr_el1: 0x100, dtb_addr: 0x4400_0000, mmfr0: 0x5 };
    let mut vcpu = AxArchVCpu::new(config).unwrap();
    assert_eq!(vcpu.vcpu.mpidr, 0x100);
    assert_eq!(vcpu.vcpu.pa_bits, 48);
    assert_eq!(vcpu.vcpu.pt_level, 4);
    assert_eq!(vcpu.vcpu.get_gpr(0), 0x4400_0000);
    assert_eq!(vcpu.set_entry(0x4008_0000), Ok(()));
    assert_eq!(vcpu.vcpu.ctx.exception_pc(), 0x4008_0000);
    assert_eq!(vcpu.set_ept_root(0x9000), Ok(()));
    assert_eq!(vcpu.vcpu.guest_system_regs.vttbr_el2, 0x9000);
    assert_eq!(vcpu.bind(), Ok(()));
    assert_eq!(vcpu.unbind(), Ok(()));
}

#[test]
fn running_flag_is_set_exactly_in_the_guest() {
    let mut state = RunState::new();
    assert!(!state.vcpu_running());
    assert!(state.can_enter());
    // An interrupt while no guest runs goes to the host's handler.
    assert_eq!(state.take_exception(), ExitRoute::DispatchIrq);
    assert!(state.can_enter());
    state.set_vcpu_running();
    assert!(state.vcpu_running());
    assert_eq!(state.world, World::Guest);
    assert!(!state.can_enter());
    // An exit from the guest goes back into the host's call.
    assert_eq!(state.take_exception(), ExitRoute::ReturnToHost);
    assert_eq!(state.world, World::Host);
    assert!(!state.can_enter());
    state.clear_vcpu_running();
    assert!(!state.vcpu_running());
    assert!(state.can_enter());
}

#[test]
fn virtualization_support_follows_the_vmid_field() {
    assert_eq!(arm_vcpu::arch::has_hardware_support(0), Ok(false));
    assert_eq!(arm_vcpu::arch::has_hardware_support(0x100), Ok(true));
    assert_eq!(arm_vcpu::arch::has_hardware_support(0x200), Ok(true));
    assert_eq!(arm_vcpu::arch::has_hardware_support(0xffff_ffff_ffff_f0ff), Ok(false));
}
