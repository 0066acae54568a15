use aarch64_sysreg::SystemRegType;
use arm_vcpu::gic::{get_gic_devices, GicDevice, GicDeviceConfig, GicDistributorConfig, GicSpiAssignment};
use arm_vcpu::registers::{
    default_registers, emu_register_add, emu_register_handle_read, emu_register_handle_write,
};
use arm_vcpu::sysreg::cntp_ctl_el0::SysCntpCtlEl0;
use arm_vcpu::sysreg::cntp_tval_el0::SysCntpTvalEl0;
use arm_vcpu::sysreg::cntpct_el0::SysCntpctEl0;
use arm_vcpu::sysreg::SysRegAddrRange;
use arm_vcpu::system_registers::{
    gich_hcr_enabled, timer_list_register, Aarch64EmuRegs, EmuReadHandler, EmuRegEntry,
    EmuRegType, EmuWriteHandler, TimerRegister, TIMER_IRQ,
};

#[test]
fn timer_register_addresses() {
    assert_eq!(TimerRegister::Cntpct.addr(), 0x32_f800);
    assert_eq!(TimerRegister::CntpTval.addr(), 0x30_f804);
    assert_eq!(TimerRegister::CntpCtl.addr(), 0x32_f804);
    assert_eq!(TimerRegister::CntpCval.addr(), 0x34_f804);
}

#[test]
fn timer_devices_answer_their_register() {
    assert_eq!(
        SysCntpCtlEl0::new().address_range(),
        SysRegAddrRange { start: 0x32_f804, end: 0x32_f804 }
    );
    assert_eq!(
        SysCntpTvalEl0::new().address_range(),
        SysRegAddrRange { start: 0x30_f804, end: 0x30_f804 }
    );
    assert_eq!(
        SysCntpctEl0::new().address_range(),
        SysRegAddrRange { start: 0x32_f800, end: 0x32_f800 }
    );
    assert_eq!(SysCntpctEl0::new().handle_read(0x1234), 0x1234);
}

#[test]
fn timer_deadline() {
    let timer = SysCntpTvalEl0::new();
    assert_eq!(timer.handle_write(1_000, 500), Some(1_500));
    assert_eq!(timer.handle_write(u64::MAX - 1, 1), Some(u64::MAX));
    assert_eq!(timer.handle_write(u64::MAX, 1), None);
}

#[test]
fn emulated_registers_from_the_start() {
    let regs = Aarch64EmuRegs::new();
    assert_eq!(regs.emu_regs.len(), 3);
    assert_eq!(regs.emu_register_handle_write(0x30_f804, 5), Some(EmuWriteHandler::ArmTimer));
    assert_eq!(regs.emu_register_handle_read(0x30_f804, 1), Some(EmuReadHandler::Accept));
    assert_eq!(regs.emu_register_handle_write(0x32_f804, 5), Some(EmuWriteHandler::Accept));
    assert_eq!(regs.emu_register_handle_read(0x32_f800, 1), Some(EmuReadHandler::ReadCounter));
    assert_eq!(regs.emu_register_handle_write(0x34_f804, 5), None);
    assert_eq!(regs.emu_register_handle_read(0x34_f804, 1), None);
    assert_eq!(regs.find(0x32_f800), Some(2));
    assert_eq!(regs.find(0), None);
    assert!(EmuWriteHandler::ArmTimer.handled());
    assert!(!EmuWriteHandler::Ignore.handled());
    assert!(EmuReadHandler::ReadCounter.handled());
    assert!(!EmuReadHandler::Ignore.handled());
}

#[test]
fn adding_a_register_twice_keeps_the_first() {
    let mut regs = default_registers();
    assert_eq!(regs.emu_regs.len(), 4);
    assert_eq!(regs.emu_regs[0].addr, 0x32_f800);
    assert_eq!(regs.emu_regs[3].addr, 0x34_f804);
    assert!(emu_register_add(&mut regs, 0x3A_3016, EmuWriteHandler::Accept, EmuReadHandler::Accept));
    assert_eq!(regs.emu_regs.len(), 5);
    assert_eq!(
        regs.emu_regs[4],
        EmuRegEntry {
            emu_type: EmuRegType::SysReg,
            addr: 0x3A_3016,
            handle_write: EmuWriteHandler::Accept,
            handle_read: EmuReadHandler::Accept,
        }
    );
    assert!(!emu_register_add(&mut regs, 0x3A_3016, EmuWriteHandler::Ignore, EmuReadHandler::Ignore));
    assert!(!emu_register_add(&mut regs, 0x32_f800, EmuWriteHandler::Accept, EmuReadHandler::Accept));
    assert_eq!(regs.emu_regs.len(), 5);
    assert_eq!(emu_register_handle_write(&regs, 0x3A_3016, 0, 1), EmuWriteHandler::Accept);
    assert_eq!(emu_register_handle_read(&regs, 0x32_f800, 0), EmuReadHandler::ReadCounter);
    assert_eq!(emu_register_handle_write(&regs, 0x30_f804, 0, 1), EmuWriteHandler::WriteTimerValue);
    assert_eq!(emu_register_handle_write(&regs, 0x32_f804, 0, 1), EmuWriteHandler::EnableIrqs);
    assert_eq!(emu_register_handle_read(&regs, 0x34_f804, 0), EmuReadHandler::Ignore);
}

#[test]
fn gic_devices_in_order() {
    let spis = vec![
        GicSpiAssignment { spi: 40, target_cpu_phys_id: 0, target_cpu_affinity: (0, 0, 0, 0) },
        GicSpiAssignment { spi: 41, target_cpu_phys_id: 1, target_cpu_affinity: (0, 0, 0, 1) },
    ];
    let config = GicDeviceConfig {
        gicd_base: 0x0800_0000,
        gicrs: vec![
            GicDistributorConfig { gicr_base: 0x080a_0000, cpu_id: 0 },
            GicDistributorConfig { gicr_base: 0x080c_0000, cpu_id: 1 },
            GicDistributorConfig { gicr_base: 0x080e_0000, cpu_id: 2 },
        ],
        assigned_spis: spis.clone(),
        gits_base: 0x0808_0000,
        gits_phys_base: 0x0808_0000,
        is_root_vm: true,
    };
    let devices = get_gic_devices(config);
    assert_eq!(devices.len(), 5);
    match &devices[0] {
        GicDevice::Distributor { base, assigned_spis } => {
            assert_eq!(*base, 0x0800_0000);
            assert_eq!(*assigned_spis, spis);
        }
        other => panic!("not a distributor: {:?}", other),
    }
    for (i, base) in [0x080a_0000u64, 0x080c_0000, 0x080e_0000].into_iter().enumerate() {
        assert!(matches!(
            devices[i + 1],
            GicDevice::Redistributor { base: b, cpu_id } if b == base && cpu_id == i
        ));
    }
    assert!(matches!(
        devices[4],
        GicDevice::Its { base: 0x0808_0000, phys_base: 0x0808_0000, is_root_vm: true }
    ));
}

#[test]
fn gic_devices_without_redistributors() {
    let config = GicDeviceConfig {
        gicd_base: 1,
        gicrs: vec![],
        assigned_spis: vec![],
        gits_base: 2,
        gits_phys_base: 3,
        is_root_vm: false,
    };
    let devices = get_gic_devices(config);
    assert_eq!(devices.len(), 2);
    assert!(matches!(&devices[0], GicDevice::Distributor { base: 1, assigned_spis } if assigned_spis.is_empty()));
    assert!(matches!(devices[1], GicDevice::Its { base: 2, phys_base: 3, is_root_vm: false }));
}

#[test]
fn register_addresses_agree_with_the_register_list() {
    assert_eq!(TimerRegister::Cntpct.addr(), SystemRegType::CNTPCT_EL0 as usize);
    assert_eq!(TimerRegister::CntpTval.addr(), SystemRegType::CNTP_TVAL_EL0 as usize);
    assert_eq!(TimerRegister::CntpCtl.addr(), SystemRegType::CNTP_CTL_EL0 as usize);
    assert_eq!(TimerRegister::CntpCval.addr(), SystemRegType::CNTP_CVAL_EL0 as usize);
    assert_eq!(
        arm_vcpu::exception_utils::ICC_SGI1R_EL1,
        SystemRegType::ICC_SGI1R_EL1 as usize
    );
}

#[test]
fn timer_interrupt_list_register() {
    assert_eq!(TIMER_IRQ, 30);
    assert_eq!(timer_list_register(), 30 | (1 << 19) | (1 << 28));
    assert_eq!(gich_hcr_enabled(0), 1);
    assert_eq!(gich_hcr_enabled(0xf0), 0xf1);
    assert_eq!(gich_hcr_enabled(0xffff_ffff), 0xffff_ffff);
}
