//! The virtual interrupt controller's devices of a guest, as a list of what is to be built.

use vstd::prelude::*;

verus! {

/// The configuration of one virtual redistributor.
#[derive(Clone, Copy, Debug, PartialEq, Eq, Structural)]
pub struct GicDistributorConfig {
    /// The guest-physical base address of the redistributor.
    pub gicr_base: u64,
    /// The number of the CPU that the redistributor belongs to.
    pub cpu_id: usize,
}

/// A shared peripheral interrupt that is assigned to a CPU.
#[derive(Clone, Copy, Debug, PartialEq, Eq)]
pub struct GicSpiAssignment {
    /// The number of the interrupt.
    pub spi: u32,
    /// The physical number of the CPU that the interrupt goes to.
    pub target_cpu_phys_id: usize,
    /// The affinity of that CPU: (aff3, aff2, aff1, aff0).
    pub target_cpu_affinity: (u8, u8, u8, u8),
}

/// The configuration of a guest's virtual interrupt controller.
#[derive(Clone, Debug)]
pub struct GicDeviceConfig {
    /// The guest-physical base address of the distributor.
    pub gicd_base: u64,
    /// The redistributors, one for each CPU.
    pub gicrs: Vec<GicDistributorConfig>,
    /// The shared peripheral interrupts that are assigned to the guest.
    pub assigned_spis: Vec<GicSpiAssignment>,
    /// The guest-physical base address of the interrupt translation service.
    pub gits_base: u64,
    /// The host-physical base address of the interrupt translation service.
    pub gits_phys_base: u64,
    /// Whether the guest is the root guest.
    pub is_root_vm: bool,
}

/// One device of a guest's virtual interrupt controller, as it is to be built.
#[derive(Clone, Debug)]
pub enum GicDevice {
    /// The distributor, with the interrupts assigned to it in order.
    Distributor {
        /// The guest-physical base address.
        base: u64,
        /// The interrupts to assign, in the order of the configuration.
        assigned_spis: Vec<GicSpiAssignment>,
    },
    /// A redistributor.
    Redistributor {
        /// The guest-physical base address.
        base: u64,
        /// The number of the CPU that it belongs to.
        cpu_id: usize,
    },
    /// The interrupt translation service.
    Its {
        /// The guest-physical base address.
        base: u64,
        /// The host-physical base address.
        phys_base: u64,
        /// Whether the guest is the root guest.
        is_root_vm: bool,
    },
}

/// Whether `device` is the redistributor that `config` describes.
pub open spec fn is_redistributor_of(device: GicDevice, config: GicDistributorConfig) -> bool {
    device matches GicDevice::Redistributor { base, cpu_id } && base == config.gicr_base && cpu_id
        == config.cpu_id
}

/// Whether `devices` are the devices of the controller that `config` describes:
/// the distributor with the assigned interrupts, then the redistributors in
/// the order of the configuration, then the interrupt translation service.
pub open spec fn is_device_list_of(devices: Seq<GicDevice>, config: GicDeviceConfig) -> bool {
    &&& devices.len() == config.gicrs@.len() + 2
    &&& devices[0] matches GicDevice::Distributor { base, assigned_spis } && base
        == config.gicd_base && assigned_spis@ == config.assigned_spis@
    &&& forall|i: int|
        0 <= i < config.gicrs@.len() ==> is_redistributor_of(
            #[trigger] devices[i + 1],
            config.gicrs@[i],
        )
    &&& devices[devices.len() - 1] matches GicDevice::Its { base, phys_base, is_root_vm } && base
        == config.gits_base && phys_base == config.gits_phys_base && is_root_vm
        == config.is_root_vm
}

/// Lists the devices of a guest's virtual interrupt controller.
pub fn get_gic_devices(config: GicDeviceConfig) -> (devices: Vec<GicDevice>)
    ensures
        is_device_list_of(devices@, config),
{
    let GicDeviceConfig { gicd_base, gicrs, assigned_spis, gits_base, gits_phys_base, is_root_vm } =
        config;
    let mut results: Vec<GicDevice> = Vec::new();
    results.push(GicDevice::Distributor { base: gicd_base, assigned_spis });
    let mut i: usize = 0;
    while i < gicrs.len()
        invariant
            0 <= i <= gicrs@.len(),
            gicrs@ == config.gicrs@,
            results@.len() == i + 1,
            results@[0] == (GicDevice::Distributor {
                base: config.gicd_base,
                assigned_spis: config.assigned_spis,
            }),
            forall|j: int| 0 <= j < i ==> is_redistributor_of(#[trigger] results@[j + 1], gicrs@[j]),
        decreases gicrs@.len() - i,
    {
        let gicr: GicDistributorConfig = gicrs[i];
        results.push(GicDevice::Redistributor { base: gicr.gicr_base, cpu_id: gicr.cpu_id });
        i = i + 1;
    }
    results.push(GicDevice::Its { base: gits_base, phys_base: gits_phys_base, is_root_vm });
    results
}

} // verus!
