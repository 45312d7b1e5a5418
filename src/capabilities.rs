use vstd::prelude::*;

verus! {

/// A virtio vendor-specific PCI capability: where one configuration structure
/// of the device lies.
#[derive(Debug, Clone, Copy)]
pub struct PciCapability {
    /// Generic PCI field: the vendor-specific capability id.
    pub cap_vndr: u8,
    /// Generic PCI field: next pointer.
    pub cap_next: u8,
    /// Generic PCI field: capability length.
    pub cap_len: u8,
    /// Which structure this is.
    pub cfg_type: CfgType,
    /// The base address register where it lies.
    pub bar: u8,
    /// Tells apart several capabilities of the same type.
    pub id: u8,
    /// Pads to a full dword.
    pub padding: [u8; 2],
    /// Offset within the bar, little-endian.
    pub offset: u32,
    /// Length of the structure in bytes, little-endian.
    pub length: u32,
}

/// The kind of configuration structure a capability points at.
#[derive(PartialEq, Eq, Structural, Debug, Clone, Copy)]
pub enum CfgType {
    /// Common configuration.
    VirtioPciCapCommonCfg,
    /// Notifications.
    VirtioPciCapNotifyCfg,
    /// ISR status.
    VirtioPciCapIsrCfg,
    /// Device-specific configuration.
    VirtioPciCapDeviceCfg,
    /// PCI configuration access.
    VirtioPciCapPciCfg,
    /// Shared memory region.
    VirtioPciCapSharedMemoryCfg,
    /// Vendor-specific data.
    VirtioPciCapVendorCfg,
}

/// The `cfg_type` byte that stands for each kind.
pub open spec fn cfg_type_code(t: CfgType) -> u8 {
    match t {
        CfgType::VirtioPciCapCommonCfg => 1,
        CfgType::VirtioPciCapNotifyCfg => 2,
        CfgType::VirtioPciCapIsrCfg => 3,
        CfgType::VirtioPciCapDeviceCfg => 4,
        CfgType::VirtioPciCapPciCfg => 5,
        CfgType::VirtioPciCapSharedMemoryCfg => 8,
        CfgType::VirtioPciCapVendorCfg => 9,
    }
}

impl CfgType {
    /// The `cfg_type` byte of this kind.
    pub fn code(&self) -> (r: u8)
        ensures
            r == cfg_type_code(*self),
    {
        match self {
            CfgType::VirtioPciCapCommonCfg => 1,
            CfgType::VirtioPciCapNotifyCfg => 2,
            CfgType::VirtioPciCapIsrCfg => 3,
            CfgType::VirtioPciCapDeviceCfg => 4,
            CfgType::VirtioPciCapPciCfg => 5,
            CfgType::VirtioPciCapSharedMemoryCfg => 8,
            CfgType::VirtioPciCapVendorCfg => 9,
        }
    }

    /// The kind that a `cfg_type` byte stands for, if any.
    pub fn from_code(b: u8) -> (r: Option<CfgType>)
        ensures
            r matches Some(t) ==> cfg_type_code(t) == b,
            r is None ==> (forall|t: CfgType| cfg_type_code(t) != b),
    {
        match b {
            1 => Some(CfgType::VirtioPciCapCommonCfg),
            2 => Some(CfgType::VirtioPciCapNotifyCfg),
            3 => Some(CfgType::VirtioPciCapIsrCfg),
            4 => Some(CfgType::VirtioPciCapDeviceCfg),
            5 => Some(CfgType::VirtioPciCapPciCfg),
            8 => Some(CfgType::VirtioPciCapSharedMemoryCfg),
            9 => Some(CfgType::VirtioPciCapVendorCfg),
            _ => None,
        }
    }
}

/// The common configuration structure of a virtio PCI device. All values are
/// little-endian.
#[derive(Debug)]
pub struct CommonCfg {
    /// Selects which feature bits `device_feature` shows: 0 selects bits 0 to
    /// 31, 1 selects bits 32 to 63, and so on. Read-write.
    pub device_feature_select: u32,
    /// The feature bits the device offers, as selected. Read-only for the driver.
    pub device_feature: u32,
    /// Selects which feature bits `driver_feature` shows. Read-write.
    pub driver_feature_select: u32,
    /// The feature bits the driver accepts, as selected. Read-write.
    pub driver_feature: u32,
    /// The configuration vector for MSI-X. Read-write.
    pub config_msix_vector: u32,
    /// The largest number of virtqueues the device supports. Read-only for the
    /// driver.
    pub num_queues: u32,
    /// The device status bits; writing 0 resets the device. Read-write.
    pub device_status: u8,
    /// Changes every time the configuration noticeably changes. Read-only for
    /// the driver.
    pub config_generation: u8,
    /// Selects which virtqueue the following fields refer to. Read-write.
    pub queue_select: u16,
    /// The queue size; 0 means the queue is unavailable. Read-write.
    pub queue_size: u16,
    /// The queue vector for MSI-X. Read-write.
    pub queue_msix_vector: u16,
    /// 1 enables the queue, 0 disables it. Read-write.
    pub queue_enable: u16,
    /// Locates the queue's notification offset. Read-only for the driver.
    pub queue_notify_off: u16,
    /// Physical address of the descriptor area. Read-write.
    pub queue_desc: u16,
    /// Physical address of the driver area. Read-write.
    pub queue_driver: u16,
    /// Physical address of the device area. Read-write.
    pub queue_device: u16,
    /// The value the driver puts in available-buffer notifications. Read-only
    /// for the driver.
    pub queue_notify_data: u16,
    /// Resets the queue selectively. Read-write.
    pub queue_reset: u16,
}

} // verus!
