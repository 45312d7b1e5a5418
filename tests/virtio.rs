use kernel_sched::capabilities::{CfgType, PciCapability};
use kernel_sched::gpu::{VirtioGpuCtrlHdr, VirtioGpuCtrlType};

#[test]
fn header_with_type_zeroes_other_fields() {
    let h = VirtioGpuCtrlHdr::with_type(VirtioGpuCtrlType::GetDisplayInfo);
    assert_eq!(h.type_, VirtioGpuCtrlType::GetDisplayInfo);
    assert_eq!(h.flags, 0);
    assert_eq!(h.fence_id, 0);
    assert_eq!(h.ctx_id, 0);
    assert_eq!(h.ring_idx, 0);
    assert_eq!(h.padding, 0);
}

#[test]
fn header_check_type() {
    let h = VirtioGpuCtrlHdr::with_type(VirtioGpuCtrlType::RespOkNodata);
    assert!(h.check_type(VirtioGpuCtrlType::RespOkNodata));
    assert!(!h.check_type(VirtioGpuCtrlType::RespErrUnspec));
}

#[test]
fn ctrl_type_codes() {
    assert_eq!(VirtioGpuCtrlType::Undefined.code(), 0);
    assert_eq!(VirtioGpuCtrlType::GetDisplayInfo.code(), 0x0100);
    assert_eq!(VirtioGpuCtrlType::SetScanoutBlob.code(), 0x010d);
    assert_eq!(VirtioGpuCtrlType::CtxCreate.code(), 0x0200);
    assert_eq!(VirtioGpuCtrlType::MoveCursor.code(), 0x0301);
    assert_eq!(VirtioGpuCtrlType::RespOkMapInfo.code(), 0x1106);
    assert_eq!(VirtioGpuCtrlType::RespErrInvalidParameter.code(), 0x1205);
}

#[test]
fn cfg_type_codes_round_trip() {
    for b in 0u8..=255 {
        match CfgType::from_code(b) {
            Some(t) => assert_eq!(t.code(), b),
            None => assert!(![1u8, 2, 3, 4, 5, 8, 9].contains(&b)),
        }
    }
    assert_eq!(CfgType::from_code(8), Some(CfgType::VirtioPciCapSharedMemoryCfg));
    assert_eq!(CfgType::from_code(6), None);
}

#[test]
fn pci_capability_holds_fields() {
    let cap = PciCapability {
        cap_vndr: 0x09,
        cap_next: 0x40,
        cap_len: 16,
        cfg_type: CfgType::VirtioPciCapCommonCfg,
        bar: 4,
        id: 0,
        padding: [0, 0],
        offset: 0x1000,
        length: 0x38,
    };
    let copy = cap;
    assert_eq!(copy.cfg_type.code(), 1);
    assert_eq!(copy.offset, 0x1000);
}
