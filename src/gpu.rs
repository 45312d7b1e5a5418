use vstd::prelude::*;

verus! {

/// The command and response types of the virtio GPU control queue.
#[derive(PartialEq, Eq, Structural, Debug, Clone, Copy)]
pub enum VirtioGpuCtrlType {
    Undefined,
    // 2D commands
    GetDisplayInfo,
    ResourceCreate2d,
    ResourceUnref,
    SetScanout,
    ResourceFlush,
    TransferToHost2d,
    ResourceAttachBacking,
    ResourceDetachBacking,
    GetCapsetInfo,
    GetCapset,
    GetEdid,
    ResourceAssignUuid,
    ResourceCreateBlob,
    SetScanoutBlob,

    // 3D commands
    CtxCreate,
    CtxDestroy,
    CtxAttachResource,
    CtxDetachResource,
    ResourceCreate3d,
    TransferToHost3d,
    TransferFromHost3d,
    Submit3d,
    ResourceMapBlob,
    ResourceUnmapBlob,

    // cursor commands
    UpdateCursor,
    MoveCursor,

    // success responses
    RespOkNodata,
    RespOkDisplayInfo,
    RespOkCapsetInfo,
    RespOkCapset,
    RespOkEdid,
    RespOkResourceUuid,
    RespOkMapInfo,

    // error responses
    RespErrUnspec,
    RespErrOutOfMemory,
    RespErrInvalidScanoutId,
    RespErrInvalidResourceId,
    RespErrInvalidContextId,
    RespErrInvalidParameter,
}

/// The wire value of a control type.
pub open spec fn ctrl_type_code(t: VirtioGpuCtrlType) -> u32 {
    match t {
        VirtioGpuCtrlType::Undefined => 0x0000,
        VirtioGpuCtrlType::GetDisplayInfo => 0x0100,
        VirtioGpuCtrlType::ResourceCreate2d => 0x0101,
        VirtioGpuCtrlType::ResourceUnref => 0x0102,
        VirtioGpuCtrlType::SetScanout => 0x0103,
        VirtioGpuCtrlType::ResourceFlush => 0x0104,
        VirtioGpuCtrlType::TransferToHost2d => 0x0105,
        VirtioGpuCtrlType::ResourceAttachBacking => 0x0106,
        VirtioGpuCtrlType::ResourceDetachBacking => 0x0107,
        VirtioGpuCtrlType::GetCapsetInfo => 0x0108,
        VirtioGpuCtrlType::GetCapset => 0x0109,
        VirtioGpuCtrlType::GetEdid => 0x010a,
        VirtioGpuCtrlType::ResourceAssignUuid => 0x010b,
        VirtioGpuCtrlType::ResourceCreateBlob => 0x010c,
        VirtioGpuCtrlType::SetScanoutBlob => 0x010d,
        VirtioGpuCtrlType::CtxCreate => 0x0200,
        VirtioGpuCtrlType::CtxDestroy => 0x0201,
        VirtioGpuCtrlType::CtxAttachResource => 0x0202,
        VirtioGpuCtrlType::CtxDetachResource => 0x0203,
        VirtioGpuCtrlType::ResourceCreate3d => 0x0204,
        VirtioGpuCtrlType::TransferToHost3d => 0x0205,
        VirtioGpuCtrlType::TransferFromHost3d => 0x0206,
        VirtioGpuCtrlType::Submit3d => 0x0207,
        VirtioGpuCtrlType::ResourceMapBlob => 0x0208,
        VirtioGpuCtrlType::ResourceUnmapBlob => 0x0209,
        VirtioGpuCtrlType::UpdateCursor => 0x0300,
        VirtioGpuCtrlType::MoveCursor => 0x0301,
        VirtioGpuCtrlType::RespOkNodata => 0x1100,
        VirtioGpuCtrlType::RespOkDisplayInfo => 0x1101,
        VirtioGpuCtrlType::RespOkCapsetInfo => 0x1102,
        VirtioGpuCtrlType::RespOkCapset => 0x1103,
        VirtioGpuCtrlType::RespOkEdid => 0x1104,
        VirtioGpuCtrlType::RespOkResourceUuid => 0x1105,
        VirtioGpuCtrlType::RespOkMapInfo => 0x1106,
        VirtioGpuCtrlType::RespErrUnspec => 0x1200,
        VirtioGpuCtrlType::RespErrOutOfMemory => 0x1201,
        VirtioGpuCtrlType::RespErrInvalidScanoutId => 0x1202,
        VirtioGpuCtrlType::RespErrInvalidResourceId => 0x1203,
        VirtioGpuCtrlType::RespErrInvalidContextId => 0x1204,
        VirtioGpuCtrlType::RespErrInvalidParameter => 0x1205,
    }
}

impl VirtioGpuCtrlType {
    /// The value that stands for this type in a control header on the wire.
    pub fn code(&self) -> (r: u32)
        ensures
            r == ctrl_type_code(*self),
    {
        match self {
            VirtioGpuCtrlType::Undefined => 0x0000,
            VirtioGpuCtrlType::GetDisplayInfo => 0x0100,
            VirtioGpuCtrlType::ResourceCreate2d => 0x0101,
            VirtioGpuCtrlType::ResourceUnref => 0x0102,
            VirtioGpuCtrlType::SetScanout => 0x0103,
            VirtioGpuCtrlType::ResourceFlush => 0x0104,
            VirtioGpuCtrlType::TransferToHost2d => 0x0105,
            VirtioGpuCtrlType::ResourceAttachBacking => 0x0106,
            VirtioGpuCtrlType::ResourceDetachBacking => 0x0107,
            VirtioGpuCtrlType::GetCapsetInfo => 0x0108,
            VirtioGpuCtrlType::GetCapset => 0x0109,
            VirtioGpuCtrlType::GetEdid => 0x010a,
            VirtioGpuCtrlType::ResourceAssignUuid => 0x010b,
            VirtioGpuCtrlType::ResourceCreateBlob => 0x010c,
            VirtioGpuCtrlType::SetScanoutBlob => 0x010d,
            VirtioGpuCtrlType::CtxCreate => 0x0200,
            VirtioGpuCtrlType::CtxDestroy => 0x0201,
            VirtioGpuCtrlType::CtxAttachResource => 0x0202,
            VirtioGpuCtrlType::CtxDetachResource => 0x0203,
            VirtioGpuCtrlType::ResourceCreate3d => 0x0204,
            VirtioGpuCtrlType::TransferToHost3d => 0x0205,
            VirtioGpuCtrlType::TransferFromHost3d => 0x0206,
            VirtioGpuCtrlType::Submit3d => 0x0207,
            VirtioGpuCtrlType::ResourceMapBlob => 0x0208,
            VirtioGpuCtrlType::ResourceUnmapBlob => 0x0209,
            VirtioGpuCtrlType::UpdateCursor => 0x0300,
            VirtioGpuCtrlType::MoveCursor => 0x0301,
            VirtioGpuCtrlType::RespOkNodata => 0x1100,
            VirtioGpuCtrlType::RespOkDisplayInfo => 0x1101,
            VirtioGpuCtrlType::RespOkCapsetInfo => 0x1102,
            VirtioGpuCtrlType::RespOkCapset => 0x1103,
            VirtioGpuCtrlType::RespOkEdid => 0x1104,
            VirtioGpuCtrlType::RespOkResourceUuid => 0x1105,
            VirtioGpuCtrlType::RespOkMapInfo => 0x1106,
            VirtioGpuCtrlType::RespErrUnspec => 0x1200,
            VirtioGpuCtrlType::RespErrOutOfMemory => 0x1201,
            VirtioGpuCtrlType::RespErrInvalidScanoutId => 0x1202,
            VirtioGpuCtrlType::RespErrInvalidResourceId => 0x1203,
            VirtioGpuCtrlType::RespErrInvalidContextId => 0x1204,
            VirtioGpuCtrlType::RespErrInvalidParameter => 0x1205,
        }
    }
}

/// Request a fence for a command.
pub const VIRTIO_GPU_FLAG_FENCE: u32 = 1;
/// The `ring_idx` field of a header is valid.
pub const VIRTIO_GPU_FLAG_INFO_RING_IDX: u32 = 2;

/// The header that starts every request and response on the GPU control queue.
#[derive(PartialEq, Eq, Structural, Debug, Clone, Copy)]
pub struct VirtioGpuCtrlHdr {
    pub type_: VirtioGpuCtrlType,
    pub flags: u32,
    pub fence_id: u64,
    pub ctx_id: u32,
    pub ring_idx: u8,
    pub padding: u32,
}

impl VirtioGpuCtrlHdr {
    /// A header of the given type with every other field zero.
    pub fn with_type(type_: VirtioGpuCtrlType) -> (r: VirtioGpuCtrlHdr)
        ensures
            r.type_ == type_,
            r.flags == 0,
            r.fence_id == 0,
            r.ctx_id == 0,
            r.ring_idx == 0,
            r.padding == 0,
    {
        VirtioGpuCtrlHdr { type_, flags: 0, fence_id: 0, ctx_id: 0, ring_idx: 0, padding: 0 }
    }

    /// Whether the header is of the given type.
    pub fn check_type(&self, type_: VirtioGpuCtrlType) -> (r: bool)
        ensures
            r == (self.type_ == type_),
    {
        self.type_ == type_
    }
}

} // verus!
