//! Data layouts and constants of the GSP firmware interface.

#![allow(non_camel_case_types, non_snake_case)]

use vstd::prelude::*;
use vstd::std_specs::cmp::PartialEqSpecImpl;

verus! {

/// The trailing array of a structure whose length is only known at run time. It takes no space of
/// its own.
pub struct __IncompleteArrayField<T>(core::marker::PhantomData<T>, [T; 0]);

impl<T> __IncompleteArrayField<T> {
    /// The elements that lie inside the field itself.
    pub closed spec fn elements(&self) -> Seq<T> {
        self.1@
    }

    /// Returns the field, which holds no element of its own.
    pub fn new() -> (field: Self)
        ensures
            field.elements() == Seq::<T>::empty(),
    {
        let field = __IncompleteArrayField(core::marker::PhantomData, []);
        assert(field.elements() =~= Seq::<T>::empty());
        field
    }

    /// Returns how the field is shown: by the name of its type alone.
    pub fn debug_name(&self) -> (name: &'static str)
        ensures
            name@ == "__IncompleteArrayField"@,
    {
        "__IncompleteArrayField"
    }
}

impl<T> Default for __IncompleteArrayField<T> {
    /// Returns the field, which holds no element of its own.
    fn default() -> (field: Self)
        ensures
            field.elements() == Seq::<T>::empty(),
    {
        Self::new()
    }
}

/// One arm of a union. It takes no space of its own, so any two of them are equal.
pub struct __BindgenUnionField<T>(core::marker::PhantomData<T>);

impl<T> __BindgenUnionField<T> {
    /// The one value of this type.
    pub closed spec fn unit() -> Self {
        __BindgenUnionField(core::marker::PhantomData)
    }

    /// Returns the one value of this type.
    pub fn new() -> (field: Self)
        ensures
            field == Self::unit(),
    {
        __BindgenUnionField(core::marker::PhantomData)
    }

    /// Returns how the field is shown: by the name of its type alone.
    pub fn debug_name(&self) -> (name: &'static str)
        ensures
            name@ == "__BindgenUnionField"@,
    {
        "__BindgenUnionField"
    }
}

impl<T> core::hash::Hash for __BindgenUnionField<T> {
    /// Adds nothing to the hash.
    fn hash<H: core::hash::Hasher>(&self, state: &mut H) {
    }
}

impl<T> Default for __BindgenUnionField<T> {
    /// Returns the one value of this type.
    fn default() -> (field: Self)
        ensures
            field == Self::unit(),
    {
        Self::new()
    }
}

impl<T> Clone for __BindgenUnionField<T> {
    fn clone(&self) -> (field: Self)
        ensures
            field == *self,
    {
        *self
    }
}

impl<T> Copy for __BindgenUnionField<T> {

}

impl<T> PartialEq for __BindgenUnionField<T> {
    fn eq(&self, other: &Self) -> (equal: bool) {
        true
    }
}

impl<T> PartialEqSpecImpl for __BindgenUnionField<T> {
    open spec fn obeys_eq_spec() -> bool {
        true
    }

    /// There is nothing in which two of them could differ.
    open spec fn eq_spec(&self, other: &Self) -> bool {
        true
    }
}

impl<T> Eq for __BindgenUnionField<T> {

}

/// Any two arms of a union are equal, so each of them is the one that `new` returns.
pub proof fn law_union_fields_equal<T>(a: __BindgenUnionField<T>, b: __BindgenUnionField<T>)
    ensures
        a == b,
        a == __BindgenUnionField::<T>::unit(),
{
}

/// SR-IOV capabilities of a GPU.
#[derive(Clone, Copy, Debug)]
pub struct NV0080_CTRL_GPU_GET_SRIOV_CAPS_PARAMS {
    pub totalVFs: u32,
    pub firstVfOffset: u32,
    pub vfFeatureMask: u32,
    pub __bindgen_padding_0: [u8; 4],
    pub FirstVFBar0Address: u64,
    pub FirstVFBar1Address: u64,
    pub FirstVFBar2Address: u64,
    pub bar0Size: u64,
    pub bar1Size: u64,
    pub bar2Size: u64,
    pub b64bitBar0: u8,
    pub b64bitBar1: u8,
    pub b64bitBar2: u8,
    pub bSriovEnabled: u8,
    pub bSriovHeavyEnabled: u8,
    pub bEmulateVFBar0TlbInvalidationRegister: u8,
    pub bClientRmAllocatedCtxBuffer: u8,
    pub bNonPowerOf2ChannelCountSupported: u8,
    pub bVfResizableBAR1Supported: u8,
    pub __bindgen_padding_1: [u8; 7],
}

impl NV0080_CTRL_GPU_GET_SRIOV_CAPS_PARAMS {
    /// Whether all of it is zero.
    pub open spec fn is_zeroed(self) -> bool {
        &&& self.totalVFs == 0
        &&& self.firstVfOffset == 0
        &&& self.vfFeatureMask == 0
        &&& forall|i: int| 0 <= i < 4 ==> self.__bindgen_padding_0[i] == 0
        &&& self.FirstVFBar0Address == 0
        &&& self.FirstVFBar1Address == 0
        &&& self.FirstVFBar2Address == 0
        &&& self.bar0Size == 0
        &&& self.bar1Size == 0
        &&& self.bar2Size == 0
        &&& self.b64bitBar0 == 0
        &&& self.b64bitBar1 == 0
        &&& self.b64bitBar2 == 0
        &&& self.bSriovEnabled == 0
        &&& self.bSriovHeavyEnabled == 0
        &&& self.bEmulateVFBar0TlbInvalidationRegister == 0
        &&& self.bClientRmAllocatedCtxBuffer == 0
        &&& self.bNonPowerOf2ChannelCountSupported == 0
        &&& self.bVfResizableBAR1Supported == 0
        &&& forall|i: int| 0 <= i < 7 ==> self.__bindgen_padding_1[i] == 0
    }
}

impl Default for NV0080_CTRL_GPU_GET_SRIOV_CAPS_PARAMS {
    fn default() -> (value: Self)
        ensures
            value.is_zeroed(),
    {
        NV0080_CTRL_GPU_GET_SRIOV_CAPS_PARAMS {
            totalVFs: 0,
            firstVfOffset: 0,
            vfFeatureMask: 0,
            __bindgen_padding_0: [0;4],
            FirstVFBar0Address: 0,
            FirstVFBar1Address: 0,
            FirstVFBar2Address: 0,
            bar0Size: 0,
            bar1Size: 0,
            bar2Size: 0,
            b64bitBar0: 0,
            b64bitBar1: 0,
            b64bitBar2: 0,
            bSriovEnabled: 0,
            bSriovHeavyEnabled: 0,
            bEmulateVFBar0TlbInvalidationRegister: 0,
            bClientRmAllocatedCtxBuffer: 0,
            bNonPowerOf2ChannelCountSupported: 0,
            bVfResizableBAR1Supported: 0,
            __bindgen_padding_1: [0;7],
        }
    }
}

/// SKU information of a board.
#[derive(Clone, Copy, Debug)]
pub struct NV2080_CTRL_BIOS_GET_SKU_INFO_PARAMS {
    pub BoardID: u32,
    pub chipSKU: [u8; 9],
    pub chipSKUMod: [u8; 5],
    pub __bindgen_padding_0: [u8; 2],
    pub skuConfigVersion: u32,
    pub project: [u8; 5],
    pub projectSKU: [u8; 5],
    pub CDP: [u8; 6],
    pub projectSKUMod: [u8; 2],
    pub __bindgen_padding_1: [u8; 2],
    pub businessCycle: u32,
}

impl NV2080_CTRL_BIOS_GET_SKU_INFO_PARAMS {
    /// Whether all of it is zero.
    pub open spec fn is_zeroed(self) -> bool {
        &&& self.BoardID == 0
        &&& forall|i: int| 0 <= i < 9 ==> self.chipSKU[i] == 0
        &&& forall|i: int| 0 <= i < 5 ==> self.chipSKUMod[i] == 0
        &&& forall|i: int| 0 <= i < 2 ==> self.__bindgen_padding_0[i] == 0
        &&& self.skuConfigVersion == 0
        &&& forall|i: int| 0 <= i < 5 ==> self.project[i] == 0
        &&& forall|i: int| 0 <= i < 5 ==> self.projectSKU[i] == 0
        &&& forall|i: int| 0 <= i < 6 ==> self.CDP[i] == 0
        &&& forall|i: int| 0 <= i < 2 ==> self.projectSKUMod[i] == 0
        &&& forall|i: int| 0 <= i < 2 ==> self.__bindgen_padding_1[i] == 0
        &&& self.businessCycle == 0
    }
}

impl Default for NV2080_CTRL_BIOS_GET_SKU_INFO_PARAMS {
    fn default() -> (value: Self)
        ensures
            value.is_zeroed(),
    {
        NV2080_CTRL_BIOS_GET_SKU_INFO_PARAMS {
            BoardID: 0,
            chipSKU: [0;9],
            chipSKUMod: [0;5],
            __bindgen_padding_0: [0;2],
            skuConfigVersion: 0,
            project: [0;5],
            projectSKU: [0;5],
            CDP: [0;6],
            projectSKUMod: [0;2],
            __bindgen_padding_1: [0;2],
            businessCycle: 0,
        }
    }
}

/// A region of the framebuffer.
#[derive(Clone, Copy, Debug)]
pub struct NV2080_CTRL_CMD_FB_GET_FB_REGION_FB_REGION_INFO {
    pub base: u64,
    pub limit: u64,
    pub reserved: u64,
    pub performance: u32,
    pub supportCompressed: u8,
    pub supportISO: u8,
    pub bProtected: u8,
    pub blackList: [u8; 18],
    pub __bindgen_padding_0: [u8; 3],
    pub regionTag: u32,
}

impl NV2080_CTRL_CMD_FB_GET_FB_REGION_FB_REGION_INFO {
    /// Whether all of it is zero.
    pub open spec fn is_zeroed(self) -> bool {
        &&& self.base == 0
        &&& self.limit == 0
        &&& self.reserved == 0
        &&& self.performance == 0
        &&& self.supportCompressed == 0
        &&& self.supportISO == 0
        &&& self.bProtected == 0
        &&& forall|i: int| 0 <= i < 18 ==> self.blackList[i] == 0
        &&& forall|i: int| 0 <= i < 3 ==> self.__bindgen_padding_0[i] == 0
        &&& self.regionTag == 0
    }
}

impl Default for NV2080_CTRL_CMD_FB_GET_FB_REGION_FB_REGION_INFO {
    fn default() -> (value: Self)
        ensures
            value.is_zeroed(),
    {
        NV2080_CTRL_CMD_FB_GET_FB_REGION_FB_REGION_INFO {
            base: 0,
            limit: 0,
            reserved: 0,
            performance: 0,
            supportCompressed: 0,
            supportISO: 0,
            bProtected: 0,
            blackList: [0;18],
            __bindgen_padding_0: [0;3],
            regionTag: 0,
        }
    }
}

/// The regions of the framebuffer.
#[derive(Clone, Copy, Debug)]
pub struct NV2080_CTRL_CMD_FB_GET_FB_REGION_INFO_PARAMS {
    pub numFBRegions: u32,
    pub __bindgen_padding_0: [u8; 4],
    pub fbRegion: [NV2080_CTRL_CMD_FB_GET_FB_REGION_FB_REGION_INFO; 16],
}

impl NV2080_CTRL_CMD_FB_GET_FB_REGION_INFO_PARAMS {
    /// Whether all of it is zero.
    pub open spec fn is_zeroed(self) -> bool {
        &&& self.numFBRegions == 0
        &&& forall|i: int| 0 <= i < 4 ==> self.__bindgen_padding_0[i] == 0
        &&& forall|i: int| 0 <= i < 16 ==> (#[trigger] self.fbRegion[i]).is_zeroed()
    }
}

impl Default for NV2080_CTRL_CMD_FB_GET_FB_REGION_INFO_PARAMS {
    fn default() -> (value: Self)
        ensures
            value.is_zeroed(),
    {
        NV2080_CTRL_CMD_FB_GET_FB_REGION_INFO_PARAMS {
            numFBRegions: 0,
            __bindgen_padding_0: [0;4],
            fbRegion: [NV2080_CTRL_CMD_FB_GET_FB_REGION_FB_REGION_INFO::default();16],
        }
    }
}

/// The identifier of a GPU.
#[derive(Clone, Copy, Debug)]
pub struct NV2080_CTRL_GPU_GET_GID_INFO_PARAMS {
    pub index: u32,
    pub flags: u32,
    pub length: u32,
    pub data: [u8; 256],
}

impl NV2080_CTRL_GPU_GET_GID_INFO_PARAMS {
    /// Whether all of it is zero.
    pub open spec fn is_zeroed(self) -> bool {
        &&& self.index == 0
        &&& self.flags == 0
        &&& self.length == 0
        &&& forall|i: int| 0 <= i < 256 ==> self.data[i] == 0
    }
}

impl Default for NV2080_CTRL_GPU_GET_GID_INFO_PARAMS {
    fn default() -> (value: Self)
        ensures
            value.is_zeroed(),
    {
        NV2080_CTRL_GPU_GET_GID_INFO_PARAMS {
            index: 0,
            flags: 0,
            length: 0,
            data: [0;256],
        }
    }
}

/// Result of the ACPI method `_DOD`.
#[derive(Clone, Copy, Debug)]
pub struct DOD_METHOD_DATA {
    pub status: u32,
    pub acpiIdListLen: u32,
    pub acpiIdList: [u32; 16],
}

impl DOD_METHOD_DATA {
    /// Whether all of it is zero.
    pub open spec fn is_zeroed(self) -> bool {
        &&& self.status == 0
        &&& self.acpiIdListLen == 0
        &&& forall|i: int| 0 <= i < 16 ==> self.acpiIdList[i] == 0
    }
}

impl Default for DOD_METHOD_DATA {
    fn default() -> (value: Self)
        ensures
            value.is_zeroed(),
    {
        DOD_METHOD_DATA {
            status: 0,
            acpiIdListLen: 0,
            acpiIdList: [0;16],
        }
    }
}

/// Result of the ACPI method JT.
#[derive(Clone, Copy, Debug)]
pub struct JT_METHOD_DATA {
    pub status: u32,
    pub jtCaps: u32,
    pub jtRevId: u16,
    pub bSBIOSCaps: u8,
    pub __bindgen_padding_0: u8,
}

impl JT_METHOD_DATA {
    /// Whether all of it is zero.
    pub open spec fn is_zeroed(self) -> bool {
        &&& self.status == 0
        &&& self.jtCaps == 0
        &&& self.jtRevId == 0
        &&& self.bSBIOSCaps == 0
        &&& self.__bindgen_padding_0 == 0
    }
}

impl Default for JT_METHOD_DATA {
    fn default() -> (value: Self)
        ensures
            value.is_zeroed(),
    {
        JT_METHOD_DATA {
            status: 0,
            jtCaps: 0,
            jtRevId: 0,
            bSBIOSCaps: 0,
            __bindgen_padding_0: 0,
        }
    }
}

/// State of a display mux.
#[derive(Clone, Copy, Debug)]
pub struct MUX_METHOD_DATA_ELEMENT {
    pub acpiId: u32,
    pub mode: u32,
    pub status: u32,
}

impl MUX_METHOD_DATA_ELEMENT {
    /// Whether all of it is zero.
    pub open spec fn is_zeroed(self) -> bool {
        &&& self.acpiId == 0
        &&& self.mode == 0
        &&& self.status == 0
    }
}

impl Default for MUX_METHOD_DATA_ELEMENT {
    fn default() -> (value: Self)
        ensures
            value.is_zeroed(),
    {
        MUX_METHOD_DATA_ELEMENT {
            acpiId: 0,
            mode: 0,
            status: 0,
        }
    }
}

/// Results of the ACPI mux methods.
#[derive(Clone, Copy, Debug)]
pub struct MUX_METHOD_DATA {
    pub tableLen: u32,
    pub acpiIdMuxModeTable: [MUX_METHOD_DATA_ELEMENT; 16],
    pub acpiIdMuxPartTable: [MUX_METHOD_DATA_ELEMENT; 16],
    pub acpiIdMuxStateTable: [MUX_METHOD_DATA_ELEMENT; 16],
}

impl MUX_METHOD_DATA {
    /// Whether all of it is zero.
    pub open spec fn is_zeroed(self) -> bool {
        &&& self.tableLen == 0
        &&& forall|i: int| 0 <= i < 16 ==> (#[trigger] self.acpiIdMuxModeTable[i]).is_zeroed()
        &&& forall|i: int| 0 <= i < 16 ==> (#[trigger] self.acpiIdMuxPartTable[i]).is_zeroed()
        &&& forall|i: int| 0 <= i < 16 ==> (#[trigger] self.acpiIdMuxStateTable[i]).is_zeroed()
    }
}

impl Default for MUX_METHOD_DATA {
    fn default() -> (value: Self)
        ensures
            value.is_zeroed(),
    {
        MUX_METHOD_DATA {
            tableLen: 0,
            acpiIdMuxModeTable: [MUX_METHOD_DATA_ELEMENT::default();16],
            acpiIdMuxPartTable: [MUX_METHOD_DATA_ELEMENT::default();16],
            acpiIdMuxStateTable: [MUX_METHOD_DATA_ELEMENT::default();16],
        }
    }
}

/// Result of the ACPI capability method.
#[derive(Clone, Copy, Debug)]
pub struct CAPS_METHOD_DATA {
    pub status: u32,
    pub optimusCaps: u32,
}

impl CAPS_METHOD_DATA {
    /// Whether all of it is zero.
    pub open spec fn is_zeroed(self) -> bool {
        &&& self.status == 0
        &&& self.optimusCaps == 0
    }
}

impl Default for CAPS_METHOD_DATA {
    fn default() -> (value: Self)
        ensures
            value.is_zeroed(),
    {
        CAPS_METHOD_DATA {
            status: 0,
            optimusCaps: 0,
        }
    }
}

/// Results of the ACPI methods.
#[derive(Clone, Copy, Debug)]
pub struct ACPI_METHOD_DATA {
    pub bValid: u8,
    pub __bindgen_padding_0: [u8; 3],
    pub dodMethodData: DOD_METHOD_DATA,
    pub jtMethodData: JT_METHOD_DATA,
    pub muxMethodData: MUX_METHOD_DATA,
    pub capsMethodData: CAPS_METHOD_DATA,
}

impl ACPI_METHOD_DATA {
    /// Whether all of it is zero.
    pub open spec fn is_zeroed(self) -> bool {
        &&& self.bValid == 0
        &&& forall|i: int| 0 <= i < 3 ==> self.__bindgen_padding_0[i] == 0
        &&& self.dodMethodData.is_zeroed()
        &&& self.jtMethodData.is_zeroed()
        &&& self.muxMethodData.is_zeroed()
        &&& self.capsMethodData.is_zeroed()
    }
}

impl Default for ACPI_METHOD_DATA {
    fn default() -> (value: Self)
        ensures
            value.is_zeroed(),
    {
        ACPI_METHOD_DATA {
            bValid: 0,
            __bindgen_padding_0: [0;3],
            dodMethodData: DOD_METHOD_DATA::default(),
            jtMethodData: JT_METHOD_DATA::default(),
            muxMethodData: MUX_METHOD_DATA::default(),
            capsMethodData: CAPS_METHOD_DATA::default(),
        }
    }
}

/// An entry of the registry handed to the firmware.
#[derive(Clone, Copy, Debug)]
pub struct PACKED_REGISTRY_ENTRY {
    pub nameOffset: u32,
    pub type_: u8,
    pub __bindgen_padding_0: [u8; 3],
    pub data: u32,
    pub length: u32,
}

impl PACKED_REGISTRY_ENTRY {
    /// Whether all of it is zero.
    pub open spec fn is_zeroed(self) -> bool {
        &&& self.nameOffset == 0
        &&& self.type_ == 0
        &&& forall|i: int| 0 <= i < 3 ==> self.__bindgen_padding_0[i] == 0
        &&& self.data == 0
        &&& self.length == 0
    }
}

impl Default for PACKED_REGISTRY_ENTRY {
    fn default() -> (value: Self)
        ensures
            value.is_zeroed(),
    {
        PACKED_REGISTRY_ENTRY {
            nameOffset: 0,
            type_: 0,
            __bindgen_padding_0: [0;3],
            data: 0,
            length: 0,
        }
    }
}

/// The registry handed to the firmware.
pub struct PACKED_REGISTRY_TABLE {
    pub size: u32,
    pub numEntries: u32,
    pub entries: __IncompleteArrayField<PACKED_REGISTRY_ENTRY>,
}

impl PACKED_REGISTRY_TABLE {
    /// Whether all of it is zero.
    pub open spec fn is_zeroed(self) -> bool {
        &&& self.size == 0
        &&& self.numEntries == 0
        &&& self.entries.elements() == Seq::<PACKED_REGISTRY_ENTRY>::empty()
    }
}

impl Default for PACKED_REGISTRY_TABLE {
    fn default() -> (value: Self)
        ensures
            value.is_zeroed(),
    {
        PACKED_REGISTRY_TABLE {
            size: 0,
            numEntries: 0,
            entries: __IncompleteArrayField::new(),
        }
    }
}

/// Identification of a PCI device.
#[derive(Clone, Copy, Debug)]
pub struct BUSINFO {
    pub deviceID: u16,
    pub vendorID: u16,
    pub subdeviceID: u16,
    pub subvendorID: u16,
    pub revisionID: u8,
    pub __bindgen_padding_0: u8,
}

impl BUSINFO {
    /// Whether all of it is zero.
    pub open spec fn is_zeroed(self) -> bool {
        &&& self.deviceID == 0
        &&& self.vendorID == 0
        &&& self.subdeviceID == 0
        &&& self.subvendorID == 0
        &&& self.revisionID == 0
        &&& self.__bindgen_padding_0 == 0
    }
}

impl Default for BUSINFO {
    fn default() -> (value: Self)
        ensures
            value.is_zeroed(),
    {
        BUSINFO {
            deviceID: 0,
            vendorID: 0,
            subdeviceID: 0,
            subvendorID: 0,
            revisionID: 0,
            __bindgen_padding_0: 0,
        }
    }
}

/// Virtual functions of a GPU.
#[derive(Clone, Copy, Debug)]
pub struct GSP_VF_INFO {
    pub totalVFs: u32,
    pub firstVFOffset: u32,
    pub FirstVFBar0Address: u64,
    pub FirstVFBar1Address: u64,
    pub FirstVFBar2Address: u64,
    pub b64bitBar0: u8,
    pub b64bitBar1: u8,
    pub b64bitBar2: u8,
    pub __bindgen_padding_0: [u8; 5],
}

impl GSP_VF_INFO {
    /// Whether all of it is zero.
    pub open spec fn is_zeroed(self) -> bool {
        &&& self.totalVFs == 0
        &&& self.firstVFOffset == 0
        &&& self.FirstVFBar0Address == 0
        &&& self.FirstVFBar1Address == 0
        &&& self.FirstVFBar2Address == 0
        &&& self.b64bitBar0 == 0
        &&& self.b64bitBar1 == 0
        &&& self.b64bitBar2 == 0
        &&& forall|i: int| 0 <= i < 5 ==> self.__bindgen_padding_0[i] == 0
    }
}

impl Default for GSP_VF_INFO {
    fn default() -> (value: Self)
        ensures
            value.is_zeroed(),
    {
        GSP_VF_INFO {
            totalVFs: 0,
            firstVFOffset: 0,
            FirstVFBar0Address: 0,
            FirstVFBar1Address: 0,
            FirstVFBar2Address: 0,
            b64bitBar0: 0,
            b64bitBar1: 0,
            b64bitBar2: 0,
            __bindgen_padding_0: [0;5],
        }
    }
}

/// PCIe configuration registers.
#[derive(Clone, Copy, Debug)]
pub struct GSP_PCIE_CONFIG_REG {
    pub linkCap: u32,
}

impl GSP_PCIE_CONFIG_REG {
    /// Whether all of it is zero.
    pub open spec fn is_zeroed(self) -> bool {
        &&& self.linkCap == 0
    }
}

impl Default for GSP_PCIE_CONFIG_REG {
    fn default() -> (value: Self)
        ensures
            value.is_zeroed(),
    {
        GSP_PCIE_CONFIG_REG {
            linkCap: 0,
        }
    }
}

/// Manufacturing information of a GPU.
#[derive(Clone, Copy, Debug)]
pub struct EcidManufacturingInfo {
    pub info: [u64; 2],
}

impl EcidManufacturingInfo {
    /// Whether all of it is zero.
    pub open spec fn is_zeroed(self) -> bool {
        &&& forall|i: int| 0 <= i < 2 ==> self.info[i] == 0
    }
}

impl Default for EcidManufacturingInfo {
    fn default() -> (value: Self)
        ensures
            value.is_zeroed(),
    {
        EcidManufacturingInfo {
            info: [0;2],
        }
    }
}

/// Offsets in the layout of the write-protected region.
#[derive(Clone, Copy, Debug)]
pub struct FW_WPR_LAYOUT_OFFSET {
    pub nonWprHeapOffset: u64,
    pub frtsOffset: u64,
}

impl FW_WPR_LAYOUT_OFFSET {
    /// Whether all of it is zero.
    pub open spec fn is_zeroed(self) -> bool {
        &&& self.nonWprHeapOffset == 0
        &&& self.frtsOffset == 0
    }
}

impl Default for FW_WPR_LAYOUT_OFFSET {
    fn default() -> (value: Self)
        ensures
            value.is_zeroed(),
    {
        FW_WPR_LAYOUT_OFFSET {
            nonWprHeapOffset: 0,
            frtsOffset: 0,
        }
    }
}

/// Static information about a GPU.
#[derive(Clone, Copy, Debug)]
pub struct GspStaticConfigInfo_t {
    pub gidInfo: NV2080_CTRL_GPU_GET_GID_INFO_PARAMS,
    pub SKUInfo: NV2080_CTRL_BIOS_GET_SKU_INFO_PARAMS,
    pub __bindgen_padding_0: [u8; 4],
    pub fbRegionInfoParams: NV2080_CTRL_CMD_FB_GET_FB_REGION_INFO_PARAMS,
    pub bPdiValid: u8,
    pub __bindgen_padding_1: [u8; 7],
    pub pdi: u64,
    pub sriovCaps: NV0080_CTRL_GPU_GET_SRIOV_CAPS_PARAMS,
    pub sriovMaxGfid: u32,
    pub engineCaps: [u32; 3],
    pub poisonFuseEnabled: u8,
    pub __bindgen_padding_2: [u8; 7],
    pub fb_length: u64,
    pub gpuNameString: [u8; 64],
    pub gpuShortNameString: [u8; 64],
    pub bGpuInternalSku: u8,
    pub bIsQuadroGeneric: u8,
    pub bIsQuadroAd: u8,
    pub bIsNvidiaNvs: u8,
    pub bIsVgx: u8,
    pub bGeforceSmb: u8,
    pub bIsTitan: u8,
    pub bIsTesla: u8,
    pub bIsMobile: u8,
    pub bIsCmpSku: u8,
    pub bIsGc6Rtd3Allowed: u8,
    pub bIsGc8Rtd3Allowed: u8,
    pub bIsGcOffRtd3Allowed: u8,
    pub bIsGcoffLegacyAllowed: u8,
    pub bIsMigSupported: u8,
    pub __bindgen_padding_3: u8,
    pub RTD3GC6TotalBoardPower: u16,
    pub RTD3GC6PerstDelay: u16,
    pub __bindgen_padding_4: [u8; 4],
    pub bar1PdeBase: u64,
    pub bar2PdeBase: u64,
    pub bVbiosValid: u8,
    pub __bindgen_padding_5: [u8; 3],
    pub vbiosSubVendor: u32,
    pub vbiosSubDevice: u32,
    pub vbiosRevision: u32,
    pub vbiosOemRevision: u32,
    pub bPageRetirementSupported: u8,
    pub bSplitVasBetweenServerClientRm: u8,
    pub bClRootportNeedsNosnoopWAR: u8,
    pub __bindgen_padding_6: u8,
    pub hInternalClient: u32,
    pub hInternalDevice: u32,
    pub hInternalSubdevice: u32,
    pub bSelfHostedMode: u8,
    pub bAtsSupported: u8,
    pub bSysL2CacheCoherentMode: u8,
    pub bIsGpuUefi: u8,
    pub bIsEfiInit: u8,
    pub __bindgen_padding_7: [u8; 7],
    pub ecidInfo: EcidManufacturingInfo,
    pub fwWprLayoutOffset: FW_WPR_LAYOUT_OFFSET,
    pub bBusResetRequired: u8,
    pub chipSubRev: u8,
    pub __bindgen_padding_8: [u8; 2],
    pub emulationRev1: u32,
    pub bGppBrandingOverrideApplied: u8,
    pub __bindgen_padding_9: [u8; 3],
    pub gppOverriddenPciDeviceId: u32,
}

impl GspStaticConfigInfo_t {
    /// Whether all of it is zero.
    pub open spec fn is_zeroed(self) -> bool {
        &&& self.gidInfo.is_zeroed()
        &&& self.SKUInfo.is_zeroed()
        &&& forall|i: int| 0 <= i < 4 ==> self.__bindgen_padding_0[i] == 0
        &&& self.fbRegionInfoParams.is_zeroed()
        &&& self.bPdiValid == 0
        &&& forall|i: int| 0 <= i < 7 ==> self.__bindgen_padding_1[i] == 0
        &&& self.pdi == 0
        &&& self.sriovCaps.is_zeroed()
        &&& self.sriovMaxGfid == 0
        &&& forall|i: int| 0 <= i < 3 ==> self.engineCaps[i] == 0
        &&& self.poisonFuseEnabled == 0
        &&& forall|i: int| 0 <= i < 7 ==> self.__bindgen_padding_2[i] == 0
        &&& self.fb_length == 0
        &&& forall|i: int| 0 <= i < 64 ==> self.gpuNameString[i] == 0
        &&& forall|i: int| 0 <= i < 64 ==> self.gpuShortNameString[i] == 0
        &&& self.bGpuInternalSku == 0
        &&& self.bIsQuadroGeneric == 0
        &&& self.bIsQuadroAd == 0
        &&& self.bIsNvidiaNvs == 0
        &&& self.bIsVgx == 0
        &&& self.bGeforceSmb == 0
        &&& self.bIsTitan == 0
        &&& self.bIsTesla == 0
        &&& self.bIsMobile == 0
        &&& self.bIsCmpSku == 0
        &&& self.bIsGc6Rtd3Allowed == 0
        &&& self.bIsGc8Rtd3Allowed == 0
        &&& self.bIsGcOffRtd3Allowed == 0
        &&& self.bIsGcoffLegacyAllowed == 0
        &&& self.bIsMigSupported == 0
        &&& self.__bindgen_padding_3 == 0
        &&& self.RTD3GC6TotalBoardPower == 0
        &&& self.RTD3GC6PerstDelay == 0
        &&& forall|i: int| 0 <= i < 4 ==> self.__bindgen_padding_4[i] == 0
        &&& self.bar1PdeBase == 0
        &&& self.bar2PdeBase == 0
        &&& self.bVbiosValid == 0
        &&& forall|i: int| 0 <= i < 3 ==> self.__bindgen_padding_5[i] == 0
        &&& self.vbiosSubVendor == 0
        &&& self.vbiosSubDevice == 0
        &&& self.vbiosRevision == 0
        &&& self.vbiosOemRevision == 0
        &&& self.bPageRetirementSupported == 0
        &&& self.bSplitVasBetweenServerClientRm == 0
        &&& self.bClRootportNeedsNosnoopWAR == 0
        &&& self.__bindgen_padding_6 == 0
        &&& self.hInternalClient == 0
        &&& self.hInternalDevice == 0
        &&& self.hInternalSubdevice == 0
        &&& self.bSelfHostedMode == 0
        &&& self.bAtsSupported == 0
        &&& self.bSysL2CacheCoherentMode == 0
        &&& self.bIsGpuUefi == 0
        &&& self.bIsEfiInit == 0
        &&& forall|i: int| 0 <= i < 7 ==> self.__bindgen_padding_7[i] == 0
        &&& self.ecidInfo.is_zeroed()
        &&& self.fwWprLayoutOffset.is_zeroed()
        &&& self.bBusResetRequired == 0
        &&& self.chipSubRev == 0
        &&& forall|i: int| 0 <= i < 2 ==> self.__bindgen_padding_8[i] == 0
        &&& self.emulationRev1 == 0
        &&& self.bGppBrandingOverrideApplied == 0
        &&& forall|i: int| 0 <= i < 3 ==> self.__bindgen_padding_9[i] == 0
        &&& self.gppOverriddenPciDeviceId == 0
    }
}

impl Default for GspStaticConfigInfo_t {
    fn default() -> (value: Self)
        ensures
            value.is_zeroed(),
    {
        GspStaticConfigInfo_t {
            gidInfo: NV2080_CTRL_GPU_GET_GID_INFO_PARAMS::default(),
            SKUInfo: NV2080_CTRL_BIOS_GET_SKU_INFO_PARAMS::default(),
            __bindgen_padding_0: [0;4],
            fbRegionInfoParams: NV2080_CTRL_CMD_FB_GET_FB_REGION_INFO_PARAMS::default(),
            bPdiValid: 0,
            __bindgen_padding_1: [0;7],
            pdi: 0,
            sriovCaps: NV0080_CTRL_GPU_GET_SRIOV_CAPS_PARAMS::default(),
            sriovMaxGfid: 0,
            engineCaps: [0;3],
            poisonFuseEnabled: 0,
            __bindgen_padding_2: [0;7],
            fb_length: 0,
            gpuNameString: [0;64],
            gpuShortNameString: [0;64],
            bGpuInternalSku: 0,
            bIsQuadroGeneric: 0,
            bIsQuadroAd: 0,
            bIsNvidiaNvs: 0,
            bIsVgx: 0,
            bGeforceSmb: 0,
            bIsTitan: 0,
            bIsTesla: 0,
            bIsMobile: 0,
            bIsCmpSku: 0,
            bIsGc6Rtd3Allowed: 0,
            bIsGc8Rtd3Allowed: 0,
            bIsGcOffRtd3Allowed: 0,
            bIsGcoffLegacyAllowed: 0,
            bIsMigSupported: 0,
            __bindgen_padding_3: 0,
            RTD3GC6TotalBoardPower: 0,
            RTD3GC6PerstDelay: 0,
            __bindgen_padding_4: [0;4],
            bar1PdeBase: 0,
            bar2PdeBase: 0,
            bVbiosValid: 0,
            __bindgen_padding_5: [0;3],
            vbiosSubVendor: 0,
            vbiosSubDevice: 0,
            vbiosRevision: 0,
            vbiosOemRevision: 0,
            bPageRetirementSupported: 0,
            bSplitVasBetweenServerClientRm: 0,
            bClRootportNeedsNosnoopWAR: 0,
            __bindgen_padding_6: 0,
            hInternalClient: 0,
            hInternalDevice: 0,
            hInternalSubdevice: 0,
            bSelfHostedMode: 0,
            bAtsSupported: 0,
            bSysL2CacheCoherentMode: 0,
            bIsGpuUefi: 0,
            bIsEfiInit: 0,
            __bindgen_padding_7: [0;7],
            ecidInfo: EcidManufacturingInfo::default(),
            fwWprLayoutOffset: FW_WPR_LAYOUT_OFFSET::default(),
            bBusResetRequired: 0,
            chipSubRev: 0,
            __bindgen_padding_8: [0;2],
            emulationRev1: 0,
            bGppBrandingOverrideApplied: 0,
            __bindgen_padding_9: [0;3],
            gppOverriddenPciDeviceId: 0,
        }
    }
}

/// Information about the system, handed to the firmware.
#[derive(Clone, Copy, Debug)]
pub struct GspSystemInfo {
    pub gpuPhysAddr: u64,
    pub gpuPhysFbAddr: u64,
    pub gpuPhysInstAddr: u64,
    pub gpuPhysIoAddr: u64,
    pub nvDomainBusDeviceFunc: u64,
    pub simAccessBufPhysAddr: u64,
    pub notifyOpSharedSurfacePhysAddr: u64,
    pub pcieAtomicsOpMask: u64,
    pub consoleMemSize: u64,
    pub maxUserVa: u64,
    pub pciConfigMirrorBase: u32,
    pub pciConfigMirrorSize: u32,
    pub PCIDeviceID: u32,
    pub PCISubDeviceID: u32,
    pub PCIRevisionID: u32,
    pub pcieAtomicsCplDeviceCapMask: u32,
    pub oorArch: u8,
    pub __bindgen_padding_0: [u8; 7],
    pub clPdbProperties: u64,
    pub Chipset: u32,
    pub bGpuBehindBridge: u8,
    pub bFlrSupported: u8,
    pub b64bBar0Supported: u8,
    pub bMnocAvailable: u8,
    pub chipsetL1ssEnable: u32,
    pub bUpstreamL0sUnsupported: u8,
    pub bUpstreamL1Unsupported: u8,
    pub bUpstreamL1PorSupported: u8,
    pub bUpstreamL1PorMobileOnly: u8,
    pub bSystemHasMux: u8,
    pub upstreamAddressValid: u8,
    pub FHBBusInfo: BUSINFO,
    pub chipsetIDInfo: BUSINFO,
    pub __bindgen_padding_1: [u8; 2],
    pub acpiMethodData: ACPI_METHOD_DATA,
    pub hypervisorType: u32,
    pub virtualConfigBits: u16,
    pub bIsPassthru: u8,
    pub __bindgen_padding_2: [u8; 5],
    pub sysTimerOffsetNs: u64,
    pub gspVFInfo: GSP_VF_INFO,
    pub bIsPrimary: u8,
    pub bIsUnixHdmiFrlComplianceEnabled: u8,
    pub isGridBuild: u8,
    pub __bindgen_padding_3: u8,
    pub pcieConfigReg: GSP_PCIE_CONFIG_REG,
    pub gridBuildCsp: u32,
    pub bPreserveVideoMemoryAllocations: u8,
    pub bTdrEventSupported: u8,
    pub bFeatureStretchVblankCapable: u8,
    pub bEnableDynamicGranularityPageArrays: u8,
    pub bClockBoostSupported: u8,
    pub __bindgen_padding_4: [u8; 7],
    pub hostPageSize: u64,
    pub bIsCmcBasedHws: u8,
    pub bGspNocatEnabled: u8,
    pub bS0ixSupport: u8,
    pub bWindowChannelAlwaysMapped: u8,
    pub pciePowerControlValue: u32,
    pub bPciePowerControlPresent: u8,
    pub __bindgen_padding_5: [u8; 3],
    pub pf0DeviceControl2Reg: u32,
    pub bIsCxlDevice: u8,
    pub bReserveZeroFbAddressAsRegion: u8,
    pub __bindgen_padding_6: [u8; 6],
}

impl GspSystemInfo {
    /// Whether all of it is zero.
    pub open spec fn is_zeroed(self) -> bool {
        &&& self.gpuPhysAddr == 0
        &&& self.gpuPhysFbAddr == 0
        &&& self.gpuPhysInstAddr == 0
        &&& self.gpuPhysIoAddr == 0
        &&& self.nvDomainBusDeviceFunc == 0
        &&& self.simAccessBufPhysAddr == 0
        &&& self.notifyOpSharedSurfacePhysAddr == 0
        &&& self.pcieAtomicsOpMask == 0
        &&& self.consoleMemSize == 0
        &&& self.maxUserVa == 0
        &&& self.pciConfigMirrorBase == 0
        &&& self.pciConfigMirrorSize == 0
        &&& self.PCIDeviceID == 0
        &&& self.PCISubDeviceID == 0
        &&& self.PCIRevisionID == 0
        &&& self.pcieAtomicsCplDeviceCapMask == 0
        &&& self.oorArch == 0
        &&& forall|i: int| 0 <= i < 7 ==> self.__bindgen_padding_0[i] == 0
        &&& self.clPdbProperties == 0
        &&& self.Chipset == 0
        &&& self.bGpuBehindBridge == 0
        &&& self.bFlrSupported == 0
        &&& self.b64bBar0Supported == 0
        &&& self.bMnocAvailable == 0
        &&& self.chipsetL1ssEnable == 0
        &&& self.bUpstreamL0sUnsupported == 0
        &&& self.bUpstreamL1Unsupported == 0
        &&& self.bUpstreamL1PorSupported == 0
        &&& self.bUpstreamL1PorMobileOnly == 0
        &&& self.bSystemHasMux == 0
        &&& self.upstreamAddressValid == 0
        &&& self.FHBBusInfo.is_zeroed()
        &&& self.chipsetIDInfo.is_zeroed()
        &&& forall|i: int| 0 <= i < 2 ==> self.__bindgen_padding_1[i] == 0
        &&& self.acpiMethodData.is_zeroed()
        &&& self.hypervisorType == 0
        &&& self.virtualConfigBits == 0
        &&& self.bIsPassthru == 0
        &&& forall|i: int| 0 <= i < 5 ==> self.__bindgen_padding_2[i] == 0
        &&& self.sysTimerOffsetNs == 0
        &&& self.gspVFInfo.is_zeroed()
        &&& self.bIsPrimary == 0
        &&& self.bIsUnixHdmiFrlComplianceEnabled == 0
        &&& self.isGridBuild == 0
        &&& self.__bindgen_padding_3 == 0
        &&& self.pcieConfigReg.is_zeroed()
        &&& self.gridBuildCsp == 0
        &&& self.bPreserveVideoMemoryAllocations == 0
        &&& self.bTdrEventSupported == 0
        &&& self.bFeatureStretchVblankCapable == 0
        &&& self.bEnableDynamicGranularityPageArrays == 0
        &&& self.bClockBoostSupported == 0
        &&& forall|i: int| 0 <= i < 7 ==> self.__bindgen_padding_4[i] == 0
        &&& self.hostPageSize == 0
        &&& self.bIsCmcBasedHws == 0
        &&& self.bGspNocatEnabled == 0
        &&& self.bS0ixSupport == 0
        &&& self.bWindowChannelAlwaysMapped == 0
        &&& self.pciePowerControlValue == 0
        &&& self.bPciePowerControlPresent == 0
        &&& forall|i: int| 0 <= i < 3 ==> self.__bindgen_padding_5[i] == 0
        &&& self.pf0DeviceControl2Reg == 0
        &&& self.bIsCxlDevice == 0
        &&& self.bReserveZeroFbAddressAsRegion == 0
        &&& forall|i: int| 0 <= i < 6 ==> self.__bindgen_padding_6[i] == 0
    }
}

impl Default for GspSystemInfo {
    fn default() -> (value: Self)
        ensures
            value.is_zeroed(),
    {
        GspSystemInfo {
            gpuPhysAddr: 0,
            gpuPhysFbAddr: 0,
            gpuPhysInstAddr: 0,
            gpuPhysIoAddr: 0,
            nvDomainBusDeviceFunc: 0,
            simAccessBufPhysAddr: 0,
            notifyOpSharedSurfacePhysAddr: 0,
            pcieAtomicsOpMask: 0,
            consoleMemSize: 0,
            maxUserVa: 0,
            pciConfigMirrorBase: 0,
            pciConfigMirrorSize: 0,
            PCIDeviceID: 0,
            PCISubDeviceID: 0,
            PCIRevisionID: 0,
            pcieAtomicsCplDeviceCapMask: 0,
            oorArch: 0,
            __bindgen_padding_0: [0;7],
            clPdbProperties: 0,
            Chipset: 0,
            bGpuBehindBridge: 0,
            bFlrSupported: 0,
            b64bBar0Supported: 0,
            bMnocAvailable: 0,
            chipsetL1ssEnable: 0,
            bUpstreamL0sUnsupported: 0,
            bUpstreamL1Unsupported: 0,
            bUpstreamL1PorSupported: 0,
            bUpstreamL1PorMobileOnly: 0,
            bSystemHasMux: 0,
            upstreamAddressValid: 0,
            FHBBusInfo: BUSINFO::default(),
            chipsetIDInfo: BUSINFO::default(),
            __bindgen_padding_1: [0;2],
            acpiMethodData: ACPI_METHOD_DATA::default(),
            hypervisorType: 0,
            virtualConfigBits: 0,
            bIsPassthru: 0,
            __bindgen_padding_2: [0;5],
            sysTimerOffsetNs: 0,
            gspVFInfo: GSP_VF_INFO::default(),
            bIsPrimary: 0,
            bIsUnixHdmiFrlComplianceEnabled: 0,
            isGridBuild: 0,
            __bindgen_padding_3: 0,
            pcieConfigReg: GSP_PCIE_CONFIG_REG::default(),
            gridBuildCsp: 0,
            bPreserveVideoMemoryAllocations: 0,
            bTdrEventSupported: 0,
            bFeatureStretchVblankCapable: 0,
            bEnableDynamicGranularityPageArrays: 0,
            bClockBoostSupported: 0,
            __bindgen_padding_4: [0;7],
            hostPageSize: 0,
            bIsCmcBasedHws: 0,
            bGspNocatEnabled: 0,
            bS0ixSupport: 0,
            bWindowChannelAlwaysMapped: 0,
            pciePowerControlValue: 0,
            bPciePowerControlPresent: 0,
            __bindgen_padding_5: [0;3],
            pf0DeviceControl2Reg: 0,
            bIsCxlDevice: 0,
            bReserveZeroFbAddressAsRegion: 0,
            __bindgen_padding_6: [0;6],
        }
    }
}

/// Init arguments for the message queue.
#[derive(Clone, Copy, Debug)]
pub struct MESSAGE_QUEUE_INIT_ARGUMENTS {
    pub flags: u64,
    pub sharedMemPhysAddr: u64,
    pub cmdQueueOffset: u64,
    pub statQueueOffset: u64,
    pub queueElementHdrSize: u32,
    pub queueElementSizeMin: u32,
    pub queueElementSizeMax: u32,
    pub queueHeaderAlign: u32,
    pub queueElementAlign: u32,
    pub pageTableEntryCount: u32,
    pub reserved: [u8; 8],
}

impl MESSAGE_QUEUE_INIT_ARGUMENTS {
    /// Whether all of it is zero.
    pub open spec fn is_zeroed(self) -> bool {
        &&& self.flags == 0
        &&& self.sharedMemPhysAddr == 0
        &&& self.cmdQueueOffset == 0
        &&& self.statQueueOffset == 0
        &&& self.queueElementHdrSize == 0
        &&& self.queueElementSizeMin == 0
        &&& self.queueElementSizeMax == 0
        &&& self.queueHeaderAlign == 0
        &&& self.queueElementAlign == 0
        &&& self.pageTableEntryCount == 0
        &&& forall|i: int| 0 <= i < 8 ==> self.reserved[i] == 0
    }
}

impl Default for MESSAGE_QUEUE_INIT_ARGUMENTS {
    fn default() -> (value: Self)
        ensures
            value.is_zeroed(),
    {
        MESSAGE_QUEUE_INIT_ARGUMENTS {
            flags: 0,
            sharedMemPhysAddr: 0,
            cmdQueueOffset: 0,
            statQueueOffset: 0,
            queueElementHdrSize: 0,
            queueElementSizeMin: 0,
            queueElementSizeMax: 0,
            queueHeaderAlign: 0,
            queueElementAlign: 0,
            pageTableEntryCount: 0,
            reserved: [0;8],
        }
    }
}

/// Arguments for suspend and resume.
#[derive(Clone, Copy, Debug)]
pub struct GSP_SR_INIT_ARGUMENTS {
    pub oldLevel: u32,
    pub flags: u32,
    pub reserved: [u8; 8],
}

impl GSP_SR_INIT_ARGUMENTS {
    /// Whether all of it is zero.
    pub open spec fn is_zeroed(self) -> bool {
        &&& self.oldLevel == 0
        &&& self.flags == 0
        &&& forall|i: int| 0 <= i < 8 ==> self.reserved[i] == 0
    }
}

impl Default for GSP_SR_INIT_ARGUMENTS {
    fn default() -> (value: Self)
        ensures
            value.is_zeroed(),
    {
        GSP_SR_INIT_ARGUMENTS {
            oldLevel: 0,
            flags: 0,
            reserved: [0;8],
        }
    }
}

/// Arguments for GSP startup.
#[derive(Clone, Copy, Debug)]
pub struct GSP_ARGUMENTS_CACHED {
    pub magic: u32,
    pub size: u16,
    pub reserved: [u8; 2],
    pub flags: u64,
    pub messageQueueInitArguments: MESSAGE_QUEUE_INIT_ARGUMENTS,
    pub srInitArguments: GSP_SR_INIT_ARGUMENTS,
    pub reserved2: [u8; 4],
    pub gpuInstance: u32,
    pub profilerArgs: GSP_ARGUMENTS_CACHED__bindgen_ty_1,
    pub sysmemHeapArgs: GSP_ARGUMENTS_CACHED__bindgen_ty_2,
    pub rmStateMonitorBufferArgs: GSP_ARGUMENTS_CACHED__bindgen_ty_3,
    pub bindataArgs: GSP_ARGUMENTS_CACHED__bindgen_ty_4,
    pub vbiosOverrideArgs: GSP_ARGUMENTS_CACHED__bindgen_ty_5,
}

impl GSP_ARGUMENTS_CACHED {
    /// Whether all of it is zero.
    pub open spec fn is_zeroed(self) -> bool {
        &&& self.magic == 0
        &&& self.size == 0
        &&& forall|i: int| 0 <= i < 2 ==> self.reserved[i] == 0
        &&& self.flags == 0
        &&& self.messageQueueInitArguments.is_zeroed()
        &&& self.srInitArguments.is_zeroed()
        &&& forall|i: int| 0 <= i < 4 ==> self.reserved2[i] == 0
        &&& self.gpuInstance == 0
        &&& self.profilerArgs.is_zeroed()
        &&& self.sysmemHeapArgs.is_zeroed()
        &&& self.rmStateMonitorBufferArgs.is_zeroed()
        &&& self.bindataArgs.is_zeroed()
        &&& self.vbiosOverrideArgs.is_zeroed()
    }
}

impl Default for GSP_ARGUMENTS_CACHED {
    fn default() -> (value: Self)
        ensures
            value.is_zeroed(),
    {
        GSP_ARGUMENTS_CACHED {
            magic: 0,
            size: 0,
            reserved: [0;2],
            flags: 0,
            messageQueueInitArguments: MESSAGE_QUEUE_INIT_ARGUMENTS::default(),
            srInitArguments: GSP_SR_INIT_ARGUMENTS::default(),
            reserved2: [0;4],
            gpuInstance: 0,
            profilerArgs: GSP_ARGUMENTS_CACHED__bindgen_ty_1::default(),
            sysmemHeapArgs: GSP_ARGUMENTS_CACHED__bindgen_ty_2::default(),
            rmStateMonitorBufferArgs: GSP_ARGUMENTS_CACHED__bindgen_ty_3::default(),
            bindataArgs: GSP_ARGUMENTS_CACHED__bindgen_ty_4::default(),
            vbiosOverrideArgs: GSP_ARGUMENTS_CACHED__bindgen_ty_5::default(),
        }
    }
}

/// Profiler buffer.
#[derive(Clone, Copy, Debug)]
pub struct GSP_ARGUMENTS_CACHED__bindgen_ty_1 {
    pub pa: u64,
    pub size: u64,
}

impl GSP_ARGUMENTS_CACHED__bindgen_ty_1 {
    /// Whether all of it is zero.
    pub open spec fn is_zeroed(self) -> bool {
        &&& self.pa == 0
        &&& self.size == 0
    }
}

impl Default for GSP_ARGUMENTS_CACHED__bindgen_ty_1 {
    fn default() -> (value: Self)
        ensures
            value.is_zeroed(),
    {
        GSP_ARGUMENTS_CACHED__bindgen_ty_1 {
            pa: 0,
            size: 0,
        }
    }
}

/// System memory heap.
#[derive(Clone, Copy, Debug)]
pub struct GSP_ARGUMENTS_CACHED__bindgen_ty_2 {
    pub pa: u64,
    pub size: u64,
}

impl GSP_ARGUMENTS_CACHED__bindgen_ty_2 {
    /// Whether all of it is zero.
    pub open spec fn is_zeroed(self) -> bool {
        &&& self.pa == 0
        &&& self.size == 0
    }
}

impl Default for GSP_ARGUMENTS_CACHED__bindgen_ty_2 {
    fn default() -> (value: Self)
        ensures
            value.is_zeroed(),
    {
        GSP_ARGUMENTS_CACHED__bindgen_ty_2 {
            pa: 0,
            size: 0,
        }
    }
}

/// RM state monitor buffer.
#[derive(Clone, Copy, Debug)]
pub struct GSP_ARGUMENTS_CACHED__bindgen_ty_3 {
    pub pa: u64,
    pub size: u64,
}

impl GSP_ARGUMENTS_CACHED__bindgen_ty_3 {
    /// Whether all of it is zero.
    pub open spec fn is_zeroed(self) -> bool {
        &&& self.pa == 0
        &&& self.size == 0
    }
}

impl Default for GSP_ARGUMENTS_CACHED__bindgen_ty_3 {
    fn default() -> (value: Self)
        ensures
            value.is_zeroed(),
    {
        GSP_ARGUMENTS_CACHED__bindgen_ty_3 {
            pa: 0,
            size: 0,
        }
    }
}

/// Bindata firmware.
#[derive(Clone, Copy, Debug)]
pub struct GSP_ARGUMENTS_CACHED__bindgen_ty_4 {
    pub radix3: u64,
    pub size: u64,
}

impl GSP_ARGUMENTS_CACHED__bindgen_ty_4 {
    /// Whether all of it is zero.
    pub open spec fn is_zeroed(self) -> bool {
        &&& self.radix3 == 0
        &&& self.size == 0
    }
}

impl Default for GSP_ARGUMENTS_CACHED__bindgen_ty_4 {
    fn default() -> (value: Self)
        ensures
            value.is_zeroed(),
    {
        GSP_ARGUMENTS_CACHED__bindgen_ty_4 {
            radix3: 0,
            size: 0,
        }
    }
}

/// VBIOS override.
#[derive(Clone, Copy, Debug)]
pub struct GSP_ARGUMENTS_CACHED__bindgen_ty_5 {
    pub pa: u64,
    pub size: u64,
}

impl GSP_ARGUMENTS_CACHED__bindgen_ty_5 {
    /// Whether all of it is zero.
    pub open spec fn is_zeroed(self) -> bool {
        &&& self.pa == 0
        &&& self.size == 0
    }
}

impl Default for GSP_ARGUMENTS_CACHED__bindgen_ty_5 {
    fn default() -> (value: Self)
        ensures
            value.is_zeroed(),
    {
        GSP_ARGUMENTS_CACHED__bindgen_ty_5 {
            pa: 0,
            size: 0,
        }
    }
}

/// A word of the RPC header that has two readings.
#[derive(Clone, Copy, Debug)]
pub enum rpc_message_rpc_union_field_v03_00 {
    Spare(u32),
    CpuRmGfid(u32),
}

impl rpc_message_rpc_union_field_v03_00 {
    /// Whether the first reading is all zeros.
    pub open spec fn is_zeroed(self) -> bool {
        match self {
            rpc_message_rpc_union_field_v03_00::Spare(value) => value == 0,
            rpc_message_rpc_union_field_v03_00::CpuRmGfid(_) => false,
        }
    }
}

impl Default for rpc_message_rpc_union_field_v03_00 {
    fn default() -> (value: Self)
        ensures
            value.is_zeroed(),
    {
        rpc_message_rpc_union_field_v03_00::Spare(0)
    }
}

/// Header of an RPC message.
pub struct rpc_message_header_v03_00 {
    pub header_version: u32,
    pub signature: u32,
    pub length: u32,
    pub function: u32,
    pub rpc_result: u32,
    pub rpc_result_private: u32,
    pub sequence: u32,
    pub u: rpc_message_rpc_union_field_v03_00,
    pub rpc_message_data: __IncompleteArrayField<u8>,
}

impl rpc_message_header_v03_00 {
    /// Whether all of it is zero.
    pub open spec fn is_zeroed(self) -> bool {
        &&& self.header_version == 0
        &&& self.signature == 0
        &&& self.length == 0
        &&& self.function == 0
        &&& self.rpc_result == 0
        &&& self.rpc_result_private == 0
        &&& self.sequence == 0
        &&& self.u.is_zeroed()
        &&& self.rpc_message_data.elements() == Seq::<u8>::empty()
    }
}

impl Default for rpc_message_header_v03_00 {
    fn default() -> (value: Self)
        ensures
            value.is_zeroed(),
    {
        rpc_message_header_v03_00 {
            header_version: 0,
            signature: 0,
            length: 0,
            function: 0,
            rpc_result: 0,
            rpc_result_private: 0,
            sequence: 0,
            u: rpc_message_rpc_union_field_v03_00::default(),
            rpc_message_data: __IncompleteArrayField::new(),
        }
    }
}

/// Framebuffer layout and addresses for the GSP bootloader.
#[derive(Clone, Copy, Debug)]
pub struct GspFwWprMeta {
    pub magic: u64,
    pub revision: u64,
    pub sysmemAddrOfRadix3Elf: u64,
    pub sizeOfRadix3Elf: u64,
    pub sysmemAddrOfBootloader: u64,
    pub sizeOfBootloader: u64,
    pub bootloaderCodeOffset: u64,
    pub bootloaderDataOffset: u64,
    pub bootloaderManifestOffset: u64,
    pub __bindgen_anon_1: GspFwWprMeta__bindgen_ty_1,
    pub gspFwRsvdStart: u64,
    pub nonWprHeapOffset: u64,
    pub nonWprHeapSize: u64,
    pub gspFwWprStart: u64,
    pub gspFwHeapOffset: u64,
    pub gspFwHeapSize: u64,
    pub gspFwOffset: u64,
    pub bootBinOffset: u64,
    pub frtsOffset: u64,
    pub frtsSize: u64,
    pub gspFwWprEnd: u64,
    pub fbSize: u64,
    pub vgaWorkspaceOffset: u64,
    pub vgaWorkspaceSize: u64,
    pub bootCount: u64,
    pub __bindgen_anon_2: GspFwWprMeta__bindgen_ty_2,
    pub gspFwHeapVfPartitionCount: u8,
    pub flags: u8,
    pub pagingConfig: u16,
    pub pmuReservedSize: u32,
    pub verified: u64,
}

impl GspFwWprMeta {
    /// Whether all of it is zero.
    pub open spec fn is_zeroed(self) -> bool {
        &&& self.magic == 0
        &&& self.revision == 0
        &&& self.sysmemAddrOfRadix3Elf == 0
        &&& self.sizeOfRadix3Elf == 0
        &&& self.sysmemAddrOfBootloader == 0
        &&& self.sizeOfBootloader == 0
        &&& self.bootloaderCodeOffset == 0
        &&& self.bootloaderDataOffset == 0
        &&& self.bootloaderManifestOffset == 0
        &&& self.__bindgen_anon_1.is_zeroed()
        &&& self.gspFwRsvdStart == 0
        &&& self.nonWprHeapOffset == 0
        &&& self.nonWprHeapSize == 0
        &&& self.gspFwWprStart == 0
        &&& self.gspFwHeapOffset == 0
        &&& self.gspFwHeapSize == 0
        &&& self.gspFwOffset == 0
        &&& self.bootBinOffset == 0
        &&& self.frtsOffset == 0
        &&& self.frtsSize == 0
        &&& self.gspFwWprEnd == 0
        &&& self.fbSize == 0
        &&& self.vgaWorkspaceOffset == 0
        &&& self.vgaWorkspaceSize == 0
        &&& self.bootCount == 0
        &&& self.__bindgen_anon_2.is_zeroed()
        &&& self.gspFwHeapVfPartitionCount == 0
        &&& self.flags == 0
        &&& self.pagingConfig == 0
        &&& self.pmuReservedSize == 0
        &&& self.verified == 0
    }
}

impl Default for GspFwWprMeta {
    fn default() -> (value: Self)
        ensures
            value.is_zeroed(),
    {
        GspFwWprMeta {
            magic: 0,
            revision: 0,
            sysmemAddrOfRadix3Elf: 0,
            sizeOfRadix3Elf: 0,
            sysmemAddrOfBootloader: 0,
            sizeOfBootloader: 0,
            bootloaderCodeOffset: 0,
            bootloaderDataOffset: 0,
            bootloaderManifestOffset: 0,
            __bindgen_anon_1: GspFwWprMeta__bindgen_ty_1::default(),
            gspFwRsvdStart: 0,
            nonWprHeapOffset: 0,
            nonWprHeapSize: 0,
            gspFwWprStart: 0,
            gspFwHeapOffset: 0,
            gspFwHeapSize: 0,
            gspFwOffset: 0,
            bootBinOffset: 0,
            frtsOffset: 0,
            frtsSize: 0,
            gspFwWprEnd: 0,
            fbSize: 0,
            vgaWorkspaceOffset: 0,
            vgaWorkspaceSize: 0,
            bootCount: 0,
            __bindgen_anon_2: GspFwWprMeta__bindgen_ty_2::default(),
            gspFwHeapVfPartitionCount: 0,
            flags: 0,
            pagingConfig: 0,
            pmuReservedSize: 0,
            verified: 0,
        }
    }
}

/// What a boot needs to know, or a resume.
#[derive(Clone, Copy, Debug)]
pub enum GspFwWprMeta__bindgen_ty_1 {
    First(GspFwWprMeta__bindgen_ty_1__bindgen_ty_1),
    Second(GspFwWprMeta__bindgen_ty_1__bindgen_ty_2),
}

impl GspFwWprMeta__bindgen_ty_1 {
    /// Whether the first reading is all zeros.
    pub open spec fn is_zeroed(self) -> bool {
        match self {
            GspFwWprMeta__bindgen_ty_1::First(value) => value.is_zeroed(),
            GspFwWprMeta__bindgen_ty_1::Second(_) => false,
        }
    }
}

impl Default for GspFwWprMeta__bindgen_ty_1 {
    fn default() -> (value: Self)
        ensures
            value.is_zeroed(),
    {
        GspFwWprMeta__bindgen_ty_1::First(GspFwWprMeta__bindgen_ty_1__bindgen_ty_1::default())
    }
}

/// Signature of the firmware, for a boot.
#[derive(Clone, Copy, Debug)]
pub struct GspFwWprMeta__bindgen_ty_1__bindgen_ty_1 {
    pub sysmemAddrOfSignature: u64,
    pub sizeOfSignature: u64,
}

impl GspFwWprMeta__bindgen_ty_1__bindgen_ty_1 {
    /// Whether all of it is zero.
    pub open spec fn is_zeroed(self) -> bool {
        &&& self.sysmemAddrOfSignature == 0
        &&& self.sizeOfSignature == 0
    }
}

impl Default for GspFwWprMeta__bindgen_ty_1__bindgen_ty_1 {
    fn default() -> (value: Self)
        ensures
            value.is_zeroed(),
    {
        GspFwWprMeta__bindgen_ty_1__bindgen_ty_1 {
            sysmemAddrOfSignature: 0,
            sizeOfSignature: 0,
        }
    }
}

/// Free list of the heap, for a resume.
#[derive(Clone, Copy, Debug)]
pub struct GspFwWprMeta__bindgen_ty_1__bindgen_ty_2 {
    pub gspFwHeapFreeListWprOffset: u32,
    pub unused0: u32,
    pub unused1: u64,
}

impl GspFwWprMeta__bindgen_ty_1__bindgen_ty_2 {
    /// Whether all of it is zero.
    pub open spec fn is_zeroed(self) -> bool {
        &&& self.gspFwHeapFreeListWprOffset == 0
        &&& self.unused0 == 0
        &&& self.unused1 == 0
    }
}

impl Default for GspFwWprMeta__bindgen_ty_1__bindgen_ty_2 {
    fn default() -> (value: Self)
        ensures
            value.is_zeroed(),
    {
        GspFwWprMeta__bindgen_ty_1__bindgen_ty_2 {
            gspFwHeapFreeListWprOffset: 0,
            unused0: 0,
            unused1: 0,
        }
    }
}

/// Partition RPC information, or the crash report queue.
#[derive(Clone, Copy, Debug)]
pub enum GspFwWprMeta__bindgen_ty_2 {
    First(GspFwWprMeta__bindgen_ty_2__bindgen_ty_1),
    Second(GspFwWprMeta__bindgen_ty_2__bindgen_ty_2),
}

impl GspFwWprMeta__bindgen_ty_2 {
    /// Whether the first reading is all zeros.
    pub open spec fn is_zeroed(self) -> bool {
        match self {
            GspFwWprMeta__bindgen_ty_2::First(value) => value.is_zeroed(),
            GspFwWprMeta__bindgen_ty_2::Second(_) => false,
        }
    }
}

impl Default for GspFwWprMeta__bindgen_ty_2 {
    fn default() -> (value: Self)
        ensures
            value.is_zeroed(),
    {
        GspFwWprMeta__bindgen_ty_2::First(GspFwWprMeta__bindgen_ty_2__bindgen_ty_1::default())
    }
}

/// Partition RPC information.
#[derive(Clone, Copy, Debug)]
pub struct GspFwWprMeta__bindgen_ty_2__bindgen_ty_1 {
    pub partitionRpcAddr: u64,
    pub partitionRpcRequestOffset: u16,
    pub partitionRpcReplyOffset: u16,
    pub elfCodeOffset: u32,
    pub elfDataOffset: u32,
    pub elfCodeSize: u32,
    pub elfDataSize: u32,
    pub lsUcodeVersion: u32,
}

impl GspFwWprMeta__bindgen_ty_2__bindgen_ty_1 {
    /// Whether all of it is zero.
    pub open spec fn is_zeroed(self) -> bool {
        &&& self.partitionRpcAddr == 0
        &&& self.partitionRpcRequestOffset == 0
        &&& self.partitionRpcReplyOffset == 0
        &&& self.elfCodeOffset == 0
        &&& self.elfDataOffset == 0
        &&& self.elfCodeSize == 0
        &&& self.elfDataSize == 0
        &&& self.lsUcodeVersion == 0
    }
}

impl Default for GspFwWprMeta__bindgen_ty_2__bindgen_ty_1 {
    fn default() -> (value: Self)
        ensures
            value.is_zeroed(),
    {
        GspFwWprMeta__bindgen_ty_2__bindgen_ty_1 {
            partitionRpcAddr: 0,
            partitionRpcRequestOffset: 0,
            partitionRpcReplyOffset: 0,
            elfCodeOffset: 0,
            elfDataOffset: 0,
            elfCodeSize: 0,
            elfDataSize: 0,
            lsUcodeVersion: 0,
        }
    }
}

/// Crash report queue.
#[derive(Clone, Copy, Debug)]
pub struct GspFwWprMeta__bindgen_ty_2__bindgen_ty_2 {
    pub partitionRpcPadding: [u32; 4],
    pub sysmemAddrOfCrashReportQueue: u64,
    pub sizeOfCrashReportQueue: u32,
    pub lsUcodeVersionPadding: [u32; 1],
}

impl GspFwWprMeta__bindgen_ty_2__bindgen_ty_2 {
    /// Whether all of it is zero.
    pub open spec fn is_zeroed(self) -> bool {
        &&& forall|i: int| 0 <= i < 4 ==> self.partitionRpcPadding[i] == 0
        &&& self.sysmemAddrOfCrashReportQueue == 0
        &&& self.sizeOfCrashReportQueue == 0
        &&& forall|i: int| 0 <= i < 1 ==> self.lsUcodeVersionPadding[i] == 0
    }
}

impl Default for GspFwWprMeta__bindgen_ty_2__bindgen_ty_2 {
    fn default() -> (value: Self)
        ensures
            value.is_zeroed(),
    {
        GspFwWprMeta__bindgen_ty_2__bindgen_ty_2 {
            partitionRpcPadding: [0;4],
            sysmemAddrOfCrashReportQueue: 0,
            sizeOfCrashReportQueue: 0,
            lsUcodeVersionPadding: [0;1],
        }
    }
}

/// A memory region handed to LIBOS.
#[derive(Clone, Copy, Debug)]
pub struct LibosMemoryRegionInitArgument {
    pub id8: u64,
    pub pa: u64,
    pub size: u64,
    pub kind: u8,
    pub loc: u8,
    pub __bindgen_padding_0: [u8; 6],
}

impl LibosMemoryRegionInitArgument {
    /// Whether all of it is zero.
    pub open spec fn is_zeroed(self) -> bool {
        &&& self.id8 == 0
        &&& self.pa == 0
        &&& self.size == 0
        &&& self.kind == 0
        &&& self.loc == 0
        &&& forall|i: int| 0 <= i < 6 ==> self.__bindgen_padding_0[i] == 0
    }
}

impl Default for LibosMemoryRegionInitArgument {
    fn default() -> (value: Self)
        ensures
            value.is_zeroed(),
    {
        LibosMemoryRegionInitArgument {
            id8: 0,
            pa: 0,
            size: 0,
            kind: 0,
            loc: 0,
            __bindgen_padding_0: [0;6],
        }
    }
}

/// TX header of a message queue.
#[derive(Clone, Copy, Debug)]
pub struct msgqTxHeader {
    pub versionMajor: u16,
    pub versionMinor: u16,
    pub size: u32,
    pub msgSize: u32,
    pub msgCount: u32,
    pub entryOff: u32,
    pub reserved: [u32; 3],
}

impl msgqTxHeader {
    /// Whether all of it is zero.
    pub open spec fn is_zeroed(self) -> bool {
        &&& self.versionMajor == 0
        &&& self.versionMinor == 0
        &&& self.size == 0
        &&& self.msgSize == 0
        &&& self.msgCount == 0
        &&& self.entryOff == 0
        &&& forall|i: int| 0 <= i < 3 ==> self.reserved[i] == 0
    }
}

impl Default for msgqTxHeader {
    fn default() -> (value: Self)
        ensures
            value.is_zeroed(),
    {
        msgqTxHeader {
            versionMajor: 0,
            versionMinor: 0,
            size: 0,
            msgSize: 0,
            msgCount: 0,
            entryOff: 0,
            reserved: [0;3],
        }
    }
}

/// Authentication tag of an encrypted message.
#[derive(Clone, Copy, Debug)]
pub struct GSP_MSG_QUEUE_ENCRYPTION_TAG {
    pub authTagBuffer: [u8; 16],
}

impl GSP_MSG_QUEUE_ENCRYPTION_TAG {
    /// Whether all of it is zero.
    pub open spec fn is_zeroed(self) -> bool {
        &&& forall|i: int| 0 <= i < 16 ==> self.authTagBuffer[i] == 0
    }
}

impl Default for GSP_MSG_QUEUE_ENCRYPTION_TAG {
    fn default() -> (value: Self)
        ensures
            value.is_zeroed(),
    {
        GSP_MSG_QUEUE_ENCRYPTION_TAG {
            authTagBuffer: [0;16],
        }
    }
}

/// Element of a message queue.
pub struct GSP_MSG_QUEUE_ELEMENT {
    pub mctpMagic: u32,
    pub mctpPayloadSize: u32,
    pub mctpHeader: u32,
    pub nvdmHeader: u32,
    pub __bindgen_anon_1: GSP_MSG_QUEUE_ELEMENT__bindgen_ty_1,
}

impl GSP_MSG_QUEUE_ELEMENT {
    /// Whether all of it is zero.
    pub open spec fn is_zeroed(self) -> bool {
        &&& self.mctpMagic == 0
        &&& self.mctpPayloadSize == 0
        &&& self.mctpHeader == 0
        &&& self.nvdmHeader == 0
        &&& self.__bindgen_anon_1.is_zeroed()
    }
}

impl Default for GSP_MSG_QUEUE_ELEMENT {
    fn default() -> (value: Self)
        ensures
            value.is_zeroed(),
    {
        GSP_MSG_QUEUE_ELEMENT {
            mctpMagic: 0,
            mctpPayloadSize: 0,
            mctpHeader: 0,
            nvdmHeader: 0,
            __bindgen_anon_1: GSP_MSG_QUEUE_ELEMENT__bindgen_ty_1::default(),
        }
    }
}

/// The rest of an element, with or without encryption.
pub struct GSP_MSG_QUEUE_ELEMENT__bindgen_ty_1 {
    pub withEncryption: __BindgenUnionField<GSP_MSG_QUEUE_ELEMENT__bindgen_ty_1__bindgen_ty_1>,
    pub noEncryption: __BindgenUnionField<GSP_MSG_QUEUE_ELEMENT__bindgen_ty_1__bindgen_ty_2>,
    pub bindgen_union_field: [u32; 6],
}

impl GSP_MSG_QUEUE_ELEMENT__bindgen_ty_1 {
    /// Whether all of it is zero.
    pub open spec fn is_zeroed(self) -> bool {
        &&& forall|i: int| 0 <= i < 6 ==> self.bindgen_union_field[i] == 0
    }
}

impl Default for GSP_MSG_QUEUE_ELEMENT__bindgen_ty_1 {
    fn default() -> (value: Self)
        ensures
            value.is_zeroed(),
    {
        GSP_MSG_QUEUE_ELEMENT__bindgen_ty_1 {
            withEncryption: __BindgenUnionField::new(),
            noEncryption: __BindgenUnionField::new(),
            bindgen_union_field: [0;6],
        }
    }
}

/// The rest of an encrypted element.
pub struct GSP_MSG_QUEUE_ELEMENT__bindgen_ty_1__bindgen_ty_1 {
    pub encryptionTag: GSP_MSG_QUEUE_ENCRYPTION_TAG,
    pub nvdmPayloadSize: u32,
    pub reserved: u32,
    pub payload: __IncompleteArrayField<u8>,
}

impl GSP_MSG_QUEUE_ELEMENT__bindgen_ty_1__bindgen_ty_1 {
    /// Whether all of it is zero.
    pub open spec fn is_zeroed(self) -> bool {
        &&& self.encryptionTag.is_zeroed()
        &&& self.nvdmPayloadSize == 0
        &&& self.reserved == 0
        &&& self.payload.elements() == Seq::<u8>::empty()
    }
}

impl Default for GSP_MSG_QUEUE_ELEMENT__bindgen_ty_1__bindgen_ty_1 {
    fn default() -> (value: Self)
        ensures
            value.is_zeroed(),
    {
        GSP_MSG_QUEUE_ELEMENT__bindgen_ty_1__bindgen_ty_1 {
            encryptionTag: GSP_MSG_QUEUE_ENCRYPTION_TAG::default(),
            nvdmPayloadSize: 0,
            reserved: 0,
            payload: __IncompleteArrayField::new(),
        }
    }
}

/// The rest of an element that is not encrypted.
pub struct GSP_MSG_QUEUE_ELEMENT__bindgen_ty_1__bindgen_ty_2 {
    pub nvdmPayloadSize: u32,
    pub reserved: u32,
    pub payload: __IncompleteArrayField<u8>,
}

impl GSP_MSG_QUEUE_ELEMENT__bindgen_ty_1__bindgen_ty_2 {
    /// Whether all of it is zero.
    pub open spec fn is_zeroed(self) -> bool {
        &&& self.nvdmPayloadSize == 0
        &&& self.reserved == 0
        &&& self.payload.elements() == Seq::<u8>::empty()
    }
}

impl Default for GSP_MSG_QUEUE_ELEMENT__bindgen_ty_1__bindgen_ty_2 {
    fn default() -> (value: Self)
        ensures
            value.is_zeroed(),
    {
        GSP_MSG_QUEUE_ELEMENT__bindgen_ty_1__bindgen_ty_2 {
            nvdmPayloadSize: 0,
            reserved: 0,
            payload: __IncompleteArrayField::new(),
        }
    }
}

/// GMC API message header.
pub struct GMCAPI_HEADER {
    pub command_id: u32,
    pub reserved1: u32,
    pub sequence: u64,
    pub __bindgen_anon_1: GMCAPI_HEADER__bindgen_ty_1,
    pub reserved2: u64,
    pub data: __IncompleteArrayField<u8>,
}

impl GMCAPI_HEADER {
    /// Whether all of it is zero.
    pub open spec fn is_zeroed(self) -> bool {
        &&& self.command_id == 0
        &&& self.reserved1 == 0
        &&& self.sequence == 0
        &&& self.__bindgen_anon_1.is_zeroed()
        &&& self.reserved2 == 0
        &&& self.data.elements() == Seq::<u8>::empty()
    }
}

impl Default for GMCAPI_HEADER {
    fn default() -> (value: Self)
        ensures
            value.is_zeroed(),
    {
        GMCAPI_HEADER {
            command_id: 0,
            reserved1: 0,
            sequence: 0,
            __bindgen_anon_1: GMCAPI_HEADER__bindgen_ty_1::default(),
            reserved2: 0,
            data: __IncompleteArrayField::new(),
        }
    }
}

/// The part of the header that differs between requests and responses.
#[derive(Clone, Copy, Debug)]
pub enum GMCAPI_HEADER__bindgen_ty_1 {
    Request(GMCAPI_HEADER__bindgen_ty_1__bindgen_ty_1),
    Response(GMCAPI_HEADER__bindgen_ty_1__bindgen_ty_2),
}

impl GMCAPI_HEADER__bindgen_ty_1 {
    /// Whether the first reading is all zeros.
    pub open spec fn is_zeroed(self) -> bool {
        match self {
            GMCAPI_HEADER__bindgen_ty_1::Request(value) => value.is_zeroed(),
            GMCAPI_HEADER__bindgen_ty_1::Response(_) => false,
        }
    }
}

impl Default for GMCAPI_HEADER__bindgen_ty_1 {
    fn default() -> (value: Self)
        ensures
            value.is_zeroed(),
    {
        GMCAPI_HEADER__bindgen_ty_1::Request(GMCAPI_HEADER__bindgen_ty_1__bindgen_ty_1::default())
    }
}

/// Sizes of a request.
#[derive(Clone, Copy, Debug)]
pub struct GMCAPI_HEADER__bindgen_ty_1__bindgen_ty_1 {
    pub size: u32,
    pub max_response_size: u32,
}

impl GMCAPI_HEADER__bindgen_ty_1__bindgen_ty_1 {
    /// Whether all of it is zero.
    pub open spec fn is_zeroed(self) -> bool {
        &&& self.size == 0
        &&& self.max_response_size == 0
    }
}

impl Default for GMCAPI_HEADER__bindgen_ty_1__bindgen_ty_1 {
    fn default() -> (value: Self)
        ensures
            value.is_zeroed(),
    {
        GMCAPI_HEADER__bindgen_ty_1__bindgen_ty_1 {
            size: 0,
            max_response_size: 0,
        }
    }
}

/// Status and size of a response.
#[derive(Clone, Copy, Debug)]
pub struct GMCAPI_HEADER__bindgen_ty_1__bindgen_ty_2 {
    pub status: u32,
    pub size: u32,
}

impl GMCAPI_HEADER__bindgen_ty_1__bindgen_ty_2 {
    /// Whether all of it is zero.
    pub open spec fn is_zeroed(self) -> bool {
        &&& self.status == 0
        &&& self.size == 0
    }
}

impl Default for GMCAPI_HEADER__bindgen_ty_1__bindgen_ty_2 {
    fn default() -> (value: Self)
        ensures
            value.is_zeroed(),
    {
        GMCAPI_HEADER__bindgen_ty_1__bindgen_ty_2 {
            status: 0,
            size: 0,
        }
    }
}

} // verus!
