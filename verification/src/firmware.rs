//! Structures and functions dedicated to the parsing, building and patching of firmwares to be
//! loaded into a given execution unit.

pub mod bindata;
pub mod elf;
pub mod fwsec;
pub mod gen_bootloader;
pub mod radix3;

use vstd::prelude::*;
use vstd::slice::slice_subrange;
use vstd::string::*;
use vstd::utf8::encode_utf8;

use crate::bytes::{
    law_number_of_bytes, le_value, lemma_pow256_values, read_le, slice_to_vec,
};
use crate::error::Error;
use crate::firmware::elf::{elf_section, section_of};
use crate::gpu::{law_all_chipsets_listed, Architecture, Chipset};

verus! {

/// Version of the firmware files.
pub const FIRMWARE_VERSION: &'static str = "570.144";

/// The name of the section that holds the signatures of the GSP firmware for a chipset.
pub open spec fn signature_section(chipset: Chipset) -> Seq<char> {
    match chipset.arch() {
        Architecture::Turing => ".fwsignature_tu10x"@,
        Architecture::Ampere => ".fwsignature_ga10x"@,
        Architecture::Hopper => ".fwsignature_gh10x"@,
        Architecture::Ada => ".fwsignature_ad10x"@,
        Architecture::BlackwellGB10x => ".fwsignature_gb10x"@,
        Architecture::BlackwellGB20x => ".fwsignature_gb20x"@,
    }
}

/// Returns the name of the section that holds the signatures of the GSP firmware for `chipset`.
pub fn get_signature_section(chipset: Chipset) -> (section: &'static str)
    ensures
        section@ == signature_section(chipset),
{
    match chipset.arch() {
        Architecture::Turing => ".fwsignature_tu10x",
        Architecture::Ampere => ".fwsignature_ga10x",
        Architecture::Hopper => ".fwsignature_gh10x",
        Architecture::Ada => ".fwsignature_ad10x",
        Architecture::BlackwellGB10x => ".fwsignature_gb10x",
        Architecture::BlackwellGB20x => ".fwsignature_gb20x",
    }
}

/// How the firmware of a GPU is loaded.
#[derive(Clone, Copy, Debug, PartialEq, Eq, Structural)]
pub enum LoadPath {
    /// With the SEC2 falcon (Turing/Ampere/Ada).
    Sec2,
    /// With FSP (Hopper/Blackwell).
    Fsp,
}

impl LoadPath {
    /// Returns how the firmware of `chipset` is loaded. The SEC2 falcon has to be there if it is
    /// needed.
    pub fn select(chipset: Chipset, has_sec2: bool) -> (path: Result<LoadPath, Error>)
        ensures
            path == match chipset.arch() {
                Architecture::Turing | Architecture::Ampere | Architecture::Ada => if has_sec2 {
                    Ok::<LoadPath, Error>(LoadPath::Sec2)
                } else {
                    Err(Error::EINVAL)
                },
                _ => Ok(LoadPath::Fsp),
            },
    {
        match chipset.arch() {
            Architecture::Turing | Architecture::Ampere | Architecture::Ada => {
                if has_sec2 {
                    Ok(LoadPath::Sec2)
                } else {
                    Err(Error::EINVAL)
                }
            },
            _ => Ok(LoadPath::Fsp),
        }
    }

    /// The files that are loaded on this path, in order.
    pub open spec fn spec_files(self) -> Seq<Seq<char>> {
        match self {
            LoadPath::Sec2 => seq!["gsp"@, "bootloader"@, "booter_load"@, "booter_unload"@],
            LoadPath::Fsp => seq!["fmc"@, "gsp"@, "bootloader"@],
        }
    }

    /// Returns the names of the files that are loaded on this path, in order.
    pub fn files(self) -> (names: Vec<&'static str>)
        ensures
            names@.map_values(|name: &'static str| name@) == self.spec_files(),
    {
        let names: Vec<&'static str> = match self {
            LoadPath::Sec2 => vec!["gsp", "bootloader", "booter_load", "booter_unload"],
            LoadPath::Fsp => vec!["fmc", "gsp", "bootloader"],
        };
        assert(names@.map_values(|name: &'static str| name@) =~= self.spec_files());
        names
    }
}

/// Architecture-specific firmware data.
///
/// Different GPU architectures require different firmware components:
/// - SEC2-based architectures (Turing/Ampere/Ada) use booter_load/unload firmware
/// - FSP-based architectures (Hopper/Blackwell) use FMC firmware
pub enum ArchFirmwareData<B, D> {
    /// Firmware data for SEC2-based architectures
    Sec2 {
        /// Firmware for loading GSP via SEC2
        booter_load: B,
        /// Firmware for unloading GSP via SEC2
        booter_unload: B,
    },
    /// Firmware data for FSP-based architectures
    Fsp {
        /// FMC firmware image data (only the image section)
        fmc_image: D,
        /// Full FMC ELF data (for signature extraction)
        fmc_full: D,
    },
}

impl<B, D> ArchFirmwareData<B, D> {
    /// Get booter_load firmware for SEC2-based architectures.
    /// Returns None for FSP-based architectures.
    pub fn booter_load(&self) -> (firmware: Option<&B>)
        ensures
            match *self {
                ArchFirmwareData::Sec2 { booter_load, booter_unload: _ } => firmware == Some(
                    &booter_load,
                ),
                ArchFirmwareData::Fsp { fmc_image: _, fmc_full: _ } => firmware is None,
            },
    {
        match self {
            ArchFirmwareData::Sec2 { booter_load, .. } => Some(booter_load),
            ArchFirmwareData::Fsp { .. } => None,
        }
    }

    /// Get booter_unload firmware for SEC2-based architectures.
    /// Returns None for FSP-based architectures.
    pub fn booter_unload(&self) -> (firmware: Option<&B>)
        ensures
            match *self {
                ArchFirmwareData::Sec2 { booter_load: _, booter_unload } => firmware == Some(
                    &booter_unload,
                ),
                ArchFirmwareData::Fsp { fmc_image: _, fmc_full: _ } => firmware is None,
            },
    {
        match self {
            ArchFirmwareData::Sec2 { booter_unload, .. } => Some(booter_unload),
            ArchFirmwareData::Fsp { .. } => None,
        }
    }

    /// Get FMC data for FSP-based architectures.
    /// Returns (fmc_image, fmc_full) tuple, or None for SEC2-based architectures.
    pub fn fmc_data(&self) -> (data: Option<(&D, &D)>)
        ensures
            match *self {
                ArchFirmwareData::Sec2 { booter_load: _, booter_unload: _ } => data is None,
                ArchFirmwareData::Fsp { fmc_image, fmc_full } => data == Some(
                    (&fmc_image, &fmc_full),
                ),
            },
    {
        match self {
            ArchFirmwareData::Sec2 { .. } => None,
            ArchFirmwareData::Fsp { fmc_image, fmc_full } => Some((fmc_image, fmc_full)),
        }
    }

    /// Get just the FMC image data for FSP-based architectures.
    /// Returns None for SEC2-based architectures.
    pub fn fmc_image(&self) -> (image: Option<&D>)
        ensures
            match *self {
                ArchFirmwareData::Sec2 { booter_load: _, booter_unload: _ } => image is None,
                ArchFirmwareData::Fsp { fmc_image, fmc_full: _ } => image == Some(&fmc_image),
            },
    {
        match self {
            ArchFirmwareData::Sec2 { .. } => None,
            ArchFirmwareData::Fsp { fmc_image, .. } => Some(fmc_image),
        }
    }

    /// Get the full FMC ELF data for FSP-based architectures.
    /// Returns None for SEC2-based architectures.
    pub fn fmc_full(&self) -> (full: Option<&D>)
        ensures
            match *self {
                ArchFirmwareData::Sec2 { booter_load: _, booter_unload: _ } => full is None,
                ArchFirmwareData::Fsp { fmc_image: _, fmc_full } => full == Some(&fmc_full),
            },
    {
        match self {
            ArchFirmwareData::Sec2 { .. } => None,
            ArchFirmwareData::Fsp { fmc_full, .. } => Some(fmc_full),
        }
    }
}

/// The path of a firmware file.
pub open spec fn path_of(chip_name: Seq<char>, ver: Seq<char>, name: Seq<char>) -> Seq<char> {
    "nvidia/"@ + chip_name + "/gsp/"@ + name + "-"@ + ver + ".bin"@
}

/// Returns whether `s` holds a NUL character.
fn has_nul(s: &str) -> (result: bool)
    ensures
        result == s@.contains('\0'),
{
    let total: usize = s.unicode_len();
    let mut i: usize = 0;
    while i < total
        invariant
            i <= total,
            total == s@.len(),
            forall|k: int| 0 <= k < i ==> s@[k] != '\0',
        decreases total - i,
    {
        if s.get_char(i) == '\0' {
            assert(s@[i as int] == '\0');
            return true;
        }
        i = i + 1;
    }
    false
}

/// Appends the path of a firmware file to nothing.
fn join_path(chipset: Chipset, ver: &str, name: &str) -> (path: String)
    ensures
        path@ == path_of(chipset.spec_name(), ver@, name@),
{
    let mut path = String::from_str("nvidia/");
    path.append(chipset.name());
    path.append("/gsp/");
    path.append(name);
    path.append("-");
    path.append(ver);
    path.append(".bin");
    path
}

/// Returns the path of a firmware file of `chipset`. It is handed on as a C string, so it cannot
/// hold a NUL character.
pub fn firmware_path(chipset: Chipset, ver: &str, name: &str) -> (path: Result<String, Error>)
    ensures
        match path {
            Ok(path) => {
                &&& !ver@.contains('\0') && !name@.contains('\0')
                &&& path@ == path_of(chipset.spec_name(), ver@, name@)
            },
            Err(error) => {
                &&& ver@.contains('\0') || name@.contains('\0')
                &&& error == Error::EINVAL
            },
        },
{
    if has_nul(ver) || has_nul(name) {
        return Err(Error::EINVAL);
    }
    Ok(join_path(chipset, ver, name))
}

/// The files that a module declares for one chipset.
pub open spec fn declared_file(k: int) -> Seq<char> {
    if k == 0 {
        "booter_load"@
    } else if k == 1 {
        "booter_unload"@
    } else if k == 2 {
        "bootloader"@
    } else {
        "gsp"@
    }
}

/// The files that a module declares, four for each chipset.
pub open spec fn declared_paths(chipsets: Seq<Chipset>) -> Seq<Seq<char>> {
    Seq::new(
        4 * chipsets.len(),
        |k: int|
            path_of(chipsets[k / 4].spec_name(), FIRMWARE_VERSION@, declared_file(k % 4)),
    )
}

/// The paths that strings hold.
pub open spec fn texts(strings: Seq<String>) -> Seq<Seq<char>> {
    Seq::new(strings.len(), |k: int| strings[k]@)
}

/// Returns the paths of the firmware files that the driver module declares: four for each chipset.
pub fn mod_info_paths() -> (paths: Vec<String>)
    ensures
        texts(paths@) == declared_paths(Chipset::spec_all()),
{
    let chipsets = Chipset::all();
    let total: usize = chipsets.len();
    let mut paths: Vec<String> = Vec::new();
    let mut i: usize = 0;
    while i < total
        invariant
            i <= total,
            total == chipsets@.len(),
            texts(paths@) == declared_paths(chipsets@.take(i as int)),
        decreases total - i,
    {
        let ghost before = paths@;
        let chipset = chipsets[i];
        paths.push(join_path(chipset, FIRMWARE_VERSION, "booter_load"));
        paths.push(join_path(chipset, FIRMWARE_VERSION, "booter_unload"));
        paths.push(join_path(chipset, FIRMWARE_VERSION, "bootloader"));
        paths.push(join_path(chipset, FIRMWARE_VERSION, "gsp"));
        i = i + 1;
        proof {
            let old_paths = declared_paths(chipsets@.take(i - 1));
            let new_paths = declared_paths(chipsets@.take(i as int));
            assert(texts(before).len() == 4 * (i - 1));
            assert forall|k: int| 0 <= k < 4 * i implies texts(paths@)[k] == new_paths[k] by {
                if k < 4 * (i - 1) {
                    assert(texts(paths@)[k] == texts(before)[k]);
                    assert(old_paths[k] == new_paths[k]);
                }
            }
            assert(texts(paths@) =~= new_paths);
        }
    }
    assert(chipsets@.take(total as int) =~= chipsets@);
    paths
}

/// Every file that is loaded with the help of SEC2 is one that the module declares.
pub proof fn law_sec2_files_are_declared(chipset: Chipset, i: int)
    requires
        0 <= i < LoadPath::Sec2.spec_files().len(),
    ensures
        declared_paths(Chipset::spec_all()).contains(
            path_of(chipset.spec_name(), FIRMWARE_VERSION@, LoadPath::Sec2.spec_files()[i]),
        ),
{
    let all = Chipset::spec_all();
    law_all_chipsets_listed(chipset);
    let c = choose|c: int| 0 <= c < all.len() && all[c] == chipset;
    let k = 4 * c + if i == 0 {
        3
    } else if i == 1 {
        2int
    } else {
        i - 2
    };
    assert(declared_paths(all)[k] == path_of(
        chipset.spec_name(),
        FIRMWARE_VERSION@,
        LoadPath::Sec2.spec_files()[i],
    ));
}

/// The header that the GSP firmware image starts with.
#[derive(Clone, Copy, Debug, PartialEq, Eq, Structural)]
pub struct BinHdr {
    pub bin_magic: u32,
    pub bin_ver: u32,
    pub bin_size: u32,
    pub header_offset: u32,
    pub data_offset: u32,
    pub data_size: u32,
}

/// The `i`-th 32-bit number of some bytes.
pub open spec fn word(bytes: Seq<u8>, i: int) -> u32 {
    le_value(bytes.subrange(4 * i, 4 * i + 4)) as u32
}

/// Returns the `i`-th 32-bit number of some bytes.
fn read_word(bytes: &[u8], i: usize) -> (value: u32)
    requires
        i < 0x1000,
        4 * i + 4 <= bytes@.len(),
    ensures
        value == word(bytes@, i as int),
{
    proof {
        lemma_pow256_values();
    }
    read_le(bytes, 4 * i, 4) as u32
}

impl BinHdr {
    /// The header in the first 24 bytes of `bytes`.
    pub open spec fn spec_from_bytes(bytes: Seq<u8>) -> BinHdr {
        BinHdr {
            bin_magic: word(bytes, 0),
            bin_ver: word(bytes, 1),
            bin_size: word(bytes, 2),
            header_offset: word(bytes, 3),
            data_offset: word(bytes, 4),
            data_size: word(bytes, 5),
        }
    }

    /// Returns the header that `bytes` starts with.
    pub fn from_bytes(bytes: &[u8]) -> (header: Option<BinHdr>)
        ensures
            header == if bytes@.len() >= 24 {
                Some(BinHdr::spec_from_bytes(bytes@))
            } else {
                None
            },
    {
        if bytes.len() < 24 {
            return None;
        }
        Some(
            BinHdr {
                bin_magic: read_word(bytes, 0),
                bin_ver: read_word(bytes, 1),
                bin_size: read_word(bytes, 2),
                header_offset: read_word(bytes, 3),
                data_offset: read_word(bytes, 4),
                data_size: read_word(bytes, 5),
            },
        )
    }
}

/// The descriptor of a RISC-V ucode.
#[derive(Clone, Copy, Debug, PartialEq, Eq, Structural)]
pub struct RmRiscvUCodeDesc {
    pub version: u32,
    pub bootloader_offset: u32,
    pub bootloader_size: u32,
    pub bootloader_param_offset: u32,
    pub bootloader_param_size: u32,
    pub riscv_elf_offset: u32,
    pub riscv_elf_size: u32,
    pub app_version: u32,
    pub manifest_offset: u32,
    pub manifest_size: u32,
    pub monitor_data_offset: u32,
    pub monitor_data_size: u32,
    pub monitor_code_offset: u32,
    pub monitor_code_size: u32,
}

impl RmRiscvUCodeDesc {
    /// The descriptor in the first 56 bytes of `bytes`.
    pub open spec fn spec_from_bytes(bytes: Seq<u8>) -> RmRiscvUCodeDesc {
        RmRiscvUCodeDesc {
            version: word(bytes, 0),
            bootloader_offset: word(bytes, 1),
            bootloader_size: word(bytes, 2),
            bootloader_param_offset: word(bytes, 3),
            bootloader_param_size: word(bytes, 4),
            riscv_elf_offset: word(bytes, 5),
            riscv_elf_size: word(bytes, 6),
            app_version: word(bytes, 7),
            manifest_offset: word(bytes, 8),
            manifest_size: word(bytes, 9),
            monitor_data_offset: word(bytes, 10),
            monitor_data_size: word(bytes, 11),
            monitor_code_offset: word(bytes, 12),
            monitor_code_size: word(bytes, 13),
        }
    }

    /// Returns the descriptor that `bytes` starts with.
    pub fn from_bytes(bytes: &[u8]) -> (desc: Option<RmRiscvUCodeDesc>)
        ensures
            desc == if bytes@.len() >= 56 {
                Some(RmRiscvUCodeDesc::spec_from_bytes(bytes@))
            } else {
                None
            },
    {
        if bytes.len() < 56 {
            return None;
        }
        Some(
            RmRiscvUCodeDesc {
                version: read_word(bytes, 0),
                bootloader_offset: read_word(bytes, 1),
                bootloader_size: read_word(bytes, 2),
                bootloader_param_offset: read_word(bytes, 3),
                bootloader_param_size: read_word(bytes, 4),
                riscv_elf_offset: read_word(bytes, 5),
                riscv_elf_size: read_word(bytes, 6),
                app_version: read_word(bytes, 7),
                manifest_offset: read_word(bytes, 8),
                manifest_size: read_word(bytes, 9),
                monitor_data_offset: read_word(bytes, 10),
                monitor_data_size: read_word(bytes, 11),
                monitor_code_offset: read_word(bytes, 12),
                monitor_code_size: read_word(bytes, 13),
            },
        )
    }

    /// Returns the version of the application.
    pub fn app_version(&self) -> (version: u32)
        ensures
            version == self.app_version,
    {
        self.app_version
    }

    /// The descriptor of an image: where the header of the image says that it is.
    pub open spec fn spec_of_image(image: Seq<u8>) -> Option<RmRiscvUCodeDesc> {
        let offset = BinHdr::spec_from_bytes(image).header_offset;
        if image.len() >= 24 && offset + 56 <= image.len() {
            Some(RmRiscvUCodeDesc::spec_from_bytes(image.skip(offset as int)))
        } else {
            None
        }
    }

    /// Returns the descriptor of an image.
    pub fn of_image(image: &[u8]) -> (desc: Option<RmRiscvUCodeDesc>)
        ensures
            desc == RmRiscvUCodeDesc::spec_of_image(image@),
    {
        let total: usize = image.len();
        let header = match BinHdr::from_bytes(image) {
            Some(header) => header,
            None => {
                return None;
            },
        };
        if total < 56 || header.header_offset as u64 > (total - 56) as u64 {
            return None;
        }
        let offset: usize = header.header_offset as usize;
        assert(image@.subrange(offset as int, total as int) =~= image@.skip(offset as int));
        RmRiscvUCodeDesc::from_bytes(slice_subrange(image, offset, total))
    }
}

/// The parts of the GSP firmware file that a GPU needs.
pub struct GspParts<'a> {
    /// The firmware image.
    pub image: &'a [u8],
    /// The descriptor of the image.
    pub desc: RmRiscvUCodeDesc,
    /// The signatures for the chipset.
    pub signatures: &'a [u8],
}

/// Returns the parts of the GSP firmware file `elf` that `chipset` needs. Each of them has to be
/// there.
pub fn gsp_parts<'a>(elf: &'a [u8], chipset: Chipset) -> (parts: Result<GspParts<'a>, Error>)
    ensures
        ({
            let image = section_of(elf@, encode_utf8(".fwimage"@));
            let signatures = section_of(elf@, encode_utf8(signature_section(chipset)));
            match parts {
                Ok(parts) => {
                    &&& image == Some(parts.image@)
                    &&& RmRiscvUCodeDesc::spec_of_image(parts.image@) == Some(parts.desc)
                    &&& signatures == Some(parts.signatures@)
                },
                Err(error) => {
                    &&& error == Error::EINVAL
                    &&& {
                        ||| image is None
                        ||| RmRiscvUCodeDesc::spec_of_image(image.unwrap()) is None
                        ||| signatures is None
                    }
                },
            }
        }),
{
    let image = match elf_section(elf, ".fwimage") {
        Some(image) => image,
        None => {
            return Err(Error::EINVAL);
        },
    };
    let desc = match RmRiscvUCodeDesc::of_image(image) {
        Some(desc) => desc,
        None => {
            return Err(Error::EINVAL);
        },
    };
    match elf_section(elf, get_signature_section(chipset)) {
        Some(signatures) => Ok(GspParts { image, desc, signatures }),
        None => Err(Error::EINVAL),
    }
}

/// Returns the image in an FMC firmware file. FSP expects only the image section, not the entire ELF
/// file.
pub fn fmc_image_data<'a>(elf: &'a [u8]) -> (image: Result<&'a [u8], Error>)
    ensures
        match image {
            Ok(image) => section_of(elf@, encode_utf8("image"@)) == Some(image@),
            Err(error) => {
                &&& error == Error::EINVAL
                &&& section_of(elf@, encode_utf8("image"@)) is None
            },
        },
{
    match elf_section(elf, "image") {
        Some(image) => Ok(image),
        None => Err(Error::EINVAL),
    }
}

/// Structure used to describe some firmwares, notably FWSEC-FRTS.
#[derive(Clone, Copy, Debug, PartialEq, Eq, Structural)]
pub struct FalconUCodeDescV2 {
    /// Header, with its size in the upper half.
    pub hdr: u32,
    /// Stored size of the ucode after the header, compressed or uncompressed
    pub stored_size: u32,
    /// Uncompressed size of the ucode.  If store_size == uncompressed_size, then the ucode
    /// is not compressed.
    pub uncompressed_size: u32,
    /// Code entry point
    pub virtual_entry: u32,
    /// Offset after the code segment at which the Application Interface Table headers are located.
    pub interface_offset: u32,
    /// Base address at which to load the code segment into 'IMEM'.
    pub imem_phys_base: u32,
    /// Size in bytes of the code to copy into 'IMEM'.
    pub imem_load_size: u32,
    /// Virtual 'IMEM' address (i.e. 'tag') at which the code should start.
    pub imem_virt_base: u32,
    /// Virtual address of secure IMEM segment.
    pub imem_sec_base: u32,
    /// Size of secure IMEM segment.
    pub imem_sec_size: u32,
    /// Offset into stored (uncompressed) image at which DMEM begins.
    pub dmem_offset: u32,
    /// Base address at which to load the data segment into 'DMEM'.
    pub dmem_phys_base: u32,
    /// Size in bytes of the data to copy into 'DMEM'.
    pub dmem_load_size: u32,
    /// "Alternate" Size of data to load into IMEM.
    pub alt_imem_load_size: u32,
    /// "Alternate" Size of data to load into DMEM.
    pub alt_dmem_load_size: u32,
}

/// Structure used to describe some firmwares, notably FWSEC-FRTS.
#[derive(Clone, Copy, Debug, PartialEq, Eq, Structural)]
pub struct FalconUCodeDescV3 {
    /// Header, with its size in the upper half.
    pub hdr: u32,
    /// Stored size of the ucode after the header.
    pub stored_size: u32,
    /// Offset in `DMEM` at which the signature is expected to be found.
    pub pkc_data_offset: u32,
    /// Offset after the code segment at which the app headers are located.
    pub interface_offset: u32,
    /// Base address at which to load the code segment into `IMEM`.
    pub imem_phys_base: u32,
    /// Size in bytes of the code to copy into `IMEM`.
    pub imem_load_size: u32,
    /// Virtual `IMEM` address (i.e. `tag`) at which the code should start.
    pub imem_virt_base: u32,
    /// Base address at which to load the data segment into `DMEM`.
    pub dmem_phys_base: u32,
    /// Size in bytes of the data to copy into `DMEM`.
    pub dmem_load_size: u32,
    /// Mask of the falcon engines on which this firmware can run.
    pub engine_id_mask: u16,
    /// ID of the ucode used to infer a fuse register to validate the signature.
    pub ucode_id: u8,
    /// Number of signatures in this firmware.
    pub signature_count: u8,
    /// Versions of the signatures, used to infer a valid signature to use.
    pub signature_versions: u16,
}

/// Description of a firmware, in one of its two forms.
#[derive(Clone, Copy, Debug, PartialEq, Eq, Structural)]
pub enum FalconUCodeDesc {
    V2(FalconUCodeDescV2),
    V3(FalconUCodeDescV3),
}

impl FalconUCodeDesc {
    /// Returns the size in bytes of the header: the upper half of its first word.
    pub fn size(&self) -> (size: usize)
        ensures
            size == match *self {
                FalconUCodeDesc::V2(v2) => v2.hdr,
                FalconUCodeDesc::V3(v3) => v3.hdr,
            } / 0x1_0000,
    {
        let hdr: u32 = match self {
            FalconUCodeDesc::V2(v2) => v2.hdr,
            FalconUCodeDesc::V3(v3) => v3.hdr,
        };
        (hdr / 0x1_0000) as usize
    }

    /// Returns the size in bytes of the code to copy into IMEM.
    pub fn imem_load_size(&self) -> (size: u32)
        ensures
            size == match *self {
                FalconUCodeDesc::V2(v2) => v2.imem_load_size,
                FalconUCodeDesc::V3(v3) => v3.imem_load_size,
            },
    {
        match self {
            FalconUCodeDesc::V2(v2) => v2.imem_load_size,
            FalconUCodeDesc::V3(v3) => v3.imem_load_size,
        }
    }

    /// Returns the offset after the code segment at which the app headers are located.
    pub fn interface_offset(&self) -> (offset: u32)
        ensures
            offset == match *self {
                FalconUCodeDesc::V2(v2) => v2.interface_offset,
                FalconUCodeDesc::V3(v3) => v3.interface_offset,
            },
    {
        match self {
            FalconUCodeDesc::V2(v2) => v2.interface_offset,
            FalconUCodeDesc::V3(v3) => v3.interface_offset,
        }
    }

    /// Returns the size in bytes of the data to copy into DMEM.
    pub fn dmem_load_size(&self) -> (size: u32)
        ensures
            size == match *self {
                FalconUCodeDesc::V2(v2) => v2.dmem_load_size,
                FalconUCodeDesc::V3(v3) => v3.dmem_load_size,
            },
    {
        match self {
            FalconUCodeDesc::V2(v2) => v2.dmem_load_size,
            FalconUCodeDesc::V3(v3) => v3.dmem_load_size,
        }
    }

    /// Returns the offset in DMEM of the signature. There is none in the older form.
    pub fn pkc_data_offset(&self) -> (offset: u32)
        ensures
            offset == match *self {
                FalconUCodeDesc::V2(_) => 0,
                FalconUCodeDesc::V3(v3) => v3.pkc_data_offset,
            },
    {
        match self {
            FalconUCodeDesc::V2(_) => 0,
            FalconUCodeDesc::V3(v3) => v3.pkc_data_offset,
        }
    }

    /// Returns the mask of the falcon engines on which the firmware can run.
    pub fn engine_id_mask(&self) -> (mask: u16)
        ensures
            mask == match *self {
                FalconUCodeDesc::V2(_) => 0,
                FalconUCodeDesc::V3(v3) => v3.engine_id_mask,
            },
    {
        match self {
            FalconUCodeDesc::V2(_) => 0,
            FalconUCodeDesc::V3(v3) => v3.engine_id_mask,
        }
    }

    /// Returns the ID of the ucode.
    pub fn ucode_id(&self) -> (id: u8)
        ensures
            id == match *self {
                FalconUCodeDesc::V2(_) => 0,
                FalconUCodeDesc::V3(v3) => v3.ucode_id,
            },
    {
        match self {
            FalconUCodeDesc::V2(_) => 0,
            FalconUCodeDesc::V3(v3) => v3.ucode_id,
        }
    }

    /// Returns the number of signatures in the firmware.
    pub fn signature_count(&self) -> (count: u8)
        ensures
            count == match *self {
                FalconUCodeDesc::V2(_) => 0,
                FalconUCodeDesc::V3(v3) => v3.signature_count,
            },
    {
        match self {
            FalconUCodeDesc::V2(_) => 0,
            FalconUCodeDesc::V3(v3) => v3.signature_count,
        }
    }

    /// Returns the versions of the signatures.
    pub fn signature_versions(&self) -> (versions: u16)
        ensures
            versions == match *self {
                FalconUCodeDesc::V2(_) => 0,
                FalconUCodeDesc::V3(v3) => v3.signature_versions,
            },
    {
        match self {
            FalconUCodeDesc::V2(_) => 0,
            FalconUCodeDesc::V3(v3) => v3.signature_versions,
        }
    }

    /// Returns the base address at which to load the code segment into IMEM.
    pub fn imem_phys_base(&self) -> (base: u32)
        ensures
            base == match *self {
                FalconUCodeDesc::V2(v2) => v2.imem_phys_base,
                FalconUCodeDesc::V3(v3) => v3.imem_phys_base,
            },
    {
        match self {
            FalconUCodeDesc::V2(v2) => v2.imem_phys_base,
            FalconUCodeDesc::V3(v3) => v3.imem_phys_base,
        }
    }

    /// Returns the base address at which to load the data segment into DMEM.
    pub fn dmem_phys_base(&self) -> (base: u32)
        ensures
            base == match *self {
                FalconUCodeDesc::V2(v2) => v2.dmem_phys_base,
                FalconUCodeDesc::V3(v3) => v3.dmem_phys_base,
            },
    {
        match self {
            FalconUCodeDesc::V2(v2) => v2.dmem_phys_base,
            FalconUCodeDesc::V3(v3) => v3.dmem_phys_base,
        }
    }
}

/// A microcode that has been signed, ready to be loaded into a falcon.
pub struct SignedFirmware {
    pub data: Vec<u8>,
}

/// A microcode that must be signed before it can be loaded into a falcon.
///
/// It must generally be patched with a signature (with an exception for development hardware). The
/// [`Self::patch_signature`] and [`Self::no_patch_signature`] methods are used to make it a
/// [`SignedFirmware`].
pub struct UnsignedFirmware {
    pub data: Vec<u8>,
}

/// Some data, with a part of it replaced by a signature.
pub open spec fn patched(data: Seq<u8>, signature: Seq<u8>, at: int) -> Seq<u8> {
    data.take(at) + signature + data.skip(at + signature.len())
}

impl UnsignedFirmware {
    /// Patches the firmware at offset `sig_base_img` with `signature`.
    pub fn patch_signature(self, signature: &[u8], sig_base_img: usize) -> (firmware: Result<
        SignedFirmware,
        Error,
    >)
        ensures
            match firmware {
                Ok(firmware) => {
                    &&& sig_base_img + signature@.len() <= self.data@.len()
                    &&& firmware.data@ == patched(self.data@, signature@, sig_base_img as int)
                },
                Err(error) => {
                    &&& sig_base_img + signature@.len() > self.data@.len()
                    &&& error == Error::EINVAL
                },
            },
    {
        let total: usize = self.data.len();
        let len: usize = signature.len();
        if sig_base_img > total || len > total - sig_base_img {
            return Err(Error::EINVAL);
        }
        let mut data = slice_to_vec(self.data.as_slice());
        let mut i: usize = 0;
        while i < len
            invariant
                i <= len,
                len == signature@.len(),
                sig_base_img + len <= total,
                total == self.data@.len(),
                data@ == patched(self.data@, signature@.take(i as int), sig_base_img as int),
            decreases len - i,
        {
            data[sig_base_img + i] = signature[i];
            i = i + 1;
            assert(data@ =~= patched(
                self.data@,
                signature@.take(i as int),
                sig_base_img as int,
            ));
        }
        assert(signature@.take(len as int) =~= signature@);
        Ok(SignedFirmware { data })
    }

    /// Mark the firmware as signed without patching it.
    ///
    /// This method is used to explicitly confirm that we do not need to sign the firmware, while
    /// allowing us to continue as if it was. This is typically only needed for development
    /// hardware.
    pub fn no_patch_signature(self) -> (firmware: SignedFirmware)
        ensures
            firmware.data@ == self.data@,
    {
        SignedFirmware { data: self.data }
    }
}

/// A patched firmware keeps its size, holds the signature where it was put, and is otherwise
/// unchanged.
pub proof fn law_patched(data: Seq<u8>, signature: Seq<u8>, at: int)
    requires
        0 <= at,
        at + signature.len() <= data.len(),
    ensures
        ({
            let result = patched(data, signature, at);
            &&& result.len() == data.len()
            &&& result.subrange(at, at + signature.len()) == signature
            &&& forall|i: int|
                0 <= i < data.len() && !(at <= i < at + signature.len()) ==> result[i] == data[i]
        }),
{
    assert(patched(data, signature, at).subrange(at, at + signature.len()) =~= signature);
}

/// The number of four bytes is a 32-bit number.
proof fn lemma_word(bytes: Seq<u8>, i: int)
    requires
        0 <= i,
        4 * i + 4 <= bytes.len(),
    ensures
        word(bytes, i) == le_value(bytes.subrange(4 * i, 4 * i + 4)),
{
    law_number_of_bytes(bytes.subrange(4 * i, 4 * i + 4));
}

/// The header of an image is six 32-bit numbers, lowest byte first, one after the other.
pub proof fn law_image_header_fields(bytes: Seq<u8>)
    requires
        bytes.len() >= 24,
    ensures
        ({
            let header = BinHdr::spec_from_bytes(bytes);
            &&& header.bin_magic == le_value(bytes.subrange(0, 4))
            &&& header.bin_ver == le_value(bytes.subrange(4, 8))
            &&& header.bin_size == le_value(bytes.subrange(8, 12))
            &&& header.header_offset == le_value(bytes.subrange(12, 16))
            &&& header.data_offset == le_value(bytes.subrange(16, 20))
            &&& header.data_size == le_value(bytes.subrange(20, 24))
        }),
{
    lemma_word(bytes, 0);
    lemma_word(bytes, 1);
    lemma_word(bytes, 2);
    lemma_word(bytes, 3);
    lemma_word(bytes, 4);
    lemma_word(bytes, 5);
}

/// The descriptor of a ucode is fourteen 32-bit numbers, lowest byte first, one after the other.
pub proof fn law_ucode_descriptor_fields(bytes: Seq<u8>)
    requires
        bytes.len() >= 56,
    ensures
        ({
            let desc = RmRiscvUCodeDesc::spec_from_bytes(bytes);
            &&& desc.version == le_value(bytes.subrange(0, 4))
            &&& desc.bootloader_offset == le_value(bytes.subrange(4, 8))
            &&& desc.bootloader_size == le_value(bytes.subrange(8, 12))
            &&& desc.bootloader_param_offset == le_value(bytes.subrange(12, 16))
            &&& desc.bootloader_param_size == le_value(bytes.subrange(16, 20))
            &&& desc.riscv_elf_offset == le_value(bytes.subrange(20, 24))
            &&& desc.riscv_elf_size == le_value(bytes.subrange(24, 28))
            &&& desc.app_version == le_value(bytes.subrange(28, 32))
            &&& desc.manifest_offset == le_value(bytes.subrange(32, 36))
            &&& desc.manifest_size == le_value(bytes.subrange(36, 40))
            &&& desc.monitor_data_offset == le_value(bytes.subrange(40, 44))
            &&& desc.monitor_data_size == le_value(bytes.subrange(44, 48))
            &&& desc.monitor_code_offset == le_value(bytes.subrange(48, 52))
            &&& desc.monitor_code_size == le_value(bytes.subrange(52, 56))
        }),
{
    lemma_word(bytes, 0);
    lemma_word(bytes, 1);
    lemma_word(bytes, 2);
    lemma_word(bytes, 3);
    lemma_word(bytes, 4);
    lemma_word(bytes, 5);
    lemma_word(bytes, 6);
    lemma_word(bytes, 7);
    lemma_word(bytes, 8);
    lemma_word(bytes, 9);
    lemma_word(bytes, 10);
    lemma_word(bytes, 11);
    lemma_word(bytes, 12);
    lemma_word(bytes, 13);
}

/// The descriptor of an image is at the offset that is the number at 12 in the image. There is one
/// where the image has a header and the 56 bytes from that offset on.
pub proof fn law_descriptor_of_image(image: Seq<u8>)
    ensures
        image.len() < 24 ==> RmRiscvUCodeDesc::spec_of_image(image) is None,
        image.len() >= 24 ==> {
            let offset = le_value(image.subrange(12, 16)) as int;
            match RmRiscvUCodeDesc::spec_of_image(image) {
                Some(desc) => {
                    &&& offset + 56 <= image.len()
                    &&& desc.version == le_value(image.subrange(offset, offset + 4))
                    &&& desc.app_version == le_value(image.subrange(offset + 28, offset + 32))
                    &&& desc == RmRiscvUCodeDesc::spec_from_bytes(image.skip(offset))
                },
                None => offset + 56 > image.len(),
            }
        },
{
    if image.len() >= 24 {
        law_image_header_fields(image);
        let offset = le_value(image.subrange(12, 16)) as int;
        if offset + 56 <= image.len() {
            let rest = image.skip(offset);
            law_ucode_descriptor_fields(rest);
            assert(rest.subrange(0, 4) =~= image.subrange(offset, offset + 4));
            assert(rest.subrange(28, 32) =~= image.subrange(offset + 28, offset + 32));
        }
    }
}

/// The signatures of each generation are in a section of their own.
pub proof fn law_signature_sections(chipset: Chipset)
    ensures
        signature_section(chipset) == if chipset.code() / 16 == 0x16 {
            ".fwsignature_tu10x"@
        } else if chipset.code() / 16 == 0x17 {
            ".fwsignature_ga10x"@
        } else if chipset.code() / 16 == 0x18 {
            ".fwsignature_gh10x"@
        } else if chipset.code() / 16 == 0x19 {
            ".fwsignature_ad10x"@
        } else if chipset.code() / 16 == 0x1a {
            ".fwsignature_gb10x"@
        } else {
            ".fwsignature_gb20x"@
        },
{
}

/// The files that are loaded with the help of SEC2, and those that are loaded with that of FSP.
pub proof fn law_loaded_files()
    ensures
        LoadPath::Sec2.spec_files() =~= seq![
            "gsp"@,
            "bootloader"@,
            "booter_load"@,
            "booter_unload"@,
        ],
        LoadPath::Fsp.spec_files() =~= seq!["fmc"@, "gsp"@, "bootloader"@],
{
}

/// The path of a file: the name of the chip is a directory, and the version comes after the name of
/// the file.
pub proof fn law_firmware_path(chip_name: Seq<char>, ver: Seq<char>, name: Seq<char>)
    ensures
        ({
            let path = path_of(chip_name, ver, name);
            let chip_at = 7 + chip_name.len() as int;
            let name_at = chip_at + 5 + name.len();
            let ver_at = name_at + 1 + ver.len();
            &&& path.len() == ver_at + 4
            &&& path.subrange(0, 7) == "nvidia/"@
            &&& path.subrange(7, chip_at) == chip_name
            &&& path.subrange(chip_at, chip_at + 5) == "/gsp/"@
            &&& path.subrange(chip_at + 5, name_at) == name
            &&& path[name_at] == '-'
            &&& path.subrange(name_at + 1, ver_at) == ver
            &&& path.subrange(ver_at, ver_at + 4) == ".bin"@
        }),
{
    reveal_strlit("nvidia/");
    reveal_strlit("/gsp/");
    reveal_strlit("-");
    reveal_strlit(".bin");
    let path = path_of(chip_name, ver, name);
    let chip_at = 7 + chip_name.len() as int;
    let name_at = chip_at + 5 + name.len();
    let ver_at = name_at + 1 + ver.len();
    assert(path.subrange(0, 7) =~= "nvidia/"@);
    assert(path.subrange(7, chip_at) =~= chip_name);
    assert(path.subrange(chip_at, chip_at + 5) =~= "/gsp/"@);
    assert(path.subrange(chip_at + 5, name_at) =~= name);
    assert(path.subrange(name_at + 1, ver_at) =~= ver);
    assert(path.subrange(ver_at, ver_at + 4) =~= ".bin"@);
}

/// The module declares four files for each chipset, in this order.
pub proof fn law_declared_paths(chipsets: Seq<Chipset>, c: int)
    requires
        0 <= c < chipsets.len(),
    ensures
        declared_paths(chipsets).len() == 4 * chipsets.len(),
        declared_paths(chipsets)[4 * c] == path_of(
            chipsets[c].spec_name(),
            "570.144"@,
            "booter_load"@,
        ),
        declared_paths(chipsets)[4 * c + 1] == path_of(
            chipsets[c].spec_name(),
            "570.144"@,
            "booter_unload"@,
        ),
        declared_paths(chipsets)[4 * c + 2] == path_of(
            chipsets[c].spec_name(),
            "570.144"@,
            "bootloader"@,
        ),
        declared_paths(chipsets)[4 * c + 3] == path_of(chipsets[c].spec_name(), "570.144"@, "gsp"@),
{
}

} // verus!
