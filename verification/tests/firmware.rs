//! Tests of the firmware parsing and building.

use nova_core::error::Error;
use nova_core::firmware::bindata::request_ucodes_firmware;
use nova_core::firmware::elf::elf_section;
use nova_core::firmware::fwsec::bootloader::{
    dmem_desc, mirror_image, run, run_result, LoadParams, RunStep,
};
use nova_core::firmware::gen_bootloader::GenericBootloader;
use nova_core::firmware::radix3::{level0, map_into_lvl, DmaRegion};
use nova_core::firmware::{
    firmware_path, fmc_image_data, get_signature_section, gsp_parts, mod_info_paths,
    ArchFirmwareData, FalconUCodeDesc, FalconUCodeDescV2, FalconUCodeDescV3, LoadPath,
    UnsignedFirmware, FIRMWARE_VERSION,
};
use nova_core::gpu::Chipset;
use nova_core::gsp::boot::FalconFbifTarget;

/// A 64-bit ELF file with the given sections. Its headers are at 0x200, the names at 0x40.
fn elf64(sections: &[(&str, &[u8])]) -> Vec<u8> {
    let mut names = vec![0u8];
    let mut headers = vec![(0u32, 0u64, 0u64)];
    let mut data = Vec::new();
    for (name, contents) in sections {
        let at = 0x1000 + data.len() as u64;
        headers.push((names.len() as u32, at, contents.len() as u64));
        names.extend_from_slice(name.as_bytes());
        names.push(0);
        data.extend_from_slice(contents);
    }
    headers.push((0, 0x40, names.len() as u64));
    let mut elf = vec![0u8; 0x1000];
    elf[..5].copy_from_slice(&[0x7f, b'E', b'L', b'F', 2]);
    elf[40..48].copy_from_slice(&0x200u64.to_le_bytes());
    elf[60..62].copy_from_slice(&(headers.len() as u16).to_le_bytes());
    elf[62..64].copy_from_slice(&(headers.len() as u16 - 1).to_le_bytes());
    elf[0x40..0x40 + names.len()].copy_from_slice(&names);
    for (i, (name, at, size)) in headers.iter().enumerate() {
        let base = 0x200 + 64 * i;
        elf[base..base + 4].copy_from_slice(&name.to_le_bytes());
        elf[base + 24..base + 32].copy_from_slice(&at.to_le_bytes());
        elf[base + 32..base + 40].copy_from_slice(&size.to_le_bytes());
    }
    elf.extend_from_slice(&data);
    elf
}

#[test]
fn sections_are_found_by_name() {
    let elf = elf64(&[("image", &[1, 2, 3]), (".fwimage", &[4]), ("image2", &[5, 6])]);
    assert_eq!(elf_section(&elf, "image"), Some(&[1u8, 2, 3][..]));
    assert_eq!(elf_section(&elf, ".fwimage"), Some(&[4u8][..]));
    assert_eq!(elf_section(&elf, "image2"), Some(&[5u8, 6][..]));
    assert_eq!(elf_section(&elf, "imag"), None);
    assert_eq!(fmc_image_data(&elf), Ok(&[1u8, 2, 3][..]));
    assert_eq!(fmc_image_data(&elf64(&[])), Err(Error::EINVAL));
}

#[test]
fn first_section_inside_the_file_is_taken() {
    let mut elf = elf64(&[("image", &[1, 2, 3]), ("image", &[7])]);
    assert_eq!(elf_section(&elf, "image"), Some(&[1u8, 2, 3][..]));
    // The first of the two no longer lies inside the file.
    elf[0x200 + 64 + 32..0x200 + 64 + 40].copy_from_slice(&u64::MAX.to_le_bytes());
    assert_eq!(elf_section(&elf, "image"), Some(&[7u8][..]));
}

#[test]
fn invalid_files_have_no_sections() {
    let elf = elf64(&[("image", &[1])]);
    assert_eq!(elf_section(&elf[..63], "image"), None);
    assert_eq!(elf_section(&elf[..4], "image"), None);
    let mut bad = elf.clone();
    bad[0] = 0;
    assert_eq!(elf_section(&bad, "image"), None);
    let mut bad = elf.clone();
    bad[4] = 3;
    assert_eq!(elf_section(&bad, "image"), None);
    // Headers that are not aligned, or not inside the file.
    let mut bad = elf.clone();
    bad[40] = 1;
    assert_eq!(elf_section(&bad, "image"), None);
    let mut bad = elf.clone();
    bad[40..48].copy_from_slice(&(u64::MAX - 7).to_le_bytes());
    assert_eq!(elf_section(&bad, "image"), None);
    let mut bad = elf.clone();
    bad[62] = 9;
    assert_eq!(elf_section(&bad, "image"), None);
}

#[test]
fn small_files_have_sections_too() {
    let mut elf = vec![0u8; 200];
    elf[..5].copy_from_slice(&[0x7f, b'E', b'L', b'F', 1]);
    elf[32] = 52;
    elf[48] = 2;
    elf[50] = 1;
    // Section 0 has the name at 1 of the names, and starts at 190; the names are at 140.
    elf[52] = 1;
    elf[52 + 16] = 190;
    elf[52 + 20] = 2;
    elf[92 + 16] = 140;
    elf[92 + 20] = 4;
    elf[141..144].copy_from_slice(b"ab\0");
    elf[190..192].copy_from_slice(&[8, 9]);
    assert_eq!(elf_section(&elf, "ab"), Some(&[8u8, 9][..]));
}

#[test]
fn gsp_firmware_has_its_parts() {
    let mut image = vec![0u8; 24 + 56];
    image[12] = 24;
    image[24 + 28..24 + 32].copy_from_slice(&0x5701u32.to_le_bytes());
    let elf = elf64(&[(".fwimage", &image), (".fwsignature_ga10x", &[9, 9])]);
    let parts = gsp_parts(&elf, Chipset::GA102).ok().unwrap();
    assert_eq!(parts.image, &image[..]);
    assert_eq!(parts.signatures, &[9, 9]);
    assert_eq!(parts.desc.app_version(), 0x5701);
    assert!(gsp_parts(&elf, Chipset::TU102).is_err());
    image[12] = 25;
    let elf = elf64(&[(".fwimage", &image), (".fwsignature_ga10x", &[9, 9])]);
    assert!(gsp_parts(&elf, Chipset::GA102).is_err());
    assert_eq!(get_signature_section(Chipset::GB100), ".fwsignature_gb10x");
    assert_eq!(get_signature_section(Chipset::GB207), ".fwsignature_gb20x");
}

#[test]
fn load_path_depends_on_the_generation() {
    assert_eq!(LoadPath::select(Chipset::GA102, true), Ok(LoadPath::Sec2));
    assert_eq!(LoadPath::select(Chipset::GA102, false), Err(Error::EINVAL));
    assert_eq!(LoadPath::select(Chipset::GH100, false), Ok(LoadPath::Fsp));
    let sec2: ArchFirmwareData<u32, u64> =
        ArchFirmwareData::Sec2 { booter_load: 1, booter_unload: 2 };
    assert_eq!(sec2.booter_load(), Some(&1));
    assert_eq!(sec2.booter_unload(), Some(&2));
    assert_eq!(sec2.fmc_data(), None);
    let fsp: ArchFirmwareData<u32, u64> = ArchFirmwareData::Fsp { fmc_image: 3, fmc_full: 4 };
    assert_eq!(fsp.fmc_data(), Some((&3, &4)));
    assert_eq!(fsp.fmc_image(), Some(&3));
    assert_eq!(fsp.fmc_full(), Some(&4));
    assert_eq!(fsp.booter_load(), None);
}

#[test]
fn firmware_files_have_paths() {
    assert_eq!(
        firmware_path(Chipset::AD102, "570.144", "gsp").unwrap(),
        "nvidia/ad102/gsp/gsp-570.144.bin"
    );
    assert_eq!(firmware_path(Chipset::AD102, "570\0", "gsp"), Err(Error::EINVAL));
    assert_eq!(firmware_path(Chipset::AD102, "570", "g\0sp"), Err(Error::EINVAL));
    let paths = mod_info_paths();
    assert_eq!(paths.len(), 4 * Chipset::all().len());
    assert_eq!(paths[0], "nvidia/tu102/gsp/booter_load-570.144.bin");
    assert_eq!(paths[5], "nvidia/tu104/gsp/booter_unload-570.144.bin");
    assert_eq!(paths[95], "nvidia/gb207/gsp/gsp-570.144.bin");
}

#[test]
fn descriptions_have_two_forms() {
    let v2 = FalconUCodeDesc::V2(FalconUCodeDescV2 {
        hdr: 0x003c_0201,
        stored_size: 1,
        uncompressed_size: 2,
        virtual_entry: 3,
        interface_offset: 4,
        imem_phys_base: 5,
        imem_load_size: 6,
        imem_virt_base: 7,
        imem_sec_base: 8,
        imem_sec_size: 9,
        dmem_offset: 10,
        dmem_phys_base: 11,
        dmem_load_size: 12,
        alt_imem_load_size: 13,
        alt_dmem_load_size: 14,
    });
    assert_eq!(v2.size(), 0x3c);
    assert_eq!(v2.interface_offset(), 4);
    assert_eq!(v2.imem_phys_base(), 5);
    assert_eq!(v2.imem_load_size(), 6);
    assert_eq!(v2.dmem_phys_base(), 11);
    assert_eq!(v2.dmem_load_size(), 12);
    assert_eq!(v2.pkc_data_offset(), 0);
    assert_eq!(v2.signature_count(), 0);
    let v3 = FalconUCodeDesc::V3(FalconUCodeDescV3 {
        hdr: 0x002c_0301,
        stored_size: 1,
        pkc_data_offset: 2,
        interface_offset: 3,
        imem_phys_base: 4,
        imem_load_size: 5,
        imem_virt_base: 6,
        dmem_phys_base: 7,
        dmem_load_size: 8,
        engine_id_mask: 9,
        ucode_id: 10,
        signature_count: 11,
        signature_versions: 12,
    });
    assert_eq!(v3.size(), 0x2c);
    assert_eq!(v3.pkc_data_offset(), 2);
    assert_eq!(v3.engine_id_mask(), 9);
    assert_eq!(v3.ucode_id(), 10);
    assert_eq!(v3.signature_count(), 11);
    assert_eq!(v3.signature_versions(), 12);
}

#[test]
fn signatures_are_patched_in() {
    let firmware = UnsignedFirmware { data: vec![1, 2, 3, 4, 5] };
    let signed = firmware.patch_signature(&[8, 9], 3).ok().unwrap();
    assert_eq!(signed.data, vec![1, 2, 3, 8, 9]);
    let firmware = UnsignedFirmware { data: vec![1, 2, 3] };
    assert_eq!(firmware.patch_signature(&[8, 9], 2).err(), Some(Error::EINVAL));
    let firmware = UnsignedFirmware { data: vec![1] };
    assert_eq!(firmware.patch_signature(&[8], usize::MAX).err(), Some(Error::EINVAL));
    let firmware = UnsignedFirmware { data: vec![1, 2] };
    assert_eq!(firmware.no_patch_signature().data, vec![1, 2]);
}

#[test]
fn absent_ucodes_are_no_error() {
    assert_eq!(request_ucodes_firmware(Ok(5)), Ok(Some(5)));
    assert_eq!(request_ucodes_firmware::<u32>(Err(Error::ENOENT)), Ok(None));
    assert_eq!(request_ucodes_firmware::<u32>(Err(Error::ENOMEM)), Err(Error::ENOMEM));
}

#[test]
fn bootloader_goes_to_the_end_of_imem() {
    let bootloader = GenericBootloader::new(&[7; 300], 260, 0xfd, 0x10000).ok().unwrap();
    assert_eq!(bootloader.ucode.len(), 512);
    assert_eq!(bootloader.ucode[259], 7);
    assert_eq!(bootloader.ucode[260], 0);
    assert_eq!(bootloader.imem_dst_start, 0xfe00);
    assert_eq!(bootloader.boot_addr(), 0xfd00);
    let target = bootloader.imem_load_params();
    assert_eq!(target.dst_start, 0xfe00);
    assert_eq!(target.start_tag, 0xfd);
    assert!(!target.secure);
    assert_eq!(GenericBootloader::new(&[7; 3], 4, 0, 0x1000).err(), Some(Error::EINVAL));
    assert_eq!(GenericBootloader::new(&[7; 300], 260, 0, 0x1ff).err(), Some(Error::EINVAL));
    assert_eq!(GenericBootloader::new(&[7; 3], 3, 0x1_0000, 0x1000).err(), Some(Error::EINVAL));
    assert_eq!(GenericBootloader::new(&[7; 3], 3, 0, 0x2_0000).err(), Some(Error::EINVAL));
}

#[test]
fn fwsec_image_mirrors_imem() {
    let sec = LoadParams { src_start: 2, dst_start: 4, len: 3 };
    let ns = LoadParams { src_start: 0, dst_start: 2, len: 2 };
    let dmem = LoadParams { src_start: 5, dst_start: 0, len: 1 };
    assert_eq!(mirror_image(sec, &[1, 2, 3, 4, 5, 6]).unwrap(), vec![0, 0, 1, 2, 3, 4, 5, 6]);
    let mut desc = dmem_desc(sec, Some(ns), dmem, 0x1000).unwrap();
    assert_eq!(
        run(&desc),
        vec![
            RunStep::Reset,
            RunStep::Load,
            RunStep::SetTranscfg(4, FalconFbifTarget::CoherentSysmem),
            RunStep::Boot { mbox0: 0 },
        ]
    );
    let slot = desc.ctx_dma;
    desc.ctx_dma = 8;
    assert_eq!(
        run(&desc),
        vec![RunStep::Reset, RunStep::Load, RunStep::Fail(Error::EINVAL)]
    );
    desc.ctx_dma = slot;
    assert_eq!(desc.ctx_dma, 4);
    assert_eq!(desc.sec_code_off, 4);
    assert_eq!(desc.non_sec_code_off, 2);
    assert_eq!(desc.data_dma_base, 0x1007);
    let bytes = desc.as_bytes();
    assert_eq!(bytes.len(), 84);
    assert_eq!(bytes[32], 4);
    assert_eq!(&bytes[36..44], &0x1000u64.to_le_bytes());
    let back = LoadParams { src_start: 4, dst_start: 2, len: 3 };
    assert_eq!(mirror_image(back, &[]), Err(Error::EOVERFLOW));
    assert_eq!(dmem_desc(back, Some(ns), dmem, 0), Err(Error::EOVERFLOW));
    assert_eq!(dmem_desc(sec, None, dmem, 0), Err(Error::EINVAL));
    assert_eq!(dmem_desc(sec, Some(ns), sec, 0), Err(Error::EINVAL));
    assert_eq!(dmem_desc(sec, Some(ns), dmem, u64::MAX), Err(Error::EOVERFLOW));
    assert_eq!(run_result(0), Ok(()));
    assert_eq!(run_result(1), Err(Error::EIO));
}

#[test]
fn page_table_levels_have_an_entry_per_page() {
    let regions = [
        DmaRegion { address: 0x10000, len: 0x1001 },
        DmaRegion { address: 0x50000, len: 0x1000 },
    ];
    let bytes = map_into_lvl(&regions);
    let words: Vec<u64> = bytes
        .chunks(8)
        .map(|chunk| {
            let mut word = [0; 8];
            word.copy_from_slice(chunk);
            u64::from_le_bytes(word)
        })
        .collect();
    assert_eq!(words, vec![0x10000, 0x11000, 0x50000]);
    let page = level0(&regions).unwrap();
    assert_eq!(page.len(), 512);
    assert_eq!(page[0], 0x10000);
    assert_eq!(page[1], 0);
    assert_eq!(level0(&[]), Err(Error::EINVAL));
}

#[test]
fn files_of_a_load_path() {
    let sec2 = LoadPath::Sec2.files();
    assert_eq!(sec2, vec!["gsp", "bootloader", "booter_load", "booter_unload"]);
    assert_eq!(LoadPath::Fsp.files(), vec!["fmc", "gsp", "bootloader"]);
    let declared = mod_info_paths();
    for name in sec2 {
        let path = firmware_path(Chipset::GA102, FIRMWARE_VERSION, name).unwrap();
        assert!(declared.contains(&path));
    }
}

#[test]
fn walking_the_levels_reaches_the_data() {
    // 600 pages of data in two pieces, two pages of level 2 apart from each other, one of level 1.
    let data = [
        DmaRegion { address: 0x100_0000, len: 500 * 4096 },
        DmaRegion { address: 0x900_0000, len: 99 * 4096 + 1 },
    ];
    let level2 = [
        DmaRegion { address: 0x5000, len: 4096 },
        DmaRegion { address: 0xa000, len: 88 * 8 },
    ];
    let level1 = [DmaRegion { address: 0x3000, len: 16 }];
    let level2_bytes = map_into_lvl(&data);
    let level1_bytes = map_into_lvl(&level2);
    assert_eq!(level2_bytes.len(), 4096 + 88 * 8);
    assert_eq!(level1_bytes.len(), 16);
    let memory = |address: u64| -> u8 {
        match address {
            0x3000..=0x300f => level1_bytes[(address - 0x3000) as usize],
            0x5000..=0x5fff => level2_bytes[(address - 0x5000) as usize],
            _ => level2_bytes[4096 + (address - 0xa000) as usize],
        }
    };
    let entry = |address: u64| -> u64 {
        (0..8).map(|i| u64::from(memory(address + i)) << (8 * i)).sum()
    };
    let root = level0(&level1).unwrap()[0];
    for k in [0u64, 1, 499, 500, 511, 512, 599] {
        let page = entry(entry(root + 8 * (k / 512)) + 8 * (k % 512));
        let expected = if k < 500 { 0x100_0000 + k * 4096 } else { 0x900_0000 + (k - 500) * 4096 };
        assert_eq!(page, expected);
    }
}
