use snp_measurement::cli::{Cli, DEFAULT_STAGE0_ROM};
use snp_measurement::bytes::{push_le, read_u16, read_u32, read_u64, write_le};
use snp_measurement::error::Error;
use snp_measurement::measure::{compute_measurement, measure_stage0};
use snp_measurement::page::{Measurement, SnpPageType};
use snp_measurement::stage0::{
    load_stage0, read_sev_es_reset_block, read_snp_pages, SevEsResetBlock, SpecialPageDescriptor,
    LEGACY_END, LEGACY_SIZE, ROM_END, ROM_SIZE,
};
use snp_measurement::vmsa::{get_ap_vmsa, get_boot_vmsa, VirtualCpuState, VMSA_ADDRESS};

const FOOTER_GUID: [u8; 16] = [
    0xde, 0x82, 0xb5, 0x96, 0xb2, 0x1f, 0xf7, 0x45, 0xba, 0xea, 0xa3, 0x66, 0xc5, 0x5a, 0x08, 0x2d,
];
const METADATA_GUID: [u8; 16] = [
    0x66, 0x65, 0x88, 0xdc, 0x4a, 0x98, 0x98, 0x47, 0xa7, 0x5e, 0x55, 0x85, 0xa7, 0xbf, 0x67, 0xcc,
];
const RESET_GUID: [u8; 16] = [
    0xde, 0x71, 0xf7, 0x00, 0x7e, 0x1a, 0xcb, 0x4f, 0x89, 0x0e, 0x68, 0xc7, 0x7e, 0x2f, 0xb4, 0x4e,
];

const GOLDEN_ZERO_ROM: &str = "3c11e290a6bf3d4d2570d31f34a9de3eac6937fa0910d22ae82d71855586b060f5f9c4539084e784ff4397f0dd323740";
const GOLDEN_ZERO_ROM_LEGACY: &str = "87735ca54b8239ff52c79ca1eb477dafad12dbb694c0dc2e85512d57ab604ffcc317f24cb08e3b76f6a0753f88feb479";
const GOLDEN_METADATA_ONE_VCPU: &str = "7e4e191a187559dee65dd277cad66e57b7b3aad339853f722d5f653db42478764fb55c35327a1bf9500bdf91b41ba89d";
const GOLDEN_METADATA_TWO_VCPUS: &str = "fbc8ef41760cdfdddeea213d2f4f3cda68c8c8af5e5211e6746efc03b9807ad6e9984c729cf1bd1bc70441286730258f";

fn put_u32(rom: &mut [u8], at: usize, v: u32) {
    rom[at..at + 4].copy_from_slice(&v.to_le_bytes());
}

/// A ROM with SEV metadata holding `items` (base, size, kind) and, if given, a reset block.
fn rom_with_metadata(items: &[(u32, u32, u32)], reset_address: Option<u32>) -> Vec<u8> {
    let n = ROM_SIZE;
    let mut rom = vec![0u8; n];
    let h = n - 0x1000;
    rom[h..h + 4].copy_from_slice(b"ASEV");
    put_u32(&mut rom, h + 4, 16 + 12 * items.len() as u32);
    put_u32(&mut rom, h + 8, 1);
    put_u32(&mut rom, h + 12, items.len() as u32);
    for (i, (base, size, kind)) in items.iter().enumerate() {
        put_u32(&mut rom, h + 16 + 12 * i, *base);
        put_u32(&mut rom, h + 20 + 12 * i, *size);
        put_u32(&mut rom, h + 24 + 12 * i, *kind);
    }
    let mut table: Vec<u8> = Vec::new();
    table.extend_from_slice(&0x1000u32.to_le_bytes());
    table.extend_from_slice(&22u16.to_le_bytes());
    table.extend_from_slice(&METADATA_GUID);
    if let Some(addr) = reset_address {
        table.extend_from_slice(&addr.to_le_bytes());
        table.extend_from_slice(&22u16.to_le_bytes());
        table.extend_from_slice(&RESET_GUID);
    }
    let table_len = (table.len() + 18) as u16;
    table.extend_from_slice(&table_len.to_le_bytes());
    table.extend_from_slice(&FOOTER_GUID);
    let end = n - 0x20;
    rom[end - table.len()..end].copy_from_slice(&table);
    rom
}

fn standard_items() -> Vec<(u32, u32, u32)> {
    vec![(0x80_0000, 0x2000, 1), (0x80_2000, 0x1000, 2), (0x80_3000, 0x1000, 3)]
}

fn digest_hex(rom: Vec<u8>, legacy_boot: bool, vcpu_count: usize) -> String {
    let image = load_stage0(rom).unwrap();
    compute_measurement(&image, legacy_boot, vcpu_count).unwrap().hex_digest()
}

#[test]
fn golden_zero_rom() {
    let hex = digest_hex(vec![0u8; ROM_SIZE], false, 1);
    assert_eq!(hex.len(), 96);
    assert_eq!(hex, GOLDEN_ZERO_ROM);
}

#[test]
fn golden_zero_rom_legacy_boot() {
    assert_eq!(digest_hex(vec![0u8; ROM_SIZE], true, 1), GOLDEN_ZERO_ROM_LEGACY);
}

#[test]
fn golden_metadata_rom() {
    let rom = rom_with_metadata(&standard_items(), Some(0xffff_f000));
    assert_eq!(digest_hex(rom.clone(), false, 1), GOLDEN_METADATA_ONE_VCPU);
    assert_eq!(digest_hex(rom, false, 2), GOLDEN_METADATA_TWO_VCPUS);
}

#[test]
fn repeated_runs_agree() {
    let rom = rom_with_metadata(&standard_items(), Some(0xffff_f000));
    assert_eq!(digest_hex(rom.clone(), true, 3), digest_hex(rom, true, 3));
}

#[test]
fn order_of_pages_matters() {
    let mut a = Measurement::new();
    a.update_from_snp_page(SnpPageType::Zero, 0x1000).unwrap();
    a.update_from_snp_page(SnpPageType::Cpuid, 0x2000).unwrap();
    let mut b = Measurement::new();
    b.update_from_snp_page(SnpPageType::Cpuid, 0x2000).unwrap();
    b.update_from_snp_page(SnpPageType::Zero, 0x1000).unwrap();
    assert_ne!(a.digest(), b.digest());
}

#[test]
fn flipped_rom_bit_changes_digest() {
    let mut rom = vec![0u8; ROM_SIZE];
    rom[0x1234] ^= 0x10;
    assert_ne!(digest_hex(rom, false, 1), GOLDEN_ZERO_ROM);
}

#[test]
fn different_vcpu_state_changes_digest() {
    let mut a = Measurement::new();
    a.update_from_vmsa(&get_boot_vmsa(), VMSA_ADDRESS).unwrap();
    let mut b = Measurement::new();
    let mut state = get_boot_vmsa();
    state.rip ^= 1;
    b.update_from_vmsa(&state, VMSA_ADDRESS).unwrap();
    assert_ne!(a.digest(), b.digest());
}

#[test]
fn typed_pages_measured_by_type_and_address() {
    let split = vec![
        (0x80_0000, 0x1000, 1),
        (0x80_1000, 0x1000, 1),
        (0x80_2000, 0x1000, 2),
        (0x80_3000, 0x1000, 3),
    ];
    let image = load_stage0(rom_with_metadata(&split, Some(0xffff_f000))).unwrap();
    assert_eq!(image.get_snp_pages().len(), 4);
    let mut a = Measurement::new();
    let mut b = Measurement::new();
    for page in image.get_snp_pages() {
        for k in 0..page.page_count {
            a.update_from_snp_page(page.page_type, page.start_address + k * 4096).unwrap();
        }
    }
    let joined = load_stage0(rom_with_metadata(&standard_items(), Some(0xffff_f000))).unwrap();
    for page in joined.get_snp_pages() {
        for k in 0..page.page_count {
            b.update_from_snp_page(page.page_type, page.start_address + k * 4096).unwrap();
        }
    }
    assert_eq!(a.digest(), b.digest());
}

#[test]
fn one_vcpu_measures_no_additional_state() {
    let rom = rom_with_metadata(&standard_items(), Some(0xffff_f000));
    let image = load_stage0(rom).unwrap();
    let one = compute_measurement(&image, false, 1).unwrap();
    let three = compute_measurement(&image, false, 3).unwrap();
    let mut manual = compute_measurement(&image, false, 1).unwrap();
    let ap = get_ap_vmsa(&image.get_sev_es_reset_block().unwrap());
    manual.update_from_vmsa(&ap, VMSA_ADDRESS).unwrap();
    manual.update_from_vmsa(&ap, VMSA_ADDRESS).unwrap();
    assert_eq!(three.digest(), manual.digest());
    assert_eq!(one.hex_digest(), GOLDEN_METADATA_ONE_VCPU);
}

#[test]
fn additional_vcpus_need_reset_block() {
    let image = load_stage0(vec![0u8; ROM_SIZE]).unwrap();
    assert!(image.get_sev_es_reset_block().is_none());
    assert_eq!(compute_measurement(&image, false, 2).err(), Some(Error::MalformedResetBlock));
    assert!(compute_measurement(&image, false, 1).is_ok());
}

#[test]
fn no_legacy_boot_skips_shadow() {
    let rom = vec![0u8; ROM_SIZE];
    let image = load_stage0(rom).unwrap();
    let mut manual = Measurement::new();
    manual.update_from_data(image.rom_bytes(), image.start_address).unwrap();
    manual.update_from_vmsa(&get_boot_vmsa(), VMSA_ADDRESS).unwrap();
    let computed = compute_measurement(&image, false, 1).unwrap();
    assert_eq!(computed.digest(), manual.digest());
    let legacy = compute_measurement(&image, true, 1).unwrap();
    assert_ne!(legacy.digest(), manual.digest());
}

#[test]
fn unaligned_addresses_rejected() {
    let mut m = Measurement::new();
    m.update_from_snp_page(SnpPageType::Zero, 0x1000).unwrap();
    let before = m.digest();
    assert_eq!(m.update_from_data(&[1, 2, 3], 0x1001), Err(Error::InvalidArgument));
    assert_eq!(m.update_from_snp_page(SnpPageType::Secrets, 0x800), Err(Error::InvalidArgument));
    assert_eq!(m.update_from_vmsa(&get_boot_vmsa(), 4095), Err(Error::InvalidArgument));
    assert_eq!(m.digest(), before);
}

#[test]
fn run_past_address_space_rejected() {
    let mut m = Measurement::new();
    let data = vec![0u8; 8192];
    assert_eq!(m.update_from_data(&data, 0xFFFF_FFFF_FFFF_F000), Err(Error::InvalidArgument));
    assert_eq!(m.digest(), vec![0u8; 48]);
    assert!(m.update_from_data(&data[..4096], 0xFFFF_FFFF_FFFF_F000).is_ok());
}

#[test]
fn initial_digest_is_zero() {
    let m = Measurement::new();
    assert_eq!(m.digest(), vec![0u8; 48]);
    assert_eq!(m.hex_digest(), "0".repeat(96));
}

#[test]
fn typed_page_digest() {
    let mut m = Measurement::new();
    m.update_from_snp_page(SnpPageType::Zero, 0x1000).unwrap();
    assert_eq!(
        m.hex_digest(),
        "4bd4147976a1e7554c1c778a781affc1c672f1965a727ba16084989b7e356044a28bbe585a2f75dac9356fa5ab78f061"
    );
}

#[test]
fn data_page_digest() {
    let mut m = Measurement::new();
    m.update_from_data(&[0u8; 4096], 0).unwrap();
    assert_eq!(
        m.hex_digest(),
        "9d13634b6014bb21cf059b2dc694e7bff01a8a7137041100cd2b695f3d10fb687267b97808b27f8f471d943bc6f53a20"
    );
}

#[test]
fn partial_page_is_zero_padded() {
    let mut m = Measurement::new();
    m.update_from_data(b"abc", 0x2000).unwrap();
    assert_eq!(
        m.hex_digest(),
        "19afe6248e229be2b4a2a6d288fb85633b89fd9df516e0c50cc2b39a95d1b72c3e7899f94eff2f842e157399d9d8c668"
    );
    let mut padded = Measurement::new();
    let mut page = vec![0u8; 4096];
    page[..3].copy_from_slice(b"abc");
    padded.update_from_data(&page, 0x2000).unwrap();
    assert_eq!(m.digest(), padded.digest());
}

#[test]
fn empty_data_adds_nothing() {
    let mut m = Measurement::new();
    m.update_from_data(&[], 0x1000).unwrap();
    assert_eq!(m.digest(), vec![0u8; 48]);
}

#[test]
fn boot_vmsa_image() {
    let state = get_boot_vmsa();
    assert_eq!(state, VirtualCpuState { cs_base: 0xffff_0000, rip: 0xfff0 });
    let image = state.to_bytes();
    assert_eq!(image.len(), 4096);
    assert_eq!(&image[0x10..0x20], &[0x00, 0xf0, 0x9b, 0x00, 0xff, 0xff, 0, 0, 0, 0, 0xff, 0xff, 0, 0, 0, 0]);
    assert_eq!(&image[0x178..0x180], &[0xf0, 0xff, 0, 0, 0, 0, 0, 0]);
    assert_eq!(&image[0x410..0x412], &[0x7f, 0x03]);
    assert_eq!(image[0x3b0], 1);
}

#[test]
fn ap_vmsa_from_reset_block() {
    let block = SevEsResetBlock { reset_address: 0x8001_2345 };
    assert_eq!(block.cs_base(), 0x8001_0000);
    assert_eq!(block.ip(), 0x2345);
    let state = get_ap_vmsa(&block);
    assert_eq!(state, VirtualCpuState { cs_base: 0x8001_0000, rip: 0x2345 });
    assert_ne!(state.to_bytes(), get_boot_vmsa().to_bytes());
}

#[test]
fn loads_metadata_and_reset_block() {
    let rom = rom_with_metadata(&standard_items(), Some(0xffff_f000));
    let image = load_stage0(rom.clone()).unwrap();
    assert_eq!(image.start_address, ROM_END - ROM_SIZE as u64);
    assert_eq!(image.start_address, 0xffe0_0000);
    assert_eq!(image.legacy_start_address, LEGACY_END - LEGACY_SIZE as u64);
    assert_eq!(image.legacy_shadow_bytes(), &rom[ROM_SIZE - LEGACY_SIZE..]);
    assert_eq!(
        image.get_snp_pages(),
        &[
            SpecialPageDescriptor { page_type: SnpPageType::Zero, start_address: 0x80_0000, page_count: 2 },
            SpecialPageDescriptor { page_type: SnpPageType::Secrets, start_address: 0x80_2000, page_count: 1 },
            SpecialPageDescriptor { page_type: SnpPageType::Cpuid, start_address: 0x80_3000, page_count: 1 },
        ]
    );
    assert_eq!(image.get_sev_es_reset_block(), Some(SevEsResetBlock { reset_address: 0xffff_f000 }));
}

#[test]
fn svsm_area_is_zero_pages() {
    let rom = rom_with_metadata(&[(0x90_0000, 0x1000, 4)], None);
    assert_eq!(
        read_snp_pages(&rom),
        Ok(vec![SpecialPageDescriptor { page_type: SnpPageType::Zero, start_address: 0x90_0000, page_count: 1 }])
    );
    assert_eq!(read_sev_es_reset_block(&rom), Ok(None));
}

#[test]
fn rom_without_table_has_no_pages() {
    let rom = vec![0u8; ROM_SIZE];
    assert_eq!(read_snp_pages(&rom), Ok(vec![]));
    assert_eq!(read_sev_es_reset_block(&rom), Ok(None));
}

#[test]
fn unexpected_size_rejected() {
    assert_eq!(load_stage0(vec![0u8; ROM_SIZE - 4096]).err(), Some(Error::UnexpectedSize));
    assert_eq!(load_stage0(vec![0u8; ROM_SIZE + 1]).err(), Some(Error::UnexpectedSize));
    assert_eq!(load_stage0(vec![]).err(), Some(Error::UnexpectedSize));
}

#[test]
fn malformed_table_length_rejected() {
    let mut rom = rom_with_metadata(&standard_items(), Some(0xffff_f000));
    rom[ROM_SIZE - 0x32] = 3;
    rom[ROM_SIZE - 0x31] = 0;
    assert_eq!(load_stage0(rom).err(), Some(Error::MalformedMetadata));
}

#[test]
fn malformed_entry_length_rejected() {
    let mut rom = rom_with_metadata(&standard_items(), Some(0xffff_f000));
    // The last entry (the reset block) ends where the footer's length begins.
    let e = ROM_SIZE - 0x32;
    rom[e - 18] = 5;
    assert_eq!(read_sev_es_reset_block(&rom), Err(Error::MalformedMetadata));
    assert_eq!(load_stage0(rom).err(), Some(Error::MalformedMetadata));
}

#[test]
fn unknown_section_kind_rejected() {
    let rom = rom_with_metadata(&[(0x80_0000, 0x1000, 9)], Some(0xffff_f000));
    assert_eq!(load_stage0(rom).err(), Some(Error::MalformedMetadata));
}

#[test]
fn unaligned_section_rejected() {
    let rom = rom_with_metadata(&[(0x80_0800, 0x1000, 1)], Some(0xffff_f000));
    assert_eq!(load_stage0(rom).err(), Some(Error::MalformedMetadata));
    let rom = rom_with_metadata(&[(0x80_0000, 0, 1)], Some(0xffff_f000));
    assert_eq!(load_stage0(rom).err(), Some(Error::MalformedMetadata));
}

#[test]
fn bad_metadata_signature_rejected() {
    let mut rom = rom_with_metadata(&standard_items(), None);
    rom[ROM_SIZE - 0x1000] = b'X';
    assert_eq!(load_stage0(rom).err(), Some(Error::MalformedMetadata));
}

#[test]
fn short_reset_block_rejected() {
    let mut rom = rom_with_metadata(&standard_items(), Some(0xffff_f000));
    let e = ROM_SIZE - 0x32;
    // Shrink the reset block entry to a length and a GUID with no data.
    rom[e - 18] = 18;
    assert_eq!(read_sev_es_reset_block(&rom), Err(Error::MalformedResetBlock));
}

#[test]
fn little_endian_helpers() {
    let s = [0x01u8, 0x02, 0x03, 0x04, 0x05, 0x06, 0x07, 0x08];
    assert_eq!(read_u16(&s, 0), 0x0201);
    assert_eq!(read_u32(&s, 1), 0x0504_0302);
    assert_eq!(read_u64(&s, 0), 0x0807_0605_0403_0201);
    let mut v = vec![9u8];
    push_le(&mut v, 0x1234, 3);
    assert_eq!(v, vec![9, 0x34, 0x12, 0]);
    write_le(&mut v, 1, 0xabcd, 2);
    assert_eq!(v, vec![9, 0xcd, 0xab, 0]);
}

#[test]
fn error_messages() {
    assert_eq!(Error::UnexpectedSize.message(), "unexpected Stage0 ROM size");
    assert!(Error::InvalidArgument.message().contains("page address"));
}

#[test]
fn stage0_path_defaults_under_workspace_root() {
    let mut cli = Cli { stage0_rom: None, legacy_boot: false, vcpu_count: 1 };
    assert_eq!(
        cli.stage0_path("/work"),
        format!("/work/{}", DEFAULT_STAGE0_ROM)
    );
    assert_eq!(cli.stage0_path("/work"), "/work/stage0_bin/target/x86_64-unknown-none/release/stage0_bin");
    cli.stage0_rom = Some("/tmp/rom.bin".to_string());
    assert_eq!(cli.stage0_path("/work"), "/tmp/rom.bin");
}

#[test]
fn measure_stage0_end_to_end() {
    let m = measure_stage0(vec![0u8; ROM_SIZE], false, 1).unwrap();
    assert_eq!(m.hex_digest(), GOLDEN_ZERO_ROM);
    let rom = rom_with_metadata(&standard_items(), Some(0xffff_f000));
    assert_eq!(measure_stage0(rom, false, 2).unwrap().hex_digest(), GOLDEN_METADATA_TWO_VCPUS);
    assert_eq!(measure_stage0(vec![0u8; 10], false, 1).err(), Some(Error::UnexpectedSize));
    assert_eq!(measure_stage0(vec![0u8; ROM_SIZE], false, 4).err(), Some(Error::MalformedResetBlock));
    let bad = rom_with_metadata(&[(0x80_0000, 0x1000, 7)], Some(0xffff_f000));
    assert_eq!(measure_stage0(bad, true, 1).err(), Some(Error::MalformedMetadata));
}
