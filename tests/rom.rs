use nes_rom::rom::{CHR_ROM_PAGE_SIZE, INES_HEADER_SIZE, PRG_ROM_PAGE_SIZE, TRAINER_SIZE};
use nes_rom::{LoadError, Mirroring, Rom, RomHeader};

/// Builds an image whose program bytes count up from 1 and graphics bytes count down from 255.
fn image(prg: u8, chr: u8, cb1: u8, cb2: u8) -> Vec<u8> {
    let mut v = vec![0x4E, 0x45, 0x53, 0x1A, prg, chr, cb1, cb2, 1, 2, 3, 4, 5, 6, 7, 8];
    if cb1 & 0x04 != 0 {
        v.extend(std::iter::repeat(0xEE).take(TRAINER_SIZE));
    }
    for i in 0..(prg as usize * PRG_ROM_PAGE_SIZE) {
        v.push((i % 251) as u8 + 1);
    }
    for i in 0..(chr as usize * CHR_ROM_PAGE_SIZE) {
        v.push(255 - (i % 13) as u8);
    }
    v
}

fn header(cb1: u8, cb2: u8) -> RomHeader {
    RomHeader {
        signature: [0x4E, 0x45, 0x53, 0x1A],
        num_prg_pages: 1,
        num_chr_pages: 1,
        control_byte1: cb1,
        control_byte2: cb2,
        reserved: [0; 8],
    }
}

#[test]
fn valid_images_load_with_declared_sizes() {
    for &(p, c) in &[(0u8, 0u8), (1, 0), (0, 1), (2, 1), (3, 4)] {
        for &cb1 in &[0x00u8, 0x04] {
            let data = image(p, c, cb1, 0);
            let rom = Rom::load(&data).unwrap();
            assert_eq!(rom.prg_rom.len(), p as usize * 16384);
            assert_eq!(rom.chr_rom.len(), c as usize * 8192);
            assert_eq!(rom.header.num_prg_pages, p);
            assert_eq!(rom.header.num_chr_pages, c);
            assert_eq!(rom.header.reserved, [1, 2, 3, 4, 5, 6, 7, 8]);
        }
    }
}

#[test]
fn loaded_sections_hold_the_right_bytes() {
    let data = image(1, 1, 0x00, 0);
    let rom = Rom::load(&data).unwrap();
    assert_eq!(&rom.prg_rom[..], &data[16..16 + 16384]);
    assert_eq!(&rom.chr_rom[..], &data[16 + 16384..16 + 16384 + 8192]);
    assert_eq!(rom.prg_rom[0], 1);
    assert_eq!(rom.chr_rom[0], 255);
}

#[test]
fn changed_signature_byte_gives_bad_signature() {
    let data = image(1, 1, 0, 0);
    for i in 0..4 {
        let mut bad = data.clone();
        bad[i] ^= 0xFF;
        match Rom::load(&bad) {
            Err(LoadError::BadSignature { found }) => assert_eq!(&found[..], &bad[0..4]),
            other => panic!("expected BadSignature, got {:?}", other),
        }
    }
}

#[test]
fn truncated_image_gives_truncated_file() {
    let data = image(2, 1, 0x04, 0);
    let total = INES_HEADER_SIZE + TRAINER_SIZE + 2 * 16384 + 8192;
    assert_eq!(data.len(), total);
    for &n in &[16usize, 100, 528, total - 1] {
        assert_eq!(
            Rom::load(&data[..n]).unwrap_err(),
            LoadError::TruncatedFile { actual: n, expected: total }
        );
    }
}

#[test]
fn trailing_bytes_are_ignored() {
    let data = image(1, 2, 0x04, 0x10);
    let exact = Rom::load(&data).unwrap();
    let mut longer = data.clone();
    longer.extend_from_slice(&[9, 8, 7, 6, 5]);
    let rom = Rom::load(&longer).unwrap();
    assert_eq!(rom.prg_rom, exact.prg_rom);
    assert_eq!(rom.chr_rom, exact.chr_rom);
    assert_eq!(rom.header.signature, exact.header.signature);
    assert_eq!(rom.header.control_byte1, exact.header.control_byte1);
    assert_eq!(rom.header.control_byte2, exact.header.control_byte2);
    assert_eq!(rom.header.reserved, exact.header.reserved);
}

#[test]
fn mapper_id_from_both_nibbles() {
    assert_eq!(header(0x10, 0x20).mapper_id(), 0x21);
    assert_eq!(header(0xF0, 0xF0).mapper_id(), 0xFF);
    assert_eq!(header(0x0F, 0x0F).mapper_id(), 0x00);
    assert_eq!(header(0x4B, 0x37).mapper_id(), 0x34);
}

#[test]
fn mirroring_from_control_byte() {
    assert_eq!(header(0x01, 0).mirroring(), Mirroring::Vertical);
    assert_eq!(header(0x00, 0).mirroring(), Mirroring::Horizontal);
    assert_eq!(header(0x08, 0).mirroring(), Mirroring::FourScreen);
    assert_eq!(header(0x09, 0).mirroring(), Mirroring::FourScreen);
    assert_eq!(header(0xF7, 0).mirroring(), Mirroring::Vertical);
}

#[test]
fn battery_and_trainer_flags() {
    assert!(header(0x02, 0).has_battery_backed_ram());
    assert!(!header(0xFD, 0).has_battery_backed_ram());
    assert!(header(0x04, 0).has_trainer());
    assert!(!header(0xFB, 0).has_trainer());
}

#[test]
fn trainer_shifts_program_data() {
    let with = image(1, 1, 0x04, 0);
    let without = image(1, 1, 0x00, 0);
    let a = Rom::load(&with).unwrap();
    let b = Rom::load(&without).unwrap();
    assert_eq!(a.header.prg_rom_start(), b.header.prg_rom_start() + 512);
    assert_eq!(a.header.chr_rom_start(), b.header.chr_rom_start() + 512);
    assert_eq!(&a.prg_rom[..], &with[528..528 + 16384]);
    assert_eq!(&b.prg_rom[..], &without[16..16 + 16384]);
    assert_eq!(a.prg_rom, b.prg_rom);
    assert_eq!(a.chr_rom, b.chr_rom);
}

#[test]
fn sixteen_zero_bytes_give_bad_signature() {
    assert_eq!(
        Rom::load(&[0u8; 16]).unwrap_err(),
        LoadError::BadSignature { found: [0, 0, 0, 0] }
    );
}

#[test]
fn ten_bytes_give_too_small() {
    assert_eq!(Rom::load(&[0x4Eu8; 10]).unwrap_err(), LoadError::TooSmall { len: 10 });
}

#[test]
fn empty_input_is_too_small() {
    assert_eq!(Rom::load(&[]).unwrap_err(), LoadError::TooSmall { len: 0 });
}

#[test]
fn header_only_image_loads_empty_sections() {
    let data = image(0, 0, 0x01, 0);
    assert_eq!(data.len(), 16);
    let rom = Rom::load(&data).unwrap();
    assert!(rom.prg_rom.is_empty());
    assert!(rom.chr_rom.is_empty());
    assert_eq!(rom.header.mirroring(), Mirroring::Vertical);
}

#[test]
fn declared_sizes_and_offsets() {
    let mut h = header(0x04, 0);
    h.num_prg_pages = 255;
    h.num_chr_pages = 255;
    assert_eq!(h.prg_rom_start(), 528);
    assert_eq!(h.prg_rom_size(), 255 * 16384);
    assert_eq!(h.chr_rom_start(), 528 + 255 * 16384);
    assert_eq!(h.chr_rom_size(), 255 * 8192);
    assert_eq!(h.expected_file_size(), 528 + 255 * 16384 + 255 * 8192);
    let g = header(0x00, 0);
    assert_eq!(g.prg_rom_start(), 16);
    assert_eq!(g.expected_file_size(), 16 + 16384 + 8192);
}
