use gbemu::mbc::{init, ram_info_reg, rom_info_reg, Cartridge, CartridgeError, MBC};

fn image(kind: u8, rom_code: u8, ram_code: u8, len: usize) -> Vec<u8> {
    let mut rom = vec![0u8; len];
    rom[0x147] = kind;
    rom[0x148] = rom_code;
    rom[0x149] = ram_code;
    rom
}

#[test]
fn header_size_codes() {
    assert_eq!(rom_info_reg(0), (2, 32 * 1024));
    assert_eq!(rom_info_reg(4), (32, 512 * 1024));
    assert_eq!(rom_info_reg(8), (512, 8 * 1024 * 1024));
    assert_eq!(ram_info_reg(0), Some((0, 0)));
    assert_eq!(ram_info_reg(2), Some((1, 8 * 1024)));
    assert_eq!(ram_info_reg(3), Some((4, 32 * 1024)));
    assert_eq!(ram_info_reg(4), Some((16, 128 * 1024)));
    assert_eq!(ram_info_reg(5), Some((8, 64 * 1024)));
    assert_eq!(ram_info_reg(1), None);
    assert_eq!(ram_info_reg(6), None);
}

#[test]
fn cartridge_errors() {
    assert!(matches!(init(vec![0; 0x100]), Err(CartridgeError::TooShort)));
    assert!(matches!(init(image(0x19, 0, 0, 0x8000)), Err(CartridgeError::UnsupportedType(0x19))));
    assert!(matches!(init(image(0, 0, 0, 0x8001)), Err(CartridgeError::RomTooLarge)));
    assert!(matches!(init(image(1, 9, 0, 0x8000)), Err(CartridgeError::UnsupportedRomSize(9))));
    assert!(matches!(init(image(1, 0, 1, 0x8000)), Err(CartridgeError::UnsupportedRamSize(1))));
    assert!(matches!(init(image(1, 0, 0, 0x10000)), Err(CartridgeError::RomTooLarge)));
    assert!(matches!(init(image(0, 0, 0, 0x8000)), Ok(Cartridge::Mbc0(_))));
    assert!(matches!(init(image(3, 1, 3, 0x10000)), Ok(Cartridge::Mbc1(_))));
}

#[test]
fn flat_rom_ignores_writes() {
    let mut rom = image(0, 0, 0, 0x8000);
    rom[0x1234] = 0x56;
    let mut c = match init(rom) {
        Ok(Cartridge::Mbc0(m)) => m,
        _ => panic!("flat ROM expected"),
    };
    c.write_rom(0x1234, 0x99);
    assert_eq!(MBC::read_rom(&c, 0x1234), 0x56);
    c.write_ram(0xA010, 7);
    assert_eq!(c.read_ram(0xA010), 7);
}

#[test]
fn mbc1_bank_selection_covers_every_bank_once() {
    // 512 KiB, 1 MiB and 2 MiB: the sizes whose banks MBC1's seven bank bits reach.
    for code in 4u8..=6 {
        let (banks, size) = rom_info_reg(code);
        let mut rom = image(1, code, 0, size);
        for b in 0..banks {
            rom[b * 0x4000 + 0x100] = b as u8;
            rom[b * 0x4000 + 0x101] = (b >> 8) as u8;
        }
        rom[0x147] = 1;
        rom[0x148] = code;
        rom[0x149] = 0;
        let mut m = match init(rom) {
            Ok(Cartridge::Mbc1(m)) => m,
            _ => panic!("MBC1 expected"),
        };
        let mut seen = vec![0u32; banks];
        let read_bank = |m: &gbemu::mbc::MBC1, base: u16| -> usize {
            m.read_rom(base + 0x100) as usize | ((m.read_rom(base + 0x101) as usize) << 8)
        };
        for upper in 0u8..4 {
            for low in 0u8..32 {
                m.write_rom(0x6000, 0);
                m.write_rom(0x4000, upper);
                m.write_rom(0x2000, low);
                if low != 0 && (upper as usize) * 32 + (low as usize) < banks {
                    seen[read_bank(&m, 0x4000)] += 1;
                }
                if low == 1 && (upper as usize) * 32 < banks {
                    m.write_rom(0x6000, 1);
                    seen[read_bank(&m, 0x0000)] += 1;
                }
            }
        }
        assert!(seen.iter().all(|&n| n == 1), "code {code}: {seen:?}");
    }
}

#[test]
fn mbc1_ram_enable_latch() {
    let mut m = match init(image(3, 0, 2, 0x8000)) {
        Ok(Cartridge::Mbc1(m)) => m,
        _ => panic!("MBC1 expected"),
    };
    m.write_ram(0xA000, 1);
    assert_eq!(m.read_ram(0xA000), 0xFF);
    m.write_rom(0x0000, 0x1A);
    m.write_ram(0xA000, 1);
    assert_eq!(m.read_ram(0xA000), 1);
    m.write_rom(0x0000, 0x00);
    assert_eq!(m.read_ram(0xA000), 0xFF);
}
