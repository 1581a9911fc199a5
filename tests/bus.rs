use gbemu::memory_bus::MemoryBus;

fn rom() -> Vec<u8> {
    let mut rom = vec![0u8; 0x8000];
    rom[0x147] = 0;
    rom
}

#[test]
fn ram_regions_round_trip() {
    let mut bus = MemoryBus::new(rom()).unwrap();
    for (addr, v) in [(0x8000u16, 1u8), (0x9FFF, 2), (0xC000, 3), (0xDFFF, 4), (0xFE00, 5), (0xFE9F, 6), (0xFF80, 7), (0xFFFE, 8)] {
        bus.write_byte(addr, v);
        assert_eq!(bus.read_byte(addr), v, "address {addr:#X}");
    }
}

#[test]
fn echo_ram_aliases_work_ram() {
    let mut bus = MemoryBus::new(rom()).unwrap();
    bus.write_byte(0xE123, 0x42);
    assert_eq!(bus.read_byte(0xC123), 0x42);
    bus.write_byte(0xC456, 0x24);
    assert_eq!(bus.read_byte(0xE456), 0x24);
}

#[test]
fn div_write_resets_whatever_the_value() {
    let mut bus = MemoryBus::new(rom()).unwrap();
    bus.step(256 * 5);
    assert_eq!(bus.read_byte(0xFF04), 5);
    bus.write_byte(0xFF04, 0x77);
    assert_eq!(bus.read_byte(0xFF04), 0);
}

#[test]
fn timer_overflow_raises_interrupt() {
    let mut bus = MemoryBus::new(rom()).unwrap();
    bus.write_byte(0xFF0F, 0);
    bus.write_byte(0xFF06, 0); // TMA
    bus.write_byte(0xFF05, 0); // TIMA
    bus.write_byte(0xFF07, 0b101); // enabled, 262144 Hz
    bus.step((u8::MAX as u32 + 1) * 16);
    assert_eq!(bus.read_byte(0xFF05), 0);
    assert_ne!(bus.read_byte(0xFF0F) & 0b100, 0);
}

#[test]
fn dma_copies_a_page_into_oam() {
    let mut bus = MemoryBus::new(rom()).unwrap();
    for i in 0..160u16 {
        bus.write_byte(0xC100 + i, i as u8 ^ 0x5A);
    }
    bus.write_byte(0xFF46, 0xC1);
    for i in 0..160u16 {
        assert_eq!(bus.read_byte(0xFE00 + i), i as u8 ^ 0x5A);
    }
}

#[test]
fn interrupt_registers() {
    let mut bus = MemoryBus::new(rom()).unwrap();
    bus.write_byte(0xFFFF, 0b00101);
    bus.write_byte(0xFF0F, 0b00100);
    assert!(bus.pending_interrupt());
    assert!(bus.timer_interrupt());
    assert!(!bus.vbank_interrupt());
    bus.reset_timer_interrupt();
    assert!(!bus.pending_interrupt());
    assert_eq!(bus.read_byte(0xFFFF), 0b00101);
}

#[test]
fn unused_area_reads_zero_and_drops_writes() {
    let mut bus = MemoryBus::new(rom()).unwrap();
    bus.write_byte(0xFEA0, 9);
    assert_eq!(bus.read_byte(0xFEA0), 0);
}

#[test]
fn joypad_press_requests_interrupt() {
    let mut bus = MemoryBus::new(rom()).unwrap();
    bus.write_byte(0xFF0F, 0);
    bus.write_byte(0xFF00, 0x20);
    bus.key_down(gbemu::joypad::JoypadKey::Down);
    assert_ne!(bus.read_byte(0xFF0F) & 0x10, 0);
    assert_eq!(bus.read_byte(0xFF00) & 0x0F, 0b0111);
}

#[test]
fn stat_mode_bits_are_read_only() {
    let mut bus = MemoryBus::new(rom()).unwrap();
    let mode = bus.read_byte(0xFF41) & 0b11;
    bus.write_byte(0xFF41, 0xFF);
    assert_eq!(bus.read_byte(0xFF41) & 0b11, mode);
    assert_eq!(bus.read_byte(0xFF41) & 0x78, 0x78);
}
