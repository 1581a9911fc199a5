use vstd::prelude::*;

verus! {

pub const KB: usize = 1024;

pub const MB: usize = 1024 * KB;

pub const CARTRIDGE_TYPE_ADDR: usize = 0x147;

pub const ROM_SIZE_ADDR: usize = 0x148;

pub const RAM_SIZE_ADDR: usize = 0x149;

pub const ROM_BANK_SIZE: usize = 0x4000;

pub const RAM_BANK_SIZE: usize = 0x2000;

/// Why a cartridge image cannot be loaded.
#[derive(Copy, Clone, Debug, PartialEq, Eq, Structural)]
pub enum CartridgeError {
    /// The image ends before its header does.
    TooShort,
    /// The cartridge type code at $0147 names no supported controller.
    UnsupportedType(u8),
    /// The ROM size code at $0148 is above 8.
    UnsupportedRomSize(u8),
    /// The RAM size code at $0149 is not one of 0, 2, 3, 4, 5.
    UnsupportedRamSize(u8),
    /// The image is larger than its header (or its controller) allows.
    RomTooLarge,
}

pub open spec fn spec_rom_info(code: u8) -> (usize, usize) {
    ((2 * pow2(code as nat)) as usize, (32 * KB * pow2(code as nat)) as usize)
}

pub open spec fn pow2(n: nat) -> nat
    decreases n,
{
    if n == 0 { 1 } else { 2 * pow2((n - 1) as nat) }
}

pub open spec fn spec_ram_info(code: u8) -> Option<(usize, usize)> {
    if code == 0 {
        Some((0, 0))
    } else if code == 2 {
        Some((1, 0x2000))
    } else if code == 3 {
        Some((4, 0x8000))
    } else if code == 4 {
        Some((16, 0x20000))
    } else if code == 5 {
        Some((8, 0x10000))
    } else {
        None
    }
}

/// Number of ROM banks and ROM size for the size code at $0148.
pub fn rom_info_reg(value: u8) -> (r: (usize, usize))
    requires
        value <= 8,
    ensures
        r == spec_rom_info(value),
        r.1 == r.0 * ROM_BANK_SIZE,
        2 <= r.0 <= 512,
{
    let mut banks: usize = 2;
    let mut i: u8 = 0;
    while i < value
        invariant
            i <= value <= 8,
            banks == 2 * pow2(i as nat),
            banks <= 512,
        decreases value - i,
    {
        proof {
            lemma_pow2_bound(i as nat);
        }
        banks = banks * 2;
        i = i + 1;
    }
    proof {
        lemma_pow2_bound(value as nat);
    }
    (banks, banks * ROM_BANK_SIZE)
}

proof fn lemma_pow2_bound(n: nat)
    requires
        n <= 8,
    ensures
        1 <= pow2(n) <= 256,
        n < 8 ==> pow2(n) <= 128,
{
    reveal_with_fuel(pow2, 9);
    assert(n == 0 || n == 1 || n == 2 || n == 3 || n == 4 || n == 5 || n == 6 || n == 7 || n == 8);
}

/// Number of RAM banks and RAM size for the size code at $0149; `None` for codes without a
/// supported size.
pub fn ram_info_reg(value: u8) -> (r: Option<(usize, usize)>)
    ensures
        r == spec_ram_info(value),
{
    match value {
        0 => Some((0, 0)),
        2 => Some((1, 8 * KB)),
        3 => Some((4, 32 * KB)),
        4 => Some((16, 128 * KB)),
        5 => Some((8, 64 * KB)),
        _ => None,
    }
}

/// A cartridge controller: ROM at $0000-$7FFF, external RAM at $A000-$BFFF.
pub trait MBC {
    spec fn wf(&self) -> bool;

    fn read_rom(&self, addr: u16) -> u8
        requires
            self.wf(),
    ;

    fn write_rom(&mut self, addr: u16, val: u8)
        requires
            old(self).wf(),
        ensures
            final(self).wf(),
    ;

    fn read_ram(&self, addr: u16) -> u8
        requires
            self.wf(),
    ;

    fn write_ram(&mut self, addr: u16, val: u8)
        requires
            old(self).wf(),
        ensures
            final(self).wf(),
    ;
}

/// A flat 32 KiB ROM with 8 KiB of RAM.
pub struct MBC0 {
    pub rom: Vec<u8>,
    pub ram: Vec<u8>,
}

impl MBC0 {
    pub open spec fn spec_wf(&self) -> bool {
        self.rom.len() == 32 * KB && self.ram.len() == 8 * KB
    }

    /// The image padded with zeros to 32 KiB.
    pub fn new(data: Vec<u8>) -> (r: Self)
        requires
            data.len() <= 32 * KB,
        ensures
            r.spec_wf(),
            forall|i: int| 0 <= i < data.len() ==> r.rom@[i] == data@[i],
    {
        let mut rom = data;
        while rom.len() < 32 * KB
            invariant
                rom.len() <= 32 * KB,
                forall|i: int| 0 <= i < data.len() ==> rom@[i] == data@[i],
                data.len() <= rom.len(),
            decreases 32 * KB - rom.len(),
        {
            rom.push(0);
        }
        Self { rom, ram: vec![0u8; 8 * KB] }
    }

    pub fn read_rom(&self, addr: u16) -> (r: u8)
        requires
            self.spec_wf(),
        ensures
            r == self.rom@[addr as int % 0x8000],
    {
        self.rom[addr as usize % 0x8000]
    }

    /// Writes to ROM are ignored.
    pub fn write_rom(&mut self, addr: u16, val: u8)
        ensures
            *final(self) == *old(self),
    {
    }

    pub fn read_ram(&self, addr: u16) -> (r: u8)
        requires
            self.spec_wf(),
        ensures
            r == self.ram@[addr as int % 0x2000],
    {
        self.ram[addr as usize % 0x2000]
    }

    pub fn write_ram(&mut self, addr: u16, val: u8)
        requires
            old(self).spec_wf(),
        ensures
            final(self).spec_wf(),
            final(self).rom == old(self).rom,
            final(self).ram@ == old(self).ram@.update(addr as int % 0x2000, val),
    {
        self.ram[addr as usize % 0x2000] = val;
    }
}

impl MBC for MBC0 {
    open spec fn wf(&self) -> bool {
        self.spec_wf()
    }

    fn read_rom(&self, addr: u16) -> u8 {
        MBC0::read_rom(self, addr)
    }

    fn write_rom(&mut self, addr: u16, val: u8) {
        MBC0::write_rom(self, addr, val)
    }

    fn read_ram(&self, addr: u16) -> u8 {
        MBC0::read_ram(self, addr)
    }

    fn write_ram(&mut self, addr: u16, val: u8) {
        MBC0::write_ram(self, addr, val)
    }
}

/// The MBC1 controller: a 5-bit low ROM bank register, a 2-bit upper register used for ROM
/// bits 5..6 or the RAM bank, a mode select and a RAM enable latch.
pub struct MBC1 {
    pub rom: Vec<u8>,
    pub ram: Vec<u8>,
    pub rom_banks: usize,
    pub ram_banks: usize,
    pub current_rom_bank: usize,
    pub current_ram_bank: usize,
    pub ram_enabled: bool,
    pub advanced_mode: bool,
}

impl MBC1 {
    pub open spec fn spec_wf(&self) -> bool {
        &&& 2 <= self.rom_banks <= 512
        &&& self.current_rom_bank < self.rom_banks
        &&& self.current_ram_bank < 4
        &&& self.ram_banks <= 16
        &&& self.ram.len() == self.ram_banks * RAM_BANK_SIZE
    }

    /// The ROM bank that `addr` reads from.
    pub open spec fn rom_bank_of(&self, addr: u16) -> int {
        if addr <= 0x3FFF {
            if self.advanced_mode { self.current_rom_bank as int - self.current_rom_bank as int % 32 } else { 0 }
        } else {
            self.current_rom_bank as int
        }
    }

    /// The offset in the image that `addr` reads.
    pub open spec fn rom_offset(&self, addr: u16) -> int {
        self.rom_bank_of(addr) * ROM_BANK_SIZE + addr as int % 0x4000
    }

    /// The offset in RAM that `addr` reaches.
    pub open spec fn ram_offset(&self, addr: u16) -> int {
        (if self.advanced_mode { self.current_ram_bank as int } else { 0 }) * RAM_BANK_SIZE + addr as int % 0x2000
    }

    /// Loads an image whose header gives `rom_code` and `ram_code`.
    pub fn new(data: Vec<u8>) -> (r: Result<Self, CartridgeError>)
        requires
            data.len() > RAM_SIZE_ADDR,
        ensures
            r.is_ok() <==> (data@[ROM_SIZE_ADDR as int] <= 8 && spec_ram_info(data@[RAM_SIZE_ADDR as int]).is_some()
                && data.len() <= spec_rom_info(data@[ROM_SIZE_ADDR as int]).1),
            r.is_ok() ==> r.unwrap().spec_wf() && r.unwrap().rom@ == data@ && r.unwrap().current_rom_bank == 1
                && !r.unwrap().ram_enabled && !r.unwrap().advanced_mode,
    {
        let rom_code = data[ROM_SIZE_ADDR];
        let ram_code = data[RAM_SIZE_ADDR];
        if rom_code > 8 {
            return Err(CartridgeError::UnsupportedRomSize(rom_code));
        }
        let (rom_banks, rom_size) = rom_info_reg(rom_code);
        let (ram_banks, ram_size) = match ram_info_reg(ram_code) {
            Some(info) => info,
            None => {
                return Err(CartridgeError::UnsupportedRamSize(ram_code));
            },
        };
        if data.len() > rom_size {
            return Err(CartridgeError::RomTooLarge);
        }
        Ok(Self {
            rom: data,
            ram: vec![0u8; ram_size],
            rom_banks,
            ram_banks,
            current_rom_bank: 1,
            current_ram_bank: 0,
            ram_enabled: false,
            advanced_mode: false,
        })
    }

    /// A ROM read; bytes past the end of the image read as $FF.
    pub fn read_rom(&self, addr: u16) -> (r: u8)
        requires
            self.spec_wf(),
        ensures
            r == if self.rom_offset(addr) < self.rom.len() { self.rom@[self.rom_offset(addr)] } else { 0xFF },
    {
        let bank = if addr <= 0x3FFF {
            if self.advanced_mode {
                self.current_rom_bank - self.current_rom_bank % 32
            } else {
                0
            }
        } else {
            self.current_rom_bank
        };
        let offset = bank * ROM_BANK_SIZE + addr as usize % 0x4000;
        if offset < self.rom.len() {
            self.rom[offset]
        } else {
            0xFF
        }
    }

    /// A write to the register area: RAM enable, low bank, upper bits, mode.
    pub fn write_rom(&mut self, addr: u16, val: u8)
        requires
            old(self).spec_wf(),
        ensures
            final(self).spec_wf(),
            final(self).rom == old(self).rom && final(self).ram == old(self).ram,
            final(self).rom_banks == old(self).rom_banks && final(self).ram_banks == old(self).ram_banks,
            addr <= 0x1FFF ==> final(self).ram_enabled == (val % 16 == 0xA),
            0x2000 <= addr <= 0x3FFF ==> final(self).current_rom_bank == (old(self).current_rom_bank
                - old(self).current_rom_bank % 32 + (if val % 32 == 0 { 1 } else { val % 32 }))
                % (old(self).rom_banks as int),
            0x4000 <= addr <= 0x5FFF && old(self).rom_banks > 32 ==> final(self).current_rom_bank == (
            old(self).current_rom_bank % 32 + (val % 4) * 32) % (old(self).rom_banks as int),
            0x4000 <= addr <= 0x5FFF && old(self).ram_banks == 4 ==> final(self).current_ram_bank == val % 4,
            0x6000 <= addr <= 0x7FFF ==> final(self).advanced_mode == (val % 2 == 1),
    {
        if addr <= 0x1FFF {
            self.ram_enabled = val % 16 == 0xA;
        } else if addr <= 0x3FFF {
            let bank = if val % 32 == 0 { 1 } else { val % 32 };
            self.current_rom_bank = (self.current_rom_bank - self.current_rom_bank % 32 + bank as usize) % self.rom_banks;
        } else if addr <= 0x5FFF {
            if self.rom_banks > 32 {
                self.current_rom_bank = (self.current_rom_bank % 32 + (val as usize % 4) * 32) % self.rom_banks;
            }
            if self.ram_banks == 4 {
                self.current_ram_bank = (val % 4) as usize;
            }
        } else if addr <= 0x7FFF {
            self.advanced_mode = val % 2 == 1;
        }
    }

    /// A RAM read: $FF while RAM is disabled or where there is none.
    pub fn read_ram(&self, addr: u16) -> (r: u8)
        requires
            self.spec_wf(),
        ensures
            r == if self.ram_enabled && self.ram_offset(addr) < self.ram.len() {
                self.ram@[self.ram_offset(addr)]
            } else {
                0xFF
            },
    {
        if !self.ram_enabled {
            return 0xFF;
        }
        let bank = if self.advanced_mode { self.current_ram_bank } else { 0 };
        let offset = bank * RAM_BANK_SIZE + addr as usize % 0x2000;
        if offset < self.ram.len() {
            self.ram[offset]
        } else {
            0xFF
        }
    }

    /// A RAM write; dropped while RAM is disabled.
    pub fn write_ram(&mut self, addr: u16, val: u8)
        requires
            old(self).spec_wf(),
        ensures
            final(self).spec_wf(),
            final(self).rom == old(self).rom,
            final(self).ram@ == if old(self).ram_enabled && old(self).ram_offset(addr) < old(self).ram.len() {
                old(self).ram@.update(old(self).ram_offset(addr), val)
            } else {
                old(self).ram@
            },
            final(self).current_rom_bank == old(self).current_rom_bank,
            final(self).ram_enabled == old(self).ram_enabled,
    {
        if !self.ram_enabled {
            return;
        }
        let bank = if self.advanced_mode { self.current_ram_bank } else { 0 };
        let offset = bank * RAM_BANK_SIZE + addr as usize % 0x2000;
        if offset < self.ram.len() {
            self.ram[offset] = val;
        }
    }
}

impl MBC for MBC1 {
    open spec fn wf(&self) -> bool {
        self.spec_wf()
    }

    fn read_rom(&self, addr: u16) -> u8 {
        MBC1::read_rom(self, addr)
    }

    fn write_rom(&mut self, addr: u16, val: u8) {
        MBC1::write_rom(self, addr, val)
    }

    fn read_ram(&self, addr: u16) -> u8 {
        MBC1::read_ram(self, addr)
    }

    fn write_ram(&mut self, addr: u16, val: u8) {
        MBC1::write_ram(self, addr, val)
    }
}

/// The controller that a cartridge header selects.
pub enum Cartridge {
    Mbc0(MBC0),
    Mbc1(MBC1),
}

impl Cartridge {
    pub open spec fn wf(&self) -> bool {
        match self {
            Cartridge::Mbc0(m) => m.spec_wf(),
            Cartridge::Mbc1(m) => m.spec_wf(),
        }
    }

    /// The byte that a ROM-area read returns.
    pub open spec fn spec_read_rom(&self, addr: u16) -> u8 {
        match self {
            Cartridge::Mbc0(m) => m.rom@[addr as int % 0x8000],
            Cartridge::Mbc1(m) => if m.rom_offset(addr) < m.rom.len() { m.rom@[m.rom_offset(addr)] } else { 0xFF },
        }
    }

    /// The byte that an external-RAM read returns.
    pub open spec fn spec_read_ram(&self, addr: u16) -> u8 {
        match self {
            Cartridge::Mbc0(m) => m.ram@[addr as int % 0x2000],
            Cartridge::Mbc1(m) => if m.ram_enabled && m.ram_offset(addr) < m.ram.len() {
                m.ram@[m.ram_offset(addr)]
            } else {
                0xFF
            },
        }
    }

    pub fn read_rom(&self, addr: u16) -> (r: u8)
        requires
            self.wf(),
        ensures
            r == self.spec_read_rom(addr),
    {
        match self {
            Cartridge::Mbc0(m) => m.read_rom(addr),
            Cartridge::Mbc1(m) => m.read_rom(addr),
        }
    }

    pub fn write_rom(&mut self, addr: u16, val: u8)
        requires
            old(self).wf(),
        ensures
            final(self).wf(),
            *old(self) is Mbc0 ==> *final(self) == *old(self),
    {
        match self {
            Cartridge::Mbc0(m) => m.write_rom(addr, val),
            Cartridge::Mbc1(m) => m.write_rom(addr, val),
        }
    }

    pub fn read_ram(&self, addr: u16) -> (r: u8)
        requires
            self.wf(),
        ensures
            r == self.spec_read_ram(addr),
    {
        match self {
            Cartridge::Mbc0(m) => m.read_ram(addr),
            Cartridge::Mbc1(m) => m.read_ram(addr),
        }
    }

    pub fn write_ram(&mut self, addr: u16, val: u8)
        requires
            old(self).wf(),
        ensures
            final(self).wf(),
    {
        match self {
            Cartridge::Mbc0(m) => m.write_ram(addr, val),
            Cartridge::Mbc1(m) => m.write_ram(addr, val),
        }
    }
}

/// Whether the header's type code selects a supported controller.
pub open spec fn supported_type(code: u8) -> bool {
    code <= 3
}

/// Whether `rom` is an image that a supported controller accepts.
pub open spec fn loadable(rom: Seq<u8>) -> bool {
    &&& rom.len() > RAM_SIZE_ADDR
    &&& supported_type(rom[CARTRIDGE_TYPE_ADDR as int])
    &&& rom[CARTRIDGE_TYPE_ADDR as int] == 0 ==> rom.len() <= 32 * KB
    &&& rom[CARTRIDGE_TYPE_ADDR as int] != 0 ==> rom[ROM_SIZE_ADDR as int] <= 8 && spec_ram_info(
        rom[RAM_SIZE_ADDR as int],
    ).is_some() && rom.len() <= spec_rom_info(rom[ROM_SIZE_ADDR as int]).1
}

/// Picks the controller named by the cartridge type code at $0147: $00 is a flat ROM,
/// $01..$03 are MBC1.
pub fn init(cartridge: Vec<u8>) -> (r: Result<Cartridge, CartridgeError>)
    ensures
        cartridge.len() <= RAM_SIZE_ADDR ==> r == Err::<Cartridge, CartridgeError>(CartridgeError::TooShort),
        cartridge.len() > RAM_SIZE_ADDR && !supported_type(cartridge@[CARTRIDGE_TYPE_ADDR as int]) ==> r == Err::<
            Cartridge,
            CartridgeError,
        >(CartridgeError::UnsupportedType(cartridge@[CARTRIDGE_TYPE_ADDR as int])),
        cartridge.len() > RAM_SIZE_ADDR && cartridge@[CARTRIDGE_TYPE_ADDR as int] == 0 ==> (r.is_ok()
            <==> cartridge.len() <= 32 * KB) && (r.is_ok() ==> r.unwrap() is Mbc0),
        cartridge.len() > RAM_SIZE_ADDR && 1 <= cartridge@[CARTRIDGE_TYPE_ADDR as int] <= 3 ==> (r.is_ok()
            <==> (cartridge@[ROM_SIZE_ADDR as int] <= 8 && spec_ram_info(cartridge@[RAM_SIZE_ADDR as int]).is_some()
            && cartridge.len() <= spec_rom_info(cartridge@[ROM_SIZE_ADDR as int]).1)) && (r.is_ok()
            ==> r.unwrap() is Mbc1),
        r.is_ok() ==> r.unwrap().wf(),
        r.is_ok() <==> loadable(cartridge@),
{
    if cartridge.len() <= RAM_SIZE_ADDR {
        return Err(CartridgeError::TooShort);
    }
    let code = cartridge[CARTRIDGE_TYPE_ADDR];
    if code == 0 {
        if cartridge.len() > 32 * KB {
            Err(CartridgeError::RomTooLarge)
        } else {
            Ok(Cartridge::Mbc0(MBC0::new(cartridge)))
        }
    } else if code <= 3 {
        match MBC1::new(cartridge) {
            Ok(m) => Ok(Cartridge::Mbc1(m)),
            Err(e) => Err(e),
        }
    } else {
        Err(CartridgeError::UnsupportedType(code))
    }
}

} // verus!
