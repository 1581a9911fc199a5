use vstd::prelude::*;

verus! {

#[derive(Copy, Clone, Debug, PartialEq, Eq, Structural)]
pub enum PpuMode {
    HBlank,
    VBlank,
    OAMScan,
    DrawingPixels,
}

impl PpuMode {
    pub open spec fn spec_code(self) -> u8 {
        match self {
            PpuMode::HBlank => 0,
            PpuMode::VBlank => 1,
            PpuMode::OAMScan => 2,
            PpuMode::DrawingPixels => 3,
        }
    }

    /// The mode number that STAT bits 0..1 report.
    pub fn code(&self) -> (r: u8)
        ensures
            r == self.spec_code(),
    {
        match self {
            PpuMode::HBlank => 0,
            PpuMode::VBlank => 1,
            PpuMode::OAMScan => 2,
            PpuMode::DrawingPixels => 3,
        }
    }
}

/// STAT ($FF41), LY ($FF44) and LYC ($FF45).
#[derive(Copy, Clone, Debug)]
pub struct LcdStatus {
    pub lyc_int_select: bool,
    /// STAT interrupt on entering mode 2.
    pub oam_scan_interrupt: bool,
    /// STAT interrupt on entering mode 1.
    pub vblank_interrupt: bool,
    /// STAT interrupt on entering mode 0.
    pub hblank_interrupt: bool,
    /// The LY == LYC latch; read-only to the CPU.
    pub same_line_check: bool,
    pub ppu_mode: PpuMode,
    /// The current scanline; read-only to the CPU.
    pub ly: u8,
    pub lyc: u8,
}

/// LCDC ($FF40), from bit 7 down to bit 0.
#[derive(Copy, Clone, Debug)]
pub struct LcdControl {
    /// The LCD and the PPU are on.
    pub lcd_enable: bool,
    /// The window uses the tile map at $9C00 (else $9800).
    pub window_tile_map_area: bool,
    pub window_enable: bool,
    /// Background and window tiles are addressed from $8000 unsigned (else $8800 signed).
    pub bg_and_window_tile_data_area: bool,
    /// The background uses the tile map at $9C00 (else $9800).
    pub bg_tile_map_area: bool,
    /// Objects are 8x16 (else 8x8).
    pub obj_size: bool,
    pub obj_enable: bool,
    /// Background and window are drawn (else blank).
    pub bg_and_window_display: bool,
}

pub open spec fn flag(b: bool, weight: int) -> int {
    if b { weight } else { 0 }
}

impl LcdStatus {
    /// The byte STAT reads as.
    pub open spec fn view_byte(self) -> u8 {
        (flag(self.lyc_int_select, 64) + flag(self.oam_scan_interrupt, 32) + flag(self.vblank_interrupt, 16)
            + flag(self.hblank_interrupt, 8) + flag(self.same_line_check, 4) + self.ppu_mode.spec_code()) as u8
    }

    pub fn new() -> (r: Self)
        ensures
            r.ly == 0 && r.lyc == 0 && r.ppu_mode == PpuMode::HBlank,
            !r.lyc_int_select && !r.oam_scan_interrupt && !r.vblank_interrupt && !r.hblank_interrupt,
            !r.same_line_check,
    {
        Self {
            lyc_int_select: false,
            oam_scan_interrupt: false,
            vblank_interrupt: false,
            hblank_interrupt: false,
            same_line_check: false,
            ppu_mode: PpuMode::HBlank,
            ly: 0,
            lyc: 0,
        }
    }

    pub fn line(&self) -> (r: u8)
        ensures
            r == self.ly,
    {
        self.ly
    }

    /// Moves to scanline `new_line`; returns whether the LY == LYC interrupt is raised.
    pub fn set_line(&mut self, new_line: u8) -> (r: bool)
        ensures
            *final(self) == (LcdStatus { ly: new_line, same_line_check: new_line == old(self).lyc, ..*old(self) }),
            r == (old(self).lyc_int_select && new_line == old(self).lyc),
    {
        self.ly = new_line;
        self.compare_lines()
    }

    pub fn lyc(&self) -> (r: u8)
        ensures
            r == self.lyc,
    {
        self.lyc
    }

    /// Writes LYC; returns whether the LY == LYC interrupt is raised.
    pub fn set_lyc(&mut self, new_val: u8) -> (r: bool)
        ensures
            *final(self) == (LcdStatus { lyc: new_val, same_line_check: old(self).ly == new_val, ..*old(self) }),
            r == (old(self).lyc_int_select && old(self).ly == new_val),
    {
        self.lyc = new_val;
        self.compare_lines()
    }

    /// Latches LY == LYC; returns whether that raises the interrupt.
    pub fn compare_lines(&mut self) -> (r: bool)
        ensures
            *final(self) == (LcdStatus { same_line_check: old(self).ly == old(self).lyc, ..*old(self) }),
            r == (old(self).lyc_int_select && old(self).ly == old(self).lyc),
    {
        self.same_line_check = self.ly == self.lyc;
        self.lyc_int_select && self.same_line_check
    }

    /// A CPU write to STAT: only the four interrupt selects (bits 6..3) change.
    pub fn write_byte_to_status(&mut self, val: u8)
        ensures
            *final(self) == (LcdStatus {
                lyc_int_select: val & 0x40 != 0,
                oam_scan_interrupt: val & 0x20 != 0,
                vblank_interrupt: val & 0x10 != 0,
                hblank_interrupt: val & 0x08 != 0,
                ..*old(self)
            }),
    {
        self.lyc_int_select = val & 0x40 != 0;
        self.oam_scan_interrupt = val & 0x20 != 0;
        self.vblank_interrupt = val & 0x10 != 0;
        self.hblank_interrupt = val & 0x08 != 0;
    }

    pub fn get_status_byte(&self) -> (r: u8)
        ensures
            r == self.view_byte(),
    {
        (if self.lyc_int_select { 64u8 } else { 0 }) + (if self.oam_scan_interrupt { 32u8 } else { 0 }) + (
        if self.vblank_interrupt {
            16u8
        } else {
            0
        }) + (if self.hblank_interrupt { 8u8 } else { 0 }) + (if self.same_line_check { 4u8 } else { 0 })
            + self.ppu_mode.code()
    }

    pub fn ly(&self) -> (r: u8)
        ensures
            r == self.ly,
    {
        self.ly
    }
}

impl LcdControl {
    pub open spec fn view_byte(self) -> u8 {
        (flag(self.lcd_enable, 128) + flag(self.window_tile_map_area, 64) + flag(self.window_enable, 32)
            + flag(self.bg_and_window_tile_data_area, 16) + flag(self.bg_tile_map_area, 8) + flag(self.obj_size, 4)
            + flag(self.obj_enable, 2) + flag(self.bg_and_window_display, 1)) as u8
    }

    pub open spec fn spec_from_byte(val: u8) -> LcdControl {
        LcdControl {
            lcd_enable: val & 0x80 != 0,
            window_tile_map_area: val & 0x40 != 0,
            window_enable: val & 0x20 != 0,
            bg_and_window_tile_data_area: val & 0x10 != 0,
            bg_tile_map_area: val & 0x08 != 0,
            obj_size: val & 0x04 != 0,
            obj_enable: val & 0x02 != 0,
            bg_and_window_display: val & 0x01 != 0,
        }
    }

    pub fn new() -> (r: Self)
        ensures
            !r.lcd_enable && !r.window_tile_map_area && !r.window_enable && !r.bg_and_window_tile_data_area,
            !r.bg_tile_map_area && !r.obj_size && !r.obj_enable && !r.bg_and_window_display,
    {
        Self {
            lcd_enable: false,
            window_tile_map_area: false,
            window_enable: false,
            bg_and_window_tile_data_area: false,
            bg_tile_map_area: false,
            obj_size: false,
            obj_enable: false,
            bg_and_window_display: false,
        }
    }

    pub fn from_byte(val: u8) -> (r: Self)
        ensures
            r == Self::spec_from_byte(val),
    {
        LcdControl {
            lcd_enable: val & 0x80 != 0,
            window_tile_map_area: val & 0x40 != 0,
            window_enable: val & 0x20 != 0,
            bg_and_window_tile_data_area: val & 0x10 != 0,
            bg_tile_map_area: val & 0x08 != 0,
            obj_size: val & 0x04 != 0,
            obj_enable: val & 0x02 != 0,
            bg_and_window_display: val & 0x01 != 0,
        }
    }

    pub fn to_byte(&self) -> (r: u8)
        ensures
            r == self.view_byte(),
    {
        (if self.lcd_enable { 128u8 } else { 0 }) + (if self.window_tile_map_area { 64u8 } else { 0 }) + (
        if self.window_enable {
            32u8
        } else {
            0
        }) + (if self.bg_and_window_tile_data_area { 16u8 } else { 0 }) + (if self.bg_tile_map_area {
            8u8
        } else {
            0
        }) + (if self.obj_size { 4u8 } else { 0 }) + (if self.obj_enable { 2u8 } else { 0 }) + (
        if self.bg_and_window_display {
            1u8
        } else {
            0
        })
    }
}

impl From<LcdControl> for u8 {
    fn from(val: LcdControl) -> (r: u8) {
        val.to_byte()
    }
}

impl vstd::std_specs::convert::FromSpecImpl<LcdControl> for u8 {
    open spec fn obeys_from_spec() -> bool {
        true
    }

    open spec fn from_spec(val: LcdControl) -> u8 {
        val.view_byte()
    }
}

impl From<PpuMode> for u8 {
    fn from(val: PpuMode) -> (r: u8) {
        val.code()
    }
}

impl vstd::std_specs::convert::FromSpecImpl<PpuMode> for u8 {
    open spec fn obeys_from_spec() -> bool {
        true
    }

    open spec fn from_spec(val: PpuMode) -> u8 {
        val.spec_code()
    }
}

} // verus!
