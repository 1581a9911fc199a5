use vstd::prelude::*;

use crate::lcd_registers::{LcdControl, LcdStatus, PpuMode};

verus! {

pub const VIDEO_RAM_SIZE: usize = 8192;

pub const OAM_SIZE: usize = 160;

/// Pixels in the framebuffer: 160 x 144, one shade byte each, row by row.
pub const FRAME_PIXELS: usize = 23040;

pub const SCANLINE_DOTS: u32 = 456;

pub const SCANLINES: u8 = 154;

pub const LAST_VISIBLE_SCANLINE: u8 = 143;

pub const OAM_SCAN_DOTS: u32 = 80;

pub const DRAWING_PIXELS_DOTS: u32 = 172;

/// Dots in a whole frame: 154 lines of 456 dots.
pub const FRAME_DOTS: u32 = 70224;

/// At most this many objects are drawn on one scanline.
pub const MAX_OBJS_PER_SCANLINE: usize = 10;

/// The frame position at which line 144, the first VBlank line, begins.
pub const VBLANK_START: u32 = 65664;

#[derive(Copy, Clone, Default, Debug, PartialEq, Eq)]
pub struct Coordinate<T> {
    pub x: T,
    pub y: T,
}

impl<T> Coordinate<T> {
    pub fn new(x: T, y: T) -> (r: Self)
        ensures
            r.x == x && r.y == y,
    {
        Self { x, y }
    }
}

#[derive(Copy, Clone, Debug, PartialEq, Eq, Structural)]
pub enum Color {
    White,
    LightGray,
    DarkGray,
    Black,
}

/// The grey level of a shade, as each of R, G and B.
pub open spec fn shade_of(c: Color) -> u8 {
    match c {
        Color::White => 255,
        Color::LightGray => 211,
        Color::DarkGray => 68,
        Color::Black => 0,
    }
}

pub open spec fn color_of(v: u8) -> Color {
    if v % 4 == 0 {
        Color::White
    } else if v % 4 == 1 {
        Color::LightGray
    } else if v % 4 == 2 {
        Color::DarkGray
    } else {
        Color::Black
    }
}

pub open spec fn color_code(c: Color) -> u8 {
    match c {
        Color::White => 0,
        Color::LightGray => 1,
        Color::DarkGray => 2,
        Color::Black => 3,
    }
}

impl Color {
    pub fn rgb(&self) -> (r: u8)
        ensures
            r == shade_of(*self),
    {
        match self {
            Color::White => 255,
            Color::LightGray => 211,
            Color::DarkGray => 68,
            Color::Black => 0,
        }
    }

    /// The shade numbered by the low two bits of `v`.
    pub fn from_code(v: u8) -> (r: Color)
        ensures
            r == color_of(v),
    {
        if v % 4 == 0 {
            Color::White
        } else if v % 4 == 1 {
            Color::LightGray
        } else if v % 4 == 2 {
            Color::DarkGray
        } else {
            Color::Black
        }
    }

    pub fn code(&self) -> (r: u8)
        ensures
            r == color_code(*self),
            r < 4,
    {
        match self {
            Color::White => 0,
            Color::LightGray => 1,
            Color::DarkGray => 2,
            Color::Black => 3,
        }
    }
}

impl From<u8> for Color {
    fn from(val: u8) -> (r: Color) {
        Color::from_code(val)
    }
}

impl vstd::std_specs::convert::FromSpecImpl<u8> for Color {
    open spec fn obeys_from_spec() -> bool {
        true
    }

    open spec fn from_spec(val: u8) -> Color {
        color_of(val)
    }
}

/// A palette: the shade for each of the four colour numbers, from 0.
#[derive(Copy, Clone, Debug)]
pub struct BackgroundColors(pub Color, pub Color, pub Color, pub Color);

impl BackgroundColors {
    pub open spec fn spec_color(self, idx: int) -> Color {
        if idx == 0 {
            self.0
        } else if idx == 1 {
            self.1
        } else if idx == 2 {
            self.2
        } else {
            self.3
        }
    }

    pub open spec fn spec_from_byte(v: u8) -> BackgroundColors {
        BackgroundColors(color_of(v % 4), color_of((v / 4) % 4), color_of((v / 16) % 4), color_of(v / 64))
    }

    pub open spec fn view_byte(self) -> u8 {
        (color_code(self.0) + 4 * color_code(self.1) + 16 * color_code(self.2) + 64 * color_code(self.3)) as u8
    }

    /// The identity palette.
    pub fn new() -> (r: Self)
        ensures
            r == BackgroundColors(Color::White, Color::LightGray, Color::DarkGray, Color::Black),
    {
        Self(Color::White, Color::LightGray, Color::DarkGray, Color::Black)
    }

    pub fn get(&self) -> (r: [Color; 4])
        ensures
            r@ == seq![self.0, self.1, self.2, self.3],
    {
        [self.0, self.1, self.2, self.3]
    }

    /// The shade for colour number `idx`.
    pub fn color(&self, idx: u8) -> (r: Color)
        requires
            idx < 4,
        ensures
            r == self.spec_color(idx as int),
    {
        if idx == 0 {
            self.0
        } else if idx == 1 {
            self.1
        } else if idx == 2 {
            self.2
        } else {
            self.3
        }
    }

    pub fn from_byte(v: u8) -> (r: Self)
        ensures
            r == Self::spec_from_byte(v),
    {
        Self(Color::from_code(v % 4), Color::from_code((v / 4) % 4), Color::from_code((v / 16) % 4), Color::from_code(v / 64))
    }

    pub fn to_byte(&self) -> (r: u8)
        ensures
            r == self.view_byte(),
    {
        self.0.code() + 4 * self.1.code() + 16 * self.2.code() + 64 * self.3.code()
    }
}

impl From<u8> for BackgroundColors {
    fn from(v: u8) -> (r: BackgroundColors) {
        BackgroundColors::from_byte(v)
    }
}

impl vstd::std_specs::convert::FromSpecImpl<u8> for BackgroundColors {
    open spec fn obeys_from_spec() -> bool {
        true
    }

    open spec fn from_spec(v: u8) -> BackgroundColors {
        BackgroundColors::spec_from_byte(v)
    }
}

impl From<BackgroundColors> for u8 {
    fn from(v: BackgroundColors) -> (r: u8) {
        v.to_byte()
    }
}

impl vstd::std_specs::convert::FromSpecImpl<BackgroundColors> for u8 {
    open spec fn obeys_from_spec() -> bool {
        true
    }

    open spec fn from_spec(v: BackgroundColors) -> u8 {
        v.view_byte()
    }
}

/// The interrupts that the PPU requests.
#[derive(Copy, Clone, Default, Debug)]
pub struct GpuInterrupts {
    pub vblank: bool,
    pub lcd: bool,
}

impl GpuInterrupts {
    pub fn none() -> (r: Self)
        ensures
            !r.vblank && !r.lcd,
    {
        GpuInterrupts { vblank: false, lcd: false }
    }
}

/// Attribute byte of an object.
#[derive(Copy, Clone, Debug, PartialEq, Eq, Structural)]
pub struct OamAttributes {
    /// The object is hidden behind background colours other than white.
    pub bg_prio: bool,
    pub y_flip: bool,
    pub x_flip: bool,
    /// OBP1 is used (else OBP0).
    pub dmg_palette: bool,
}

impl OamAttributes {
    pub open spec fn spec_from_byte(val: u8) -> OamAttributes {
        OamAttributes {
            bg_prio: val & 0x80 != 0,
            y_flip: val & 0x40 != 0,
            x_flip: val & 0x20 != 0,
            dmg_palette: val & 0x10 != 0,
        }
    }

    pub fn from_byte(val: u8) -> (r: Self)
        ensures
            r == Self::spec_from_byte(val),
    {
        OamAttributes {
            bg_prio: val & 0x80 != 0,
            y_flip: val & 0x40 != 0,
            x_flip: val & 0x20 != 0,
            dmg_palette: val & 0x10 != 0,
        }
    }
}

/// One object descriptor, with its on-screen position and its number in OAM.
#[derive(Copy, Clone, Debug)]
pub struct Oam {
    pub pos: Coordinate<i16>,
    pub tile_idx: u8,
    pub attrs: OamAttributes,
    pub oam_idx: usize,
}

/// The tile index as stored; in 8x16 mode its low bit is ignored.
pub open spec fn obj_tile(raw: u8, tall: bool) -> u8 {
    if tall { (raw - raw % 2) as u8 } else { raw }
}

impl Oam {
    /// The object decoded from its four bytes (Y, X, tile, attributes).
    pub open spec fn spec_new(oam_idx: usize, tall: bool, y: u8, x: u8, tile: u8, attrs: u8) -> Oam {
        Oam {
            pos: Coordinate { x: (x - 8) as i16, y: (y - 16) as i16 },
            tile_idx: obj_tile(tile, tall),
            attrs: OamAttributes::spec_from_byte(attrs),
            oam_idx,
        }
    }

    pub fn new(oam_idx: usize, tall: bool, y: u8, x: u8, tile: u8, attrs: u8) -> (r: Self)
        ensures
            r == Self::spec_new(oam_idx, tall, y, x, tile, attrs),
    {
        Oam {
            pos: Coordinate::new(x as i16 - 8, y as i16 - 16),
            tile_idx: if tall { tile - tile % 2 } else { tile },
            attrs: OamAttributes::from_byte(attrs),
            oam_idx,
        }
    }

    /// Drawing order: by X, then by OAM number.
    pub open spec fn before(self, o: Oam) -> bool {
        self.pos.x < o.pos.x || (self.pos.x == o.pos.x && self.oam_idx < o.oam_idx)
    }
}

/// The picture processing unit: VRAM, OAM, the LCD registers and the framebuffer.
pub struct GPU {
    /// One shade byte per pixel, row by row.
    pub buffer: Vec<u8>,
    pub vram: Vec<u8>,
    pub oam: Vec<u8>,
    pub lcd_control: LcdControl,
    pub lcd_status: LcdStatus,
    /// SCX/SCY: top-left of the visible area within the 256x256 background.
    pub viewport: Coordinate<u8>,
    /// WX/WY: the window's top-left corner; X is stored plus 7.
    pub window: Coordinate<u8>,
    /// Whether WY equalled LY at the start of some Drawing mode in this frame.
    pub window_y_trigger: bool,
    /// The window's own line counter, reset at VBlank.
    pub window_current_y: u8,
    pub bg_colors: BackgroundColors,
    pub obj0_colors: BackgroundColors,
    pub obj1_colors: BackgroundColors,
    /// Dots elapsed in the current scanline.
    pub cycles: u32,
}

/// The mode that a visible line is in at dot `dots`; lines 144 and later are VBlank.
pub open spec fn mode_at(ly: u8, dots: u32) -> PpuMode {
    if ly > LAST_VISIBLE_SCANLINE {
        PpuMode::VBlank
    } else if dots <= OAM_SCAN_DOTS {
        PpuMode::OAMScan
    } else if dots <= OAM_SCAN_DOTS + DRAWING_PIXELS_DOTS {
        PpuMode::DrawingPixels
    } else {
        PpuMode::HBlank
    }
}

/// A tile-data byte as a signed offset.
pub open spec fn signed_index(v: u8) -> int {
    if v < 128 { v as int } else { v as int - 256 }
}

impl GPU {
    pub open spec fn wf_storage(&self) -> bool {
        &&& self.buffer.len() == FRAME_PIXELS
        &&& self.vram.len() == VIDEO_RAM_SIZE
        &&& self.oam.len() == OAM_SIZE
        &&& self.lcd_status.ly < SCANLINES
        &&& self.cycles < SCANLINE_DOTS
    }

    pub open spec fn wf(&self) -> bool {
        &&& self.wf_storage()
        &&& self.lcd_status.ly > LAST_VISIBLE_SCANLINE ==> self.lcd_status.ppu_mode == PpuMode::VBlank
        &&& self.lcd_status.ly <= LAST_VISIBLE_SCANLINE ==> self.lcd_status.ppu_mode != PpuMode::VBlank
        &&& !self.lcd_control.lcd_enable ==> self.lcd_status.ly == 0
    }

    /// Dots since the start of the frame.
    pub open spec fn position(&self) -> int {
        self.lcd_status.ly as int * SCANLINE_DOTS as int + self.cycles as int
    }

    pub open spec fn window_visible(&self, x: int) -> bool {
        self.lcd_control.window_enable && self.window_y_trigger && self.window.x as int <= x + 7
    }

    /// The background (or window) map coordinate shown at screen column `x`.
    pub open spec fn tile_coord(&self, x: int) -> (int, int) {
        if self.window_visible(x) {
            (x + 7 - self.window.x as int, self.window_current_y as int)
        } else {
            ((self.viewport.x as int + x) % 256, (self.viewport.y as int + self.lcd_status.ly as int) % 256)
        }
    }

    /// The tile map used at column `x`.
    pub open spec fn map_base(&self, x: int) -> int {
        if (if self.window_visible(x) { self.lcd_control.window_tile_map_area } else { self.lcd_control.bg_tile_map_area }) {
            0x9C00
        } else {
            0x9800
        }
    }

    /// Address of the first byte of tile `v` under the current addressing mode.
    pub open spec fn tile_base(&self, v: u8) -> int {
        if self.lcd_control.bg_and_window_tile_data_area {
            0x8000 + v as int * 16
        } else {
            0x9000 + signed_index(v) * 16
        }
    }

    pub open spec fn vram_at(&self, addr: int) -> u8 {
        self.vram@[addr - 0x8000]
    }

    /// The background/window colour number at column `x` of the current line.
    pub open spec fn bg_color_index(&self, x: int) -> int {
        let (tx, ty) = self.tile_coord(x);
        let tile = self.vram_at(self.map_base(x) + (ty / 8) * 32 + tx / 8);
        let row = self.tile_base(tile) + (ty % 8) * 2;
        let lo = self.vram_at(row);
        let hi = self.vram_at(row + 1);
        let bit = (7 - tx % 8) as u8;
        ((hi >> bit) & 1) as int * 2 + ((lo >> bit) & 1) as int
    }

    /// The background/window shade at column `x` of the current line; blank when disabled.
    pub open spec fn bg_shade(&self, x: int) -> u8 {
        if self.lcd_control.bg_and_window_display {
            shade_of(self.bg_colors.spec_color(self.bg_color_index(x)))
        } else {
            255
        }
    }

    /// The object descriptor number `i` as the PPU reads it.
    pub open spec fn oam_entry(&self, i: int) -> Oam {
        Oam::spec_new(
            i as usize,
            self.lcd_control.obj_size,
            self.oam@[4 * i],
            self.oam@[4 * i + 1],
            self.oam@[4 * i + 2],
            self.oam@[4 * i + 3],
        )
    }

    pub open spec fn obj_height(&self) -> int {
        if self.lcd_control.obj_size { 16 } else { 8 }
    }

    /// Whether object `o` covers the current line.
    pub open spec fn on_line(&self, o: Oam) -> bool {
        o.pos.y <= self.lcd_status.ly as int && (self.lcd_status.ly as int) < o.pos.y + self.obj_height()
    }

    /// The number of objects among the first `n` that cover the current line.
    pub open spec fn count_on_line(&self, n: int) -> int
        decreases n,
    {
        if n <= 0 {
            0
        } else {
            self.count_on_line(n - 1) + if self.on_line(self.oam_entry(n - 1)) { 1int } else { 0 }
        }
    }

    /// Object `i` is among those the OAM scan picks for the current line: it covers the line
    /// and fewer than ten earlier objects do.
    pub open spec fn selected(&self, i: int) -> bool {
        0 <= i < 40 && self.on_line(self.oam_entry(i)) && self.count_on_line(i) < MAX_OBJS_PER_SCANLINE
    }

    /// The colour number that object `o` has at screen column `x` of the current line.
    pub open spec fn obj_color_index(&self, o: Oam, x: int) -> int {
        let dy = self.lcd_status.ly as int - o.pos.y;
        let row = if o.attrs.y_flip { self.obj_height() - 1 - dy } else { dy };
        let addr = o.tile_idx as int * 16 + row * 2;
        let lo = self.vram@[addr];
        let hi = self.vram@[addr + 1];
        let px = x - o.pos.x;
        let bit = (if o.attrs.x_flip { px } else { 7 - px }) as u8;
        ((hi >> bit) & 1) as int * 2 + ((lo >> bit) & 1) as int
    }

    /// The shade that object `o` paints at column `x` over a background of shade `bg`:
    /// none off the object or the screen, for colour 0, or behind a non-white background
    /// when the object has background priority.
    pub open spec fn obj_pixel(&self, o: Oam, bg: u8, x: int) -> Option<u8> {
        if 0 <= x < 160 && o.pos.x <= x < o.pos.x + 8 {
            let c = self.obj_color_index(o, x);
            if c == 0 || (o.attrs.bg_prio && bg != 255) {
                None
            } else {
                Some(shade_of((if o.attrs.dmg_palette { self.obj1_colors } else { self.obj0_colors }).spec_color(c)))
            }
        } else {
            None
        }
    }

    /// Column `x` after drawing `objs[k..]` last to first over `line`: the first of them that
    /// paints the column shows.
    pub open spec fn painted(&self, objs: Seq<Oam>, k: int, bg: Seq<u8>, line: Seq<u8>, x: int) -> u8
        decreases objs.len() - k,
    {
        if k >= objs.len() || k < 0 {
            line[x]
        } else {
            match self.obj_pixel(objs[k], bg[x], x) {
                Some(c) => c,
                None => self.painted(objs, k + 1, bg, line, x),
            }
        }
    }
}

pub proof fn lemma_bit_of_byte(v: u8, b: u8)
    ensures
        (v >> b) & 1 <= 1,
{
    assert((v >> b) & 1 <= 1) by (bit_vector);
}

/// Copies a finished scanline into row `ly` of the framebuffer.
fn write_row(buffer: &mut Vec<u8>, ly: usize, line: &Vec<u8>)
    requires
        old(buffer).len() == FRAME_PIXELS,
        ly < 144,
        line.len() == 160,
    ensures
        final(buffer).len() == FRAME_PIXELS,
        forall|x: int| 0 <= x < 160 ==> #[trigger] final(buffer)@[ly * 160 + x] == line@[x],
        forall|i: int|
            0 <= i < FRAME_PIXELS && !(ly * 160 <= i < ly * 160 + 160) ==> #[trigger] final(buffer)@[i] == old(buffer)@[i],
{
    let mut x: usize = 0;
    while x < 160
        invariant
            x <= 160,
            ly < 144,
            line.len() == 160,
            buffer.len() == FRAME_PIXELS,
            forall|k: int| 0 <= k < x ==> #[trigger] buffer@[ly * 160 + k] == line@[k],
            forall|i: int|
                0 <= i < FRAME_PIXELS && !(ly * 160 <= i < ly * 160 + x) ==> #[trigger] buffer@[i] == old(buffer)@[i],
        decreases 160 - x,
    {
        buffer[ly * 160 + x] = line[x];
        x = x + 1;
    }
}

impl GPU {
    pub fn new() -> (r: Self)
        ensures
            r.wf(),
            !r.lcd_control.lcd_enable && !r.lcd_control.window_enable,
            !r.window_y_trigger && r.window_current_y == 0,
            r.viewport == (Coordinate::<u8> { x: 0, y: 0 }) && r.window == (Coordinate::<u8> { x: 0, y: 0 }),
            r.lcd_status.ly == 0 && r.cycles == 0,
            forall|i: int| 0 <= i < FRAME_PIXELS ==> #[trigger] r.buffer@[i] == 255,
    {
        Self {
            buffer: vec![255u8; FRAME_PIXELS],
            vram: vec![0u8; VIDEO_RAM_SIZE],
            oam: vec![0u8; OAM_SIZE],
            lcd_control: LcdControl::new(),
            lcd_status: LcdStatus::new(),
            viewport: Coordinate::new(0, 0),
            window: Coordinate::new(0, 0),
            window_current_y: 0,
            window_y_trigger: false,
            bg_colors: BackgroundColors::new(),
            obj0_colors: BackgroundColors::new(),
            obj1_colors: BackgroundColors::new(),
            cycles: 0,
        }
    }

    /// Whether the window covers screen column `screen_x` on this line.
    pub fn is_window_visible(&self, screen_x: u8) -> (r: bool)
        ensures
            r == self.window_visible(screen_x as int),
    {
        self.lcd_control.window_enable && self.window_y_trigger && self.window.x as u16 <= screen_x as u16 + 7
    }

    /// The map coordinate shown at column `screen_x`; the viewport wraps around the 256x256 map.
    pub fn get_tile_addr(&self, screen_x: u8) -> (r: Coordinate<u8>)
        requires
            screen_x < 160,
        ensures
            (r.x as int, r.y as int) == self.tile_coord(screen_x as int),
    {
        if self.is_window_visible(screen_x) {
            Coordinate::new(screen_x + 7 - self.window.x, self.window_current_y)
        } else {
            Coordinate::new(
                self.viewport.x.wrapping_add(screen_x),
                self.viewport.y.wrapping_add(self.lcd_status.line()),
            )
        }
    }

    /// The tile map in use at column `screen_x`.
    pub fn get_bg_mem(&self, screen_x: u8) -> (r: u16)
        ensures
            r as int == self.map_base(screen_x as int),
    {
        let window_map = if self.is_window_visible(screen_x) {
            self.lcd_control.window_tile_map_area
        } else {
            self.lcd_control.bg_tile_map_area
        };
        if window_map {
            0x9C00
        } else {
            0x9800
        }
    }

    /// The background/window shade at column `screen_x` of the current line.
    pub fn bg_pixel(&self, screen_x: u8) -> (r: u8)
        requires
            self.wf_storage(),
            screen_x < 160,
        ensures
            r == self.bg_shade(screen_x as int),
    {
        if !self.lcd_control.bg_and_window_display {
            return 255;
        }
        let c = self.get_tile_addr(screen_x);
        let tx = c.x;
        let ty = c.y;
        let map = (self.get_bg_mem(screen_x) - 0x8000) as usize + (ty as usize / 8) * 32 + tx as usize / 8;
        let v = self.vram[map];
        let base: usize = if self.lcd_control.bg_and_window_tile_data_area {
            v as usize * 16
        } else if v < 128 {
            0x1000 + v as usize * 16
        } else {
            0x1000 - (256 - v as usize) * 16
        };
        let row = base + (ty as usize % 8) * 2;
        let lo = self.vram[row];
        let hi = self.vram[row + 1];
        let bit = 7 - tx % 8;
        proof {
            lemma_bit_of_byte(hi, bit);
            lemma_bit_of_byte(lo, bit);
        }
        let idx = ((hi >> bit) & 1) * 2 + ((lo >> bit) & 1);
        self.bg_colors.color(idx).rgb()
    }

    /// The OAM scan: the first ten objects in OAM order that cover the current line, sorted
    /// by X and then by OAM number.
    pub fn select_sprites(&self) -> (objs: Vec<Oam>)
        requires
            self.wf_storage(),
        ensures
            objs.len() <= MAX_OBJS_PER_SCANLINE,
            objs.len() == if self.count_on_line(40) < 10 { self.count_on_line(40) } else { 10 },
            forall|k: int|
                0 <= k < objs.len() ==> self.selected(objs@[k].oam_idx as int) && objs@[k] == self.oam_entry(
                    objs@[k].oam_idx as int,
                ),
            forall|a: int, b: int| 0 <= a < b < objs.len() ==> (#[trigger] objs@[a]).before(#[trigger] objs@[b]),
            forall|a: int, b: int|
                0 <= a < objs.len() && 0 <= b < objs.len() && a != b ==> (#[trigger] objs@[a]).oam_idx
                    != (#[trigger] objs@[b]).oam_idx,
    {
        let tall = self.lcd_control.obj_size;
        let h: i16 = if tall { 16 } else { 8 };
        let ly = self.lcd_status.line() as i16;
        let mut objs: Vec<Oam> = Vec::new();
        let mut i: usize = 0;
        while i < 40 && objs.len() < MAX_OBJS_PER_SCANLINE
            invariant
                self.wf_storage(),
                i <= 40,
                h as int == self.obj_height(),
                ly as int == self.lcd_status.ly as int,
                tall == self.lcd_control.obj_size,
                objs.len() == self.count_on_line(i as int),
                objs.len() <= MAX_OBJS_PER_SCANLINE,
                forall|k: int|
                    0 <= k < objs.len() ==> self.selected(objs@[k].oam_idx as int) && objs@[k] == self.oam_entry(
                        objs@[k].oam_idx as int,
                    ) && objs@[k].oam_idx < i,
                forall|a: int, b: int| 0 <= a < b < objs.len() ==> (#[trigger] objs@[a]).before(#[trigger] objs@[b]),
                forall|a: int, b: int|
                    0 <= a < objs.len() && 0 <= b < objs.len() && a != b ==> (#[trigger] objs@[a]).oam_idx
                        != (#[trigger] objs@[b]).oam_idx,
            decreases 40 - i,
        {
            let o = Oam::new(i, tall, self.oam[4 * i], self.oam[4 * i + 1], self.oam[4 * i + 2], self.oam[4 * i + 3]);
            assert(o == self.oam_entry(i as int));
            if o.pos.y <= ly && ly < o.pos.y + h {
                let mut pos: usize = 0;
                while pos < objs.len() && objs[pos].pos.x <= o.pos.x
                    invariant
                        pos <= objs.len(),
                        forall|a: int| 0 <= a < pos ==> (#[trigger] objs@[a]).pos.x <= o.pos.x,
                    decreases objs.len() - pos,
                {
                    pos = pos + 1;
                }
                let ghost before = objs@;
                objs.insert(pos, o);
                proof {
                    assert forall|a: int, b: int| 0 <= a < b < objs.len() implies (#[trigger] objs@[a]).before(
                        #[trigger] objs@[b],
                    ) by {
                        if b < pos {
                            assert(objs@[a] == before[a] && objs@[b] == before[b]);
                        } else if b == pos {
                            assert(objs@[a] == before[a]);
                        } else if a == pos {
                            assert(objs@[b] == before[b - 1]);
                            if b - 1 > pos {
                                assert(before[pos as int].before(before[b - 1]));
                            }
                        } else if a < pos {
                            assert(objs@[a] == before[a] && objs@[b] == before[b - 1]);
                        } else {
                            assert(objs@[a] == before[a - 1] && objs@[b] == before[b - 1]);
                        }
                    }
                    assert forall|k: int| 0 <= k < objs.len() implies self.selected(objs@[k].oam_idx as int)
                        && objs@[k] == self.oam_entry(objs@[k].oam_idx as int) && objs@[k].oam_idx < i + 1 by {
                        if k < pos {
                            assert(objs@[k] == before[k]);
                        } else if k > pos {
                            assert(objs@[k] == before[k - 1]);
                        }
                    }
                    assert forall|a: int, b: int|
                        0 <= a < objs.len() && 0 <= b < objs.len() && a != b implies (#[trigger] objs@[a]).oam_idx
                            != (#[trigger] objs@[b]).oam_idx by {
                        if a != pos as int && b != pos as int {
                            let a0 = if a < pos { a } else { a - 1 };
                            let b0 = if b < pos { b } else { b - 1 };
                            assert(objs@[a] == before[a0] && objs@[b] == before[b0]);
                        } else if a == pos {
                            let b0 = if b < pos { b } else { b - 1 };
                            assert(objs@[b] == before[b0]);
                        } else {
                            let a0 = if a < pos { a } else { a - 1 };
                            assert(objs@[a] == before[a0]);
                        }
                    }
                }
            }
            i = i + 1;
        }
        proof {
            if i < 40 {
                lemma_count_on_line_grows(self, i as int, 40);
            }
        }
        objs
    }
}

impl GPU {
    /// Draws `objs` over `line` in reverse order, so that the first of them ends on top.
    /// Colour 0 is transparent; an object with background priority shows only over white.
    pub fn draw_sprites(&self, objs: &Vec<Oam>, bg: &Vec<u8>, line: &mut Vec<u8>)
        requires
            self.wf_storage(),
            bg.len() == 160,
            old(line).len() == 160,
            forall|k: int| 0 <= k < objs.len() ==> self.on_line(#[trigger] objs@[k]),
        ensures
            final(line).len() == 160,
            forall|x: int| 0 <= x < 160 ==> #[trigger] final(line)@[x] == self.painted(objs@, 0, bg@, old(line)@, x),
    {
        let h: i16 = if self.lcd_control.obj_size { 16 } else { 8 };
        let ly = self.lcd_status.line() as i16;
        let ghost line0 = line@;
        let mut k: usize = objs.len();
        while k > 0
            invariant
                self.wf_storage(),
                k <= objs.len(),
                h as int == self.obj_height(),
                ly as int == self.lcd_status.ly as int,
                line.len() == 160,
                bg.len() == 160,
                forall|j: int| 0 <= j < objs.len() ==> self.on_line(#[trigger] objs@[j]),
                forall|x: int| 0 <= x < 160 ==> #[trigger] line@[x] == self.painted(objs@, k as int, bg@, line0, x),
            decreases k,
        {
            let obj = objs[k - 1];
            assert(self.on_line(objs@[k - 1]));
            let dy = ly - obj.pos.y;
            let row = if obj.attrs.y_flip { h - 1 - dy } else { dy };
            let addr = obj.tile_idx as usize * 16 + row as usize * 2;
            let lo = self.vram[addr];
            let hi = self.vram[addr + 1];
            let palette = if obj.attrs.dmg_palette { self.obj1_colors } else { self.obj0_colors };
            let ghost before = line@;
            let mut px: u8 = 0;
            while px < 8
                invariant
                    px <= 8,
                    line.len() == 160,
                    bg.len() == 160,
                    self.wf_storage(),
                    obj == objs@[k - 1],
                    addr as int == obj.tile_idx as int * 16 + (if obj.attrs.y_flip {
                        self.obj_height() - 1 - (self.lcd_status.ly as int - obj.pos.y)
                    } else {
                        self.lcd_status.ly as int - obj.pos.y
                    }) * 2,
                    addr + 1 < VIDEO_RAM_SIZE,
                    lo == self.vram@[addr as int] && hi == self.vram@[addr + 1],
                    palette == (if obj.attrs.dmg_palette { self.obj1_colors } else { self.obj0_colors }),
                    forall|x: int|
                        0 <= x < 160 ==> #[trigger] line@[x] == if obj.pos.x <= x < obj.pos.x + px {
                            match self.obj_pixel(obj, bg@[x], x) {
                                Some(c) => c,
                                None => before[x],
                            }
                        } else {
                            before[x]
                        },
                decreases 8 - px,
            {
                let sx = obj.pos.x as i32 + px as i32;
                if 0 <= sx && sx < 160 {
                    let color_bit = if obj.attrs.x_flip { px } else { 7 - px };
                    proof {
                        lemma_bit_of_byte(hi, color_bit);
                        lemma_bit_of_byte(lo, color_bit);
                    }
                    let raw = ((hi >> color_bit) & 1) * 2 + ((lo >> color_bit) & 1);
                    assert(raw as int == self.obj_color_index(obj, sx as int));
                    if raw != 0 && !(obj.attrs.bg_prio && bg[sx as usize] != 255) {
                        line.set(sx as usize, palette.color(raw).rgb());
                    }
                }
                px = px + 1;
            }
            k = k - 1;
        }
    }

    /// Renders the current line into the framebuffer: background and window, then objects.
    fn draw_line(&mut self)
        requires
            old(self).wf_storage(),
            old(self).lcd_status.ly <= LAST_VISIBLE_SCANLINE,
        ensures
            final(self).viewport == old(self).viewport && final(self).window == old(self).window,
            final(self).wf_storage(),
            final(self).vram == old(self).vram && final(self).oam == old(self).oam,
            final(self).lcd_control == old(self).lcd_control && final(self).lcd_status == old(self).lcd_status,
            final(self).cycles == old(self).cycles && final(self).window_y_trigger == old(self).window_y_trigger,
            !old(self).lcd_control.obj_enable ==> forall|x: int|
                0 <= x < 160 ==> #[trigger] final(self).buffer@[old(self).lcd_status.ly * 160 + x] == old(self).bg_shade(x),
            old(self).lcd_control.obj_enable ==> exists|objs: Seq<Oam>|
                {
                    &&& objs.len() <= MAX_OBJS_PER_SCANLINE
                    &&& forall|a: int, b: int| 0 <= a < b < objs.len() ==> (#[trigger] objs[a]).before(#[trigger] objs[b])
                    &&& objs.len() == if old(self).count_on_line(40) < 10 { old(self).count_on_line(40) } else { 10 }
                    &&& forall|k: int|
                        0 <= k < objs.len() ==> old(self).selected(objs[k].oam_idx as int) && objs[k] == old(
                            self,
                        ).oam_entry(objs[k].oam_idx as int)
                    &&& forall|a: int, b: int|
                        0 <= a < objs.len() && 0 <= b < objs.len() && a != b ==> (#[trigger] objs[a]).oam_idx
                            != (#[trigger] objs[b]).oam_idx
                    &&& forall|x: int|
                        0 <= x < 160 ==> #[trigger] final(self).buffer@[old(self).lcd_status.ly * 160 + x] == old(self).painted(
                            objs,
                            0,
                            Seq::new(160, |i: int| old(self).bg_shade(i)),
                            Seq::new(160, |i: int| old(self).bg_shade(i)),
                            x,
                        )
                },
    {
        let mut line: Vec<u8> = Vec::new();
        let mut bg: Vec<u8> = Vec::new();
        let mut x: u8 = 0;
        while x < 160
            invariant
                self.wf_storage(),
                x <= 160,
                line.len() == x && bg.len() == x,
                forall|k: int| 0 <= k < x ==> #[trigger] line@[k] == self.bg_shade(k) && bg@[k] == line@[k],
            decreases 160 - x,
        {
            let p = self.bg_pixel(x);
            line.push(p);
            bg.push(p);
            x = x + 1;
        }
        let ghost shades = Seq::new(160, |i: int| self.bg_shade(i));
        proof {
            assert(line@ =~= shades);
            assert forall|i: int| 0 <= i < 160 implies bg@[i] == shades[i] by {
                assert(line@[i] == self.bg_shade(i));
            }
            assert(bg@ =~= shades);
        }
        let ghost mut chosen: Seq<Oam> = Seq::empty();
        if self.lcd_control.obj_enable {
            let objs = self.select_sprites();
            proof {
                assert forall|k: int| 0 <= k < objs.len() implies self.on_line(#[trigger] objs@[k]) by {
                    assert(self.selected(objs@[k].oam_idx as int));
                }
            }
            self.draw_sprites(&objs, &bg, &mut line);
            proof {
                chosen = objs@;
            }
        }
        let ly = self.lcd_status.line() as usize;
        write_row(&mut self.buffer, ly, &line);
        proof {
            if old(self).lcd_control.obj_enable {
                assert forall|x: int| 0 <= x < 160 implies #[trigger] self.buffer@[old(self).lcd_status.ly * 160 + x]
                    == old(self).painted(chosen, 0, shades, shades, x) by {
                    assert(self.buffer@[ly * 160 + x] == line@[x]);
                }
                assert(chosen.len() <= MAX_OBJS_PER_SCANLINE);
            }
        }
        if self.lcd_control.bg_and_window_display && self.is_window_visible(159) {
            self.window_current_y = self.window_current_y.wrapping_add(1);
        }
    }

    /// Fills the framebuffer with white.
    fn clear_screen(&mut self)
        requires
            old(self).wf_storage(),
        ensures
            final(self).viewport == old(self).viewport && final(self).window == old(self).window,
            final(self).wf_storage(),
            forall|i: int| 0 <= i < FRAME_PIXELS ==> #[trigger] final(self).buffer@[i] == 255,
            final(self).vram == old(self).vram && final(self).oam == old(self).oam,
            final(self).lcd_control == old(self).lcd_control && final(self).lcd_status == old(self).lcd_status,
            final(self).cycles == old(self).cycles,
    {
        self.buffer = vec![255u8; FRAME_PIXELS];
    }

    /// Enters `new_mode`, rendering the line on entry to HBlank; returns the interrupts raised.
    fn switch_to_mode(&mut self, new_mode: PpuMode) -> (inter: GpuInterrupts)
        requires
            old(self).wf_storage(),
            new_mode == PpuMode::VBlank || old(self).lcd_status.ly <= LAST_VISIBLE_SCANLINE,
        ensures
            final(self).viewport == old(self).viewport && final(self).window == old(self).window,
            final(self).wf_storage(),
            final(self).lcd_status == (LcdStatus { ppu_mode: new_mode, ..old(self).lcd_status }),
            final(self).vram == old(self).vram && final(self).oam == old(self).oam,
            final(self).lcd_control == old(self).lcd_control,
            final(self).cycles == old(self).cycles,
            inter.vblank == (new_mode == PpuMode::VBlank),
            inter.lcd == match new_mode {
                PpuMode::HBlank => old(self).lcd_status.hblank_interrupt,
                PpuMode::VBlank => old(self).lcd_status.vblank_interrupt,
                PpuMode::OAMScan => old(self).lcd_status.oam_scan_interrupt,
                PpuMode::DrawingPixels => false,
            },
    {
        self.lcd_status.ppu_mode = new_mode;
        let mut inter = GpuInterrupts::none();
        match new_mode {
            PpuMode::HBlank => {
                self.draw_line();
                inter.lcd = self.lcd_status.hblank_interrupt;
            },
            PpuMode::VBlank => {
                inter.vblank = true;
                self.window_current_y = 0;
                self.window_y_trigger = false;
                inter.lcd = self.lcd_status.vblank_interrupt;
            },
            PpuMode::OAMScan => {
                inter.lcd = self.lcd_status.oam_scan_interrupt;
            },
            PpuMode::DrawingPixels => {
                if self.lcd_control.window_enable && self.lcd_status.line() == self.window.y {
                    self.window_y_trigger = true;
                }
            },
        }
        inter
    }

    /// A write to LCDC; turning the LCD off resets LY, forces HBlank and blanks the screen,
    /// turning it on enters OAM scan after a four-dot delay.
    pub fn set_lcd_control(&mut self, val: u8) -> (inter: GpuInterrupts)
        requires
            old(self).wf(),
        ensures
            final(self).wf(),
            final(self).lcd_control == LcdControl::spec_from_byte(val),
            final(self).vram == old(self).vram && final(self).oam == old(self).oam,
            final(self).viewport == old(self).viewport && final(self).window == old(self).window,
            !old(self).lcd_control.lcd_enable && val & 0x80 != 0 ==> final(self).cycles == 4
                && final(self).lcd_status.ppu_mode == PpuMode::OAMScan,
            old(self).lcd_control.lcd_enable && val & 0x80 == 0 ==> final(self).cycles == 0
                && final(self).lcd_status.ly == 0 && final(self).lcd_status.ppu_mode == PpuMode::HBlank,
            old(self).lcd_control.lcd_enable && val & 0x80 == 0 ==> forall|i: int|
                0 <= i < FRAME_PIXELS ==> #[trigger] final(self).buffer@[i] == 255,
            !inter.vblank,
            !old(self).lcd_control.lcd_enable && val & 0x80 != 0 ==> inter.lcd == old(self).lcd_status.oam_scan_interrupt,
            old(self).lcd_control.lcd_enable && val & 0x80 == 0 ==> inter.lcd == (old(self).lcd_status.lyc_int_select
                && old(self).lcd_status.lyc == 0),
            old(self).lcd_control.lcd_enable == (val & 0x80 != 0) ==> !inter.lcd,
            old(self).lcd_control.lcd_enable == (val & 0x80 != 0) ==> final(self).position() == old(self).position()
                && final(self).lcd_status.ppu_mode == old(self).lcd_status.ppu_mode,
    {
        let new = LcdControl::from_byte(val);
        let mut inter = GpuInterrupts::none();
        if !self.lcd_control.lcd_enable && new.lcd_enable {
            inter = self.switch_to_mode(PpuMode::OAMScan);
            self.cycles = 4;
        } else if self.lcd_control.lcd_enable && !new.lcd_enable {
            self.cycles = 0;
            if self.lcd_status.set_line(0) {
                inter.lcd = true;
            }
            self.lcd_status.ppu_mode = PpuMode::HBlank;
            self.clear_screen();
        }
        self.lcd_control = new;
        inter
    }

    /// The PPU after a CPU write to one of STAT, SCY, SCX, LYC, BGP, OBP0, OBP1, WY, WX (the
    /// low two bits of OBP0/OBP1 are dropped: colour 0 of objects is transparent); other
    /// addresses change nothing here.
    pub open spec fn reg_written(self, addr: u16, val: u8) -> GPU {
        if addr == 0xFF41 {
            GPU {
                lcd_status: LcdStatus {
                    lyc_int_select: val & 0x40 != 0,
                    oam_scan_interrupt: val & 0x20 != 0,
                    vblank_interrupt: val & 0x10 != 0,
                    hblank_interrupt: val & 0x08 != 0,
                    ..self.lcd_status
                },
                ..self
            }
        } else if addr == 0xFF42 {
            GPU { viewport: Coordinate { y: val, ..self.viewport }, ..self }
        } else if addr == 0xFF43 {
            GPU { viewport: Coordinate { x: val, ..self.viewport }, ..self }
        } else if addr == 0xFF45 {
            GPU { lcd_status: LcdStatus { lyc: val, same_line_check: self.lcd_status.ly == val, ..self.lcd_status }, ..self }
        } else if addr == 0xFF47 {
            GPU { bg_colors: BackgroundColors::spec_from_byte(val), ..self }
        } else if addr == 0xFF48 {
            GPU { obj0_colors: BackgroundColors::spec_from_byte(val & !3u8), ..self }
        } else if addr == 0xFF49 {
            GPU { obj1_colors: BackgroundColors::spec_from_byte(val & !3u8), ..self }
        } else if addr == 0xFF4A {
            GPU { window: Coordinate { y: val, ..self.window }, ..self }
        } else if addr == 0xFF4B {
            GPU { window: Coordinate { x: val, ..self.window }, ..self }
        } else {
            self
        }
    }

    /// A CPU write to one of LCDC, STAT, SCY, SCX, LYC, BGP, OBP0, OBP1, WY, WX; returns
    /// the interrupts raised. LY is read-only and other addresses are ignored.
    #[verifier::rlimit(40)]
    pub fn write_register(&mut self, addr: u16, val: u8) -> (inter: GpuInterrupts)
        requires
            old(self).wf(),
        ensures
            final(self).wf(),
            final(self).vram == old(self).vram && final(self).oam == old(self).oam,
            addr == 0xFF40 ==> final(self).lcd_control == LcdControl::spec_from_byte(val),
            addr != 0xFF40 ==> final(self).lcd_control == old(self).lcd_control,
            addr == 0xFF42 ==> final(self).viewport.y == val,
            addr == 0xFF43 ==> final(self).viewport.x == val,
            addr == 0xFF45 ==> final(self).lcd_status.lyc == val,
            addr == 0xFF4A ==> final(self).window.y == val,
            addr == 0xFF4B ==> final(self).window.x == val,
            addr != 0xFF40 ==> *final(self) == old(self).reg_written(addr, val),
            addr == 0xFF40 ==> final(self).viewport == old(self).viewport && final(self).window == old(self).window,
            addr != 0xFF40 ==> !inter.vblank,
            addr != 0xFF40 ==> inter.lcd == (addr == 0xFF45 && old(self).lcd_status.lyc_int_select && old(self).lcd_status.ly
                == val),
    {
        let mut inter = GpuInterrupts::none();
        match addr {
            0xFF40 => {
                inter = self.set_lcd_control(val);
            },
            0xFF41 => self.lcd_status.write_byte_to_status(val),
            0xFF42 => self.viewport.y = val,
            0xFF43 => self.viewport.x = val,
            0xFF45 => {
                inter.lcd = self.lcd_status.set_lyc(val);
            },
            0xFF47 => self.bg_colors = BackgroundColors::from_byte(val),
            0xFF48 => self.obj0_colors = BackgroundColors::from_byte(val & !3),
            0xFF49 => self.obj1_colors = BackgroundColors::from_byte(val & !3),
            0xFF4A => self.window.y = val,
            0xFF4B => self.window.x = val,
            _ => {},
        }
        inter
    }

    /// Advances the PPU by `cycles` dots. While the LCD is on, the frame position (LY * 456 +
    /// dots into the line) advances by exactly `cycles` modulo a frame of 70224 dots, and the
    /// mode follows the position.
    #[verifier::rlimit(80)]
    pub fn step(&mut self, cycles: u32) -> (inter: GpuInterrupts)
        requires
            old(self).wf(),
        ensures
            final(self).wf(),
            final(self).vram == old(self).vram && final(self).oam == old(self).oam,
            final(self).lcd_control == old(self).lcd_control,
            !old(self).lcd_control.lcd_enable ==> *final(self) == *old(self) && !inter.vblank && !inter.lcd,
            old(self).lcd_control.lcd_enable ==> final(self).position() == (old(self).position() + cycles)
                % (FRAME_DOTS as int),
            old(self).lcd_control.lcd_enable && cycles > 0 ==> final(self).lcd_status.ppu_mode == mode_at(
                final(self).lcd_status.ly,
                final(self).cycles,
            ),
            old(self).lcd_control.lcd_enable && old(self).position() < VBLANK_START <= old(self).position() + cycles
                ==> inter.vblank,
            old(self).lcd_control.lcd_enable && old(self).position() + cycles < VBLANK_START + FRAME_DOTS ==> (inter.vblank
                ==> old(self).position() < VBLANK_START <= old(self).position() + cycles),
    {
        let mut inter = GpuInterrupts::none();
        if !self.lcd_control.lcd_enable {
            return inter;
        }
        let mut left = cycles;
        while left > 0
            invariant
                self.wf(),
                self.lcd_control == old(self).lcd_control,
                self.lcd_control.lcd_enable,
                self.vram == old(self).vram && self.oam == old(self).oam,
                left <= cycles,
                self.position() == (old(self).position() + (cycles - left)) % (FRAME_DOTS as int),
                left < cycles ==> self.lcd_status.ppu_mode == mode_at(self.lcd_status.ly, self.cycles),
                old(self).position() < VBLANK_START <= old(self).position() + (cycles - left) ==> inter.vblank,
                inter.vblank && old(self).position() + (cycles - left) < VBLANK_START + FRAME_DOTS ==> old(self).position()
                    < VBLANK_START <= old(self).position() + (cycles - left),
                0 <= old(self).position() < FRAME_DOTS,
            decreases left,
        {
            let now = if left < OAM_SCAN_DOTS { left } else { OAM_SCAN_DOTS };
            left = left - now;
            let ghost pos0 = self.position();
            let ghost done = cycles - left - now;
            let ghost was_vblank = inter.vblank;
            self.cycles = self.cycles + now;
            if self.cycles >= SCANLINE_DOTS {
                self.cycles = self.cycles - SCANLINE_DOTS;
                let next = if self.lcd_status.line() == SCANLINES - 1 { 0 } else { self.lcd_status.line() + 1 };
                if self.lcd_status.set_line(next) {
                    inter.lcd = true;
                }
                if self.lcd_status.ppu_mode != PpuMode::VBlank && self.lcd_status.line() > LAST_VISIBLE_SCANLINE {
                    let i = self.switch_to_mode(PpuMode::VBlank);
                    inter.vblank = inter.vblank || i.vblank;
                    inter.lcd = inter.lcd || i.lcd;
                }
            }
            proof {
                assert(self.position() == (pos0 + now) % (FRAME_DOTS as int));
                if inter.vblank && !was_vblank {
                    let p = old(self).position();
                    let x = p + done;
                    assert(pos0 == x % 70224);
                    assert(65208 <= pos0 < 65664);
                    assert(self.position() >= 65664);
                    if x + now < 65664 + 70224 {
                        assert(p < 65664 <= x + now) by (nonlinear_arith)
                            requires
                                pos0 == x % 70224,
                                65208 <= pos0 < 65664,
                                (x + now) % 70224 >= 65664,
                                0 <= now <= 80,
                                x + now < 65664 + 70224,
                                0 <= p < 70224,
                                p <= x,
                        ;
                    }
                }
            }
            if self.lcd_status.line() <= LAST_VISIBLE_SCANLINE {
                let want = if self.cycles <= OAM_SCAN_DOTS {
                    PpuMode::OAMScan
                } else if self.cycles <= OAM_SCAN_DOTS + DRAWING_PIXELS_DOTS {
                    PpuMode::DrawingPixels
                } else {
                    PpuMode::HBlank
                };
                if self.lcd_status.ppu_mode != want {
                    let i = self.switch_to_mode(want);
                    inter.vblank = inter.vblank || i.vblank;
                    inter.lcd = inter.lcd || i.lcd;
                }
            }
        }
        inter
    }

    /// The framebuffer as RGB bytes, row by row.
    pub fn to_rgb8(&self) -> (out: Vec<u8>)
        requires
            self.wf_storage(),
        ensures
            out.len() == 3 * FRAME_PIXELS,
            forall|i: int, c: int| 0 <= i < FRAME_PIXELS && 0 <= c < 3 ==> #[trigger] out@[3 * i + c] == self.buffer@[i],
    {
        let mut out: Vec<u8> = Vec::new();
        let mut i: usize = 0;
        while i < FRAME_PIXELS
            invariant
                self.wf_storage(),
                i <= FRAME_PIXELS,
                out.len() == 3 * i,
                forall|j: int, c: int| 0 <= j < i && 0 <= c < 3 ==> #[trigger] out@[3 * j + c] == self.buffer@[j],
            decreases FRAME_PIXELS - i,
        {
            let v = self.buffer[i];
            out.push(v);
            out.push(v);
            out.push(v);
            proof {
                assert forall|j: int, c: int| 0 <= j < i + 1 && 0 <= c < 3 implies #[trigger] out@[3 * j + c]
                    == self.buffer@[j] by {
                    if j == i {
                        assert(3 * j + c >= 3 * i);
                    }
                }
            }
            i = i + 1;
        }
        out
    }

    /// The framebuffer as 0RGB words, row by row.
    pub fn to_rgb32(&self) -> (out: Vec<u32>)
        requires
            self.wf_storage(),
        ensures
            out.len() == FRAME_PIXELS,
            forall|i: int| 0 <= i < FRAME_PIXELS ==> #[trigger] out@[i] == self.buffer@[i] as u32 * 0x010101,
    {
        let mut out: Vec<u32> = Vec::new();
        let mut i: usize = 0;
        while i < FRAME_PIXELS
            invariant
                self.wf_storage(),
                i <= FRAME_PIXELS,
                out.len() == i,
                forall|j: int| 0 <= j < i ==> #[trigger] out@[j] == self.buffer@[j] as u32 * 0x010101,
            decreases FRAME_PIXELS - i,
        {
            out.push(self.buffer[i] as u32 * 0x010101);
            i = i + 1;
        }
        out
    }
}

/// While the LCD is on, LY is the frame position divided by 456 and the dot counter its
/// remainder; with `step` advancing the position by exactly the dots given, modulo a frame,
/// LY runs through 0, 1, ..., 153, 0, ... and holds each value for 456 dots.
pub proof fn lemma_ly_follows_position(g: GPU)
    requires
        g.wf(),
    ensures
        0 <= g.position() < FRAME_DOTS,
        g.lcd_status.ly as int == g.position() / (SCANLINE_DOTS as int),
        g.cycles as int == g.position() % (SCANLINE_DOTS as int),
{
    let p = g.position();
    let ly = g.lcd_status.ly as int;
    let c = g.cycles as int;
    assert(p == ly * 456 + c);
    assert(p / 456 == ly && p % 456 == c) by (nonlinear_arith)
        requires p == ly * 456 + c, 0 <= c < 456, 0 <= ly;
}

/// On a drawn line the first object in drawing order that paints a column is the one that
/// shows there. The OAM scan orders objects by X and then by OAM number, so of two objects
/// at the same X the one with the lower OAM number is on top.
pub proof fn lemma_first_painter_shows(g: GPU, objs: Seq<Oam>, bg: Seq<u8>, line: Seq<u8>, x: int, a: int)
    requires
        0 <= a < objs.len(),
        g.obj_pixel(objs[a], bg[x], x) is Some,
        forall|j: int| 0 <= j < a ==> g.obj_pixel(#[trigger] objs[j], bg[x], x) is None,
    ensures
        g.painted(objs, 0, bg, line, x) == g.obj_pixel(objs[a], bg[x], x)->Some_0,
{
    lemma_painted_from(g, objs, bg, line, x, a, 0);
}

proof fn lemma_painted_from(g: GPU, objs: Seq<Oam>, bg: Seq<u8>, line: Seq<u8>, x: int, a: int, k: int)
    requires
        0 <= k <= a < objs.len(),
        g.obj_pixel(objs[a], bg[x], x) is Some,
        forall|j: int| 0 <= j < a ==> g.obj_pixel(#[trigger] objs[j], bg[x], x) is None,
    ensures
        g.painted(objs, k, bg, line, x) == g.obj_pixel(objs[a], bg[x], x)->Some_0,
    decreases a - k,
{
    if k < a {
        assert(g.obj_pixel(objs[k], bg[x], x) is None);
        lemma_painted_from(g, objs, bg, line, x, a, k + 1);
    }
}

proof fn lemma_count_on_line_grows(g: &GPU, i: int, j: int)
    requires
        0 <= i <= j,
    ensures
        g.count_on_line(i) <= g.count_on_line(j),
    decreases j - i,
{
    if i < j {
        lemma_count_on_line_grows(g, i, j - 1);
    }
}

} // verus!
