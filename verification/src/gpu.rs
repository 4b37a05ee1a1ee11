//! The pixel processing unit: 8 KiB of video RAM holding 384 tiles and two
//! 32x32 tile maps, 160 bytes of object attribute memory, the LCD control
//! and status registers, a decoded tile cache kept coherent with VRAM, the
//! per-scanline mode machine, and the scanline renderer that fills the
//! 160x144 four-bytes-per-pixel framebuffer.

use vstd::prelude::*;
use vstd::arithmetic::div_mod::lemma_fundamental_div_mod;
use vstd::arithmetic::div_mod::lemma_fundamental_div_mod_converse;
use crate::registers::pair;

verus! {

/// One of the four grey shades the LCD can show.
#[derive(Clone, Copy, PartialEq, Eq, Structural, Debug)]
pub enum Color {
    White,
    LightGray,
    DarkGray,
    Black,
}

impl Color {
    /// The byte written into the framebuffer for this shade.
    pub open spec fn spec_shade(self) -> u8 {
        match self {
            Color::White => 255,
            Color::LightGray => 192,
            Color::DarkGray => 96,
            Color::Black => 0,
        }
    }

    /// The byte written into the framebuffer for this shade.
    pub fn shade(self) -> (r: u8)
        ensures
            r == self.spec_shade(),
    {
        match self {
            Color::White => 255,
            Color::LightGray => 192,
            Color::DarkGray => 96,
            Color::Black => 0,
        }
    }

    /// The two-bit palette index encoding this shade.
    pub open spec fn spec_index(self) -> int {
        match self {
            Color::White => 0,
            Color::LightGray => 1,
            Color::DarkGray => 2,
            Color::Black => 3,
        }
    }

    /// The two-bit palette index encoding this shade.
    pub fn index(self) -> (r: u8)
        ensures
            r == self.spec_index(),
    {
        match self {
            Color::White => 0,
            Color::LightGray => 1,
            Color::DarkGray => 2,
            Color::Black => 3,
        }
    }

    /// The shade a two-bit palette field selects.
    pub open spec fn spec_from_index(n: u8) -> Color {
        if n == 0 {
            Color::White
        } else if n == 1 {
            Color::LightGray
        } else if n == 2 {
            Color::DarkGray
        } else {
            Color::Black
        }
    }

    /// The shade a two-bit palette field selects.
    pub fn from_index(n: u8) -> (r: Color)
        requires
            n < 4,
        ensures
            r == Color::spec_from_index(n),
    {
        if n == 0 {
            Color::White
        } else if n == 1 {
            Color::LightGray
        } else if n == 2 {
            Color::DarkGray
        } else {
            Color::Black
        }
    }
}

/// The four shades the background palette register assigns to the four
/// tile colour indices, lowest index first.
#[derive(Clone, Copy, PartialEq, Eq, Structural, Debug)]
pub struct BackgroundColors(pub Color, pub Color, pub Color, pub Color);

impl BackgroundColors {
    /// The shade assigned to a two-bit colour index.
    pub open spec fn spec_shade_of(self, index: int) -> u8 {
        if index == 0 {
            self.0.spec_shade()
        } else if index == 1 {
            self.1.spec_shade()
        } else if index == 2 {
            self.2.spec_shade()
        } else {
            self.3.spec_shade()
        }
    }

    /// The palette decoded from a register byte: two bits per index,
    /// lowest index in the lowest bits.
    pub open spec fn spec_from_byte(value: u8) -> BackgroundColors {
        BackgroundColors(
            Color::spec_from_index((value % 4) as u8),
            Color::spec_from_index(((value / 4) % 4) as u8),
            Color::spec_from_index(((value / 16) % 4) as u8),
            Color::spec_from_index((value / 64) as u8),
        )
    }

    /// The register byte this palette reads back as.
    pub open spec fn spec_to_byte(self) -> u8 {
        (self.0.spec_index() + self.1.spec_index() * 4 + self.2.spec_index() * 16
            + self.3.spec_index() * 64) as u8
    }

    /// The identity palette: index 0 is white, index 3 is black.
    pub fn new() -> (r: BackgroundColors)
        ensures
            r == (BackgroundColors(Color::White, Color::LightGray, Color::DarkGray, Color::Black)),
    {
        BackgroundColors(Color::White, Color::LightGray, Color::DarkGray, Color::Black)
    }

    /// Decodes a palette register byte.
    pub fn from_byte(value: u8) -> (r: BackgroundColors)
        ensures
            r == BackgroundColors::spec_from_byte(value),
    {
        BackgroundColors(
            Color::from_index(value % 4),
            Color::from_index((value / 4) % 4),
            Color::from_index((value / 16) % 4),
            Color::from_index(value / 64),
        )
    }
}

/// Which of the two 32x32 tile maps a layer reads.
#[derive(Clone, Copy, PartialEq, Eq, Structural, Debug)]
pub enum TileMap {
    X9800,
    X9C00,
}

/// The offset of a tile map inside VRAM.
pub open spec fn spec_map_base(m: TileMap) -> int {
    match m {
        TileMap::X9800 => 0x1800,
        TileMap::X9C00 => 0x1C00,
    }
}

/// How background and window tile indices address the tile data: plain
/// bytes from 0x8000, or signed bytes around 0x9000.
#[derive(Clone, Copy, PartialEq, Eq, Structural, Debug)]
pub enum BackgroundAndWindowDataSelect {
    X8000,
    X8800,
}

/// The cached tile number a background or window map byte selects: the
/// byte itself in plain mode, or the byte as a signed offset added to 256
/// in signed mode.
pub open spec fn spec_tile_number(sel: BackgroundAndWindowDataSelect, idx: u8) -> int {
    match sel {
        BackgroundAndWindowDataSelect::X8000 => idx as int,
        BackgroundAndWindowDataSelect::X8800 => if idx < 128 {
            256 + idx
        } else {
            idx as int
        },
    }
}

/// Whether sprites are one tile or two tiles tall.
#[derive(Clone, Copy, PartialEq, Eq, Structural, Debug)]
pub enum ObjectSize {
    OS8X8,
    OS8X16,
}

/// The four states of the per-scanline mode machine.
#[derive(Clone, Copy, PartialEq, Eq, Structural, Debug)]
pub enum Mode {
    HorizontalBlank,
    VerticalBlank,
    OAMAccess,
    VRAMAccess,
}

impl Mode {
    /// The two-bit encoding of the mode in the status register.
    pub open spec fn spec_bits(self) -> int {
        match self {
            Mode::HorizontalBlank => 0,
            Mode::VerticalBlank => 1,
            Mode::OAMAccess => 2,
            Mode::VRAMAccess => 3,
        }
    }

    /// The machine cycles a scanline spends in this mode.
    pub open spec fn spec_budget(self) -> int {
        match self {
            Mode::OAMAccess => 80,
            Mode::VRAMAccess => 172,
            Mode::HorizontalBlank => 204,
            Mode::VerticalBlank => 456,
        }
    }
}

/// One two-bit tile colour index.
#[derive(Clone, Copy, PartialEq, Eq, Structural, Debug)]
pub enum TilePixelValue {
    Zero,
    One,
    Two,
    Three,
}

impl TilePixelValue {
    /// The index as a number.
    pub open spec fn spec_index(self) -> int {
        match self {
            TilePixelValue::Zero => 0,
            TilePixelValue::One => 1,
            TilePixelValue::Two => 2,
            TilePixelValue::Three => 3,
        }
    }

    /// The index as a number.
    pub fn index(self) -> (r: u8)
        ensures
            r == self.spec_index(),
    {
        match self {
            TilePixelValue::Zero => 0,
            TilePixelValue::One => 1,
            TilePixelValue::Two => 2,
            TilePixelValue::Three => 3,
        }
    }
}

impl Default for TilePixelValue {
    /// The blank colour index.
    fn default() -> (r: Self)
        ensures
            r == TilePixelValue::Zero,
    {
        TilePixelValue::Zero
    }
}

/// Which of the two object palettes a sprite uses.
#[derive(Clone, Copy, PartialEq, Eq, Structural, Debug)]
pub enum ObjectPalette {
    Zero,
    One,
}

impl Default for ObjectPalette {
    /// The first object palette.
    fn default() -> (r: Self)
        ensures
            r == ObjectPalette::Zero,
    {
        ObjectPalette::Zero
    }
}

/// One decoded sprite: screen position (already shifted left by 8 and up
/// by 16 from the stored bytes), tile number, palette choice, flips, and
/// whether the sprite shows over a non-blank background pixel.
#[derive(Clone, Copy, PartialEq, Eq, Structural, Debug)]
pub struct ObjectData {
    pub x: i16,
    pub y: i16,
    pub tile: u8,
    pub palette: ObjectPalette,
    pub xflip: bool,
    pub yflip: bool,
    pub priority: bool,
}

/// The sprite decoded from its four attribute bytes: the stored Y is the
/// screen row plus 16, the stored X the screen column plus 8; flag bit 4
/// picks the palette, bits 5 and 6 the flips, and a clear bit 7 puts the
/// sprite over the background.
pub open spec fn spec_object(y: u8, x: u8, tile: u8, flags: u8) -> ObjectData {
    ObjectData {
        y: (y - 0x10) as i16,
        x: (x - 0x08) as i16,
        tile: tile,
        palette: if (flags / 16) % 2 == 1 {
            ObjectPalette::One
        } else {
            ObjectPalette::Zero
        },
        xflip: (flags / 32) % 2 == 1,
        yflip: (flags / 64) % 2 == 1,
        priority: (flags / 128) % 2 == 0,
    }
}

impl Default for ObjectData {
    /// The sprite all-zero attribute bytes decode to: fully off screen,
    /// tile 0, first palette, no flips, over the background.
    fn default() -> (r: Self)
        ensures
            r == spec_object(0, 0, 0, 0),
    {
        ObjectData {
            x: -0x08,
            y: -0x10,
            tile: 0,
            palette: ObjectPalette::Zero,
            xflip: false,
            yflip: false,
            priority: true,
        }
    }
}

/// What a step of the mode machine asks the bus to raise.
#[derive(Clone, Copy, PartialEq, Eq, Structural, Debug)]
pub enum InterruptRequest {
    NoInterrupt,
    VBlank,
    LCDStat,
    Both,
}

/// Joining a new request into an already gathered one.
pub open spec fn spec_add_request(a: InterruptRequest, b: InterruptRequest) -> InterruptRequest {
    match a {
        InterruptRequest::NoInterrupt => b,
        InterruptRequest::VBlank => if b == InterruptRequest::LCDStat {
            InterruptRequest::Both
        } else {
            a
        },
        InterruptRequest::LCDStat => if b == InterruptRequest::VBlank {
            InterruptRequest::Both
        } else {
            a
        },
        InterruptRequest::Both => a,
    }
}

impl InterruptRequest {
    /// Joins another request into this one.
    pub fn add(&mut self, other: InterruptRequest)
        ensures
            *final(self) == spec_add_request(*old(self), other),
    {
        match self {
            InterruptRequest::NoInterrupt => *self = other,
            InterruptRequest::VBlank => if other == InterruptRequest::LCDStat {
                *self = InterruptRequest::Both;
            },
            InterruptRequest::LCDStat => if other == InterruptRequest::VBlank {
                *self = InterruptRequest::Both;
            },
            InterruptRequest::Both => (),
        }
    }
}

/// The window position registers: the window shows from screen column
/// x - 7 and screen row y.
#[derive(Clone, Copy, PartialEq, Eq, Structural, Debug)]
pub struct Window {
    pub x: u8,
    pub y: u8,
}

/// The colour index of one tile pixel, decoded from the two bytes of its
/// row: the bit of the first byte is the low bit, the bit of the second
/// byte the high bit, leftmost pixel in the highest bit.
pub open spec fn spec_decoded_pixel(byte1: u8, byte2: u8, p: u8) -> TilePixelValue {
    let mask = 1u8 << ((7 - p) as u8);
    match (byte1 & mask != 0, byte2 & mask != 0) {
        (true, true) => TilePixelValue::Three,
        (false, true) => TilePixelValue::Two,
        (true, false) => TilePixelValue::One,
        (false, false) => TilePixelValue::Zero,
    }
}

/// True when the four framebuffer bytes of screen column `x` of
/// scanline `line` in `canvas` show the shade `s`, or, where `s` is
/// None, still hold the bytes of `pre_canvas`.
pub open spec fn spec_canvas_pixel_matches(
    pre_canvas: Seq<u8>,
    canvas: Seq<u8>,
    line: int,
    x: int,
    s: Option<u8>,
) -> bool {
    let base = line * 640 + 4 * x;
    match s {
        Some(v) => {
            &&& canvas[base] == v
            &&& canvas[base + 1] == v
            &&& canvas[base + 2] == v
            &&& canvas[base + 3] == 255
        },
        None => {
            &&& canvas[base] == pre_canvas[base]
            &&& canvas[base + 1] == pre_canvas[base + 1]
            &&& canvas[base + 2] == pre_canvas[base + 2]
            &&& canvas[base + 3] == pre_canvas[base + 3]
        },
    }
}

/// True when the four framebuffer bytes of screen column `x` in `post`
/// show the shade sprite `i` paints there, where the sprite puts a
/// pixel at `x` of the scanline, and still hold the bytes of `pre`
/// elsewhere.
pub open spec fn spec_sprite_applied(
    g: GPU,
    pre_canvas: Seq<u8>,
    post_canvas: Seq<u8>,
    i: int,
    x: int,
) -> bool {
    spec_canvas_pixel_matches(
        pre_canvas,
        post_canvas,
        g.line as int,
        x,
        if g.spec_sprite_draws(i, g.line as int, x) {
            Some(g.spec_sprite_shade(i, g.line as int, x))
        } else {
            None
        },
    )
}

/// As `spec_sprite_applied`, but only for the columns left of `limit`
/// that the sprite loop has visited so far.
pub open spec fn spec_sprite_applied_upto(
    g: GPU,
    pre_canvas: Seq<u8>,
    post_canvas: Seq<u8>,
    i: int,
    x: int,
    limit: int,
) -> bool {
    spec_canvas_pixel_matches(
        pre_canvas,
        post_canvas,
        g.line as int,
        x,
        if g.spec_sprite_draws(i, g.line as int, x) && x < limit {
            Some(g.spec_sprite_shade(i, g.line as int, x))
        } else {
            None
        },
    )
}

/// The pixel processing unit.
pub struct GPU {
    /// The 160x144 output image, four bytes per pixel: three equal shade
    /// bytes and an alpha byte of 255.
    pub canvas_buffer: Vec<u8>,
    /// The decoded tile cache: 384 tiles of 8 rows of 8 colour indices,
    /// stored flat as tile * 64 + row * 8 + pixel.
    pub tile_set: Vec<TilePixelValue>,
    /// The 40 decoded sprites.
    pub object_data: Vec<ObjectData>,
    /// The raw 8 KiB of video RAM.
    pub vram: Vec<u8>,
    /// The raw 160 bytes of object attribute memory.
    pub oam: Vec<u8>,
    pub background_colors: BackgroundColors,
    pub viewport_x_offset: u8,
    pub viewport_y_offset: u8,
    pub lcd_display_enabled: bool,
    pub window_display_enabled: bool,
    pub background_display_enabled: bool,
    pub object_display_enabled: bool,
    pub line_equals_line_check_interrupt_enabled: bool,
    pub oam_interrupt_enabled: bool,
    pub vblank_interrupt_enabled: bool,
    pub hblank_interrupt_enabled: bool,
    pub line_check: u8,
    pub line_equals_line_check: bool,
    pub window_tile_map: TileMap,
    pub background_tile_map: TileMap,
    pub background_and_window_data_select: BackgroundAndWindowDataSelect,
    pub object_size: ObjectSize,
    pub obj_0_color_1: Color,
    pub obj_0_color_2: Color,
    pub obj_0_color_3: Color,
    pub obj_1_color_1: Color,
    pub obj_1_color_2: Color,
    pub obj_1_color_3: Color,
    pub window: Window,
    pub line: u8,
    pub mode: Mode,
    pub cycles: u16,
}

impl GPU {
    /// The cached colour index of pixel `p` of row `r` of tile `t`.
    pub open spec fn tile_px(self, t: int, r: int, p: int) -> TilePixelValue {
        self.tile_set@[t * 64 + r * 8 + p]
    }

    /// Everything the mode machine and the renderer rely on: the buffers
    /// keep their fixed sizes; the scanline counter stays within the frame
    /// and agrees with the mode; the cycle accumulator stays below the
    /// largest mode budget; the tile cache decodes the tile bytes of VRAM;
    /// and the decoded sprites decode the attribute bytes of OAM.
    pub open spec fn wf(self) -> bool {
        &&& self.wf_core()
        &&& self.cycles < 456
    }

    /// Everything of `wf` except the bound on the cycle accumulator,
    /// which a step breaks transiently while it decides on a transition.
    pub open spec fn wf_core(self) -> bool {
        &&& self.canvas_buffer@.len() == 160 * 144 * 4
        &&& self.tile_set@.len() == 384 * 64
        &&& self.object_data@.len() == 40
        &&& self.vram@.len() == 0x2000
        &&& self.oam@.len() == 0xA0
        &&& self.line <= 153
        &&& (self.mode == Mode::VerticalBlank ==> self.line >= 144)
        &&& (self.mode != Mode::VerticalBlank ==> self.line <= 143)
        &&& self.tile_cache_coherent()
        &&& self.objects_coherent()
    }

    /// Each entry of the tile cache decodes the pair of VRAM bytes that
    /// backs it.
    pub open spec fn tile_cache_coherent(self) -> bool {
        forall|t: int, r: int, p: int|
            0 <= t < 384 && 0 <= r < 8 && 0 <= p < 8 ==> #[trigger] self.tile_px(t, r, p)
                == spec_decoded_pixel(
                self.vram@[t * 16 + 2 * r],
                self.vram@[t * 16 + 2 * r + 1],
                p as u8,
            )
    }

    /// Each decoded sprite decodes its four OAM bytes.
    pub open spec fn objects_coherent(self) -> bool {
        forall|i: int|
            0 <= i < 40 ==> #[trigger] self.object_data@[i] == spec_object(
                self.oam@[4 * i],
                self.oam@[4 * i + 1],
                self.oam@[4 * i + 2],
                self.oam@[4 * i + 3],
            )
    }

    /// Tile-cache coherence carries to any state whose cache and whose
    /// tile-data bytes of VRAM are those of a coherent one.
    pub proof fn lemma_tile_coherence_carry(pre: GPU, post: GPU)
        requires
            pre.tile_cache_coherent(),
            post.tile_set@ == pre.tile_set@,
            post.vram@.len() == pre.vram@.len(),
            pre.vram@.len() >= 0x1800,
            forall|j: int| 0 <= j < 0x1800 ==> post.vram@[j] == pre.vram@[j],
        ensures
            post.tile_cache_coherent(),
    {
        assert forall|t: int, r: int, p: int|
            0 <= t < 384 && 0 <= r < 8 && 0 <= p < 8 implies #[trigger] post.tile_px(t, r, p)
            == spec_decoded_pixel(
            post.vram@[t * 16 + 2 * r],
            post.vram@[t * 16 + 2 * r + 1],
            p as u8,
        ) by {
            assert(pre.tile_px(t, r, p) == spec_decoded_pixel(
                pre.vram@[t * 16 + 2 * r],
                pre.vram@[t * 16 + 2 * r + 1],
                p as u8,
            ));
            assert(t * 16 + 2 * r + 1 < 0x1800);
        }
    }

    /// Sprite coherence carries to any state whose decoded sprites and
    /// whose OAM bytes are those of a coherent one.
    pub proof fn lemma_objects_coherence_carry(pre: GPU, post: GPU)
        requires
            pre.objects_coherent(),
            post.object_data@ == pre.object_data@,
            post.oam@ == pre.oam@,
        ensures
            post.objects_coherent(),
    {
        assert forall|i: int| 0 <= i < 40 implies #[trigger] post.object_data@[i] == spec_object(
            post.oam@[4 * i],
            post.oam@[4 * i + 1],
            post.oam@[4 * i + 2],
            post.oam@[4 * i + 3],
        ) by {
            assert(pre.object_data@[i] == spec_object(
                pre.oam@[4 * i],
                pre.oam@[4 * i + 1],
                pre.oam@[4 * i + 2],
                pre.oam@[4 * i + 3],
            ));
        }
    }

    /// The LCD control byte, most significant bit first: LCD enable,
    /// window map select, window enable, tile data select, background map
    /// select, sprite size, sprite enable, background enable.
    pub open spec fn spec_lcdc(self) -> u8 {
        ((if self.lcd_display_enabled { 0x80int } else { 0 })
            + (if self.window_tile_map == TileMap::X9C00 { 0x40int } else { 0 })
            + (if self.window_display_enabled { 0x20int } else { 0 })
            + (if self.background_and_window_data_select == BackgroundAndWindowDataSelect::X8000 { 0x10int } else { 0 })
            + (if self.background_tile_map == TileMap::X9C00 { 0x08int } else { 0 })
            + (if self.object_size == ObjectSize::OS8X16 { 0x04int } else { 0 })
            + (if self.object_display_enabled { 0x02int } else { 0 })
            + (if self.background_display_enabled { 0x01int } else { 0 })) as u8
    }

    /// The LCD status byte: the unused high bit reads 1, then the four
    /// interrupt enables, the coincidence bit, and the mode in the low
    /// two bits.
    pub open spec fn spec_stat(self) -> u8 {
        (0x80 + (if self.line_equals_line_check_interrupt_enabled { 0x40int } else { 0 })
            + (if self.oam_interrupt_enabled { 0x20int } else { 0 })
            + (if self.vblank_interrupt_enabled { 0x10int } else { 0 })
            + (if self.hblank_interrupt_enabled { 0x08int } else { 0 })
            + (if self.line_equals_line_check { 0x04int } else { 0 })
            + self.mode.spec_bits()) as u8
    }

    /// The byte read back from one of the two object palette registers;
    /// the low two bits, which would dress colour index 0, read as zero
    /// because index 0 is transparent for sprites.
    pub open spec fn spec_obp(c1: Color, c2: Color, c3: Color) -> u8 {
        (c1.spec_index() * 4 + c2.spec_index() * 16 + c3.spec_index() * 64) as u8
    }

    /// The byte a read of a PPU-owned address returns.
    pub open spec fn spec_read(self, address: u16) -> u8 {
        if 0x8000 <= address <= 0x9FFF {
            self.vram@[address - 0x8000]
        } else if 0xFE00 <= address <= 0xFE9F {
            self.oam@[address - 0xFE00]
        } else if address == 0xFF40 {
            self.spec_lcdc()
        } else if address == 0xFF41 {
            self.spec_stat()
        } else if address == 0xFF42 {
            self.viewport_y_offset
        } else if address == 0xFF43 {
            self.viewport_x_offset
        } else if address == 0xFF44 {
            self.line
        } else if address == 0xFF45 {
            self.line_check
        } else if address == 0xFF47 {
            self.background_colors.spec_to_byte()
        } else if address == 0xFF48 {
            GPU::spec_obp(self.obj_0_color_1, self.obj_0_color_2, self.obj_0_color_3)
        } else if address == 0xFF49 {
            GPU::spec_obp(self.obj_1_color_1, self.obj_1_color_2, self.obj_1_color_3)
        } else if address == 0xFF4A {
            self.window.y
        } else if address == 0xFF4B {
            self.window.x
        } else {
            0
        }
    }
}

impl GPU {
    /// The two-bit colour index of the background layer at screen column
    /// `x` of scanline `line`: the scroll registers pick a point of the
    /// 256x256 background plane, whose tile map byte selects the tile.
    #[verifier::opaque]
    pub open spec fn spec_bg_index(self, line: int, x: int) -> int {
        let map_x = (x + self.viewport_x_offset) % 256;
        let map_y = (line + self.viewport_y_offset) % 256;
        let idx = self.vram@[spec_map_base(self.background_tile_map) + (map_y / 8) * 32 + map_x
            / 8];
        let t = spec_tile_number(self.background_and_window_data_select, idx);
        self.tile_px(t, map_y % 8, map_x % 8).spec_index()
    }

    /// The background colour index recorded for sprite priority checks;
    /// zero when the background layer is off.
    pub open spec fn spec_shadow(self, line: int, x: int) -> int {
        if self.background_display_enabled {
            self.spec_bg_index(line, x)
        } else {
            0
        }
    }

    /// True when the window layer covers screen column `x` of scanline
    /// `line`: the window is on, has started vertically, and starts left
    /// of the right edge; it covers the columns from its left edge on.
    pub open spec fn spec_window_covers(self, line: int, x: int) -> bool {
        &&& self.window_display_enabled
        &&& self.window.y <= line
        &&& self.window.x - 7 < 160
        &&& x >= self.window.x - 7
    }

    /// The two-bit colour index of the window layer at a covered column.
    #[verifier::opaque]
    pub open spec fn spec_window_index(self, line: int, x: int) -> int {
        let wx = x - (self.window.x - 7);
        let wy = line - self.window.y;
        let idx = self.vram@[spec_map_base(self.window_tile_map) + (wy / 8) * 32 + wx / 8];
        let t = spec_tile_number(self.background_and_window_data_select, idx);
        self.tile_px(t, wy % 8, wx % 8).spec_index()
    }

    /// The shade of the background and window layers at a pixel, or None
    /// where both layers are off and the framebuffer byte is left alone.
    pub open spec fn spec_base_shade(self, line: int, x: int) -> Option<u8> {
        if self.spec_window_covers(line, x) {
            Some(self.background_colors.spec_shade_of(self.spec_window_index(line, x)))
        } else if self.background_display_enabled {
            Some(self.background_colors.spec_shade_of(self.spec_bg_index(line, x)))
        } else {
            None
        }
    }

    /// Sprite height in rows, 8 or 16.
    pub open spec fn spec_obj_height(self) -> int {
        if self.object_size == ObjectSize::OS8X16 {
            16
        } else {
            8
        }
    }

    /// True when sprite `i` overlaps scanline `line` vertically.
    pub open spec fn spec_sprite_covers(self, i: int, line: int) -> bool {
        let o = self.object_data@[i];
        o.y <= line && line < o.y + self.spec_obj_height()
    }

    /// The cached tile a covering sprite reads on this scanline: tall
    /// sprites use the following tile for their far half, which the
    /// vertical flip mirrors.
    pub open spec fn spec_sprite_tile(self, i: int, line: int) -> int {
        let o = self.object_data@[i];
        let off = line - o.y;
        if self.spec_obj_height() == 16 && ((!o.yflip && off > 7) || (o.yflip && off <= 7)) {
            if o.tile == 255 {
                0
            } else {
                o.tile + 1
            }
        } else {
            o.tile as int
        }
    }

    /// The tile row a covering sprite reads on this scanline.
    pub open spec fn spec_sprite_row(self, i: int, line: int) -> int {
        let o = self.object_data@[i];
        let off = line - o.y;
        if o.yflip {
            7 - (off % 8)
        } else {
            off % 8
        }
    }

    /// The two-bit colour index of sprite `i` at screen column `x`,
    /// meaningful when the sprite covers the scanline and the column.
    pub open spec fn spec_sprite_pixel(self, i: int, line: int, x: int) -> int {
        let o = self.object_data@[i];
        let k = x - o.x;
        let px = if o.xflip {
            7 - k
        } else {
            k
        };
        self.tile_px(self.spec_sprite_tile(i, line), self.spec_sprite_row(i, line), px).spec_index()
    }

    /// True when sprite `i` puts a pixel at screen column `x` of scanline
    /// `line`: it covers the position, its pixel is not the transparent
    /// index 0, and it either has priority over the background or the
    /// background pixel there is blank.
    #[verifier::opaque]
    pub open spec fn spec_sprite_draws(self, i: int, line: int, x: int) -> bool {
        let o = self.object_data@[i];
        &&& self.spec_sprite_covers(i, line)
        &&& o.x <= x < o.x + 8
        &&& self.spec_sprite_pixel(i, line, x) != 0
        &&& (o.priority || self.spec_shadow(line, x) == 0)
    }

    /// The shade sprite `i` paints at a drawn pixel, through its object
    /// palette.
    #[verifier::opaque]
    pub open spec fn spec_sprite_shade(self, i: int, line: int, x: int) -> u8 {
        let o = self.object_data@[i];
        let ci = self.spec_sprite_pixel(i, line, x);
        match o.palette {
            ObjectPalette::Zero => if ci == 1 {
                self.obj_0_color_1.spec_shade()
            } else if ci == 2 {
                self.obj_0_color_2.spec_shade()
            } else {
                self.obj_0_color_3.spec_shade()
            },
            ObjectPalette::One => if ci == 1 {
                self.obj_1_color_1.spec_shade()
            } else if ci == 2 {
                self.obj_1_color_2.spec_shade()
            } else {
                self.obj_1_color_3.spec_shade()
            },
        }
    }

    /// The shade at a pixel after the background and window pass and the
    /// first `n` sprites in OAM order; a later sprite paints over an
    /// earlier one.
    pub open spec fn spec_stage_shade(self, line: int, x: int, n: int) -> Option<u8>
        decreases n,
    {
        if n <= 0 {
            self.spec_base_shade(line, x)
        } else if self.spec_sprite_draws(n - 1, line, x) {
            Some(self.spec_sprite_shade(n - 1, line, x))
        } else {
            self.spec_stage_shade(line, x, n - 1)
        }
    }

    /// The shade the renderer leaves at a pixel of the scanline, or None
    /// where every layer is off or transparent and the old framebuffer
    /// byte stays.
    pub open spec fn spec_rendered_shade(self, line: int, x: int) -> Option<u8> {
        if self.object_display_enabled {
            self.spec_stage_shade(line, x, 40)
        } else {
            self.spec_base_shade(line, x)
        }
    }
}


impl GPU {
    /// Relates the unit before and after rendering scanline `line`: only
    /// that row of the framebuffer changes, and each of its pixels shows
    /// the shade the layers put there (three equal shade bytes and alpha
    /// 255), or keeps its old bytes where every layer is off or
    /// transparent.
    pub open spec fn spec_render_rel(pre: GPU, post: GPU, line: int) -> bool {
        &&& post == (GPU { canvas_buffer: post.canvas_buffer, ..pre })
        &&& post.canvas_buffer@.len() == pre.canvas_buffer@.len()
        &&& forall|j: int|
            0 <= j < 92160 && !(line * 640 <= j < line * 640 + 640)
                ==> post.canvas_buffer@[j] == pre.canvas_buffer@[j]
        &&& forall|x: int|
            0 <= x < 160 ==> #[trigger] spec_canvas_pixel_matches(
                pre.canvas_buffer@,
                post.canvas_buffer@,
                line,
                x,
                pre.spec_rendered_shade(line, x),
            )
    }

    /// Relates the unit before and after a write to a PPU-owned address:
    /// stores into VRAM and OAM update the bytes (the caches follow by
    /// well-formedness), register writes decode into the named fields,
    /// and writes to the scanline counter or to an unmapped slot change
    /// nothing.
    pub open spec fn spec_write_rel(pre: GPU, post: GPU, address: u16, value: u8) -> bool {
        &&& (0x8000 <= address <= 0x9FFF ==> {
            &&& post == (GPU { vram: post.vram, tile_set: post.tile_set, ..pre })
            &&& post.vram@ == pre.vram@.update(address - 0x8000, value)
            &&& post.tile_set@.len() == pre.tile_set@.len()
        })
        &&& (0xFE00 <= address <= 0xFE9F ==> {
            &&& post == (GPU { oam: post.oam, object_data: post.object_data, ..pre })
            &&& post.oam@ == pre.oam@.update(address - 0xFE00, value)
            &&& post.object_data@.len() == pre.object_data@.len()
        })
        &&& (address == 0xFF40 ==> post == (GPU {
            lcd_display_enabled: (value / 128) % 2 == 1,
            window_tile_map: if (value / 64) % 2 == 1 {
                TileMap::X9C00
            } else {
                TileMap::X9800
            },
            window_display_enabled: (value / 32) % 2 == 1,
            background_and_window_data_select: if (value / 16) % 2 == 1 {
                BackgroundAndWindowDataSelect::X8000
            } else {
                BackgroundAndWindowDataSelect::X8800
            },
            background_tile_map: if (value / 8) % 2 == 1 {
                TileMap::X9C00
            } else {
                TileMap::X9800
            },
            object_size: if (value / 4) % 2 == 1 {
                ObjectSize::OS8X16
            } else {
                ObjectSize::OS8X8
            },
            object_display_enabled: (value / 2) % 2 == 1,
            background_display_enabled: value % 2 == 1,
            ..pre
        }))
        &&& (address == 0xFF41 ==> post == (GPU {
            line_equals_line_check_interrupt_enabled: (value / 64) % 2 == 1,
            oam_interrupt_enabled: (value / 32) % 2 == 1,
            vblank_interrupt_enabled: (value / 16) % 2 == 1,
            hblank_interrupt_enabled: (value / 8) % 2 == 1,
            ..pre
        }))
        &&& (address == 0xFF42 ==> post == (GPU { viewport_y_offset: value, ..pre }))
        &&& (address == 0xFF43 ==> post == (GPU { viewport_x_offset: value, ..pre }))
        &&& (address == 0xFF45 ==> post == (GPU { line_check: value, ..pre }))
        &&& (address == 0xFF47 ==> post == (GPU {
            background_colors: BackgroundColors::spec_from_byte(value),
            ..pre
        }))
        &&& (address == 0xFF48 ==> post == (GPU {
            obj_0_color_1: Color::spec_from_index(((value / 4) % 4) as u8),
            obj_0_color_2: Color::spec_from_index(((value / 16) % 4) as u8),
            obj_0_color_3: Color::spec_from_index((value / 64) as u8),
            ..pre
        }))
        &&& (address == 0xFF49 ==> post == (GPU {
            obj_1_color_1: Color::spec_from_index(((value / 4) % 4) as u8),
            obj_1_color_2: Color::spec_from_index(((value / 16) % 4) as u8),
            obj_1_color_3: Color::spec_from_index((value / 64) as u8),
            ..pre
        }))
        &&& (address == 0xFF4A ==> post == (GPU {
            window: (Window { x: pre.window.x, y: value }),
            ..pre
        }))
        &&& (address == 0xFF4B ==> post == (GPU {
            window: (Window { x: value, y: pre.window.y }),
            ..pre
        }))
        &&& (!(0x8000 <= address <= 0x9FFF) && !(0xFE00 <= address <= 0xFE9F) && !(0xFF40
            <= address <= 0xFF4B) || address == 0xFF44 || address == 0xFF46 ==> post == pre)
    }

    /// The reset state: empty memories and caches, the screen cleared to
    /// zero, and the LCD control reading 0x91 (LCD on, plain tile data
    /// addressing, background on).
    pub fn new() -> (r: GPU)
        ensures
            r.wf(),
            r.spec_lcdc() == 0x91,
            forall|j: int| 0 <= j < 92160 ==> r.canvas_buffer@[j] == 0,
            forall|j: int| 0 <= j < 0x2000 ==> r.vram@[j] == 0,
            forall|j: int| 0 <= j < 0xA0 ==> r.oam@[j] == 0,
            r.background_colors == (BackgroundColors(Color::White, Color::LightGray, Color::DarkGray, Color::Black)),
            r.viewport_x_offset == 0 && r.viewport_y_offset == 0,
            r.lcd_display_enabled && !r.window_display_enabled,
            r.background_display_enabled && !r.object_display_enabled,
            !r.line_equals_line_check_interrupt_enabled && !r.oam_interrupt_enabled,
            !r.vblank_interrupt_enabled && !r.hblank_interrupt_enabled,
            r.line_check == 0 && !r.line_equals_line_check,
            r.window_tile_map == TileMap::X9800 && r.background_tile_map == TileMap::X9800,
            r.background_and_window_data_select == BackgroundAndWindowDataSelect::X8000,
            r.object_size == ObjectSize::OS8X8,
            r.window == (Window { x: 0, y: 0 }),
            r.line == 0 && r.mode == Mode::HorizontalBlank && r.cycles == 0,
    {
        let g = GPU {
            canvas_buffer: vec![0u8; 92160],
            tile_set: vec![TilePixelValue::Zero; 24576],
            object_data: vec![
                ObjectData {
                    x: -0x08,
                    y: -0x10,
                    tile: 0,
                    palette: ObjectPalette::Zero,
                    xflip: false,
                    yflip: false,
                    priority: true,
                };
                40
            ],
            vram: vec![0u8; 0x2000],
            oam: vec![0u8; 0xA0],
            background_colors: BackgroundColors::new(),
            viewport_x_offset: 0,
            viewport_y_offset: 0,
            lcd_display_enabled: true,
            window_display_enabled: false,
            background_display_enabled: true,
            object_display_enabled: false,
            line_equals_line_check_interrupt_enabled: false,
            oam_interrupt_enabled: false,
            vblank_interrupt_enabled: false,
            hblank_interrupt_enabled: false,
            line_check: 0,
            line_equals_line_check: false,
            window_tile_map: TileMap::X9800,
            background_tile_map: TileMap::X9800,
            background_and_window_data_select: BackgroundAndWindowDataSelect::X8000,
            object_size: ObjectSize::OS8X8,
            obj_0_color_1: Color::LightGray,
            obj_0_color_2: Color::DarkGray,
            obj_0_color_3: Color::Black,
            obj_1_color_1: Color::LightGray,
            obj_1_color_2: Color::DarkGray,
            obj_1_color_3: Color::Black,
            window: Window { x: 0, y: 0 },
            line: 0,
            mode: Mode::HorizontalBlank,
            cycles: 0,
        };
        proof {
            assert(forall|p: u8| p < 8 ==> (0u8 & #[trigger] (1u8 << ((7 - p) as u8))) == 0) by (bit_vector);
            assert forall|t: int, r: int, p: int|
                0 <= t < 384 && 0 <= r < 8 && 0 <= p < 8 implies #[trigger] g.tile_px(t, r, p)
                == spec_decoded_pixel(
                g.vram@[t * 16 + 2 * r],
                g.vram@[t * 16 + 2 * r + 1],
                p as u8,
            ) by {
                assert(0 <= t * 64 + r * 8 + p < 24576);
                assert(0 <= t * 16 + 2 * r + 1 < 0x2000);
            }
        }
        g
    }

    /// Encodes the LCD control byte.
    fn lcdc_byte(&self) -> (r: u8)
        ensures
            r == self.spec_lcdc(),
    {
        (if self.lcd_display_enabled { 0x80u8 } else { 0 })
            + (if self.window_tile_map == TileMap::X9C00 { 0x40u8 } else { 0 })
            + (if self.window_display_enabled { 0x20u8 } else { 0 })
            + (if self.background_and_window_data_select == BackgroundAndWindowDataSelect::X8000 { 0x10u8 } else { 0 })
            + (if self.background_tile_map == TileMap::X9C00 { 0x08u8 } else { 0 })
            + (if self.object_size == ObjectSize::OS8X16 { 0x04u8 } else { 0 })
            + (if self.object_display_enabled { 0x02u8 } else { 0 })
            + (if self.background_display_enabled { 0x01u8 } else { 0 })
    }

    /// Encodes the LCD status byte.
    fn stat_byte(&self) -> (r: u8)
        ensures
            r == self.spec_stat(),
    {
        0x80 + (if self.line_equals_line_check_interrupt_enabled { 0x40u8 } else { 0 })
            + (if self.oam_interrupt_enabled { 0x20u8 } else { 0 })
            + (if self.vblank_interrupt_enabled { 0x10u8 } else { 0 })
            + (if self.hblank_interrupt_enabled { 0x08u8 } else { 0 })
            + (if self.line_equals_line_check { 0x04u8 } else { 0 })
            + (match self.mode {
            Mode::HorizontalBlank => 0u8,
            Mode::VerticalBlank => 1u8,
            Mode::OAMAccess => 2u8,
            Mode::VRAMAccess => 3u8,
        })
    }

    /// Reads a byte from a PPU-owned address: raw VRAM, raw OAM, or one
    /// of the control, status, scroll, palette and window registers.
    pub fn gpu_read(&mut self, address: u16) -> (r: u8)
        requires
            old(self).wf(),
        ensures
            *final(self) == *old(self),
            r == old(self).spec_read(address),
    {
        if 0x8000 <= address && address <= 0x9FFF {
            self.vram[(address - 0x8000) as usize]
        } else if 0xFE00 <= address && address <= 0xFE9F {
            self.oam[(address - 0xFE00) as usize]
        } else if address == 0xFF40 {
            self.lcdc_byte()
        } else if address == 0xFF41 {
            self.stat_byte()
        } else if address == 0xFF42 {
            self.viewport_y_offset
        } else if address == 0xFF43 {
            self.viewport_x_offset
        } else if address == 0xFF44 {
            self.line
        } else if address == 0xFF45 {
            self.line_check
        } else if address == 0xFF47 {
            self.background_colors.0.index() + self.background_colors.1.index() * 4
                + self.background_colors.2.index() * 16 + self.background_colors.3.index() * 64
        } else if address == 0xFF48 {
            self.obj_0_color_1.index() * 4 + self.obj_0_color_2.index() * 16
                + self.obj_0_color_3.index() * 64
        } else if address == 0xFF49 {
            self.obj_1_color_1.index() * 4 + self.obj_1_color_2.index() * 16
                + self.obj_1_color_3.index() * 64
        } else if address == 0xFF4A {
            self.window.y
        } else if address == 0xFF4B {
            self.window.x
        } else {
            0
        }
    }

    /// Writes a byte to a PPU-owned address, decoding register writes
    /// into their fields and keeping the caches coherent for VRAM and
    /// OAM stores.
    pub fn gpu_write(&mut self, address: u16, value: u8)
        requires
            old(self).wf(),
        ensures
            final(self).wf(),
            GPU::spec_write_rel(*old(self), *final(self), address, value),
    {
        if 0x8000 <= address && address <= 0x9FFF {
            self.write_vram((address - 0x8000) as usize, value);
        } else if 0xFE00 <= address && address <= 0xFE9F {
            self.write_oam((address - 0xFE00) as usize, value);
        } else {
            self.write_control(address, value);
        }
    }

    /// Decodes a write of the LCD control register into its eight fields.
    fn write_lcdc(&mut self, address: u16, value: u8)
        requires
            address == 0xFF40,
        ensures
            GPU::spec_write_rel(*old(self), *final(self), address, value),
    {
        self.lcd_display_enabled = (value / 128) % 2 == 1;
        self.window_tile_map = if (value / 64) % 2 == 1 {
            TileMap::X9C00
        } else {
            TileMap::X9800
        };
        self.window_display_enabled = (value / 32) % 2 == 1;
        self.background_and_window_data_select = if (value / 16) % 2 == 1 {
            BackgroundAndWindowDataSelect::X8000
        } else {
            BackgroundAndWindowDataSelect::X8800
        };
        self.background_tile_map = if (value / 8) % 2 == 1 {
            TileMap::X9C00
        } else {
            TileMap::X9800
        };
        self.object_size = if (value / 4) % 2 == 1 {
            ObjectSize::OS8X16
        } else {
            ObjectSize::OS8X8
        };
        self.object_display_enabled = (value / 2) % 2 == 1;
        self.background_display_enabled = value % 2 == 1;
    }

    /// Decodes a write of the LCD status register into its four interrupt
    /// enables; the mode and coincidence bits are read-only.
    fn write_stat(&mut self, address: u16, value: u8)
        requires
            address == 0xFF41,
        ensures
            GPU::spec_write_rel(*old(self), *final(self), address, value),
    {
        self.line_equals_line_check_interrupt_enabled = (value / 64) % 2 == 1;
        self.oam_interrupt_enabled = (value / 32) % 2 == 1;
        self.vblank_interrupt_enabled = (value / 16) % 2 == 1;
        self.hblank_interrupt_enabled = (value / 8) % 2 == 1;
    }

    /// Stores a write to one of the scroll registers or to the scanline
    /// compare register; a write to the read-only scanline counter is
    /// dropped.
    fn write_scroll_or_lyc(&mut self, address: u16, value: u8)
        requires
            0xFF42 <= address <= 0xFF46,
        ensures
            GPU::spec_write_rel(*old(self), *final(self), address, value),
    {
        if address == 0xFF42 {
            self.viewport_y_offset = value;
        } else if address == 0xFF43 {
            self.viewport_x_offset = value;
        } else if address == 0xFF45 {
            self.line_check = value;
        }
    }

    /// Decodes a write of the background palette register.
    fn write_bgp(&mut self, address: u16, value: u8)
        requires
            address == 0xFF47,
        ensures
            GPU::spec_write_rel(*old(self), *final(self), address, value),
    {
        self.background_colors = BackgroundColors::from_byte(value);
    }

    /// Decodes a write of one of the two object palette registers; the
    /// two low bits dress the transparent index and are dropped.
    fn write_obp(&mut self, address: u16, value: u8)
        requires
            0xFF48 <= address <= 0xFF49,
        ensures
            GPU::spec_write_rel(*old(self), *final(self), address, value),
    {
        if address == 0xFF48 {
            self.obj_0_color_1 = Color::from_index((value / 4) % 4);
            self.obj_0_color_2 = Color::from_index((value / 16) % 4);
            self.obj_0_color_3 = Color::from_index(value / 64);
        } else {
            self.obj_1_color_1 = Color::from_index((value / 4) % 4);
            self.obj_1_color_2 = Color::from_index((value / 16) % 4);
            self.obj_1_color_3 = Color::from_index(value / 64);
        }
    }

    /// Stores a write to one of the two window position registers.
    fn write_window_position(&mut self, address: u16, value: u8)
        requires
            0xFF4A <= address <= 0xFF4B,
        ensures
            GPU::spec_write_rel(*old(self), *final(self), address, value),
    {
        if address == 0xFF4A {
            self.window.y = value;
        } else {
            self.window.x = value;
        }
    }

    /// Decodes a write to one of the control, status, scroll, palette and
    /// window registers into the named fields; writes to the read-only
    /// scanline counter and to unmapped slots change nothing.
    fn write_control(&mut self, address: u16, value: u8)
        requires
            old(self).wf(),
            !(0x8000 <= address <= 0x9FFF),
            !(0xFE00 <= address <= 0xFE9F),
        ensures
            final(self).wf(),
            GPU::spec_write_rel(*old(self), *final(self), address, value),
    {
        if address == 0xFF40 {
            self.write_lcdc(address, value);
        } else if address == 0xFF41 {
            self.write_stat(address, value);
        } else if 0xFF42 <= address && address <= 0xFF46 {
            self.write_scroll_or_lyc(address, value);
        } else if address == 0xFF47 {
            self.write_bgp(address, value);
        } else if 0xFF48 <= address && address <= 0xFF49 {
            self.write_obp(address, value);
        } else if 0xFF4A <= address && address <= 0xFF4B {
            self.write_window_position(address, value);
        }
        proof {
            GPU::lemma_tile_coherence_carry(*old(self), *self);
            GPU::lemma_objects_coherence_carry(*old(self), *self);
        }
    }

    /// Stores a byte into VRAM; a store into the tile data region also
    /// re-decodes the eight pixels of the tile row that holds the byte,
    /// keeping the cache coherent.
    #[verifier::rlimit(100)]
    #[verifier::spinoff_prover]
    pub fn write_vram(&mut self, index: usize, value: u8)
        requires
            old(self).wf(),
            index < 0x2000,
        ensures
            final(self).wf(),
            *final(self) == (GPU {
                vram: final(self).vram,
                tile_set: final(self).tile_set,
                ..*old(self)
            }),
            final(self).vram@ == old(self).vram@.update(index as int, value),
            final(self).tile_set@.len() == old(self).tile_set@.len(),
    {
        let ghost pre = *self;
        self.vram[index] = value;
        if index >= 0x1800 {
            proof {
                GPU::lemma_tile_coherence_carry(pre, *self);
                GPU::lemma_objects_coherence_carry(pre, *self);
            }
            return ;
        }
        let normalized_index = index / 2 * 2;
        let byte1 = self.vram[normalized_index];
        let byte2 = self.vram[normalized_index + 1];
        let tile_index = index / 16;
        let row_index = (index % 16) / 2;
        let ghost vram1 = self.vram@;
        proof {
            assert(normalized_index == tile_index * 16 + 2 * row_index);
            assert(tile_index < 384 && row_index < 8);
        }
        let base = tile_index * 64 + row_index * 8;
        let mut pixel_index: usize = 0;
        while pixel_index < 8
            invariant
                base == tile_index * 64 + row_index * 8,
                tile_index < 384,
                row_index < 8,
                pixel_index <= 8,
                self.tile_set@.len() == 24576,
                byte1 == vram1[tile_index * 16 + 2 * row_index],
                byte2 == vram1[tile_index * 16 + 2 * row_index + 1],
                *self == (GPU { tile_set: self.tile_set, ..(GPU { vram: self.vram, ..pre }) }),
                self.vram@ == vram1,
                forall|j: int|
                    0 <= j < 24576 && !(base <= j < base + pixel_index)
                        ==> self.tile_set@[j] == pre.tile_set@[j],
                forall|p: int|
                    0 <= p < pixel_index ==> self.tile_set@[base + p] == #[trigger] spec_decoded_pixel(
                        byte1,
                        byte2,
                        p as u8,
                    ),
            decreases 8 - pixel_index,
        {
            let mask = 1u8 << ((7 - pixel_index) as u8);
            let lsb = byte1 & mask;
            let msb = byte2 & mask;
            let px = match (lsb != 0, msb != 0) {
                (true, true) => TilePixelValue::Three,
                (false, true) => TilePixelValue::Two,
                (true, false) => TilePixelValue::One,
                (false, false) => TilePixelValue::Zero,
            };
            self.tile_set[base + pixel_index] = px;
            pixel_index = pixel_index + 1;
        }
        proof {
            GPU::lemma_objects_coherence_carry(pre, *self);
            assert forall|t: int, r: int, p: int|
                0 <= t < 384 && 0 <= r < 8 && 0 <= p < 8 implies #[trigger] self.tile_px(t, r, p)
                == spec_decoded_pixel(
                self.vram@[t * 16 + 2 * r],
                self.vram@[t * 16 + 2 * r + 1],
                p as u8,
            ) by {
                if t == tile_index && r == row_index {
                    assert(self.tile_set@[t * 64 + r * 8 + p] == spec_decoded_pixel(
                        byte1,
                        byte2,
                        p as u8,
                    ));
                } else {
                    assert(t * 16 + 2 * r != index && t * 16 + 2 * r + 1 != index);
                    assert(self.tile_set@[t * 64 + r * 8 + p] == pre.tile_set@[t * 64 + r * 8
                        + p]);
                    assert(pre.tile_px(t, r, p) == spec_decoded_pixel(
                        pre.vram@[t * 16 + 2 * r],
                        pre.vram@[t * 16 + 2 * r + 1],
                        p as u8,
                    ));
                }
            }
        }
    }

    /// Stores a byte into OAM and re-decodes the field of the sprite that
    /// owns it, keeping the decoded sprites coherent.
    #[verifier::rlimit(100)]
    #[verifier::spinoff_prover]
    pub fn write_oam(&mut self, index: usize, value: u8)
        requires
            old(self).wf(),
            index < 0xA0,
        ensures
            final(self).wf(),
            *final(self) == (GPU {
                oam: final(self).oam,
                object_data: final(self).object_data,
                ..*old(self)
            }),
            final(self).oam@ == old(self).oam@.update(index as int, value),
            final(self).object_data@.len() == 40,
    {
        let ghost pre = *self;
        self.oam[index] = value;
        let object_index = index / 4;
        let byte = index % 4;
        let mut data = self.object_data[object_index];
        match byte {
            0 => data.y = (value as i16) - 0x10,
            1 => data.x = (value as i16) - 0x8,
            2 => data.tile = value,
            _ => {
                data.palette = if (value / 16) % 2 == 1 {
                    ObjectPalette::One
                } else {
                    ObjectPalette::Zero
                };
                data.xflip = (value / 32) % 2 == 1;
                data.yflip = (value / 64) % 2 == 1;
                data.priority = (value / 128) % 2 == 0;
            },
        }
        self.object_data[object_index] = data;
        proof {
            GPU::lemma_tile_coherence_carry(pre, *self);
            let oi = object_index as int;
            assert(index == 4 * object_index + byte);
            assert(self.oam@[4 * oi] == (if byte == 0 { value } else { pre.oam@[4 * oi] }));
            assert(self.oam@[4 * oi + 1] == (if byte == 1 { value } else { pre.oam@[4 * oi + 1] }));
            assert(self.oam@[4 * oi + 2] == (if byte == 2 { value } else { pre.oam@[4 * oi + 2] }));
            assert(self.oam@[4 * oi + 3] == (if byte == 3 { value } else { pre.oam@[4 * oi + 3] }));
            assert(pre.object_data@[oi] == spec_object(
                pre.oam@[4 * oi],
                pre.oam@[4 * oi + 1],
                pre.oam@[4 * oi + 2],
                pre.oam@[4 * oi + 3],
            ));
            assert(self.object_data@[oi] == spec_object(
                self.oam@[4 * oi],
                self.oam@[4 * oi + 1],
                self.oam@[4 * oi + 2],
                self.oam@[4 * oi + 3],
            ));
            assert forall|i: int| 0 <= i < 40 implies #[trigger] self.object_data@[i]
                == spec_object(
                self.oam@[4 * i],
                self.oam@[4 * i + 1],
                self.oam@[4 * i + 2],
                self.oam@[4 * i + 3],
            ) by {
                assert(pre.object_data@[i] == spec_object(
                    pre.oam@[4 * i],
                    pre.oam@[4 * i + 1],
                    pre.oam@[4 * i + 2],
                    pre.oam@[4 * i + 3],
                ));
            }
        }
    }
}

/// The VRAM offset of the selected tile map.
fn map_base(m: TileMap) -> (r: usize)
    ensures
        r == spec_map_base(m),
{
    match m {
        TileMap::X9800 => 0x1800,
        TileMap::X9C00 => 0x1C00,
    }
}

/// The cached tile number a background or window map byte selects.
fn tile_number(sel: BackgroundAndWindowDataSelect, idx: u8) -> (r: usize)
    ensures
        r == spec_tile_number(sel, idx),
        r < 384,
{
    match sel {
        BackgroundAndWindowDataSelect::X8000 => idx as usize,
        BackgroundAndWindowDataSelect::X8800 => if idx < 128 {
            256 + idx as usize
        } else {
            idx as usize
        },
    }
}



impl GPU {
    /// Relates the unit before and after a step that starts in the
    /// horizontal blank: when the accumulated cycles reach the blank
    /// budget the scanline advances, entering the vertical blank after
    /// the last visible line.
    pub open spec fn spec_hblank_rel(pre: GPU, post: GPU, cycles: u8, r: InterruptRequest) -> bool {
        let c2 = pre.cycles + cycles;
        &&& (c2 < 204 ==> post == (GPU { cycles: c2 as u16, ..pre }) && r
            == InterruptRequest::NoInterrupt)
        &&& (c2 >= 204 && pre.line + 1 == 144 ==> ({
            let lyc = 144 == pre.line_check;
            &&& post == (GPU {
                cycles: (c2 % 204) as u16,
                line: 144u8,
                mode: Mode::VerticalBlank,
                line_equals_line_check: lyc,
                ..pre
            })
            &&& r == (if pre.vblank_interrupt_enabled || (lyc
                && pre.line_equals_line_check_interrupt_enabled) {
                InterruptRequest::Both
            } else {
                InterruptRequest::VBlank
            })
        }))
        &&& (c2 >= 204 && pre.line + 1 != 144 ==> ({
            let lyc = pre.line + 1 == pre.line_check;
            &&& post == (GPU {
                cycles: (c2 % 204) as u16,
                line: (pre.line + 1) as u8,
                mode: Mode::OAMAccess,
                line_equals_line_check: lyc,
                ..pre
            })
            &&& r == (if pre.oam_interrupt_enabled || (lyc
                && pre.line_equals_line_check_interrupt_enabled) {
                InterruptRequest::LCDStat
            } else {
                InterruptRequest::NoInterrupt
            })
        }))
    }

    /// Relates the unit before and after a step that starts in the
    /// vertical blank: each full line budget advances the line counter,
    /// and after the last line the machine returns to the top of the
    /// frame.
    pub open spec fn spec_vblank_rel(pre: GPU, post: GPU, cycles: u8, r: InterruptRequest) -> bool {
        let c2 = pre.cycles + cycles;
        &&& (c2 < 456 ==> post == (GPU { cycles: c2 as u16, ..pre }) && r
            == InterruptRequest::NoInterrupt)
        &&& (c2 >= 456 && pre.line == 153 ==> ({
            let lyc = 0 == pre.line_check;
            &&& post == (GPU {
                cycles: (c2 % 456) as u16,
                line: 0u8,
                mode: Mode::OAMAccess,
                line_equals_line_check: lyc,
                ..pre
            })
            &&& r == (if lyc && pre.line_equals_line_check_interrupt_enabled {
                InterruptRequest::LCDStat
            } else {
                InterruptRequest::NoInterrupt
            })
        }))
        &&& (c2 >= 456 && pre.line != 153 ==> ({
            let lyc = pre.line + 1 == pre.line_check;
            &&& post == (GPU {
                cycles: (c2 % 456) as u16,
                line: (pre.line + 1) as u8,
                line_equals_line_check: lyc,
                ..pre
            })
            &&& r == (if lyc && pre.line_equals_line_check_interrupt_enabled {
                InterruptRequest::LCDStat
            } else {
                InterruptRequest::NoInterrupt
            })
        }))
    }

    /// Relates the unit before and after a step that starts in the sprite
    /// scan: after its budget the machine moves on to drawing.
    pub open spec fn spec_oam_rel(pre: GPU, post: GPU, cycles: u8, r: InterruptRequest) -> bool {
        let c2 = pre.cycles + cycles;
        &&& (c2 < 80 ==> post == (GPU { cycles: c2 as u16, ..pre }))
        &&& (c2 >= 80 ==> post == (GPU {
            cycles: (c2 % 80) as u16,
            mode: Mode::VRAMAccess,
            ..pre
        }))
        &&& r == InterruptRequest::NoInterrupt
    }

    /// Relates the unit before and after a step that starts in the
    /// drawing mode: after its budget the scanline is rendered and the
    /// machine enters the horizontal blank.
    pub open spec fn spec_drawing_rel(pre: GPU, post: GPU, cycles: u8, r: InterruptRequest) -> bool {
        let c2 = pre.cycles + cycles;
        &&& (c2 < 172 ==> post == (GPU { cycles: c2 as u16, ..pre }) && r
            == InterruptRequest::NoInterrupt)
        &&& (c2 >= 172 ==> {
            &&& GPU::spec_render_rel(
                (GPU { cycles: (c2 % 172) as u16, mode: Mode::HorizontalBlank, ..pre }),
                post,
                pre.line as int,
            )
            &&& r == (if pre.hblank_interrupt_enabled {
                InterruptRequest::LCDStat
            } else {
                InterruptRequest::NoInterrupt
            })
        })
    }

    /// Relates the unit before and after one step of the mode machine by
    /// `cycles` machine cycles, with `r` what the step asks the bus to
    /// raise; with the LCD off the step changes nothing.
    pub open spec fn spec_step_rel(pre: GPU, post: GPU, cycles: u8, r: InterruptRequest) -> bool {
        &&& (!pre.lcd_display_enabled ==> post == pre && r == InterruptRequest::NoInterrupt)
        &&& (pre.lcd_display_enabled && pre.mode == Mode::HorizontalBlank ==> GPU::spec_hblank_rel(
            pre,
            post,
            cycles,
            r,
        ))
        &&& (pre.lcd_display_enabled && pre.mode == Mode::VerticalBlank ==> GPU::spec_vblank_rel(
            pre,
            post,
            cycles,
            r,
        ))
        &&& (pre.lcd_display_enabled && pre.mode == Mode::OAMAccess ==> GPU::spec_oam_rel(
            pre,
            post,
            cycles,
            r,
        ))
        &&& (pre.lcd_display_enabled && pre.mode == Mode::VRAMAccess ==> GPU::spec_drawing_rel(
            pre,
            post,
            cycles,
            r,
        ))
    }

    /// Compares the scanline counter with the compare register, records
    /// the outcome in the coincidence bit, and on a match with the
    /// coincidence interrupt enabled joins an LCDSTAT request.
    fn set_equal_lines_check(&mut self, request: &mut InterruptRequest)
        ensures
            *final(self) == (GPU {
                line_equals_line_check: old(self).line == old(self).line_check,
                ..*old(self)
            }),
            *final(request) == (if old(self).line == old(self).line_check
                && old(self).line_equals_line_check_interrupt_enabled {
                spec_add_request(*old(request), InterruptRequest::LCDStat)
            } else {
                *old(request)
            }),
    {
        let line_equals_line_check = self.line == self.line_check;
        if line_equals_line_check && self.line_equals_line_check_interrupt_enabled {
            request.add(InterruptRequest::LCDStat);
        }
        self.line_equals_line_check = line_equals_line_check;
    }

    /// One step starting in the horizontal blank.
    fn step_hblank(&mut self, cycles: u8) -> (r: InterruptRequest)
        requires
            old(self).wf(),
            old(self).mode == Mode::HorizontalBlank,
        ensures
            final(self).wf(),
            GPU::spec_hblank_rel(*old(self), *final(self), cycles, r),
    {
        let mut request = InterruptRequest::NoInterrupt;
        self.cycles = self.cycles + cycles as u16;
        if self.cycles >= 204 {
            self.cycles = self.cycles % 204;
            self.line = self.line + 1;
            if self.line >= 144 {
                self.mode = Mode::VerticalBlank;
                request.add(InterruptRequest::VBlank);
                if self.vblank_interrupt_enabled {
                    request.add(InterruptRequest::LCDStat);
                }
            } else {
                self.mode = Mode::OAMAccess;
                if self.oam_interrupt_enabled {
                    request.add(InterruptRequest::LCDStat);
                }
            }
            self.set_equal_lines_check(&mut request);
        }
        proof {
            GPU::lemma_tile_coherence_carry(*old(self), *self);
            GPU::lemma_objects_coherence_carry(*old(self), *self);
        }
        request
    }

    /// The vertical-blank transition once a full line budget has
    /// accumulated: the line advances, or the machine returns to the top
    /// of the frame after the last line.
    fn vblank_rollover(&mut self) -> (r: InterruptRequest)
        requires
            old(self).wf_core(),
            old(self).mode == Mode::VerticalBlank,
            456 <= old(self).cycles < 456 + 256,
        ensures
            final(self).wf(),
            old(self).line == 153 ==> ({
                let lyc = 0 == old(self).line_check;
                &&& *final(self) == (GPU {
                    cycles: (old(self).cycles % 456) as u16,
                    line: 0u8,
                    mode: Mode::OAMAccess,
                    line_equals_line_check: lyc,
                    ..*old(self)
                })
                &&& r == (if lyc && old(self).line_equals_line_check_interrupt_enabled {
                    InterruptRequest::LCDStat
                } else {
                    InterruptRequest::NoInterrupt
                })
            }),
            old(self).line != 153 ==> ({
                let lyc = old(self).line + 1 == old(self).line_check;
                &&& *final(self) == (GPU {
                    cycles: (old(self).cycles % 456) as u16,
                    line: (old(self).line + 1) as u8,
                    line_equals_line_check: lyc,
                    ..*old(self)
                })
                &&& r == (if lyc && old(self).line_equals_line_check_interrupt_enabled {
                    InterruptRequest::LCDStat
                } else {
                    InterruptRequest::NoInterrupt
                })
            }),
    {
        let mut request = InterruptRequest::NoInterrupt;
        self.cycles = self.cycles % 456;
        if self.line == 153 {
            self.line = 0;
            self.mode = Mode::OAMAccess;
        } else {
            self.line = self.line + 1;
        }
        self.set_equal_lines_check(&mut request);
        proof {
            GPU::lemma_tile_coherence_carry(*old(self), *self);
            GPU::lemma_objects_coherence_carry(*old(self), *self);
        }
        request
    }

    /// One step starting in the vertical blank.
    fn step_vblank(&mut self, cycles: u8) -> (r: InterruptRequest)
        requires
            old(self).wf(),
            old(self).mode == Mode::VerticalBlank,
        ensures
            final(self).wf(),
            GPU::spec_vblank_rel(*old(self), *final(self), cycles, r),
    {
        self.cycles = self.cycles + cycles as u16;
        proof {
            GPU::lemma_tile_coherence_carry(*old(self), *self);
            GPU::lemma_objects_coherence_carry(*old(self), *self);
        }
        if self.cycles >= 456 {
            self.vblank_rollover()
        } else {
            proof {
                GPU::lemma_tile_coherence_carry(*old(self), *self);
                GPU::lemma_objects_coherence_carry(*old(self), *self);
            }
            InterruptRequest::NoInterrupt
        }
    }

    /// One step starting in the sprite scan.
    fn step_oam(&mut self, cycles: u8) -> (r: InterruptRequest)
        requires
            old(self).wf(),
            old(self).mode == Mode::OAMAccess,
        ensures
            final(self).wf(),
            GPU::spec_oam_rel(*old(self), *final(self), cycles, r),
    {
        self.cycles = self.cycles + cycles as u16;
        if self.cycles >= 80 {
            self.cycles = self.cycles % 80;
            self.mode = Mode::VRAMAccess;
        }
        proof {
            GPU::lemma_tile_coherence_carry(*old(self), *self);
            GPU::lemma_objects_coherence_carry(*old(self), *self);
        }
        InterruptRequest::NoInterrupt
    }

    /// One step starting in the drawing mode; leaving it renders the
    /// current scanline into the framebuffer.
    fn step_drawing(&mut self, cycles: u8) -> (r: InterruptRequest)
        requires
            old(self).wf(),
            old(self).mode == Mode::VRAMAccess,
        ensures
            final(self).wf(),
            GPU::spec_drawing_rel(*old(self), *final(self), cycles, r),
    {
        let mut request = InterruptRequest::NoInterrupt;
        self.cycles = self.cycles + cycles as u16;
        if self.cycles >= 172 {
            self.cycles = self.cycles % 172;
            if self.hblank_interrupt_enabled {
                request.add(InterruptRequest::LCDStat);
            }
            self.mode = Mode::HorizontalBlank;
            proof {
                GPU::lemma_tile_coherence_carry(*old(self), *self);
                GPU::lemma_objects_coherence_carry(*old(self), *self);
            }
            self.render_scan_line();
        } else {
            proof {
                GPU::lemma_tile_coherence_carry(*old(self), *self);
                GPU::lemma_objects_coherence_carry(*old(self), *self);
            }
        }
        request
    }

    /// Advances the mode machine by `cycles` machine cycles and returns
    /// what the bus should raise; with the LCD off nothing moves.
    pub fn step(&mut self, cycles: u8) -> (r: InterruptRequest)
        requires
            old(self).wf(),
        ensures
            final(self).wf(),
            GPU::spec_step_rel(*old(self), *final(self), cycles, r),
    {
        if !self.lcd_display_enabled {
            return InterruptRequest::NoInterrupt;
        }
        let mode = self.mode;
        match mode {
            Mode::HorizontalBlank => self.step_hblank(cycles),
            Mode::VerticalBlank => self.step_vblank(cycles),
            Mode::OAMAccess => self.step_oam(cycles),
            Mode::VRAMAccess => self.step_drawing(cycles),
        }
    }

    /// The shade the background palette assigns to a colour index.
    fn palette_shade(&self, ci: u8) -> (r: u8)
        ensures
            r == self.background_colors.spec_shade_of(ci as int),
    {
        if ci == 0 {
            self.background_colors.0.shade()
        } else if ci == 1 {
            self.background_colors.1.shade()
        } else if ci == 2 {
            self.background_colors.2.shade()
        } else {
            self.background_colors.3.shade()
        }
    }

    /// The shade an object palette assigns to a non-transparent colour
    /// index.
    fn object_shade(&self, palette: ObjectPalette, ci: u8) -> (r: u8)
        ensures
            r == (match palette {
                ObjectPalette::Zero => if ci == 1 {
                    self.obj_0_color_1.spec_shade()
                } else if ci == 2 {
                    self.obj_0_color_2.spec_shade()
                } else {
                    self.obj_0_color_3.spec_shade()
                },
                ObjectPalette::One => if ci == 1 {
                    self.obj_1_color_1.spec_shade()
                } else if ci == 2 {
                    self.obj_1_color_2.spec_shade()
                } else {
                    self.obj_1_color_3.spec_shade()
                },
            }),
    {
        match palette {
            ObjectPalette::Zero => if ci == 1 {
                self.obj_0_color_1.shade()
            } else if ci == 2 {
                self.obj_0_color_2.shade()
            } else {
                self.obj_0_color_3.shade()
            },
            ObjectPalette::One => if ci == 1 {
                self.obj_1_color_1.shade()
            } else if ci == 2 {
                self.obj_1_color_2.shade()
            } else {
                self.obj_1_color_3.shade()
            },
        }
    }

    /// Stores one rendered pixel: three equal shade bytes and alpha 255.
    fn put_pixel(&mut self, idx: usize, shade: u8)
        requires
            old(self).canvas_buffer@.len() == 92160,
            idx + 4 <= 92160,
        ensures
            *final(self) == (GPU { canvas_buffer: final(self).canvas_buffer, ..*old(self) }),
            final(self).canvas_buffer@.len() == 92160,
            final(self).canvas_buffer@[idx as int] == shade,
            final(self).canvas_buffer@[idx + 1] == shade,
            final(self).canvas_buffer@[idx + 2] == shade,
            final(self).canvas_buffer@[idx + 3] == 255,
            forall|j: int|
                0 <= j < 92160 && !(idx <= j < idx + 4) ==> final(self).canvas_buffer@[j] == old(
                    self,
                ).canvas_buffer@[j],
    {
        self.canvas_buffer[idx] = shade;
        self.canvas_buffer[idx + 1] = shade;
        self.canvas_buffer[idx + 2] = shade;
        self.canvas_buffer[idx + 3] = 255;
    }

    /// Draws one of the eight pixels of sprite `i` when it lands on
    /// screen, is not transparent, and wins against the background.
    #[verifier::rlimit(100)]
    #[verifier::spinoff_prover]
    fn draw_sprite_pixel(
        &mut self,
        i: usize,
        k: usize,
        tile_num: usize,
        row: usize,
        shadow: &Vec<u8>,
        Ghost(g0): Ghost<GPU>,
        Ghost(c_in): Ghost<Seq<u8>>,
    )
        requires
            g0.tile_set@.len() == 384 * 64,
            g0.object_data@.len() == 40,
            i < 40,
            k < 8,
            g0.line <= 143,
            -8 <= g0.object_data@[i as int].x <= 247,
            g0.spec_sprite_covers(i as int, g0.line as int),
            tile_num == g0.spec_sprite_tile(i as int, g0.line as int),
            tile_num < 384,
            row == g0.spec_sprite_row(i as int, g0.line as int),
            row < 8,
            *old(self) == (GPU { canvas_buffer: old(self).canvas_buffer, ..g0 }),
            old(self).canvas_buffer@.len() == 92160,
            shadow@.len() == 160,
            forall|xx: int|
                0 <= xx < 160 ==> #[trigger] shadow@[xx] == g0.spec_shadow(g0.line as int, xx),
            forall|j: int|
                0 <= j < 92160 && !(g0.line * 640 <= j < g0.line * 640 + 640) ==> old(
                    self,
                ).canvas_buffer@[j] == c_in[j],
            forall|xx: int|
                0 <= xx < 160 ==> #[trigger] spec_sprite_applied_upto(
                    g0,
                    c_in,
                    old(self).canvas_buffer@,
                    i as int,
                    xx,
                    g0.object_data@[i as int].x + k,
                ),
        ensures
            *final(self) == (GPU { canvas_buffer: final(self).canvas_buffer, ..g0 }),
            final(self).canvas_buffer@.len() == 92160,
            forall|j: int|
                0 <= j < 92160 && !(g0.line * 640 <= j < g0.line * 640 + 640)
                    ==> final(self).canvas_buffer@[j] == c_in[j],
            forall|xx: int|
                0 <= xx < 160 ==> #[trigger] spec_sprite_applied_upto(
                    g0,
                    c_in,
                    final(self).canvas_buffer@,
                    i as int,
                    xx,
                    g0.object_data@[i as int].x + k + 1,
                ),
    {
        let ghost canvas_before = self.canvas_buffer@;
        let o = self.object_data[i];
        proof {
            assert(o == g0.object_data@[i as int]);
        }
        let line = self.line;
        let x0: i16 = o.x + k as i16;
        if 0 <= x0 && x0 < 160 {
            let px: usize = if o.xflip {
                7 - k
            } else {
                k
            };
            let pv = self.tile_set[tile_num * 64 + row * 8 + px];
            let ci = pv.index();
            proof {
                assert(g0.tile_px(tile_num as int, row as int, px as int) == pv);
                assert(g0.spec_sprite_pixel(i as int, line as int, x0 as int) == ci as int);
            }
            if ci != 0 && (o.priority || shadow[x0 as usize] == 0) {
                proof {
                    assert(g0.spec_sprite_draws(i as int, line as int, x0 as int)) by {
                        reveal(GPU::spec_sprite_draws);
                    };
                }
                let shade = self.object_shade(o.palette, ci);
                proof {
                    assert(shade == g0.spec_sprite_shade(i as int, line as int, x0 as int)) by {
                        reveal(GPU::spec_sprite_shade);
                    };
                }
                self.put_pixel((line as usize) * 640 + 4 * (x0 as usize), shade);
            } else {
                proof {
                    assert(!g0.spec_sprite_draws(i as int, line as int, x0 as int)) by {
                        reveal(GPU::spec_sprite_draws);
                    };
                }
            }
        }
        proof {
            assert forall|xx: int| 0 <= xx < 160 implies #[trigger] spec_sprite_applied_upto(
                g0,
                c_in,
                self.canvas_buffer@,
                i as int,
                xx,
                o.x + k + 1,
            ) by {
                assert(spec_sprite_applied_upto(g0, c_in, canvas_before, i as int, xx, o.x + k));
                if xx != o.x + k {
                    assert(self.canvas_buffer@[g0.line * 640 + 4 * xx] == canvas_before[g0.line
                        * 640 + 4 * xx]);
                    assert(self.canvas_buffer@[g0.line * 640 + 4 * xx + 1] == canvas_before[
                        g0.line * 640 + 4 * xx + 1]);
                    assert(self.canvas_buffer@[g0.line * 640 + 4 * xx + 2] == canvas_before[
                        g0.line * 640 + 4 * xx + 2]);
                    assert(self.canvas_buffer@[g0.line * 640 + 4 * xx + 3] == canvas_before[
                        g0.line * 640 + 4 * xx + 3]);
                }
            }
        }
    }

    /// Draws sprite `i` onto the current scanline: each of its eight
    /// pixels lands where it is on screen, not transparent, and either
    /// prioritised over the background or over a blank background pixel.
    /// `shadow` holds the background colour indices of the line.
    fn draw_sprite_line(&mut self, i: usize, shadow: &Vec<u8>, Ghost(g0): Ghost<GPU>)
        requires
            g0.wf(),
            g0.line <= 143,
            i < 40,
            *old(self) == (GPU { canvas_buffer: old(self).canvas_buffer, ..g0 }),
            old(self).canvas_buffer@.len() == 92160,
            shadow@.len() == 160,
            forall|xx: int|
                0 <= xx < 160 ==> #[trigger] shadow@[xx] == g0.spec_shadow(g0.line as int, xx),
        ensures
            final(self).wf(),
            *final(self) == (GPU { canvas_buffer: final(self).canvas_buffer, ..g0 }),
            final(self).canvas_buffer@.len() == 92160,
            forall|j: int|
                0 <= j < 92160 && !(g0.line * 640 <= j < g0.line * 640 + 640)
                    ==> final(self).canvas_buffer@[j] == old(self).canvas_buffer@[j],
            forall|xx: int|
                0 <= xx < 160 ==> #[trigger] spec_sprite_applied(
                    g0,
                    old(self).canvas_buffer@,
                    final(self).canvas_buffer@,
                    i as int,
                    xx,
                ),
    {
        let ghost c_in = self.canvas_buffer@;
        let o = self.object_data[i];
        proof {
            assert(o == g0.object_data@[i as int]);
            assert(o == spec_object(
                g0.oam@[4 * i],
                g0.oam@[4 * i + 1],
                g0.oam@[4 * i + 2],
                g0.oam@[4 * i + 3],
            ));
        }
        let line = self.line;
        let height: i16 = if self.object_size == ObjectSize::OS8X16 {
            16
        } else {
            8
        };
        if o.y <= line as i16 && (line as i16) < o.y + height {
            let off: i16 = line as i16 - o.y;
            let tile_num: usize = if height == 16 && ((!o.yflip && off > 7) || (o.yflip && off
                <= 7)) {
                if o.tile == 255 {
                    0
                } else {
                    (o.tile + 1) as usize
                }
            } else {
                o.tile as usize
            };
            let row: usize = if o.yflip {
                (7 - (off % 8)) as usize
            } else {
                (off % 8) as usize
            };
            proof {
                assert(g0.spec_sprite_covers(i as int, line as int));
                assert(tile_num == g0.spec_sprite_tile(i as int, line as int));
                assert(row == g0.spec_sprite_row(i as int, line as int));
            }
            proof {
                assert forall|xx: int| 0 <= xx < 160 implies #[trigger] spec_sprite_applied_upto(
                    g0,
                    c_in,
                    self.canvas_buffer@,
                    i as int,
                    xx,
                    o.x + 0,
                ) by {
                    reveal(GPU::spec_sprite_draws);
                }
            }
            let mut k: usize = 0;
            while k < 8
                invariant
                    g0.wf(),
                    i < 40,
                    k <= 8,
                    line == g0.line,
                    line <= 143,
                    o == g0.object_data@[i as int],
                    -16 <= o.y <= 239,
                    -8 <= o.x <= 247,
                    g0.spec_sprite_covers(i as int, line as int),
                    tile_num == g0.spec_sprite_tile(i as int, line as int),
                    tile_num < 384,
                    row == g0.spec_sprite_row(i as int, line as int),
                    row < 8,
                    *self == (GPU { canvas_buffer: self.canvas_buffer, ..g0 }),
                    self.canvas_buffer@.len() == 92160,
                    shadow@.len() == 160,
                    forall|xx: int|
                        0 <= xx < 160 ==> #[trigger] shadow@[xx] == g0.spec_shadow(
                            g0.line as int,
                            xx,
                        ),
                    forall|j: int|
                        0 <= j < 92160 && !(g0.line * 640 <= j < g0.line * 640 + 640)
                            ==> self.canvas_buffer@[j] == c_in[j],
                    forall|xx: int|
                        0 <= xx < 160 ==> #[trigger] spec_sprite_applied_upto(
                            g0,
                            c_in,
                            self.canvas_buffer@,
                            i as int,
                            xx,
                            o.x + k,
                        ),
                decreases 8 - k,
            {
                self.draw_sprite_pixel(i, k, tile_num, row, shadow, Ghost(g0), Ghost(c_in));
                proof {
                    assert forall|xx: int|
                        0 <= xx < 160 implies #[trigger] spec_sprite_applied_upto(
                        g0,
                        c_in,
                        self.canvas_buffer@,
                        i as int,
                        xx,
                        o.x + (k + 1),
                    ) by {
                        assert(spec_sprite_applied_upto(
                            g0,
                            c_in,
                            self.canvas_buffer@,
                            i as int,
                            xx,
                            g0.object_data@[i as int].x + k + 1,
                        ));
                    }
                }
                k = k + 1;
            }
            proof {
                assert forall|xx: int| 0 <= xx < 160 implies #[trigger] spec_sprite_applied(
                    g0,
                    c_in,
                    self.canvas_buffer@,
                    i as int,
                    xx,
                ) by {
                    reveal(GPU::spec_sprite_draws);
                    assert(spec_sprite_applied_upto(
                        g0,
                        c_in,
                        self.canvas_buffer@,
                        i as int,
                        xx,
                        o.x + 8,
                    ));
                }
            }
        } else {
            proof {
                assert forall|xx: int| 0 <= xx < 160 implies #[trigger] spec_sprite_applied(
                    g0,
                    c_in,
                    self.canvas_buffer@,
                    i as int,
                    xx,
                ) by {
                    assert(!g0.spec_sprite_draws(i as int, line as int, xx)) by {
                        reveal(GPU::spec_sprite_draws);
                    };
                }
            }
        }
        proof {
            GPU::lemma_tile_coherence_carry(g0, *self);
            GPU::lemma_objects_coherence_carry(g0, *self);
        }
    }

    /// The background colour index at screen column `x` of the current
    /// scanline, through the scroll registers, the selected tile map and
    /// the tile cache.
    fn bg_color_index(&self, x: usize, Ghost(g0): Ghost<GPU>) -> (r: u8)
        requires
            g0.vram@.len() == 0x2000,
            g0.tile_set@.len() == 384 * 64,
            x < 160,
            *self == (GPU { canvas_buffer: self.canvas_buffer, ..g0 }),
        ensures
            r == g0.spec_bg_index(g0.line as int, x as int),
    {
        proof {
            reveal(GPU::spec_bg_index);
        }
        let map_x: usize = (x + self.viewport_x_offset as usize) % 256;
        let map_y: usize = (self.line as usize + self.viewport_y_offset as usize) % 256;
        let midx: usize = map_base(self.background_tile_map) + (map_y / 8) * 32 + map_x / 8;
        let tb = self.vram[midx];
        let t = tile_number(self.background_and_window_data_select, tb);
        self.tile_set[t * 64 + (map_y % 8) * 8 + (map_x % 8)].index()
    }

    /// The window colour index at screen column `x` of the current
    /// scanline, counted from the window origin.
    fn window_color_index(&self, x: usize, Ghost(g0): Ghost<GPU>) -> (r: u8)
        requires
            g0.vram@.len() == 0x2000,
            g0.tile_set@.len() == 384 * 64,
            g0.line <= 143,
            g0.window.y <= g0.line,
            x < 160,
            x >= g0.window.x - 7,
            *self == (GPU { canvas_buffer: self.canvas_buffer, ..g0 }),
        ensures
            r == g0.spec_window_index(g0.line as int, x as int),
    {
        proof {
            reveal(GPU::spec_window_index);
        }
        let wx_start: i32 = self.window.x as i32 - 7;
        let wy: u8 = self.line - self.window.y;
        let wx: usize = (x as i32 - wx_start) as usize;
        let midx: usize = map_base(self.window_tile_map) + ((wy as usize) / 8) * 32 + wx / 8;
        let tb = self.vram[midx];
        let t = tile_number(self.background_and_window_data_select, tb);
        self.tile_set[t * 64 + ((wy as usize) % 8) * 8 + (wx % 8)].index()
    }

    /// Computes the background and window colour of one pixel of the
    /// current scanline, stores its shade into the framebuffer, and
    /// records the background colour index for the sprite pass.
    fn render_base_pixel(&mut self, x: usize, scan_line: &mut Vec<u8>, Ghost(g0): Ghost<GPU>)
        requires
            g0.wf(),
            g0.line <= 143,
            x < 160,
            *old(self) == (GPU { canvas_buffer: old(self).canvas_buffer, ..g0 }),
            old(self).canvas_buffer@.len() == 92160,
            old(scan_line)@.len() == 160,
        ensures
            *final(self) == (GPU { canvas_buffer: final(self).canvas_buffer, ..g0 }),
            final(self).canvas_buffer@.len() == 92160,
            forall|j: int|
                0 <= j < 92160 && !(g0.line * 640 + 4 * x <= j < g0.line * 640 + 4 * x + 4)
                    ==> final(self).canvas_buffer@[j] == old(self).canvas_buffer@[j],
            spec_canvas_pixel_matches(
                old(self).canvas_buffer@,
                final(self).canvas_buffer@,
                g0.line as int,
                x as int,
                g0.spec_base_shade(g0.line as int, x as int),
            ),
            final(scan_line)@.len() == 160,
            forall|xx: int|
                0 <= xx < 160 && xx != x ==> final(scan_line)@[xx] == old(scan_line)@[xx],
            final(scan_line)@[x as int] == (if g0.background_display_enabled {
                g0.spec_shadow(g0.line as int, x as int)
            } else {
                old(scan_line)@[x as int] as int
            }),
    {
        let line = self.line;
        let row_base: usize = (line as usize) * 640;
        let wx_start: i32 = self.window.x as i32 - 7;
        let window_covers = self.window_display_enabled && self.window.y <= line && wx_start
            < 160 && (x as i32) >= wx_start;
        proof {
            assert(window_covers == g0.spec_window_covers(g0.line as int, x as int));
        }
        let mut bg_ci: u8 = 0;
        if self.background_display_enabled {
            bg_ci = self.bg_color_index(x, Ghost(g0));
            scan_line[x] = bg_ci;
        }
        let shade_opt: Option<u8> = if window_covers {
            let ci = self.window_color_index(x, Ghost(g0));
            Some(self.palette_shade(ci))
        } else if self.background_display_enabled {
            Some(self.palette_shade(bg_ci))
        } else {
            None
        };
        proof {
            assert(shade_opt == g0.spec_base_shade(g0.line as int, x as int));
        }
        match shade_opt {
            Some(s) => {
                self.put_pixel(row_base + 4 * x, s);
            },
            None => (),
        }
    }

    /// Renders the current scanline into the framebuffer: the background
    /// layer under the scroll registers, the window layer over it, and
    /// the sprites in OAM order on top.
    fn render_scan_line(&mut self)
        requires
            old(self).wf(),
            old(self).line <= 143,
        ensures
            final(self).wf(),
            GPU::spec_render_rel(*old(self), *final(self), old(self).line as int),
    {
        let ghost g0 = *self;
        let mut scan_line: Vec<u8> = vec![0u8; 160];
        let mut x: usize = 0;
        while x < 160
            invariant
                g0.wf(),
                g0.line <= 143,
                x <= 160,
                *self == (GPU { canvas_buffer: self.canvas_buffer, ..g0 }),
                self.canvas_buffer@.len() == 92160,
                scan_line@.len() == 160,
                forall|j: int|
                    0 <= j < 92160 && !(g0.line * 640 <= j < g0.line * 640 + 4 * x)
                        ==> self.canvas_buffer@[j] == g0.canvas_buffer@[j],
                forall|xx: int|
                    0 <= xx < x ==> #[trigger] spec_canvas_pixel_matches(
                        g0.canvas_buffer@,
                        self.canvas_buffer@,
                        g0.line as int,
                        xx,
                        g0.spec_base_shade(g0.line as int, xx),
                    ),
                forall|xx: int|
                    0 <= xx < 160 ==> #[trigger] scan_line@[xx] == (if xx < x {
                        g0.spec_shadow(g0.line as int, xx)
                    } else {
                        0
                    }),
            decreases 160 - x,
        {
            let ghost canvas_before = self.canvas_buffer@;
            self.render_base_pixel(x, &mut scan_line, Ghost(g0));
            proof {
                assert forall|xx: int| 0 <= xx < x + 1 implies #[trigger] spec_canvas_pixel_matches(
                    g0.canvas_buffer@,
                    self.canvas_buffer@,
                    g0.line as int,
                    xx,
                    g0.spec_base_shade(g0.line as int, xx),
                ) by {
                    if xx < x {
                        assert(spec_canvas_pixel_matches(
                            g0.canvas_buffer@,
                            canvas_before,
                            g0.line as int,
                            xx,
                            g0.spec_base_shade(g0.line as int, xx),
                        ));
                        assert(self.canvas_buffer@[g0.line * 640 + 4 * xx] == canvas_before[
                            g0.line * 640 + 4 * xx]);
                        assert(self.canvas_buffer@[g0.line * 640 + 4 * xx + 1] == canvas_before[
                            g0.line * 640 + 4 * xx + 1]);
                        assert(self.canvas_buffer@[g0.line * 640 + 4 * xx + 2] == canvas_before[
                            g0.line * 640 + 4 * xx + 2]);
                        assert(self.canvas_buffer@[g0.line * 640 + 4 * xx + 3] == canvas_before[
                            g0.line * 640 + 4 * xx + 3]);
                    }
                }
                assert(g0.background_display_enabled ==> scan_line@[x as int] == g0.spec_shadow(
                    g0.line as int,
                    x as int,
                ));
                assert(!g0.background_display_enabled ==> g0.spec_shadow(g0.line as int, x as int)
                    == 0);
            }
            x = x + 1;
        }
        if self.object_display_enabled {
            proof {
                assert forall|xx: int| 0 <= xx < 160 implies #[trigger] spec_canvas_pixel_matches(
                    g0.canvas_buffer@,
                    self.canvas_buffer@,
                    g0.line as int,
                    xx,
                    g0.spec_stage_shade(g0.line as int, xx, 0),
                ) by {
                    assert(g0.spec_stage_shade(g0.line as int, xx, 0) == g0.spec_base_shade(
                        g0.line as int,
                        xx,
                    ));
                }
            }
            let mut i: usize = 0;
            while i < 40
                invariant
                    g0.wf(),
                    g0.line <= 143,
                    i <= 40,
                    g0.object_display_enabled,
                    *self == (GPU { canvas_buffer: self.canvas_buffer, ..g0 }),
                    self.canvas_buffer@.len() == 92160,
                    scan_line@.len() == 160,
                    forall|xx: int|
                        0 <= xx < 160 ==> #[trigger] scan_line@[xx] == g0.spec_shadow(
                            g0.line as int,
                            xx,
                        ),
                    forall|j: int|
                        0 <= j < 92160 && !(g0.line * 640 <= j < g0.line * 640 + 640)
                            ==> self.canvas_buffer@[j] == g0.canvas_buffer@[j],
                    forall|xx: int|
                        0 <= xx < 160 ==> #[trigger] spec_canvas_pixel_matches(
                            g0.canvas_buffer@,
                            self.canvas_buffer@,
                            g0.line as int,
                            xx,
                            g0.spec_stage_shade(g0.line as int, xx, i as int),
                        ),
                decreases 40 - i,
            {
                let ghost c_pre = self.canvas_buffer@;
                self.draw_sprite_line(i, &scan_line, Ghost(g0));
                proof {
                    assert forall|xx: int|
                        0 <= xx < 160 implies #[trigger] spec_canvas_pixel_matches(
                        g0.canvas_buffer@,
                        self.canvas_buffer@,
                        g0.line as int,
                        xx,
                        g0.spec_stage_shade(g0.line as int, xx, i + 1),
                    ) by {
                        assert(spec_canvas_pixel_matches(
                            g0.canvas_buffer@,
                            c_pre,
                            g0.line as int,
                            xx,
                            g0.spec_stage_shade(g0.line as int, xx, i as int),
                        ));
                        assert(spec_sprite_applied(g0, c_pre, self.canvas_buffer@, i as int, xx));
                        if g0.spec_sprite_draws(i as int, g0.line as int, xx) {
                            assert(g0.spec_stage_shade(g0.line as int, xx, i + 1) == Some(
                                g0.spec_sprite_shade(i as int, g0.line as int, xx),
                            ));
                        } else {
                            assert(g0.spec_stage_shade(g0.line as int, xx, i + 1)
                                == g0.spec_stage_shade(g0.line as int, xx, i as int));
                        }
                    }
                }
                i = i + 1;
            }
        }
        proof {
            assert forall|x: int| 0 <= x < 160 implies #[trigger] spec_canvas_pixel_matches(
                g0.canvas_buffer@,
                self.canvas_buffer@,
                g0.line as int,
                x,
                g0.spec_rendered_shade(g0.line as int, x),
            ) by {
                if g0.object_display_enabled {
                    assert(g0.spec_rendered_shade(g0.line as int, x) == g0.spec_stage_shade(
                        g0.line as int,
                        x,
                        40,
                    ));
                } else {
                    assert(g0.spec_rendered_shade(g0.line as int, x) == g0.spec_base_shade(
                        g0.line as int,
                        x,
                    ));
                }
            }
            GPU::lemma_tile_coherence_carry(g0, *self);
            GPU::lemma_objects_coherence_carry(g0, *self);
        }
    }

}


impl GPU {
    /// Renders the whole decoded tile cache into an image of 24 tiles
    /// per row, four bytes per pixel, through the background palette;
    /// `outline_tiles` paints the tile borders blue instead.
    pub fn tile_set_as_buffer(&self, outline_tiles: bool) -> (data: Vec<u8>)
        requires
            self.wf(),
        ensures
            data@.len() == 24 * 16 * 64 * 4,
    {
        let mut data: Vec<u8> = vec![0u8; 98304];
        let mut t: usize = 0;
        while t < 384
            invariant
                self.wf(),
                t <= 384,
                data@.len() == 98304,
            decreases 384 - t,
        {
            let tile_row = t / 24;
            let tile_column = t % 24;
            let mut row: usize = 0;
            while row < 8
                invariant
                    self.wf(),
                    t < 384,
                    tile_row == t / 24,
                    tile_column == t % 24,
                    row <= 8,
                    data@.len() == 98304,
                decreases 8 - row,
            {
                let pixel_row = tile_row * 8 + row;
                let mut px: usize = 0;
                while px < 8
                    invariant
                        self.wf(),
                        t < 384,
                        tile_row == t / 24,
                        tile_column == t % 24,
                        row < 8,
                        px <= 8,
                        pixel_row == tile_row * 8 + row,
                        data@.len() == 98304,
                    decreases 8 - px,
                {
                    let pixel_column = tile_column * 8 + px;
                    let idx = (pixel_row * 192 + pixel_column) * 4;
                    let border = pixel_row % 8 == 0 || px == 0 || (tile_row == 15 && row == 7)
                        || (tile_column == 23 && px == 7);
                    if outline_tiles && border {
                        data[idx] = 0;
                        data[idx + 1] = 0;
                        data[idx + 2] = 255;
                    } else {
                        let pv = self.tile_set[t * 64 + row * 8 + px];
                        let shade = self.palette_shade(pv.index());
                        data[idx] = shade;
                        data[idx + 1] = shade;
                        data[idx + 2] = shade;
                    }
                    data[idx + 3] = 255;
                    px = px + 1;
                }
                row = row + 1;
            }
            t = t + 1;
        }
        data
    }
}

} // verus!
