//! The picture processing unit: LCD registers, VRAM and OAM with their access
//! windows, the per-dot mode machine, OAM scan, scanline rendering into a 160×144
//! RGB framebuffer, STAT edge detection, OAM-DMA and CGB general/HBlank DMA.
use vstd::prelude::*;
use crate::interrupts::{STAT_INT, VBLANK_INT};

verus! {

pub const SCREEN_WIDTH: usize = 160;
pub const SCREEN_HEIGHT: usize = 144;
pub const DOTS_PER_LINE: u16 = 456;
pub const OAM_SCAN_DOTS: u16 = 80;

/// The RGB level of a DMG shade: white, light grey, dark grey, black.
pub open spec fn shade_level(shade: int) -> u8 {
    (255 - 85 * shade) as u8
}

/// The DMG shade (0..=3) that a palette register gives a 2-bit colour index.
pub open spec fn palette_shade(palette: u8, color: u8) -> u8 {
    (palette >> (2 * color)) & 3
}

/// Maps a 2-bit colour index through a DMG palette register to an RGB level.
pub fn dmg_level(palette: u8, color: u8) -> (r: u8)
    requires
        color < 4,
    ensures
        r == shade_level(palette_shade(palette, color) as int),
{
    let shade = (palette >> (2 * color)) & 3;
    assert(shade <= 3) by (bit_vector)
        requires
            shade == (palette >> (2 * color)) & 3,
    ;
    255 - 85 * shade
}

/// Rescales a 5-bit colour channel to 8 bits: `v * 255 / 31`.
pub fn scale_channel(v: u16) -> (r: u8)
    requires
        v < 32,
    ensures
        r == v * 255 / 31,
{
    (v * 255 / 31) as u8
}

/// The byte offset in a VRAM bank of row `row` of tile `tile` for background and
/// window tiles: unsigned from 0x8000 when LCDC bit 4 is set, else signed around
/// 0x9000.
pub open spec fn bg_tile_row_offset(unsigned_mode: bool, tile: u8, row: u8) -> int {
    if unsigned_mode {
        tile * 16 + row * 2
    } else if tile < 128 {
        0x1000 + tile * 16 + row * 2
    } else {
        0x800 + (tile - 128) * 16 + row * 2
    }
}

pub fn bg_tile_row(unsigned_mode: bool, tile: u8, row: u8) -> (r: usize)
    requires
        row < 8,
    ensures
        r == bg_tile_row_offset(unsigned_mode, tile, row),
        r + 1 < 0x1800,
{
    if unsigned_mode {
        tile as usize * 16 + row as usize * 2
    } else if tile < 128 {
        0x1000 + tile as usize * 16 + row as usize * 2
    } else {
        0x800 + (tile as usize - 128) * 16 + row as usize * 2
    }
}

/// The 2-bit colour of pixel `bit` (7 = leftmost) of a tile row given by its low
/// and high bit-plane bytes.
pub open spec fn tile_pixel(low: u8, high: u8, bit: u8) -> u8 {
    (((high >> bit) & 1) * 2 + ((low >> bit) & 1)) as u8
}

pub fn decode_pixel(low: u8, high: u8, bit: u8) -> (r: u8)
    requires
        bit < 8,
    ensures
        r == tile_pixel(low, high, bit),
        r < 4,
{
    let h = (high >> bit) & 1;
    let l = (low >> bit) & 1;
    assert(h <= 1 && l <= 1) by (bit_vector)
        requires
            h == (high >> bit) & 1,
            l == (low >> bit) & 1,
    ;
    h * 2 + l
}

/// Whether a sprite whose OAM Y byte is `y` covers line `ly`.
pub open spec fn sprite_on_line(ly: u8, y: u8, height: u8) -> bool {
    ly + 16 >= y && ly + 16 < y + height
}

/// A non-zero sprite pixel is drawn over the background unless the sprite (or, on
/// CGB, the background tile) asks for background priority and the background
/// pixel is non-zero; on CGB, LCDC bit 0 clear lets sprites win always.
pub open spec fn sprite_wins(
    cgb: bool,
    master_priority: bool,
    obj_behind: bool,
    bg_attr_priority: bool,
    bg_color: u8,
) -> bool {
    if cgb && !master_priority {
        true
    } else {
        bg_color == 0 || (!obj_behind && !(cgb && bg_attr_priority))
    }
}

/// The length of mode 3 on a line: 172 dots, plus SCX mod 8, plus 6 when the
/// window shows on the line, plus a fetch penalty per sprite, capped at 289.
pub open spec fn mode3_length(scx: u8, window_on_line: bool, sprite_penalty: int) -> int {
    let raw = 172 + scx % 8 + (if window_on_line { 6int } else { 0 }) + sprite_penalty;
    if raw > 289 {
        289
    } else {
        raw
    }
}

pub fn mode3_len(scx: u8, window_on_line: bool, sprite_penalty: u16) -> (r: u16)
    requires
        sprite_penalty <= 1000,
    ensures
        r == mode3_length(scx, window_on_line, sprite_penalty as int),
        172 <= r <= 289,
{
    let raw: u16 = 172 + (scx % 8) as u16 + (if window_on_line { 6u16 } else { 0 }) + sprite_penalty;
    if raw > 289 {
        289
    } else {
        raw
    }
}

/// On a visible line, mode 2 runs for the first 80 dots, mode 3 for
/// `mode3_length` dots after it, and mode 0 for the rest of the 456.
pub open spec fn mode_at(dot: int, mode3: int) -> u8 {
    if dot < 80 {
        2
    } else if dot < 80 + mode3 {
        3
    } else {
        0
    }
}

/// Scanline timing law: on every visible line, whatever the scroll, window and
/// sprites, the mode-2, mode-3 and mode-0 stretches are 80, 172..=289 and the
/// remainder dots long, and together they make 456.
pub proof fn lemma_scanline_modes(scx: u8, window_on_line: bool, sprite_penalty: int)
    requires
        sprite_penalty >= 0,
    ensures
        ({
            let m3 = mode3_length(scx, window_on_line, sprite_penalty);
            let m2_len = 80int;
            let m0_len = 456 - 80 - m3;
            &&& 172 <= m3 <= 289
            &&& m0_len > 0
            &&& m2_len + m3 + m0_len == 456
            &&& forall|d: int| 0 <= d < 80 ==> mode_at(d, m3) == 2
            &&& forall|d: int| 80 <= d < 80 + m3 ==> mode_at(d, m3) == 3
            &&& forall|d: int| 80 + m3 <= d < 456 ==> mode_at(d, m3) == 0
        }),
{
}


/// The mode field follows `mode_at` dot by dot: on a visible line whose mode so
/// far matched `mode_at`, one more dot keeps it matching, with the mode-3 length
/// the line settled at dot 80; and the dot after 455 starts the next line.
pub proof fn lemma_dot_step_follows_mode_at(a: PPU, b: PPU, r: u8)
    requires
        a.wf(),
        a.dot_step(b, r),
        a.lcd_on(),
        a.visible_line(),
        a.dot == 0 || a.mode == mode_at(a.dot - 1, a.mode3_end - 80),
    ensures
        b.mode == mode_at(a.dot as int, b.mode3_end - 80),
        a.dot < 455 ==> b.dot == a.dot + 1 && b.ly == a.ly,
        a.dot == 455 ==> b.dot == 0 && b.ly == a.ly + 1,
{
}

/// An RGB555 colour from two little-endian palette-memory bytes, rescaled to 8 bits
/// per channel.
pub open spec fn rgb555(lo: u8, hi: u8) -> (u8, u8, u8) {
    let v = hi * 256 + lo;
    ((v % 32 * 255 / 31) as u8, ((v / 32) % 32 * 255 / 31) as u8, ((v / 1024) % 32 * 255 / 31) as u8)
}

pub fn cgb_color(pal: &Vec<u8>, palette: u8, color: u8) -> (r: (u8, u8, u8))
    requires
        pal@.len() == 64,
        palette < 8,
        color < 4,
    ensures
        r == rgb555(pal@[palette * 8 + color * 2], pal@[palette * 8 + color * 2 + 1]),
{
    let i = palette as usize * 8 + color as usize * 2;
    let v: u16 = pal[i + 1] as u16 * 256 + pal[i] as u16;
    (scale_channel(v % 32), scale_channel((v / 32) % 32), scale_channel((v / 1024) % 32))
}

pub struct PPU {
    pub cgb: bool,
    pub lcdc: u8,
    /// STAT bits 3..6: the HBlank, VBlank, OAM and coincidence interrupt sources.
    pub stat_select: u8,
    pub coincidence_flag: bool,
    pub mode: u8,
    pub scy: u8,
    pub scx: u8,
    pub ly: u8,
    pub lyc: u8,
    pub wy: u8,
    pub wx: u8,
    pub bgp: u8,
    pub obp0: u8,
    pub obp1: u8,
    pub bg_palette_index: u8,
    pub bg_palette_inc: bool,
    pub bg_palettes: Vec<u8>,
    pub obj_palette_index: u8,
    pub obj_palette_inc: bool,
    pub obj_palettes: Vec<u8>,
    pub oam_dma_page: u8,
    pub in_oam_dma: bool,
    pub oam_dma_clock: u16,
    pub disable_oam: bool,
    pub hdma_src: u16,
    pub hdma_dest: u16,
    /// Bytes of a general DMA still to copy.
    pub gdma_remaining: u16,
    /// 16-byte blocks of an HBlank DMA still to copy.
    pub hdma_blocks: u8,
    pub hdma_active: bool,
    pub hdma_pending: bool,
    /// Dot within the current line, 0..456.
    pub dot: u16,
    /// The dot at which mode 3 ends on the current line.
    pub mode3_end: u16,
    pub prev_stat_line: bool,
    /// Set on line 153 once LY has wrapped to 0 early.
    pub ly_wrapped: bool,
    /// OAM indices (0..40) of the sprites on the current line, in OAM order.
    pub visible_sprites: Vec<u8>,
    pub vram: Vec<u8>,
    pub vram_bank: usize,
    pub oam: Vec<u8>,
    /// Row-major 160×144 RGB framebuffer.
    pub pixels: Vec<u8>,
    /// Set when a frame is complete (at the start of VBlank).
    pub frame_ready: bool,
}

/// A pixel's colour does not depend on the framebuffer, the mode or the mode-3 end.
proof fn lemma_pixel_rgb_frame(a: PPU, b: PPU, x: u8)
    requires
        a == (PPU { pixels: a.pixels, mode: a.mode, mode3_end: a.mode3_end, ..b }),
    ensures
        a.pixel_rgb(x) == b.pixel_rgb(x),
{
    reveal(PPU::pixel_rgb);
    reveal(PPU::bg_rgb_at);
    reveal(PPU::bg_index_at);
    lemma_winner_frame2(a, b, x, a.visible_sprites@.len() as int);
}

proof fn lemma_winner_frame2(a: PPU, b: PPU, x: u8, n: int)
    requires
        a == (PPU { pixels: a.pixels, mode: a.mode, mode3_end: a.mode3_end, ..b }),
    ensures
        a.winner(x, n) == b.winner(x, n),
    decreases n,
{
    if n > 0 {
        lemma_winner_frame2(a, b, x, n - 1);
    }
}

/// A pixel's colour does not depend on the framebuffer.
proof fn lemma_pixel_rgb_ignores_pixels(a: PPU, b: PPU, x: u8)
    requires
        a == (PPU { pixels: a.pixels, ..b }),
    ensures
        a.pixel_rgb(x) == b.pixel_rgb(x),
{
    reveal(PPU::pixel_rgb);
    reveal(PPU::bg_rgb_at);
    reveal(PPU::bg_index_at);
    assert(a.visible_sprites == b.visible_sprites && a.oam == b.oam && a.vram == b.vram);
    lemma_winner_frame(a, b, x, a.visible_sprites@.len() as int);
}

proof fn lemma_winner_frame(a: PPU, b: PPU, x: u8, n: int)
    requires
        a == (PPU { pixels: a.pixels, ..b }),
    ensures
        a.winner(x, n) == b.winner(x, n),
    decreases n,
{
    if n > 0 {
        lemma_winner_frame(a, b, x, n - 1);
    }
}

/// Whether sprite `i` of an OAM image lies on line `ly`.
pub open spec fn oam_visible(oam: Seq<u8>, i: int, ly: u8, height: u8) -> bool {
    sprite_on_line(ly, oam[i * 4], height)
}

/// The first ten sprites among OAM entries `0..n` that lie on line `ly`, in OAM order.
pub open spec fn scan_oam(oam: Seq<u8>, ly: u8, height: u8, n: int) -> Seq<u8>
    decreases n,
{
    if n <= 0 {
        seq![]
    } else {
        let s = scan_oam(oam, ly, height, n - 1);
        if s.len() < 10 && oam_visible(oam, n - 1, ly, height) {
            s.push((n - 1) as u8)
        } else {
            s
        }
    }
}

pub proof fn lemma_scan_oam_bounds(oam: Seq<u8>, ly: u8, height: u8, n: int)
    requires
        0 <= n <= 40,
    ensures
        scan_oam(oam, ly, height, n).len() <= 10,
        forall|k: int| 0 <= k < scan_oam(oam, ly, height, n).len() ==> #[trigger] scan_oam(oam, ly, height, n)[k] < n,
    decreases n,
{
    if n > 0 {
        lemma_scan_oam_bounds(oam, ly, height, n - 1);
    }
}

impl PPU {
    pub open spec fn wf(&self) -> bool {
        &&& self.mode < 4
        &&& self.stat_select <= 0x78
        &&& self.ly <= 153
        &&& self.dot < 456
        &&& 80 + 172 <= self.mode3_end <= 80 + 289
        &&& self.bg_palette_index < 64
        &&& self.obj_palette_index < 64
        &&& self.bg_palettes@.len() == 64
        &&& self.obj_palettes@.len() == 64
        &&& self.oam_dma_clock <= 162
        &&& self.hdma_dest < 0x2000
        &&& self.vram_bank < 2
        &&& self.vram@.len() == 0x4000
        &&& self.oam@.len() == 0xA0
        &&& self.pixels@.len() == SCREEN_WIDTH * SCREEN_HEIGHT * 3
        &&& self.visible_sprites@.len() <= 10
        &&& forall|k: int| 0 <= k < self.visible_sprites@.len() ==> #[trigger] self.visible_sprites@[k] < 40
    }

    /// A line of the visible area (not the early-wrapped tail of line 153).
    pub open spec fn visible_line(&self) -> bool {
        self.ly < 144 && !self.ly_wrapped
    }

    /// What one dot with the LCD on does besides the dot counter: the OAM scan at
    /// dot 0, mode 3 and the line's pixels at dot 80, mode 0 at the end of mode 3,
    /// no other mode change on a visible line; LY steps when the dot wraps (line
    /// 153 wraps to 0 early, at its dot 4); VRAM and OAM are untouched.
    pub open spec fn line_effects(self, next: PPU) -> bool {
        let vis = self.visible_line();
        &&& next.oam == self.oam
        &&& next.vram == self.vram
        &&& next.cgb == self.cgb
        &&& (vis && self.dot == 0 ==> next.visible_sprites@ == (if self.lcdc & 0x02 != 0 {
            scan_oam(self.oam@, self.ly, self.sprite_height(), 40)
        } else {
            seq![]
        }))
        &&& (!(vis && self.dot == 0) ==> next.visible_sprites == self.visible_sprites)
        &&& (vis && self.dot == self.mode3_end ==> next.mode == 0)
        &&& (vis && self.dot != 0 && self.dot != 80 && self.dot != self.mode3_end ==> next.mode == self.mode)
        &&& (self.dot != 80 ==> next.mode3_end == self.mode3_end)
        &&& (vis && self.dot == 80 ==> forall|x: u8|
            x < 160 ==> {
                let c = #[trigger] self.pixel_rgb(x);
                let i = self.ly * 480 + x * 3;
                next.pixels@[i] == c.0 && next.pixels@[i + 1] == c.1 && next.pixels@[i + 2] == c.2
            })
        &&& (vis && self.dot == 80 ==> forall|i: int|
            0 <= i < next.pixels@.len() && !(self.ly * 480 <= i < self.ly * 480 + 480) ==> #[trigger] next.pixels@[i]
                == self.pixels@[i])
        &&& (!(vis && self.dot == 80) ==> next.pixels == self.pixels)
        &&& (self.dot == 455 ==> !next.ly_wrapped && next.ly == (if self.ly_wrapped {
            self.ly as int
        } else if self.ly < 153 {
            self.ly + 1
        } else {
            0
        }))
        &&& (self.ly == 153 && self.dot == 4 ==> next.ly == 0 && next.ly_wrapped)
        &&& (self.dot != 455 && !(self.ly == 153 && self.dot == 4) ==> next.ly == self.ly && next.ly_wrapped
            == self.ly_wrapped)
    }

    /// One dot: the mode machine while the LCD is on (LY, dot and mode held at 0
    /// while it is off), and the interrupt bits `r` it raises: VBlank at the first
    /// dot of line 144, STAT on a rising edge of the STAT line.
    pub open spec fn dot_step(self, next: PPU, r: u8) -> bool {
        &&& next.wf()
        &&& next.cgb == self.cgb
        &&& next.lcdc == self.lcdc
        &&& next.prev_stat_line == next.stat_line()
        &&& (r & STAT_INT != 0 <==> (next.stat_line() && !self.prev_stat_line))
        &&& (r & VBLANK_INT != 0 <==> (self.lcd_on() && self.ly == 144 && self.dot == 0))
        &&& r & !(STAT_INT | VBLANK_INT) == 0
        &&& (!self.lcd_on() ==> next.ly == 0 && next.dot == 0 && next.mode == 0 && next.oam == self.oam
            && next.vram == self.vram)
        &&& (self.lcd_on() ==> next.dot == (self.dot + 1) % 456)
        &&& (self.lcd_on() ==> next.coincidence_flag == (next.ly == next.lyc))
        &&& (self.lcd_on() && self.visible_line() && self.dot == 0 ==> next.mode == 2)
        &&& (self.lcd_on() && self.visible_line() && self.dot == 80 ==> next.mode == 3 && 80 + 172 + self.scx % 8
            <= next.mode3_end <= 80 + 289)
        &&& (self.lcd_on() && self.ly == 144 && self.dot == 0 ==> next.mode == 1 && next.frame_ready)
        &&& (self.lcd_on() ==> self.line_effects(next))
    }

    /// The registers and line state that DMA transfers leave alone.
    pub open spec fn same_timing(self, o: PPU) -> bool {
        &&& self.cgb == o.cgb
        &&& self.lcdc == o.lcdc
        &&& self.stat_select == o.stat_select
        &&& self.coincidence_flag == o.coincidence_flag
        &&& self.mode == o.mode
        &&& self.scy == o.scy
        &&& self.scx == o.scx
        &&& self.ly == o.ly
        &&& self.lyc == o.lyc
        &&& self.wy == o.wy
        &&& self.wx == o.wx
        &&& self.bgp == o.bgp
        &&& self.obp0 == o.obp0
        &&& self.obp1 == o.obp1
        &&& self.dot == o.dot
        &&& self.mode3_end == o.mode3_end
        &&& self.prev_stat_line == o.prev_stat_line
        &&& self.ly_wrapped == o.ly_wrapped
        &&& self.visible_sprites == o.visible_sprites
    }

    pub open spec fn lcd_on(&self) -> bool {
        self.lcdc & 0x80 != 0
    }

    /// The level of the STAT interrupt line: the OR of the four enabled sources.
    pub open spec fn stat_line(&self) -> bool {
        ||| (self.mode == 0 && self.stat_select & 0x08 != 0)
        ||| (self.mode == 1 && self.stat_select & 0x10 != 0)
        ||| (self.mode == 2 && self.stat_select & 0x20 != 0)
        ||| (self.coincidence_flag && self.stat_select & 0x40 != 0)
    }

    pub open spec fn oam_blocked(&self) -> bool {
        self.mode >= 2 || self.disable_oam
    }

    pub open spec fn spec_read(&self, addr: u16) -> u8 {
        if 0x8000 <= addr <= 0x9FFF {
            if self.mode == 3 { 0xFF } else { self.vram@[self.vram_bank * 0x2000 + (addr - 0x8000)] }
        } else if 0xFE00 <= addr <= 0xFE9F {
            if self.oam_blocked() { 0xFF } else { self.oam@[addr - 0xFE00] }
        } else if addr == 0xFF40 {
            self.lcdc
        } else if addr == 0xFF41 {
            (0x80 + self.stat_select + (if self.coincidence_flag { 4int } else { 0 }) + self.mode) as u8
        } else if addr == 0xFF42 {
            self.scy
        } else if addr == 0xFF43 {
            self.scx
        } else if addr == 0xFF44 {
            self.ly
        } else if addr == 0xFF45 {
            self.lyc
        } else if addr == 0xFF46 {
            self.oam_dma_page
        } else if 0xFF47 <= addr <= 0xFF49 && !self.cgb && self.mode == 3 {
            0xFF
        } else if addr == 0xFF47 {
            self.bgp
        } else if addr == 0xFF48 {
            self.obp0
        } else if addr == 0xFF49 {
            self.obp1
        } else if addr == 0xFF4A {
            self.wy
        } else if addr == 0xFF4B {
            self.wx
        } else {
            0xFF
        }
    }

    pub fn new(cgb: bool) -> (r: Self)
        ensures
            r.wf(),
            r.cgb == cgb,
            r.lcdc == 0 && r.ly == 0 && r.mode == 0 && r.dot == 0,
            !r.frame_ready,
            forall|i: int| 0 <= i < 0x4000 ==> #[trigger] r.vram@[i] == 0,
            forall|i: int| 0 <= i < 0xA0 ==> #[trigger] r.oam@[i] == 0,
            forall|i: int| 0 <= i < 64 ==> #[trigger] r.bg_palettes@[i] == 0 && r.obj_palettes@[i] == 0,
    {
        PPU {
            cgb,
            lcdc: 0,
            stat_select: 0,
            coincidence_flag: false,
            mode: 0,
            scy: 0,
            scx: 0,
            ly: 0,
            lyc: 0,
            wy: 0,
            wx: 0,
            bgp: 0xE4,
            obp0: 0xE4,
            obp1: 0xE4,
            bg_palette_index: 0,
            bg_palette_inc: false,
            bg_palettes: vec![0u8; 64],
            obj_palette_index: 0,
            obj_palette_inc: false,
            obj_palettes: vec![0u8; 64],
            oam_dma_page: 0,
            in_oam_dma: false,
            oam_dma_clock: 0,
            disable_oam: false,
            hdma_src: 0,
            hdma_dest: 0,
            gdma_remaining: 0,
            hdma_blocks: 0,
            hdma_active: false,
            hdma_pending: false,
            dot: 0,
            mode3_end: 80 + 172,
            prev_stat_line: false,
            ly_wrapped: false,
            visible_sprites: Vec::new(),
            vram: vec![0u8; 0x4000],
            vram_bank: 0,
            oam: vec![0u8; 0xA0],
            pixels: vec![0xFFu8; SCREEN_WIDTH * SCREEN_HEIGHT * 3],
            frame_ready: false,
        }
    }

    pub fn read(&self, addr: u16) -> (r: u8)
        requires
            self.wf(),
        ensures
            r == self.spec_read(addr),
    {
        if 0x8000 <= addr && addr <= 0x9FFF {
            if self.mode == 3 { 0xFF } else { self.vram[self.vram_bank * 0x2000 + (addr - 0x8000) as usize] }
        } else if 0xFE00 <= addr && addr <= 0xFE9F {
            if self.mode >= 2 || self.disable_oam { 0xFF } else { self.oam[(addr - 0xFE00) as usize] }
        } else if addr == 0xFF40 {
            self.lcdc
        } else if addr == 0xFF41 {
            0x80 + self.stat_select + (if self.coincidence_flag { 4u8 } else { 0 }) + self.mode
        } else if addr == 0xFF42 {
            self.scy
        } else if addr == 0xFF43 {
            self.scx
        } else if addr == 0xFF44 {
            self.ly
        } else if addr == 0xFF45 {
            self.lyc
        } else if addr == 0xFF46 {
            self.oam_dma_page
        } else if 0xFF47 <= addr && addr <= 0xFF49 && !self.cgb && self.mode == 3 {
            0xFF
        } else if addr == 0xFF47 {
            self.bgp
        } else if addr == 0xFF48 {
            self.obp0
        } else if addr == 0xFF49 {
            self.obp1
        } else if addr == 0xFF4A {
            self.wy
        } else if addr == 0xFF4B {
            self.wx
        } else {
            0xFF
        }
    }

    #[verifier::rlimit(40)]
    pub fn write(&mut self, addr: u16, value: u8)
        requires
            old(self).wf(),
        ensures
            final(self).wf(),
            final(self).cgb == old(self).cgb,
            0x8000 <= addr <= 0x9FFF ==> *final(self) == (PPU { vram: final(self).vram, ..*old(self) }),
            0x8000 <= addr <= 0x9FFF ==> final(self).vram@ == (if old(self).mode == 3 {
                old(self).vram@
            } else {
                old(self).vram@.update(old(self).vram_bank * 0x2000 + (addr - 0x8000), value)
            }),
            0xFE00 <= addr <= 0xFE9F ==> final(self).oam@ == (if old(self).oam_blocked() {
                old(self).oam@
            } else {
                old(self).oam@.update(addr - 0xFE00, value)
            }),
            0xFE00 <= addr <= 0xFE9F ==> *final(self) == (PPU { oam: final(self).oam, ..*old(self) }),
            addr == 0xFF40 ==> *final(self) == (PPU {
                lcdc: value,
                ly: if value < 0x80 { 0 } else { old(self).ly },
                dot: if value < 0x80 { 0 } else { old(self).dot },
                mode: if value < 0x80 { 0 } else { old(self).mode },
                ly_wrapped: if value < 0x80 { false } else { old(self).ly_wrapped },
                ..*old(self)
            }),
            addr == 0xFF41 ==> *final(self) == (PPU { stat_select: value & 0x78, ..*old(self) }),
            addr == 0xFF42 ==> *final(self) == (PPU { scy: value, ..*old(self) }),
            addr == 0xFF43 ==> *final(self) == (PPU { scx: value, ..*old(self) }),
            addr == 0xFF44 ==> *final(self) == *old(self),
            addr == 0xFF45 ==> *final(self) == (PPU {
                lyc: value,
                coincidence_flag: if old(self).lcd_on() { old(self).ly == value } else { old(self).coincidence_flag },
                ..*old(self)
            }),
            addr == 0xFF46 ==> *final(self) == (PPU { oam_dma_page: value, in_oam_dma: true, oam_dma_clock: 0, ..*old(self) }),
            addr == 0xFF47 ==> *final(self) == (PPU {
                bgp: if old(self).cgb || old(self).mode != 3 { value } else { old(self).bgp },
                ..*old(self)
            }),
            addr == 0xFF48 ==> *final(self) == (PPU {
                obp0: if old(self).cgb || old(self).mode != 3 { value } else { old(self).obp0 },
                ..*old(self)
            }),
            addr == 0xFF49 ==> *final(self) == (PPU {
                obp1: if old(self).cgb || old(self).mode != 3 { value } else { old(self).obp1 },
                ..*old(self)
            }),
            addr == 0xFF4A ==> *final(self) == (PPU { wy: value, ..*old(self) }),
            addr == 0xFF4B ==> *final(self) == (PPU { wx: value, ..*old(self) }),
            !(0x8000 <= addr <= 0x9FFF || 0xFE00 <= addr <= 0xFE9F || 0xFF40 <= addr <= 0xFF4B) ==> *final(self)
                == *old(self),
    {
        if 0x8000 <= addr && addr <= 0x9FFF {
            if self.mode != 3 {
                let i = self.vram_bank * 0x2000 + (addr - 0x8000) as usize;
                self.vram[i] = value;
            }
        } else if 0xFE00 <= addr && addr <= 0xFE9F {
            if !(self.mode >= 2 || self.disable_oam) {
                self.oam[(addr - 0xFE00) as usize] = value;
            }
        } else if addr == 0xFF40 {
            self.lcdc = value;
            if value < 0x80 {
                self.ly = 0;
                self.dot = 0;
                self.mode = 0;
                self.ly_wrapped = false;
            }
        } else if addr == 0xFF41 {
            assert(value & 0x78 <= 0x78) by (bit_vector);
            self.stat_select = value & 0x78;
        } else if addr == 0xFF42 {
            self.scy = value;
        } else if addr == 0xFF43 {
            self.scx = value;
        } else if addr == 0xFF45 {
            self.lyc = value;
            if self.lcdc & 0x80 != 0 {
                self.coincidence_flag = self.ly == self.lyc;
            }
        } else if addr == 0xFF46 {
            self.oam_dma_page = value;
            self.in_oam_dma = true;
            self.oam_dma_clock = 0;
        } else if addr == 0xFF47 {
            if self.cgb || self.mode != 3 {
                self.bgp = value;
            }
        } else if addr == 0xFF48 {
            if self.cgb || self.mode != 3 {
                self.obp0 = value;
            }
        } else if addr == 0xFF49 {
            if self.cgb || self.mode != 3 {
                self.obp1 = value;
            }
        } else if addr == 0xFF4A {
            self.wy = value;
        } else if addr == 0xFF4B {
            self.wx = value;
        }
    }

    /// VBK read: 0xFE with the selected bank in bit 0 on CGB, 0xFF on DMG.
    pub fn read_vram_bank(&self) -> (r: u8)
        requires
            self.wf(),
        ensures
            r == (if self.cgb { 0xFE + self.vram_bank } else { 0xFF }),
    {
        if self.cgb {
            0xFE + self.vram_bank as u8
        } else {
            0xFF
        }
    }

    pub fn write_vram_bank(&mut self, value: u8)
        requires
            old(self).wf(),
        ensures
            final(self).wf(),
            final(self).vram_bank == (if old(self).cgb { (value % 2) as usize } else { old(self).vram_bank }),
            final(self).vram@ == old(self).vram@,
            final(self).cgb == old(self).cgb,
    {
        if self.cgb {
            self.vram_bank = (value % 2) as usize;
        }
    }

    pub open spec fn spec_read_palettes(&self, addr: u16) -> u8 {
        if !self.cgb || self.mode == 3 {
            0xFF
        } else if addr == 0xFF68 {
            (self.bg_palette_index + (if self.bg_palette_inc { 0x80int } else { 0 })) as u8
        } else if addr == 0xFF69 {
            self.bg_palettes@[self.bg_palette_index as int]
        } else if addr == 0xFF6A {
            (self.obj_palette_index + (if self.obj_palette_inc { 0x80int } else { 0 })) as u8
        } else if addr == 0xFF6B {
            self.obj_palettes@[self.obj_palette_index as int]
        } else {
            0xFF
        }
    }

    pub fn read_cgb_palettes(&self, addr: u16) -> (r: u8)
        requires
            self.wf(),
        ensures
            r == self.spec_read_palettes(addr),
    {
        if !self.cgb || self.mode == 3 {
            0xFF
        } else if addr == 0xFF68 {
            self.bg_palette_index + (if self.bg_palette_inc { 0x80u8 } else { 0 })
        } else if addr == 0xFF69 {
            self.bg_palettes[self.bg_palette_index as usize]
        } else if addr == 0xFF6A {
            self.obj_palette_index + (if self.obj_palette_inc { 0x80u8 } else { 0 })
        } else if addr == 0xFF6B {
            self.obj_palettes[self.obj_palette_index as usize]
        } else {
            0xFF
        }
    }

    /// BCPS/BCPD/OCPS/OCPD writes: the index registers take 6 bits and an
    /// auto-increment flag; a data write stores at the index and steps it when
    /// auto-increment is on. Ignored on DMG and during mode 3.
    #[verifier::rlimit(40)]
    pub fn write_cgb_palettes(&mut self, addr: u16, value: u8)
        requires
            old(self).wf(),
        ensures
            final(self).wf(),
            final(self).cgb == old(self).cgb,
            final(self).vram@ == old(self).vram@,
            !old(self).cgb || old(self).mode == 3 || !(0xFF68 <= addr <= 0xFF6B) ==> *final(self) == *old(self),
            *final(self) == (PPU {
                bg_palette_index: final(self).bg_palette_index,
                bg_palette_inc: final(self).bg_palette_inc,
                bg_palettes: final(self).bg_palettes,
                obj_palette_index: final(self).obj_palette_index,
                obj_palette_inc: final(self).obj_palette_inc,
                obj_palettes: final(self).obj_palettes,
                ..*old(self)
            }),
            old(self).cgb && old(self).mode != 3 && addr == 0xFF68 ==> final(self).bg_palette_index == value % 64
                && final(self).bg_palette_inc == (value >= 0x80),
            old(self).cgb && old(self).mode != 3 && addr == 0xFF69 ==> final(self).bg_palettes@ == old(
                self,
            ).bg_palettes@.update(old(self).bg_palette_index as int, value) && final(self).bg_palette_index == (
            if old(self).bg_palette_inc {
                (old(self).bg_palette_index + 1) % 64
            } else {
                old(self).bg_palette_index as int
            }),
            old(self).cgb && old(self).mode != 3 && addr == 0xFF6A ==> final(self).obj_palette_index == value
                % 64 && final(self).obj_palette_inc == (value >= 0x80),
            old(self).cgb && old(self).mode != 3 && addr == 0xFF6B ==> final(self).obj_palettes@ == old(
                self,
            ).obj_palettes@.update(old(self).obj_palette_index as int, value) && final(self).obj_palette_index
                == (if old(self).obj_palette_inc {
                (old(self).obj_palette_index + 1) % 64
            } else {
                old(self).obj_palette_index as int
            }),
    {
        if !self.cgb || self.mode == 3 {
            return;
        }
        if addr == 0xFF68 {
            self.bg_palette_index = value % 64;
            self.bg_palette_inc = value >= 0x80;
        } else if addr == 0xFF69 {
            let i = self.bg_palette_index as usize;
            self.bg_palettes[i] = value;
            if self.bg_palette_inc {
                self.bg_palette_index = (self.bg_palette_index + 1) % 64;
            }
        } else if addr == 0xFF6A {
            self.obj_palette_index = value % 64;
            self.obj_palette_inc = value >= 0x80;
        } else if addr == 0xFF6B {
            let i = self.obj_palette_index as usize;
            self.obj_palettes[i] = value;
            if self.obj_palette_inc {
                self.obj_palette_index = (self.obj_palette_index + 1) % 64;
            }
        }
    }

    /// HDMA1..HDMA5 writes (CGB). A write to HDMA5 with bit 7 clear starts a general
    /// DMA of `((value & 0x7F) + 1) * 16` bytes; with bit 7 set it arms HBlank DMA of
    /// that many 16-byte blocks; with bit 7 clear while HBlank DMA runs, it stops it.
    pub fn write_hdma(&mut self, addr: u16, value: u8)
        requires
            old(self).wf(),
        ensures
            final(self).wf(),
            final(self).cgb == old(self).cgb,
            final(self).vram@ == old(self).vram@,
            old(self).cgb && addr == 0xFF55 && value < 0x80 && !old(self).hdma_active ==> final(self).gdma_remaining
                == (value % 128 + 1) * 16,
            old(self).cgb && addr == 0xFF55 && value < 0x80 && old(self).hdma_active ==> !final(self).hdma_active,
            old(self).cgb && addr == 0xFF55 && value >= 0x80 ==> final(self).hdma_active && final(self).hdma_blocks
                == value % 128 + 1,
    {
        if !self.cgb {
            return;
        }
        if addr == 0xFF51 {
            self.hdma_src = (value as u16) * 256 + self.hdma_src % 256;
        } else if addr == 0xFF52 {
            self.hdma_src = (self.hdma_src / 256) * 256 + (value - value % 16) as u16;
        } else if addr == 0xFF53 {
            self.hdma_dest = ((value % 32) as u16) * 256 + self.hdma_dest % 256;
        } else if addr == 0xFF54 {
            self.hdma_dest = (self.hdma_dest / 256) * 256 + (value - value % 16) as u16;
        } else if addr == 0xFF55 {
            if value >= 0x80 {
                self.hdma_active = true;
                self.hdma_blocks = value % 128 + 1;
            } else if self.hdma_active {
                self.hdma_active = false;
                self.hdma_pending = false;
            } else {
                self.gdma_remaining = (value % 128 + 1) as u16 * 16;
            }
        }
    }

    pub fn in_oam_dma(&self) -> (r: bool)
        ensures
            r == self.in_oam_dma,
    {
        self.in_oam_dma
    }

    /// One machine cycle of OAM-DMA: for the first 160 cycles, returns the OAM index
    /// and source address of the byte to copy; the transfer ends two cycles later.
    #[verifier::rlimit(60)]
    pub fn oam_dma(&mut self) -> (r: (bool, u16, u16))
        requires
            old(self).wf(),
        ensures
            final(self).wf(),
            *final(self) == (PPU {
                oam_dma_clock: final(self).oam_dma_clock,
                in_oam_dma: final(self).in_oam_dma,
                disable_oam: final(self).disable_oam,
                ..*old(self)
            }),
            old(self).in_oam_dma && old(self).oam_dma_clock < 160 ==> r == (true, old(self).oam_dma_clock,
                (old(self).oam_dma_page * 256 + old(self).oam_dma_clock) as u16),
            !(old(self).in_oam_dma && old(self).oam_dma_clock < 160) ==> !r.0,
            r.0 ==> r.1 < 0xA0,
    {
        if !self.in_oam_dma {
            return (false, 0, 0);
        }
        let should_write = self.oam_dma_clock < 160;
        let (oam_addr, cpu_addr) = if should_write {
            self.disable_oam = true;
            (self.oam_dma_clock, self.oam_dma_page as u16 * 256 + self.oam_dma_clock)
        } else {
            (0, 0)
        };
        self.oam_dma_clock = self.oam_dma_clock + 1;
        if self.oam_dma_clock >= 160 + 2 {
            self.in_oam_dma = false;
            self.disable_oam = false;
            self.oam_dma_clock = 0;
        }
        (should_write, oam_addr, cpu_addr)
    }

    pub fn oam_write(&mut self, addr: u16, value: u8)
        requires
            old(self).wf(),
            addr < 0xA0,
        ensures
            final(self).wf(),
            final(self).oam@ == old(self).oam@.update(addr as int, value),
            *final(self) == (PPU { oam: final(self).oam, ..*old(self) }),
    {
        self.oam[addr as usize] = value;
    }

    pub fn in_gdma(&self) -> (r: bool)
        ensures
            r == (self.gdma_remaining != 0),
    {
        self.gdma_remaining != 0
    }

    /// Takes the next byte of a general DMA: its source address and its VRAM address.
    pub fn gdma(&mut self) -> (r: Option<(u16, u16)>)
        requires
            old(self).wf(),
        ensures
            final(self).wf(),
            final(self).cgb == old(self).cgb,
            final(self).vram@ == old(self).vram@,
            *final(self) == (PPU {
                gdma_remaining: final(self).gdma_remaining,
                hdma_src: final(self).hdma_src,
                hdma_dest: final(self).hdma_dest,
                ..*old(self)
            }),
            old(self).gdma_remaining == 0 ==> r is None && *final(self) == *old(self),
            old(self).gdma_remaining != 0 ==> r == Some((old(self).hdma_src, (0x8000 + old(self).hdma_dest) as u16))
                && final(self).gdma_remaining == old(self).gdma_remaining - 1,
            r matches Some(p) ==> 0x8000 <= p.1 <= 0x9FFF,
    {
        if self.gdma_remaining == 0 {
            return None;
        }
        let src = self.hdma_src;
        let dst = 0x8000 + self.hdma_dest;
        self.gdma_remaining = self.gdma_remaining - 1;
        self.hdma_src = self.hdma_src.wrapping_add(1);
        self.hdma_dest = (self.hdma_dest + 1) % 0x2000;
        Some((src, dst))
    }

    /// At the start of an HBlank with HBlank DMA armed: takes the next 16-byte block,
    /// returning its source and VRAM addresses.
    pub fn hdma_block(&mut self) -> (r: Option<(u16, u16)>)
        requires
            old(self).wf(),
        ensures
            final(self).wf(),
            final(self).cgb == old(self).cgb,
            final(self).vram@ == old(self).vram@,
            !final(self).hdma_pending,
            *final(self) == (PPU {
                hdma_pending: final(self).hdma_pending,
                hdma_src: final(self).hdma_src,
                hdma_dest: final(self).hdma_dest,
                hdma_blocks: final(self).hdma_blocks,
                hdma_active: final(self).hdma_active,
                ..*old(self)
            }),
            !(old(self).hdma_pending && old(self).hdma_active) ==> r is None,
            old(self).hdma_pending && old(self).hdma_active ==> r == Some(
                (old(self).hdma_src, (0x8000 + old(self).hdma_dest - old(self).hdma_dest % 16) as u16),
            ),
            r matches Some(p) ==> 0x8000 <= p.1 && p.1 + 16 <= 0xA000,
    {
        if !(self.hdma_pending && self.hdma_active) {
            self.hdma_pending = false;
            return None;
        }
        self.hdma_pending = false;
        let src = self.hdma_src;
        let dest = self.hdma_dest - self.hdma_dest % 16;
        let dst = 0x8000 + dest;
        self.hdma_src = self.hdma_src.wrapping_add(16);
        self.hdma_dest = (dest + 16) % 0x2000;
        if self.hdma_blocks <= 1 {
            self.hdma_blocks = 0;
            self.hdma_active = false;
        } else {
            self.hdma_blocks = self.hdma_blocks - 1;
        }
        Some((src, dst))
    }

    /// Whether column `x` of the current line shows the window.
    pub open spec fn in_window(&self, x: u8) -> bool {
        self.lcdc & 0x20 != 0 && self.ly >= self.wy && x + 7 >= self.wx
    }

    /// The background or window colour index at column `x` of the current line and
    /// its CGB map attributes (0 on DMG): the 32×32 tile map at 0x9800 or 0x9C00
    /// gives the tile, LCDC bit 4 picks the tile data addressing, and on CGB the
    /// attribute byte in bank 1 picks the tile's bank and flips.
    #[verifier::opaque]
    pub open spec fn bg_index_at(&self, x: u8) -> (u8, u8) {
        let win = self.in_window(x);
        let px: int = if win { x + 7 - self.wx } else { (x + self.scx) % 256 };
        let py: int = if win { self.ly - self.wy } else { (self.ly + self.scy) % 256 };
        let map_base: int = if win {
            if self.lcdc & 0x40 != 0 { 0x1C00 } else { 0x1800 }
        } else {
            if self.lcdc & 0x08 != 0 { 0x1C00 } else { 0x1800 }
        };
        let map_off = map_base + (py / 8) * 32 + px / 8;
        let tile = self.vram@[map_off];
        let attrs: u8 = if self.cgb { self.vram@[0x2000 + map_off] } else { 0 };
        let bank: int = if attrs & 0x08 != 0 { 0x2000 } else { 0 };
        let row: u8 = (if attrs & 0x40 != 0 { 7 - py % 8 } else { py % 8 }) as u8;
        let addr = bank + bg_tile_row_offset(self.lcdc & 0x10 != 0, tile, row);
        let col: u8 = (px % 8) as u8;
        let bit: u8 = if attrs & 0x20 != 0 { col } else { (7 - col) as u8 };
        (tile_pixel(self.vram@[addr], self.vram@[addr + 1], bit), attrs)
    }

    /// The RGB colour of the background or window at column `x`: a DMG shade through
    /// BGP, or the CGB palette-memory colour that the tile's attributes select.
    #[verifier::opaque]
    pub open spec fn bg_rgb_at(&self, x: u8) -> (u8, u8, u8) {
        let (c, attrs) = self.bg_index_at(x);
        if self.cgb {
            let i = (attrs & 0x07) * 8 + c * 2;
            rgb555(self.bg_palettes@[i], self.bg_palettes@[i + 1])
        } else {
            let l = shade_level(palette_shade(self.bgp, c) as int);
            (l, l, l)
        }
    }

    /// Whether OAM sprite `idx` lies on the current line and spans column `x`.
    pub open spec fn sprite_covers(&self, idx: u8, x: u8) -> bool {
        let sy = self.oam@[idx * 4];
        let sx = self.oam@[idx * 4 + 1];
        &&& x + 8 >= sx
        &&& x < sx
        &&& sprite_on_line(self.ly, sy, self.sprite_height())
    }

    /// The colour index of OAM sprite `idx` at column `x` of the current line (for a
    /// sprite that covers it): the row and column within its tile after Y and X
    /// flips, 8×16 sprites using an even tile pair, CGB sprites their own VRAM bank.
    pub open spec fn sprite_color(&self, idx: u8, x: u8) -> u8 {
        let sy = self.oam@[idx * 4];
        let sx = self.oam@[idx * 4 + 1];
        let tile = self.oam@[idx * 4 + 2];
        let attrs = self.oam@[idx * 4 + 3];
        let h = self.sprite_height() as int;
        let line0: int = self.ly + 16 - sy;
        let line: int = if attrs & 0x40 != 0 { h - 1 - line0 } else { line0 };
        let t: int = if h == 16 { (tile / 2) * 2 } else { tile as int };
        let bank: int = if self.cgb && attrs & 0x08 != 0 { 0x2000 } else { 0 };
        let addr = bank + t * 16 + line * 2;
        let col: int = x + 8 - sx;
        let bit: u8 = (if attrs & 0x20 != 0 { col } else { 7 - col }) as u8;
        tile_pixel(self.vram@[addr], self.vram@[addr + 1], bit)
    }

    /// Whether the `k`-th sprite of the line shows a non-transparent pixel at `x`.
    pub open spec fn candidate(&self, k: int, x: u8) -> bool {
        self.sprite_covers(self.visible_sprites@[k], x) && self.sprite_color(self.visible_sprites@[k], x) != 0
    }

    /// Which of the first `n` sprites of the line wins column `x`: the first
    /// candidate in OAM order, which on DMG a later candidate with a strictly smaller
    /// X replaces.
    pub open spec fn winner(&self, x: u8, n: int) -> Option<int>
        decreases n,
    {
        if n <= 0 {
            None
        } else {
            let w = self.winner(x, n - 1);
            if self.candidate(n - 1, x) && (w is None || (!self.cgb && self.oam@[self.visible_sprites@[n - 1] * 4
                + 1] < self.oam@[self.visible_sprites@[w.unwrap()] * 4 + 1])) {
                Some(n - 1)
            } else {
                w
            }
        }
    }

    /// The RGB colour of column `x` of the current line: the winning sprite's colour
    /// where it beats the background, else the background's.
    #[verifier::opaque]
    pub open spec fn pixel_rgb(&self, x: u8) -> (u8, u8, u8) {
        let (bgc, bga) = self.bg_index_at(x);
        let w = self.winner(x, self.visible_sprites@.len() as int);
        if w is Some {
            let idx = self.visible_sprites@[w.unwrap()];
            let attrs = self.oam@[idx * 4 + 3];
            let c = self.sprite_color(idx, x);
            if sprite_wins(self.cgb, self.lcdc & 0x01 != 0, attrs & 0x80 != 0, bga & 0x80 != 0, bgc) {
                if self.cgb {
                    let i = (attrs & 0x07) * 8 + c * 2;
                    rgb555(self.obj_palettes@[i], self.obj_palettes@[i + 1])
                } else {
                    let l = shade_level(palette_shade(if attrs & 0x10 != 0 { self.obp1 } else { self.obp0 }, c) as int);
                    (l, l, l)
                }
            } else {
                self.bg_rgb_at(x)
            }
        } else {
            self.bg_rgb_at(x)
        }
    }

    pub open spec fn sprite_height(&self) -> u8 {
        if self.lcdc & 0x04 != 0 { 16 } else { 8 }
    }

    /// OAM scan: records the first ten sprites on the current line, in OAM order
    /// (none when sprites are disabled).
    fn oam_scan(&mut self)
        requires
            old(self).wf(),
        ensures
            final(self).wf(),
            *final(self) == (PPU { visible_sprites: final(self).visible_sprites, ..*old(self) }),
            final(self).visible_sprites@ == (if old(self).lcdc & 0x02 != 0 {
                scan_oam(old(self).oam@, old(self).ly, old(self).sprite_height(), 40)
            } else {
                seq![]
            }),
    {
        let height: u8 = if self.lcdc & 0x04 != 0 { 16 } else { 8 };
        let mut v: Vec<u8> = Vec::new();
        if self.lcdc & 0x02 != 0 {
            let mut i: usize = 0;
            while i < 40
                invariant
                    0 <= i <= 40,
                    self.wf(),
                    height == self.sprite_height(),
                    v@ == scan_oam(self.oam@, self.ly, height, i as int),
                decreases 40 - i,
            {
                proof {
                    lemma_scan_oam_bounds(self.oam@, self.ly, height, i as int);
                }
                let y = self.oam[i * 4];
                if v.len() < 10 && self.ly as u16 + 16 >= y as u16 && (self.ly as u16 + 16) < y as u16
                    + height as u16 {
                    v.push(i as u8);
                }
                i = i + 1;
            }
            proof {
                lemma_scan_oam_bounds(self.oam@, self.ly, height, 40);
            }
        }
        self.visible_sprites = v;
    }

    /// Mode-3 sprite fetch penalty: per sprite on the line, 11 dots less up to 5 for
    /// its alignment against the scroll.
    fn sprite_penalty(&self) -> (r: u16)
        requires
            self.wf(),
        ensures
            r <= 110,
    {
        let mut total: u16 = 0;
        let mut i: usize = 0;
        while i < self.visible_sprites.len()
            invariant
                0 <= i <= self.visible_sprites@.len() <= 10,
                self.wf(),
                total <= 11 * i,
            decreases self.visible_sprites@.len() - i,
        {
            let idx = self.visible_sprites[i] as usize;
            let sx = self.oam[idx * 4 + 1];
            let align = ((sx as u16 + self.scx as u16) % 8) as u16;
            total = total + 11 - (if align < 5 { align } else { 5 });
            i = i + 1;
        }
        total
    }

    /// The background or window colour index (0..=3) at column `x` of the current
    /// line, with its CGB map attributes (0 on DMG).
    #[verifier::rlimit(40)]
    fn bg_pixel(&self, x: u8) -> (r: (u8, u8))
        requires
            self.wf(),
            self.ly < 144,
            x < 160,
        ensures
            r.0 < 4,
            !self.cgb ==> r.1 == 0,
            r == self.bg_index_at(x),
    {
        reveal(PPU::bg_index_at);
        let lcdc = self.lcdc;
        let in_window = lcdc & 0x20 != 0 && self.ly >= self.wy && x as u16 + 7 >= self.wx as u16;
        let (px, py, map_base): (u8, u8, usize) = if in_window {
            (
                (x as u16 + 7 - self.wx as u16) as u8,
                self.ly - self.wy,
                if lcdc & 0x40 != 0 { 0x1C00 } else { 0x1800 },
            )
        } else {
            (
                ((x as u16 + self.scx as u16) % 256) as u8,
                ((self.ly as u16 + self.scy as u16) % 256) as u8,
                if lcdc & 0x08 != 0 { 0x1C00 } else { 0x1800 },
            )
        };
        let map_off: usize = map_base + (py / 8) as usize * 32 + (px / 8) as usize;
        let tile = self.vram[map_off];
        let attrs: u8 = if self.cgb { self.vram[0x2000 + map_off] } else { 0 };
        let bank: usize = if attrs & 0x08 != 0 { 0x2000 } else { 0 };
        let row = if attrs & 0x40 != 0 { 7 - py % 8 } else { py % 8 };
        let addr = bank + bg_tile_row(lcdc & 0x10 != 0, tile, row);
        let col = px % 8;
        let bit = if attrs & 0x20 != 0 { col } else { 7 - col };
        (decode_pixel(self.vram[addr], self.vram[addr + 1], bit), attrs)
    }

    /// The winning non-transparent sprite pixel at column `x`, if any: its colour
    /// index (1..=3) and attribute byte. On DMG the sprite with the smallest X wins
    /// (ties to the earlier OAM entry); on CGB the earliest OAM entry wins.
    #[verifier::rlimit(40)]
    fn sprite_pixel(&self, x: u8) -> (r: Option<(u8, u8)>)
        requires
            self.wf(),
            self.ly < 144,
            x < 160,
        ensures
            r matches Some(p) ==> 1 <= p.0 < 4,
            self.visible_sprites@.len() == 0 ==> r is None,
            r is None <==> self.winner(x, self.visible_sprites@.len() as int) is None,
            r matches Some(p) ==> ({
                let idx = self.visible_sprites@[self.winner(x, self.visible_sprites@.len() as int).unwrap()];
                p.0 == self.sprite_color(idx, x) && p.1 == self.oam@[idx * 4 + 3]
            }),
    {
        let height: u16 = if self.lcdc & 0x04 != 0 { 16 } else { 8 };
        let mut best: Option<(u8, u8)> = None;
        let mut best_x: u8 = 0;
        let mut best_k: Ghost<int> = Ghost(0);
        let mut i: usize = 0;
        while i < self.visible_sprites.len()
            invariant
                0 <= i <= self.visible_sprites@.len() <= 10,
                self.wf(),
                self.ly < 144,
                x < 160,
                height == 8 || height == 16,
                height == self.sprite_height(),
                best matches Some(p) ==> 1 <= p.0 < 4,
                best is None <==> self.winner(x, i as int) is None,
                best is Some ==> self.winner(x, i as int) == Some(best_k@) && 0 <= best_k@ < i,
                best matches Some(p) ==> ({
                    let idx = self.visible_sprites@[best_k@];
                    p.0 == self.sprite_color(idx, x) && p.1 == self.oam@[idx * 4 + 3] && best_x == self.oam@[idx * 4
                        + 1]
                }),
            decreases self.visible_sprites@.len() - i,
        {
            let idx = self.visible_sprites[i] as usize;
            let sy = self.oam[idx * 4];
            let sx = self.oam[idx * 4 + 1];
            let tile = self.oam[idx * 4 + 2];
            let attrs = self.oam[idx * 4 + 3];
            let better = match best {
                None => true,
                Some(_) => !self.cgb && sx < best_x,
            };
            let line16 = self.ly as u16 + 16;
            let covers = x as u16 + 8 >= sx as u16 && (x as u16) < sx as u16 && line16 >= sy as u16 && line16
                < sy as u16 + height;
            assert(covers == self.sprite_covers(self.visible_sprites@[i as int], x));
            if better && covers {
                let line = line16 - sy as u16;
                let line = if attrs & 0x40 != 0 { height - 1 - line } else { line };
                let t: u16 = if height == 16 { (tile as u16 / 2) * 2 } else { tile as u16 };
                let bank: usize = if self.cgb && attrs & 0x08 != 0 { 0x2000 } else { 0 };
                let addr: usize = bank + t as usize * 16 + line as usize * 2;
                let col = (x as u16 + 8 - sx as u16) as u8;
                let bit = if attrs & 0x20 != 0 { col } else { 7 - col };
                let c = decode_pixel(self.vram[addr], self.vram[addr + 1], bit);
                assert(c == self.sprite_color(self.visible_sprites@[i as int], x));
                if c != 0 {
                    best = Some((c, attrs));
                    best_x = sx;
                    best_k = Ghost(i as int);
                }
            }
            i = i + 1;
        }
        best
    }

    /// The RGB colour of column `x` of the current line.
    #[verifier::rlimit(40)]
    fn pixel(&self, x: u8) -> (r: (u8, u8, u8))
        requires
            self.wf(),
            self.ly < 144,
            x < 160,
        ensures
            r == self.pixel_rgb(x),
    {
        reveal(PPU::pixel_rgb);
        reveal(PPU::bg_rgb_at);
        let (bg_color, bg_attrs) = self.bg_pixel(x);
        let sprite = self.sprite_pixel(x);
        let use_sprite = match sprite {
            Some((_, attrs)) => {
                if self.cgb && self.lcdc & 0x01 == 0 {
                    true
                } else {
                    bg_color == 0 || (attrs & 0x80 == 0 && !(self.cgb && bg_attrs & 0x80 != 0))
                }
            },
            None => false,
        };
        if self.cgb {
            match sprite {
                Some((c, attrs)) if use_sprite => {
                    assert(attrs & 0x07 < 8) by (bit_vector);
                    cgb_color(&self.obj_palettes, attrs & 0x07, c)
                },
                _ => {
                    assert(bg_attrs & 0x07 < 8) by (bit_vector);
                    cgb_color(&self.bg_palettes, bg_attrs & 0x07, bg_color)
                },
            }
        } else {
            let level = match sprite {
                Some((c, attrs)) if use_sprite => dmg_level(
                    if attrs & 0x10 != 0 { self.obp1 } else { self.obp0 },
                    c,
                ),
                _ => dmg_level(self.bgp, bg_color),
            };
            (level, level, level)
        }
    }

    /// Draws the current line into the framebuffer; other lines are left as they are.
    #[verifier::rlimit(40)]
    fn render_line(&mut self)
        requires
            old(self).wf(),
            old(self).ly < 144,
        ensures
            final(self).wf(),
            *final(self) == (PPU { pixels: final(self).pixels, ..*old(self) }),
            forall|i: int|
                0 <= i < final(self).pixels@.len() && !(old(self).ly * 480 <= i < old(self).ly * 480 + 480)
                    ==> #[trigger] final(self).pixels@[i] == old(self).pixels@[i],
            forall|x: u8|
                x < 160 ==> {
                    let c = #[trigger] old(self).pixel_rgb(x);
                    let i = old(self).ly * 480 + x * 3;
                    final(self).pixels@[i] == c.0 && final(self).pixels@[i + 1] == c.1 && final(self).pixels@[i + 2] == c.2
                },
    {
        let base: usize = self.ly as usize * 480;
        let mut x: u8 = 0;
        while x < 160
            invariant
                0 <= x <= 160,
                self.wf(),
                self.ly < 144,
                base == self.ly * 480,
                *self == (PPU { pixels: self.pixels, ..*old(self) }),
                forall|i: int|
                    0 <= i < self.pixels@.len() && !(base <= i < base + 480) ==> #[trigger] self.pixels@[i]
                        == old(self).pixels@[i],
                forall|k: u8|
                    k < x ==> {
                        let c = #[trigger] old(self).pixel_rgb(k);
                        let i = base + k * 3;
                        self.pixels@[i] == c.0 && self.pixels@[i + 1] == c.1 && self.pixels@[i + 2] == c.2
                    },
            decreases 160 - x,
        {
            let ghost at_call = *self;
            let (r, g, b) = self.pixel(x);
            let p = base + x as usize * 3;
            let ghost before = self.pixels@;
            self.pixels[p] = r;
            self.pixels[p + 1] = g;
            self.pixels[p + 2] = b;
            proof {
                {
                    assert forall|k: u8| k < x + 1 implies {
                        let c = #[trigger] old(self).pixel_rgb(k);
                        let i = base + k * 3;
                        self.pixels@[i] == c.0 && self.pixels@[i + 1] == c.1 && self.pixels@[i + 2] == c.2
                    } by {
                        if k < x {
                            let c = old(self).pixel_rgb(k);
                        } else {
                            lemma_pixel_rgb_ignores_pixels(at_call, *old(self), k);
                            assert(k == x);
                            assert((r, g, b) == at_call.pixel_rgb(x));
                            assert(self.pixels@[p as int] == r);
                            assert(self.pixels@[p + 1] == g);
                            assert(self.pixels@[p + 2] == b);
                        }
                    }
                }
            }
            x = x + 1;
        }
    }

    /// One dot of the mode machine while the LCD is on. Returns the VBlank
    /// interrupt bit at the first dot of line 144.
    #[verifier::rlimit(40)]
    pub fn render_clock(&mut self) -> (r: u8)
        requires
            old(self).wf(),
        ensures
            final(self).wf(),
            final(self).cgb == old(self).cgb,
            final(self).dot == (old(self).dot + 1) % 456,
            final(self).prev_stat_line == old(self).prev_stat_line,
            final(self).stat_select == old(self).stat_select,
            final(self).lcdc == old(self).lcdc,
            final(self).coincidence_flag == (final(self).ly == final(self).lyc),
            r == (if old(self).ly == 144 && old(self).dot == 0 { VBLANK_INT } else { 0 }),
            old(self).ly < 144 && !old(self).ly_wrapped && old(self).dot == 0 ==> final(self).mode == 2,
            old(self).ly < 144 && !old(self).ly_wrapped && old(self).dot == 80 ==> final(self).mode == 3
                && 80 + 172 + old(self).scx % 8 <= final(self).mode3_end <= 80 + 289,
            old(self).ly == 144 && old(self).dot == 0 ==> final(self).mode == 1 && final(self).frame_ready,
            old(self).line_effects(*final(self)),
    {
        let mut interrupt: u8 = 0;
        let ghost start = *self;
        if self.ly < 144 && !self.ly_wrapped {
            if self.dot == 0 {
                self.mode = 2;
                self.oam_scan();
            } else if self.dot == 80 {
                self.mode = 3;
                let window = self.lcdc & 0x20 != 0 && self.ly >= self.wy && self.wx <= 166;
                let penalty = self.sprite_penalty();
                let len = mode3_len(self.scx, window, penalty);
                self.mode3_end = 80 + len;
                let ghost before = *self;
                self.render_line();
                proof {
                    assert forall|x: u8| x < 160 implies {
                        let c = #[trigger] start.pixel_rgb(x);
                        let i = start.ly * 480 + x * 3;
                        self.pixels@[i] == c.0 && self.pixels@[i + 1] == c.1 && self.pixels@[i + 2] == c.2
                    } by {
                        lemma_pixel_rgb_frame(before, start, x);
                        let c = before.pixel_rgb(x);
                    }
                }
            } else if self.dot == self.mode3_end {
                self.mode = 0;
                if self.hdma_active {
                    self.hdma_pending = true;
                }
            }
        } else {
            if self.ly == 144 && self.dot == 0 {
                self.mode = 1;
                self.frame_ready = true;
                interrupt = VBLANK_INT;
            }
            if self.ly == 153 && self.dot == 4 {
                self.ly = 0;
                self.ly_wrapped = true;
            }
        }
        self.dot = self.dot + 1;
        if self.dot == 456 {
            self.dot = 0;
            if self.ly_wrapped {
                self.ly_wrapped = false;
            } else if self.ly < 153 {
                self.ly = self.ly + 1;
            } else {
                self.ly = 0;
            }
        }
        self.coincidence_flag = self.ly == self.lyc;
        interrupt
    }

    /// One dot. While the LCD is off, LY, the dot counter and the mode stay at 0.
    /// Returns the interrupt bits raised: VBlank, and STAT on a rising edge of the
    /// STAT line.
    #[verifier::rlimit(40)]
    pub fn emulate_clock(&mut self) -> (r: u8)
        requires
            old(self).wf(),
        ensures
            final(self).wf(),
            final(self).cgb == old(self).cgb,
            old(self).dot_step(*final(self), r),
    {
        let mut interrupt: u8 = 0;
        if self.lcdc & 0x80 != 0 {
            interrupt = self.render_clock();
        } else {
            self.ly = 0;
            self.dot = 0;
            self.mode = 0;
            self.ly_wrapped = false;
        }
        let line = (self.mode == 0 && self.stat_select & 0x08 != 0) || (self.mode == 1 && self.stat_select
            & 0x10 != 0) || (self.mode == 2 && self.stat_select & 0x20 != 0) || (self.coincidence_flag
            && self.stat_select & 0x40 != 0);
        let stat: u8 = if line && !self.prev_stat_line { STAT_INT } else { 0 };
        self.prev_stat_line = line;
        assert((stat | interrupt) & STAT_INT != 0 <==> stat != 0) by (bit_vector)
            requires
                stat == 0 || stat == 2,
                interrupt == 0 || interrupt == 1,
        ;
        assert((stat | interrupt) & VBLANK_INT != 0 <==> interrupt != 0) by (bit_vector)
            requires
                stat == 0 || stat == 2,
                interrupt == 0 || interrupt == 1,
        ;
        assert((stat | interrupt) & !(STAT_INT | VBLANK_INT) == 0) by (bit_vector)
            requires
                stat == 0 || stat == 2,
                interrupt == 0 || interrupt == 1,
        ;
        stat | interrupt
    }

    /// Takes the completed frame flag.
    pub fn take_frame_ready(&mut self) -> (r: bool)
        ensures
            r == old(self).frame_ready,
            *final(self) == (PPU { frame_ready: false, ..*old(self) }),
    {
        let r = self.frame_ready;
        self.frame_ready = false;
        r
    }
}

} // verus!
