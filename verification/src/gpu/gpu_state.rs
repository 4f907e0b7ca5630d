//! GPU state registers set by GP0 environment commands and GP1 display commands.
use vstd::prelude::*;

verus! {

/// Draw mode set by GP0(E1h).
#[derive(Debug, Clone, Copy, PartialEq, Eq, Structural)]
pub struct DrawMode {
    pub texture_base_x: u8,
    pub texture_base_y: bool,
    pub semi_transparency: u8,
    pub texture_page_colours: u8,
    pub dither: bool,
    pub draw_to_display: bool,
    pub texture_disable: bool,
    pub textured_rectangle_flip_x: bool,
    pub textured_rectangle_flip_y: bool,
}

/// Bit `n` of `w`.
pub open spec fn bit(w: u32, n: u32) -> bool {
    (w >> n) & 1 != 0
}

impl DrawMode {
    pub open spec fn spec_from(command: u32) -> DrawMode {
        DrawMode {
            texture_base_x: (command & 0xF) as u8,
            texture_base_y: bit(command, 4),
            semi_transparency: ((command >> 5u32) & 3) as u8,
            texture_page_colours: ((command >> 7u32) & 3) as u8,
            dither: bit(command, 9),
            draw_to_display: bit(command, 10),
            texture_disable: bit(command, 11),
            textured_rectangle_flip_x: bit(command, 12),
            textured_rectangle_flip_y: bit(command, 13),
        }
    }

    pub open spec fn zero() -> DrawMode {
        DrawMode {
            texture_base_x: 0,
            texture_base_y: false,
            semi_transparency: 0,
            texture_page_colours: 0,
            dither: false,
            draw_to_display: false,
            texture_disable: false,
            textured_rectangle_flip_x: false,
            textured_rectangle_flip_y: false,
        }
    }

    /// Decode GP0(E1h): texture page base X (bits 0..3) and Y (4), semi-transparency (5..6),
    /// texture colours (7..8), dither (9), draw to display (10), texture disable (11), flips.
    pub fn from_gp0_command(command: u32) -> (r: Self)
        ensures r == Self::spec_from(command),
    {
        Self {
            texture_base_x: (command & 0xF) as u8,
            texture_base_y: (command >> 4u32) & 1 != 0,
            semi_transparency: ((command >> 5u32) & 3) as u8,
            texture_page_colours: ((command >> 7u32) & 3) as u8,
            dither: (command >> 9u32) & 1 != 0,
            draw_to_display: (command >> 10u32) & 1 != 0,
            texture_disable: (command >> 11u32) & 1 != 0,
            textured_rectangle_flip_x: (command >> 12u32) & 1 != 0,
            textured_rectangle_flip_y: (command >> 13u32) & 1 != 0,
        }
    }
}

/// Texture window set by GP0(E2h), in 8-pixel steps.
#[derive(Debug, Clone, Copy, PartialEq, Eq, Structural)]
pub struct TextureWindow {
    pub texture_window_mask_x: u8,
    pub texture_window_mask_y: u8,
    pub texture_window_offset_x: u8,
    pub texture_window_offset_y: u8,
}

impl TextureWindow {
    pub open spec fn spec_from(command: u32) -> TextureWindow {
        TextureWindow {
            texture_window_mask_x: (command & 0x1F) as u8,
            texture_window_mask_y: ((command >> 5u32) & 0x1F) as u8,
            texture_window_offset_x: ((command >> 10u32) & 0x1F) as u8,
            texture_window_offset_y: ((command >> 15u32) & 0x1F) as u8,
        }
    }

    /// Decode GP0(E2h): mask X/Y (bits 0..4, 5..9) and offset X/Y (10..14, 15..19).
    pub fn from_gp0_command(command: u32) -> (r: Self)
        ensures r == Self::spec_from(command),
    {
        Self {
            texture_window_mask_x: (command & 0x1F) as u8,
            texture_window_mask_y: ((command >> 5u32) & 0x1F) as u8,
            texture_window_offset_x: ((command >> 10u32) & 0x1F) as u8,
            texture_window_offset_y: ((command >> 15u32) & 0x1F) as u8,
        }
    }
}

/// Drawing area corners set by GP0(E3h) and GP0(E4h).
#[derive(Debug, Clone, Copy, PartialEq, Eq, Structural)]
pub struct DrawingArea {
    pub x1: u16,
    pub y1: u16,
    pub x2: u16,
    pub y2: u16,
}

impl DrawingArea {
    /// GP0(E3h): X in bits 0..9, Y in bits 10..18.
    pub fn set_top_left(&mut self, command: u32)
        ensures
            final(self).x1 == (command & 0x3FF) as u16,
            final(self).y1 == ((command >> 10u32) & 0x1FF) as u16,
            final(self).x2 == old(self).x2 && final(self).y2 == old(self).y2,
    {
        self.x1 = (command & 0x3FF) as u16;
        self.y1 = ((command >> 10u32) & 0x1FF) as u16;
    }

    /// GP0(E4h): X in bits 0..9, Y in bits 10..18.
    pub fn set_bottom_right(&mut self, command: u32)
        ensures
            final(self).x2 == (command & 0x3FF) as u16,
            final(self).y2 == ((command >> 10u32) & 0x1FF) as u16,
            final(self).x1 == old(self).x1 && final(self).y1 == old(self).y1,
    {
        self.x2 = (command & 0x3FF) as u16;
        self.y2 = ((command >> 10u32) & 0x1FF) as u16;
    }
}

/// The low `bits` bits of `value` as a signed number.
pub open spec fn sign_extend_spec(value: u32, bits: u32) -> i32 {
    let m = value & ((1u32 << bits) - 1) as u32;
    if m & (1u32 << (bits - 1) as u32) != 0 { (m as int - (1u32 << bits) as int) as i32 } else { m as i32 }
}

/// Sign-extend the low 11 bits of `value`.
fn sign_extend11(value: u32) -> (r: i32)
    ensures
        r == sign_extend_spec(value, 11),
        -0x400 <= r < 0x400,
{
    let m = value & 0x7FF;
    assert(value & 0x7FF < 0x800 && ((1u32 << 11u32) - 1) as u32 == 0x7FF && (1u32 << 10u32) == 0x400
        && (1u32 << 11u32) == 0x800 && (m & 0x400 != 0 ==> m >= 0x400) && (m & 0x400 == 0 && m < 0x800 ==> m < 0x400))
        by (bit_vector) requires m == value & 0x7FF;
    if m & 0x400 != 0 {
        m as i32 - 0x800
    } else {
        m as i32
    }
}

/// Drawing offset set by GP0(E5h), each coordinate a signed 11-bit value.
#[derive(Debug, Clone, Copy, PartialEq, Eq, Structural)]
pub struct DrawingOffset {
    pub x: i16,
    pub y: i16,
}

impl DrawingOffset {
    pub open spec fn spec_from(command: u32) -> DrawingOffset {
        DrawingOffset { x: sign_extend_spec(command, 11) as i16, y: sign_extend_spec(command >> 11u32, 11) as i16 }
    }

    /// Decode GP0(E5h): X offset in bits 0..10, Y offset in bits 11..21, both signed.
    pub fn from_gp0_command(command: u32) -> (r: Self)
        ensures
            r == Self::spec_from(command),
            -0x400 <= r.x < 0x400 && -0x400 <= r.y < 0x400,
    {
        Self { x: sign_extend11(command) as i16, y: sign_extend11(command >> 11u32) as i16 }
    }
}

/// Mask bit setting set by GP0(E6h).
#[derive(Debug, Clone, Copy, PartialEq, Eq, Structural)]
pub struct Mask {
    pub set_mask_while_drawing: bool,
    pub check_mask_before_draw: bool,
}

impl Mask {
    pub open spec fn spec_from(command: u32) -> Mask {
        Mask { set_mask_while_drawing: command & 1 != 0, check_mask_before_draw: (command >> 1u32) & 1 != 0 }
    }

    /// Decode GP0(E6h): bit 0 forces bit 15 when drawing, bit 1 checks it before drawing.
    pub fn from_gp0_command(command: u32) -> (r: Self)
        ensures r == Self::spec_from(command),
    {
        Self { set_mask_while_drawing: (command & 1) != 0, check_mask_before_draw: ((command >> 1u32) & 1) != 0 }
    }
}

/// Display settings set by GP1 commands.
#[derive(Debug, Clone, Copy, PartialEq, Eq, Structural)]
pub struct DisplayState {
    pub display_enable: bool,
    pub dma_direction: u8,
    pub display_start_x: u16,
    pub display_start_y: u16,
    pub horizontal_range_x1: u16,
    pub horizontal_range_x2: u16,
    pub vertical_range_y1: u16,
    pub vertical_range_y2: u16,
    pub horizontal_resolution_1: u8,
    pub vertical_resolution: bool,
    pub video_mode: bool,
    pub display_colour_depth: bool,
    pub vertical_interlace: bool,
    pub horizontal_resolution_2: bool,
    pub reverseflag: bool,
    /// Not reset by GP1(00h).
    pub texture_disable_allowed: bool,
}

/// How the display area should be presented; the aspect ratio is the exact fraction
/// `aspect_num / aspect_den` (width:height).
#[derive(Debug)]
pub struct DisplayOutput {
    pub enabled: bool,
    pub vram_x: u16,
    pub vram_y: u16,
    pub width_px: u16,
    pub height_px: u16,
    pub colour_depth: bool,
    pub aspect_num: u64,
    pub aspect_den: u64,
}

/// Dotclock divider for a horizontal resolution (320's divider for others).
pub open spec fn dotclock_divider(width_px: u16) -> u64 {
    if width_px == 256 { 10 } else if width_px == 320 { 8 } else if width_px == 368 { 7 } else if width_px == 512 { 5 } else if width_px == 640 { 4 } else { 8 }
}

/// Numerator constant of the pixel aspect ratio at 240p: the NTSC square-pixel rate
/// (135 MHz / 22) divided by the dotclock (44100 * 300h * 11 / 7 / divider).
pub const PAR_NUM: u64 = 945_000_000;
pub const PAR_DEN: u64 = 8_196_134_400;

impl DisplayState {
    /// The display settings after GP1 command `id` (03h..08h) with parameter `word`; other
    /// ids leave them unchanged.
    pub open spec fn after_gp1(self, id: u8, word: u32) -> DisplayState {
        if id == 0x03 {
            DisplayState { display_enable: word & 1 != 0, ..self }
        } else if id == 0x04 {
            DisplayState { dma_direction: (word & 3) as u8, ..self }
        } else if id == 0x05 {
            DisplayState { display_start_x: (word & 0x3FF) as u16, display_start_y: ((word >> 10u32) & 0x1FF) as u16, ..self }
        } else if id == 0x06 {
            DisplayState { horizontal_range_x1: (word & 0xFFF) as u16, horizontal_range_x2: ((word >> 12u32) & 0xFFF) as u16, ..self }
        } else if id == 0x07 {
            DisplayState { vertical_range_y1: (word & 0x3FF) as u16, vertical_range_y2: ((word >> 10u32) & 0x3FF) as u16, ..self }
        } else if id == 0x08 {
            DisplayState {
                horizontal_resolution_1: (word & 3) as u8,
                vertical_resolution: (word >> 2u32) & 1 != 0,
                video_mode: (word >> 3u32) & 1 != 0,
                display_colour_depth: (word >> 4u32) & 1 != 0,
                vertical_interlace: (word >> 5u32) & 1 != 0,
                horizontal_resolution_2: (word >> 6u32) & 1 != 0,
                reverseflag: (word >> 7u32) & 1 != 0,
                ..self
            }
        } else {
            self
        }
    }

    /// Apply a display GP1 command (03h..08h) to the display settings.
    pub fn apply_gp1(&mut self, id: u8, word: u32)
        ensures *final(self) == old(self).after_gp1(id, word),
    {
        if id == 0x03 {
            self.display_enable = (word & 1) != 0;
        } else if id == 0x04 {
            self.dma_direction = (word & 3) as u8;
        } else if id == 0x05 {
            self.display_start_x = (word & 0x3FF) as u16;
            self.display_start_y = ((word >> 10u32) & 0x1FF) as u16;
        } else if id == 0x06 {
            self.horizontal_range_x1 = (word & 0xFFF) as u16;
            self.horizontal_range_x2 = ((word >> 12u32) & 0xFFF) as u16;
        } else if id == 0x07 {
            self.vertical_range_y1 = (word & 0x3FF) as u16;
            self.vertical_range_y2 = ((word >> 10u32) & 0x3FF) as u16;
        } else if id == 0x08 {
            self.horizontal_resolution_1 = (word & 3) as u8;
            self.vertical_resolution = ((word >> 2u32) & 1) != 0;
            self.video_mode = ((word >> 3u32) & 1) != 0;
            self.display_colour_depth = ((word >> 4u32) & 1) != 0;
            self.vertical_interlace = ((word >> 5u32) & 1) != 0;
            self.horizontal_resolution_2 = ((word >> 6u32) & 1) != 0;
            self.reverseflag = ((word >> 7u32) & 1) != 0;
        }
    }

    pub open spec fn reset_value(texture_disable_allowed: bool) -> DisplayState {
        DisplayState {
            display_enable: false,
            dma_direction: 0,
            display_start_x: 0,
            display_start_y: 0,
            horizontal_range_x1: 0x200,
            horizontal_range_x2: 0xC00,
            vertical_range_y1: 0x010,
            vertical_range_y2: 0x100,
            horizontal_resolution_1: 0,
            vertical_resolution: false,
            video_mode: false,
            display_colour_depth: false,
            vertical_interlace: false,
            horizontal_resolution_2: false,
            reverseflag: false,
            texture_disable_allowed,
        }
    }

    /// GPU dotclock divider for the given width.
    pub fn gpu_dotclock_divider(width_px: u16) -> (r: u64)
        ensures r == dotclock_divider(width_px),
    {
        match width_px {
            256 => 10,
            320 => 8,
            368 => 7,
            512 => 5,
            640 => 4,
            _ => 8,
        }
    }

    pub open spec fn width_spec(&self) -> u16 {
        if self.horizontal_resolution_2 {
            368
        } else {
            let h = self.horizontal_resolution_1 & 3;
            if h == 0 { 256 } else if h == 1 { 320 } else if h == 2 { 512 } else { 640 }
        }
    }

    /// Output geometry: width from the resolution bits (368 when bit 6 of GP1(08h) is set),
    /// height 480 only for 480-line interlace, the display area start, the colour depth, and
    /// the display aspect ratio width*PAR/height (PAR doubled for 480 lines).
    pub fn derive_output(&self) -> (r: DisplayOutput)
        ensures
            r.enabled == !self.display_enable,
            r.vram_x == self.display_start_x,
            r.vram_y == self.display_start_y,
            r.width_px == self.width_spec(),
            r.height_px == (if self.vertical_resolution && self.vertical_interlace { 480u16 } else { 240u16 }),
            r.colour_depth == self.display_colour_depth,
            r.aspect_num == r.width_px as u64 * dotclock_divider(r.width_px) * PAR_NUM * (if r.height_px == 480 { 2u64 } else { 1u64 }),
            r.aspect_den == r.height_px as u64 * PAR_DEN,
    {
        let width_px: u16 = if self.horizontal_resolution_2 {
            368
        } else {
            let h = self.horizontal_resolution_1 & 3;
            if h == 0 { 256 } else if h == 1 { 320 } else if h == 2 { 512 } else { 640 }
        };
        let interlaced_480 = self.vertical_resolution && self.vertical_interlace;
        let height_px: u16 = if interlaced_480 { 480 } else { 240 };
        let div = Self::gpu_dotclock_divider(width_px);
        let factor: u64 = if interlaced_480 { 2 } else { 1 };
        assert(width_px as u64 * div <= 2576) by {
            assert(width_px == 256 || width_px == 320 || width_px == 368 || width_px == 512 || width_px == 640);
        }
        let num = width_px as u64 * div * PAR_NUM * factor;
        let den = height_px as u64 * PAR_DEN;
        DisplayOutput {
            enabled: !self.display_enable,
            vram_x: self.display_start_x,
            vram_y: self.display_start_y,
            width_px,
            height_px,
            colour_depth: self.display_colour_depth,
            aspect_num: num,
            aspect_den: den,
        }
    }
}

impl Default for DisplayState {
    fn default() -> (r: Self)
        ensures r == DisplayState::reset_value(false),
    {
        Self {
            display_enable: false,
            dma_direction: 0,
            display_start_x: 0,
            display_start_y: 0,
            horizontal_range_x1: 0x200,
            horizontal_range_x2: 0xC00,
            vertical_range_y1: 0x010,
            vertical_range_y2: 0x100,
            horizontal_resolution_1: 0,
            vertical_resolution: false,
            video_mode: false,
            display_colour_depth: false,
            vertical_interlace: false,
            horizontal_resolution_2: false,
            reverseflag: false,
            texture_disable_allowed: false,
        }
    }
}

/// All stateful GPU registers.
#[derive(Debug, Clone, Copy, PartialEq, Eq, Structural)]
pub struct GpuState {
    pub irq: bool,
    pub draw_mode: DrawMode,
    pub texture_window: TextureWindow,
    pub drawing_area: DrawingArea,
    pub drawing_offset: DrawingOffset,
    pub mask: Mask,
    pub display_state: DisplayState,
}

impl GpuState {
    /// The GP1(00h) reset state, keeping only `texture_disable_allowed`.
    pub open spec fn reset_value(texture_disable_allowed: bool) -> GpuState {
        GpuState {
            irq: false,
            draw_mode: DrawMode::zero(),
            texture_window: TextureWindow { texture_window_mask_x: 0, texture_window_mask_y: 0, texture_window_offset_x: 0, texture_window_offset_y: 0 },
            drawing_area: DrawingArea { x1: 0, y1: 0, x2: 0, y2: 0 },
            drawing_offset: DrawingOffset { x: 0, y: 0 },
            mask: Mask { set_mask_while_drawing: false, check_mask_before_draw: false },
            display_state: DisplayState::reset_value(texture_disable_allowed),
        }
    }

    pub fn initial() -> (r: Self)
        ensures r == GpuState::reset_value(false),
    {
        GpuState {
            irq: false,
            draw_mode: DrawMode {
                texture_base_x: 0,
                texture_base_y: false,
                semi_transparency: 0,
                texture_page_colours: 0,
                dither: false,
                draw_to_display: false,
                texture_disable: false,
                textured_rectangle_flip_x: false,
                textured_rectangle_flip_y: false,
            },
            texture_window: TextureWindow { texture_window_mask_x: 0, texture_window_mask_y: 0, texture_window_offset_x: 0, texture_window_offset_y: 0 },
            drawing_area: DrawingArea { x1: 0, y1: 0, x2: 0, y2: 0 },
            drawing_offset: DrawingOffset { x: 0, y: 0 },
            mask: Mask { set_mask_while_drawing: false, check_mask_before_draw: false },
            display_state: DisplayState::default(),
        }
    }

    /// GP1(00h): reset every register except `texture_disable_allowed`.
    pub fn reset(&mut self)
        ensures
            *final(self) == GpuState::reset_value(old(self).display_state.texture_disable_allowed),
    {
        let keep = self.display_state.texture_disable_allowed;
        *self = Self::initial();
        self.display_state.texture_disable_allowed = keep;
    }
}

impl Default for GpuState {
    fn default() -> (r: Self)
        ensures r == GpuState::reset_value(false),
    {
        Self::initial()
    }
}

} // verus!
