//! The GPU: GP0/GP1 command decoding, the GPU state registers and the VRAM transfer state. The
//! drawing itself is delegated to a `GpuBackend`.
use vstd::prelude::*;

pub mod backend;
pub mod gpu_commands;
pub mod gpu_state;
pub mod primitives;
pub mod rendering_parameters;
pub mod software_backend;

pub use backend::GpuBackend;
use gpu_commands::{Gp0Command, decode_gp0_command, gp0_command_parameter_count, gp0_command_spec, parameter_count_spec, VARIABLE_LENGTH};
use gpu_state::{DrawMode, DrawingArea, DrawingOffset, GpuState, Mask, TextureWindow};
use rendering_parameters::{
    Clut, ColouredLinePoint, Colour, DrawParams, Line, LinePoint, Rect, RectSize, TexPageAttr,
    Texcoord, Vertex,
};

verus! {

/// The GPU state after the rendering attribute command `w` (E1h draw mode, E2h texture
/// window, E3h/E4h drawing area corners, E5h drawing offset, E6h mask bits).
pub open spec fn attribute_set(s: GpuState, post: GpuState, w: u32) -> bool {
    let c = (w >> 24u32) as u8;
    &&& c == 0xE1 ==> post == (GpuState { draw_mode: DrawMode::spec_from(w), ..s })
    &&& c == 0xE2 ==> post == (GpuState { texture_window: TextureWindow::spec_from(w), ..s })
    &&& c == 0xE3 ==> post == (GpuState { drawing_area: DrawingArea { x1: (w & 0x3FF) as u16, y1: ((w >> 10u32) & 0x1FF) as u16, ..s.drawing_area }, ..s })
    &&& c == 0xE4 ==> post == (GpuState { drawing_area: DrawingArea { x2: (w & 0x3FF) as u16, y2: ((w >> 10u32) & 0x1FF) as u16, ..s.drawing_area }, ..s })
    &&& c == 0xE5 ==> post == (GpuState { drawing_offset: DrawingOffset::spec_from(w), ..s })
    &&& c == 0xE6 ==> post == (GpuState { mask: Mask::spec_from(w), ..s })
}

/// What GP0 words are currently feeding./// What GP0 words are currently feeding.
#[derive(Debug, Clone, Copy, PartialEq, Eq, Structural)]
pub enum Gp0Mode {
    Command,
    VramWrite,
    Polyline,
}

/// What GPUREAD returns.
#[derive(Debug, Clone, Copy, PartialEq, Eq, Structural)]
pub enum Gp0ReadMode {
    /// Reading VRAM back after GP0(C0h).
    Vram,
    /// The latched GP1(10h) info, with the requested index.
    GpuInfo(u32),
}

/// A CPU-to-VRAM transfer in progress.
#[derive(Debug, Clone, Copy, PartialEq, Eq, Structural)]
pub struct VramTransfer {
    pub x: u16,
    pub y: u16,
    pub w: u16,
    pub h: u16,
    pub current_x: u16,
    pub current_y: u16,
    pub words_remaining: u32,
}

/// The GPU: state registers, GP0 packet accumulation, and the backend that draws.
pub struct Gpu {
    pub state: GpuState,
    pub backend: Box<dyn GpuBackend>,
    pub gp0_buffer: Vec<u32>,
    pub gp0_words_remaining: u32,
    pub gpustat_bit31: bool,
    pub gp0_mode: Gp0Mode,
    pub gp0_read_mode: Option<Gp0ReadMode>,
    pub gpuread_last_value: u32,
    pub vram_transfer: Option<VramTransfer>,
}

/// Words a command's packet must hold before it can run (command word included); poly-lines
/// need at least the command word and a terminator.
pub open spec fn packet_words(c: Gp0Command) -> int {
    if c == Gp0Command::MonochromePolyline || c == Gp0Command::ShadedPolyline {
        2
    } else {
        1 + parameter_count_spec(c)
    }
}

/// GPUSTAT computed from the state registers and the toggling bit 31.
pub open spec fn status_spec(s: GpuState, bit31: bool) -> u32 {
    let dm = s.draw_mode;
    let ds = s.display_state;
    ((dm.texture_base_x as u32) & 0xF)
        | ((dm.texture_base_y as u32) << 4u32)
        | ((dm.semi_transparency as u32) << 5u32)
        | ((dm.texture_page_colours as u32) << 7u32)
        | ((dm.dither as u32) << 9u32)
        | ((dm.draw_to_display as u32) << 10u32)
        | ((s.mask.set_mask_while_drawing as u32) << 11u32)
        | ((s.mask.check_mask_before_draw as u32) << 12u32)
        | ((ds.vertical_interlace as u32) << 13u32)
        | ((ds.reverseflag as u32) << 14u32)
        | (((dm.texture_disable && ds.texture_disable_allowed) as u32) << 15u32)
        | ((ds.horizontal_resolution_2 as u32) << 16u32)
        | ((ds.horizontal_resolution_1 as u32) << 17u32)
        | ((ds.vertical_resolution as u32) << 19u32)
        | ((ds.video_mode as u32) << 20u32)
        | ((ds.display_colour_depth as u32) << 21u32)
        | ((ds.vertical_interlace as u32) << 22u32)
        | ((ds.display_enable as u32) << 23u32)
        | ((s.irq as u32) << 24u32)
        | (0xFu32 << 25u32)
        | ((ds.dma_direction as u32) << 29u32)
        | ((bit31 as u32) << 31u32)
}

/// The value GP1(10h) latches for sub-index `idx`: texture window (2), drawing area corners
/// (3, 4), drawing offset (5), GPU type 2 (7); 0 otherwise.
pub open spec fn gpu_info_spec(s: GpuState, idx: u32) -> u32 {
    let i = idx & 0xF;
    if i == 2 {
        (s.texture_window.texture_window_mask_x as u32) | ((s.texture_window.texture_window_mask_y as u32) << 5u32)
            | ((s.texture_window.texture_window_offset_x as u32) << 10u32) | ((s.texture_window.texture_window_offset_y as u32) << 15u32)
    } else if i == 3 {
        (s.drawing_area.x1 as u32) | ((s.drawing_area.y1 as u32) << 10u32)
    } else if i == 4 {
        (s.drawing_area.x2 as u32) | ((s.drawing_area.y2 as u32) << 10u32)
    } else if i == 5 {
        ((s.drawing_offset.x as u32) & 0x7FF) | (((s.drawing_offset.y as u32) & 0x7FF) << 11u32)
    } else if i == 7 {
        2
    } else {
        0
    }
}

impl Gpu {
    /// A CPU-to-VRAM transfer in progress always has words left.
    pub open spec fn wf(&self) -> bool {
        &&& (self.vram_transfer matches Some(t) ==> t.words_remaining > 0)
        &&& (self.gp0_mode == Gp0Mode::VramWrite ==> self.vram_transfer is Some)
    }

    pub fn new(backend: Box<dyn GpuBackend>) -> (r: Self)
        ensures
            r.wf(),
            r.state == GpuState::reset_value(false),
            r.gp0_buffer@.len() == 0,
            r.gp0_words_remaining == 0,
            r.gp0_mode == Gp0Mode::Command,
            r.gp0_read_mode is None,
            r.gpuread_last_value == 0,
            r.vram_transfer is None,
    {
        Self {
            state: GpuState::initial(),
            backend,
            gp0_buffer: Vec::new(),
            gp0_words_remaining: 0,
            gpustat_bit31: false,
            gp0_mode: Gp0Mode::Command,
            gp0_read_mode: None,
            gpuread_last_value: 0,
            vram_transfer: None,
        }
    }

    /// What a GPUREAD or GPUSTAT read returns and keeps.
    pub open spec fn register_read(self, post: Gpu, offset: u32, r: u32) -> bool {
        &&& post.state == self.state
        &&& post.gpuread_last_value == self.gpuread_last_value
        &&& post.gp0_read_mode == self.gp0_read_mode
        &&& offset == 4 ==> r == status_spec(self.state, !self.gpustat_bit31) && post.gpustat_bit31 == !self.gpustat_bit31
        &&& offset == 0 ==> post.gpustat_bit31 == self.gpustat_bit31
        &&& offset == 0 && !(self.gp0_read_mode == Some(Gp0ReadMode::Vram)) ==> r == self.gpuread_last_value
    }

    /// Read GPUREAD (offset 0) or GPUSTAT (offset 4).
    pub fn read_register(&mut self, offset: u32) -> (r: u32)
        requires
            old(self).wf(),
            offset == 0 || offset == 4,
        ensures
            final(self).wf(),
            old(self).register_read(*final(self), offset, r),
    {
        if offset == 0 {
            self.read_gpuread()
        } else {
            self.get_status_register()
        }
    }

    fn read_gpuread(&mut self) -> (r: u32)
        requires old(self).wf(),
        ensures
            final(self).wf(),
            final(self).state == old(self).state,
            final(self).gpustat_bit31 == old(self).gpustat_bit31,
            final(self).gpuread_last_value == old(self).gpuread_last_value,
            final(self).gp0_read_mode == old(self).gp0_read_mode,
            !(old(self).gp0_read_mode == Some(Gp0ReadMode::Vram)) ==> r == old(self).gpuread_last_value,
    {
        match self.gp0_read_mode {
            Some(Gp0ReadMode::Vram) => self.read_vram(),
            _ => self.gpuread_last_value,
        }
    }

    /// GPUSTAT: the draw mode, mask, display and IRQ state packed per the status register
    /// layout; bits 25..28 read as ready; bit 31 toggles on every read.
    fn get_status_register(&mut self) -> (r: u32)
        ensures
            r == status_spec(old(self).state, !old(self).gpustat_bit31),
            final(self).gpustat_bit31 == !old(self).gpustat_bit31,
            final(self).state == old(self).state,
            final(self).gp0_mode == old(self).gp0_mode,
            final(self).vram_transfer == old(self).vram_transfer,
            final(self).gpuread_last_value == old(self).gpuread_last_value,
            final(self).gp0_read_mode == old(self).gp0_read_mode,
    {
        let dm = self.state.draw_mode;
        let ds = self.state.display_state;
        let mut status: u32 = (dm.texture_base_x as u32) & 0xF;
        status = status | ((dm.texture_base_y as u32) << 4u32);
        status = status | ((dm.semi_transparency as u32) << 5u32);
        status = status | ((dm.texture_page_colours as u32) << 7u32);
        status = status | ((dm.dither as u32) << 9u32);
        status = status | ((dm.draw_to_display as u32) << 10u32);
        status = status | ((self.state.mask.set_mask_while_drawing as u32) << 11u32);
        status = status | ((self.state.mask.check_mask_before_draw as u32) << 12u32);
        status = status | ((ds.vertical_interlace as u32) << 13u32);
        status = status | ((ds.reverseflag as u32) << 14u32);
        status = status | (((dm.texture_disable && ds.texture_disable_allowed) as u32) << 15u32);
        status = status | ((ds.horizontal_resolution_2 as u32) << 16u32);
        status = status | ((ds.horizontal_resolution_1 as u32) << 17u32);
        status = status | ((ds.vertical_resolution as u32) << 19u32);
        status = status | ((ds.video_mode as u32) << 20u32);
        status = status | ((ds.display_colour_depth as u32) << 21u32);
        status = status | ((ds.vertical_interlace as u32) << 22u32);
        status = status | ((ds.display_enable as u32) << 23u32);
        status = status | ((self.state.irq as u32) << 24u32);
        status = status | (0xFu32 << 25u32);
        status = status | ((ds.dma_direction as u32) << 29u32);
        let bit31 = !self.gpustat_bit31;
        self.gpustat_bit31 = bit31;
        status = status | ((bit31 as u32) << 31u32);
        status
    }

    /// Write GP0 (offset 0) or GP1 (offset 4).
    /// What a GP0 word does to the command state: a parameter of an unfinished packet is
    /// buffered; a poly-line vertex is buffered until the terminator ends the poly-line; a new
    /// command word starts a packet of its parameter count (a poly-line, or one with parameters,
    /// runs nothing yet; a rendering attribute command takes effect at once); during a
    /// CPU-to-VRAM transfer the word is VRAM data and counts down the transfer.
    pub open spec fn gp0_written(self, post: Gpu, word: u32) -> bool {
        &&& self.gp0_mode == Gp0Mode::Command && self.gp0_words_remaining > 1 ==>
            post.gp0_buffer@ == self.gp0_buffer@.push(word)
            && post.gp0_words_remaining == self.gp0_words_remaining - 1
            && post.state == self.state
            && post.gp0_mode == Gp0Mode::Command
        &&& self.gp0_mode == Gp0Mode::Command && self.gp0_words_remaining == 1 && self.gp0_buffer@.len() > 0
            && ({
                let c = gp0_command_spec(self.gp0_buffer@[0]);
                c == Gp0Command::MonochromeTri || c == Gp0Command::MonochromeQuad
                    || c == Gp0Command::ShadedTri || c == Gp0Command::ShadedQuad
            }) ==>
            // The last parameter word completes the packet and the polygon is drawn (see
            // `primitives`): the drawing state and the command mode are kept.
            post.state == self.state && post.gp0_mode == Gp0Mode::Command
        &&& self.gp0_mode == Gp0Mode::Polyline && word & 0xF000_F000 != 0x5000_5000 ==>
            post.gp0_buffer@ == self.gp0_buffer@.push(word)
            && post.gp0_mode == Gp0Mode::Polyline
            && post.state == self.state
        &&& self.gp0_mode == Gp0Mode::Polyline && word & 0xF000_F000 == 0x5000_5000
            && gp0_command_spec(self.gp0_buffer@.push(word)[0]) != Gp0Command::SendRectToVram ==>
            post.gp0_mode == Gp0Mode::Command
        &&& self.gp0_mode == Gp0Mode::Command && self.gp0_words_remaining == 0
            && (gp0_command_spec(word) == Gp0Command::MonochromePolyline || gp0_command_spec(word) == Gp0Command::ShadedPolyline) ==>
            post.gp0_buffer@ == seq![word] && post.gp0_mode == Gp0Mode::Polyline
            && post.state == self.state
        &&& self.gp0_mode == Gp0Mode::Command && self.gp0_words_remaining == 0
            && !(gp0_command_spec(word) == Gp0Command::MonochromePolyline || gp0_command_spec(word) == Gp0Command::ShadedPolyline)
            && parameter_count_spec(gp0_command_spec(word)) > 0 ==>
            post.gp0_buffer@ == seq![word] && post.gp0_words_remaining == parameter_count_spec(gp0_command_spec(word))
            && post.gp0_mode == Gp0Mode::Command && post.state == self.state
        &&& self.gp0_mode == Gp0Mode::Command && self.gp0_words_remaining == 0
            && gp0_command_spec(word) == Gp0Command::SetRenderingAttribute ==>
            post.gp0_mode == Gp0Mode::Command && attribute_set(self.state, post.state, word)
        &&& self.gp0_mode == Gp0Mode::VramWrite ==> post.state == self.state
            && (self.vram_transfer matches Some(t) ==> (if t.words_remaining == 1 {
                post.vram_transfer is None && post.gp0_mode == Gp0Mode::Command
            } else {
                post.vram_transfer == Some(VramTransfer { words_remaining: (t.words_remaining - 1) as u32, ..t })
                    && post.gp0_mode == self.gp0_mode
            }))
    }

    /// What a GP1 command does: reset (00h), reset command buffer (01h), acknowledge IRQ (02h),
    /// the display settings (03h..08h) and GPU info (10h..1Fh).
    pub open spec fn gp1_written(self, post: Gpu, word: u32) -> bool {
        let id = (word >> 24u32) as u8;
        let s = self.state;
        let ds = s.display_state;
        &&& id == 0x00 ==> post.state == GpuState::reset_value(ds.texture_disable_allowed)
        &&& id == 0x01 ==> post.gp0_buffer@.len() == 0 && post.gp0_words_remaining == 0 && post.state == s
        &&& id == 0x02 ==> post.state == (GpuState { irq: false, ..s })
        &&& (0x03 <= id <= 0x08) ==> post.state == (GpuState { display_state: ds.after_gp1(id, word), ..s })
        &&& 0x10 <= id <= 0x1F ==> post.gpuread_last_value == gpu_info_spec(s, word & 0xFF)
            && post.gp0_read_mode == Some(Gp0ReadMode::GpuInfo(word & 0xFF)) && post.state == s
    }

    pub fn write_register(&mut self, offset: u32, value: u32)
        requires
            old(self).wf(),
            offset == 0 || offset == 4,
        ensures
            final(self).wf(),
            offset == 0 ==> old(self).gp0_written(*final(self), value),
            offset == 4 ==> old(self).gp1_written(*final(self), value),
    {
        if offset == 0 {
            self.write_gp0(value);
        } else {
            self.write_gp1(value);
        }
    }

    /// Feed one GP0 word: VRAM data during a CPU-to-VRAM transfer, poly-line vertices until a
    /// terminator (bits 12..15 and 28..31 both 5), otherwise command packets, which run once
    /// their last parameter arrives.
    fn write_gp0(&mut self, word: u32)
        requires old(self).wf(),
        ensures
            final(self).wf(),
            old(self).gp0_written(*final(self), word),
    {
        match self.gp0_mode {
            Gp0Mode::VramWrite => {
                self.gp0_receive_vram_word(word);
            },
            Gp0Mode::Polyline => {
                self.gp0_buffer.push(word);
                if word & 0xF000_F000 == 0x5000_5000 {
                    self.gp0_mode = Gp0Mode::Command;
                    let command = decode_gp0_command(self.gp0_buffer[0]);
                    self.execute_gp0_command(command);
                }
            },
            Gp0Mode::Command => {
                if self.gp0_words_remaining > 0 {
                    self.gp0_buffer.push(word);
                    self.gp0_words_remaining = self.gp0_words_remaining - 1;
                } else {
                    let command = decode_gp0_command(word);
                    self.gp0_buffer.clear();
                    self.gp0_buffer.push(word);
                    assert(self.gp0_buffer@ =~= seq![word]);
                    match command {
                        Gp0Command::MonochromePolyline | Gp0Command::ShadedPolyline => {
                            self.gp0_mode = Gp0Mode::Polyline;
                            return;
                        },
                        _ => {
                            self.gp0_words_remaining = gp0_command_parameter_count(&command) as u32;
                        },
                    }
                }
                if self.gp0_words_remaining == 0 {
                    let command = decode_gp0_command(self.gp0_buffer[0]);
                    self.execute_gp0_command(command);
                }
            },
        }
    }

    /// Run the command whose packet is in the buffer. A packet too short for its command (only
    /// possible after a GP1(01h) buffer reset mid-packet) is dropped.
    fn execute_gp0_command(&mut self, command: Gp0Command)
        requires old(self).wf(),
        ensures
            final(self).wf(),
            command != Gp0Command::SendRectToVram ==> final(self).gp0_mode == old(self).gp0_mode,
            command == Gp0Command::SendRectToVram ==> (final(self).gp0_mode == old(self).gp0_mode || final(self).gp0_mode == Gp0Mode::VramWrite),
            (command == Gp0Command::Nop || command == Gp0Command::ClearCache || command == Gp0Command::FillRect
                || command == Gp0Command::CopyRect || (command is Unknown) || command == Gp0Command::Unknown0x03
                || command == Gp0Command::RaiseIrq) ==> final(self).state == old(self).state,
            command == Gp0Command::SetRenderingAttribute && old(self).gp0_buffer@.len() > 0
                ==> attribute_set(old(self).state, final(self).state, old(self).gp0_buffer@[0]),
            (command == Gp0Command::MonochromeTri || command == Gp0Command::MonochromeQuad
                || command == Gp0Command::ShadedTri || command == Gp0Command::ShadedQuad) ==> final(self).state == old(self).state,
    {
        let len = self.gp0_buffer.len();
        match command {
            Gp0Command::Nop => {},
            Gp0Command::ClearCache => self.backend.clear_cache(),
            Gp0Command::FillRect => if len >= 3 { self.fill_rect() },
            Gp0Command::MonochromeTri => if len >= 4 { self.draw_monochrome_tri() },
            Gp0Command::MonochromeQuad => if len >= 5 { self.draw_monochrome_quad() },
            Gp0Command::TexturedTri => if len >= 7 { self.draw_textured_tri() },
            Gp0Command::TexturedQuad => if len >= 9 { self.draw_textured_quad() },
            Gp0Command::ShadedTri => if len >= 6 { self.draw_shaded_tri() },
            Gp0Command::ShadedQuad => if len >= 8 { self.draw_shaded_quad() },
            Gp0Command::ShadedTexturedTri => if len >= 9 { self.draw_shaded_textured_tri() },
            Gp0Command::ShadedTexturedQuad => if len >= 12 { self.draw_shaded_textured_quad() },
            Gp0Command::MonochromeLine => if len >= 3 { self.draw_monochrome_line() },
            Gp0Command::MonochromePolyline => if len >= 2 { self.draw_monochrome_polyline() },
            Gp0Command::ShadedLine => if len >= 4 { self.draw_shaded_line() },
            Gp0Command::ShadedPolyline => if len >= 2 { self.draw_shaded_polyline() },
            Gp0Command::VariableMonochromeRectangle => if len >= 2 { self.draw_variable_monochrome_rectangle() },
            Gp0Command::MonochromeRectangle => if len >= 2 { self.draw_monochrome_rectangle() },
            Gp0Command::VariableTexturedRectangle => if len >= 3 { self.draw_variable_textured_rectangle() },
            Gp0Command::TexturedRectangle => if len >= 3 { self.draw_textured_rectangle() },
            Gp0Command::SendRectToVram => if len >= 3 { self.begin_vram_write() },
            Gp0Command::CopyRectToCpu => if len >= 3 { self.begin_vram_read() },
            Gp0Command::CopyRect => if len >= 4 { self.copy_rect() },
            Gp0Command::SetRenderingAttribute => self.set_rendering_attribute(),
            _ => {},
        }
    }

    /// GP0(E1h..E6h): draw mode, texture window, drawing area corners, offset, mask.
    fn set_rendering_attribute(&mut self)
        requires old(self).wf(),
        ensures
            final(self).wf(),
            final(self).gp0_mode == old(self).gp0_mode,
            old(self).gp0_buffer@.len() > 0 ==> attribute_set(old(self).state, final(self).state, old(self).gp0_buffer@[0]),
    {
        if self.gp0_buffer.len() == 0 {
            return;
        }
        let w = self.gp0_buffer[0];
        let cmd = (w >> 24u32) as u8;
        if cmd == 0xE1 {
            self.state.draw_mode = DrawMode::from_gp0_command(w);
        } else if cmd == 0xE2 {
            self.state.texture_window = TextureWindow::from_gp0_command(w);
        } else if cmd == 0xE3 {
            self.state.drawing_area.set_top_left(w);
        } else if cmd == 0xE4 {
            self.state.drawing_area.set_bottom_right(w);
        } else if cmd == 0xE5 {
            self.state.drawing_offset = DrawingOffset::from_gp0_command(w);
        } else if cmd == 0xE6 {
            self.state.mask = Mask::from_gp0_command(w);
        }
    }

    /// GP0(C0h): start a VRAM-to-CPU transfer of the rectangle in words 1 and 2; empty
    /// rectangles are ignored.
    fn begin_vram_read(&mut self)
        requires old(self).wf(), old(self).gp0_buffer@.len() >= 3,
        ensures
            final(self).wf(),
            final(self).state == old(self).state,
            final(self).gp0_mode == old(self).gp0_mode,
            final(self).gp0_read_mode == (if (old(self).gp0_buffer@[2] & 0x3FF) == 0 || ((old(self).gp0_buffer@[2] >> 16u32) & 0x1FF) == 0 { old(self).gp0_read_mode } else { Some(Gp0ReadMode::Vram) }),
    {
        let x = (self.gp0_buffer[1] & 0x3FF) as u16;
        let y = ((self.gp0_buffer[1] >> 16u32) & 0x1FF) as u16;
        let w = (self.gp0_buffer[2] & 0x3FF) as u16;
        let h = ((self.gp0_buffer[2] >> 16u32) & 0x1FF) as u16;
        let b2 = self.gp0_buffer[2];
        assert(((b2 & 0x3FF) as u16 == 0) == (b2 & 0x3FF == 0) && (((b2 >> 16u32) & 0x1FF) as u16 == 0) == ((b2 >> 16u32) & 0x1FF == 0)) by (bit_vector);
        if w == 0 || h == 0 {
            return;
        }
        self.backend.vram_read_begin(x, y, w, h);
        self.gp0_read_mode = Some(Gp0ReadMode::Vram);
    }

    /// One word of VRAM data from the backend, or 0 when the transfer has ended.
    fn read_vram(&mut self) -> (r: u32)
        requires old(self).wf(),
        ensures
            final(self).wf(),
            final(self).state == old(self).state,
            final(self).gpustat_bit31 == old(self).gpustat_bit31,
            final(self).gpuread_last_value == old(self).gpuread_last_value,
            final(self).gp0_read_mode == old(self).gp0_read_mode,
    {
        match self.backend.vram_read() {
            Some(v) => v,
            None => 0,
        }
    }

    /// GP0(A0h): start a CPU-to-VRAM transfer of (w*h+1)/2 words; the following GP0 words are
    /// pixel data.
    fn begin_vram_write(&mut self)
        requires old(self).wf(), old(self).gp0_buffer@.len() >= 3,
        ensures
            final(self).wf(),
            final(self).state == old(self).state,
            ({
                let w = (old(self).gp0_buffer@[2] & 0x3FF) as int;
                let h = ((old(self).gp0_buffer@[2] >> 16u32) & 0x1FF) as int;
                let words = (w * h + 1) / 2;
                &&& words == 0 ==> final(self).gp0_mode == old(self).gp0_mode && final(self).vram_transfer == old(self).vram_transfer
                &&& words > 0 ==> (final(self).gp0_mode == Gp0Mode::VramWrite && final(self).gp0_buffer@.len() == 0
                    && (final(self).vram_transfer matches Some(t) && t.words_remaining == words))
            }),
    {
        let b1 = self.gp0_buffer[1];
        let b2 = self.gp0_buffer[2];
        let x = (b1 & 0x3FF) as u16;
        let y = ((b1 >> 16u32) & 0x1FF) as u16;
        assert(b2 & 0x3FF <= 0x3FF && (b2 >> 16u32) & 0x1FF <= 0x1FF) by { crate::bits::lemma_and_bounds(); }
        let w = (b2 & 0x3FF) as u16;
        let h = ((b2 >> 16u32) & 0x1FF) as u16;
        assert(w as u32 * h as u32 <= 0x3FF * 0x1FF) by (nonlinear_arith) requires w <= 0x3FF, h <= 0x1FF;
        let pixel_count = w as u32 * h as u32;
        let words = (pixel_count + 1) / 2;
        if words == 0 {
            return;
        }
        self.vram_transfer = Some(VramTransfer { x, y, w, h, current_x: x, current_y: y, words_remaining: words });
        self.gp0_words_remaining = 0;
        self.gp0_buffer.clear();
        self.backend.vram_write_begin(x, y, w, h, &self.state.mask);
        self.gp0_mode = Gp0Mode::VramWrite;
    }

    /// Pass one word of pixel data to the backend; the transfer ends with its last word.
    fn gp0_receive_vram_word(&mut self, word: u32)
        requires old(self).wf(),
        ensures
            final(self).wf(),
            final(self).state == old(self).state,
            old(self).vram_transfer matches Some(t) ==> (if t.words_remaining == 1 {
                final(self).vram_transfer is None && final(self).gp0_mode == Gp0Mode::Command
            } else {
                final(self).vram_transfer == Some(VramTransfer { words_remaining: (t.words_remaining - 1) as u32, ..t })
                    && final(self).gp0_mode == old(self).gp0_mode
            }),
    {
        self.backend.vram_write(word);
        match self.vram_transfer {
            Some(t) => {
                let remaining = t.words_remaining - 1;
                if remaining == 0 {
                    self.gp0_mode = Gp0Mode::Command;
                    self.vram_transfer = None;
                } else {
                    self.vram_transfer = Some(VramTransfer { words_remaining: remaining, ..t });
                }
            },
            None => {},
        }
    }

    /// GP0(02h): fill a rectangle with the command's colour.
    fn fill_rect(&mut self)
        requires old(self).wf(), old(self).gp0_buffer@.len() >= 3,
        ensures final(self).wf(), final(self).state == old(self).state, final(self).gp0_mode == old(self).gp0_mode,
    {
        let colour = Colour::from_word(self.gp0_buffer[0]);
        let pos = Vertex::from_word(self.gp0_buffer[1]);
        let w = (self.gp0_buffer[2] & 0x3FF) as u16;
        let h = ((self.gp0_buffer[2] >> 16u32) & 0x1FF) as u16;
        self.backend.fill_rect(pos, w, h, colour);
    }

    /// GP0(80h): VRAM-to-VRAM copy.
    fn copy_rect(&mut self)
        requires old(self).wf(), old(self).gp0_buffer@.len() >= 4,
        ensures final(self).wf(), final(self).state == old(self).state, final(self).gp0_mode == old(self).gp0_mode,
    {
        let src_x = (self.gp0_buffer[1] & 0x3FF) as u16;
        let src_y = ((self.gp0_buffer[1] >> 16u32) & 0x1FF) as u16;
        let dst_x = (self.gp0_buffer[2] & 0x3FF) as u16;
        let dst_y = ((self.gp0_buffer[2] >> 16u32) & 0x1FF) as u16;
        let w = (self.gp0_buffer[3] & 0x3FF) as u16;
        let h = ((self.gp0_buffer[3] >> 16u32) & 0x1FF) as u16;
        let mask = self.state.mask;
        self.backend.copy_rect(src_x, src_y, dst_x, dst_y, w, h, &mask);
    }

    /// Present the display area.
    pub fn display(&mut self)
        requires old(self).wf(),
        ensures final(self).wf(), final(self).state == old(self).state, final(self).gp0_mode == old(self).gp0_mode,
            final(self).gp0_buffer == old(self).gp0_buffer,
    {
        let output = self.state.display_state.derive_output();
        self.backend.present(&output);
    }

    fn get_draw_params(&self) -> (r: DrawParams)
        ensures
            r.drawing_area == self.state.drawing_area,
            r.drawing_offset == self.state.drawing_offset,
            r.mask == self.state.mask,
            r.draw_mode == self.state.draw_mode,
            r.semi_transparency == self.state.draw_mode.semi_transparency,
            r.texture_window == self.state.texture_window,
    {
        DrawParams {
            drawing_area: self.state.drawing_area,
            drawing_offset: self.state.drawing_offset,
            mask: self.state.mask,
            draw_mode: self.state.draw_mode,
            semi_transparency: self.state.draw_mode.semi_transparency,
            texture_window: self.state.texture_window,
        }
    }

    /// Textured polygons also set the draw mode's texture page from their texpage word.
    fn apply_tex_page(&mut self, tex_page: TexPageAttr)
        ensures
            final(self).state.draw_mode == (DrawMode {
                texture_base_x: tex_page.x,
                texture_base_y: tex_page.y,
                semi_transparency: tex_page.semi_transparency,
                texture_page_colours: tex_page.colour_depth,
                ..old(self).state.draw_mode
            }),
            final(self).state == (GpuState { draw_mode: final(self).state.draw_mode, ..old(self).state }),
            final(self).gp0_mode == old(self).gp0_mode,
            final(self).vram_transfer == old(self).vram_transfer,
            final(self).gp0_buffer == old(self).gp0_buffer,
    {
        self.state.draw_mode.texture_base_x = tex_page.x;
        self.state.draw_mode.texture_base_y = tex_page.y;
        self.state.draw_mode.semi_transparency = tex_page.semi_transparency;
        self.state.draw_mode.texture_page_colours = tex_page.colour_depth;
    }

    fn draw_monochrome_tri(&mut self)
        requires old(self).wf(), old(self).gp0_buffer@.len() >= 4,
        ensures final(self).wf(), final(self).state == old(self).state, final(self).gp0_mode == old(self).gp0_mode,
    {
        let tri = primitives::monochrome_polygon(&self.gp0_buffer, false);
        let params = self.get_draw_params();
        self.backend.draw_polygon(&tri, &params);
    }

    fn draw_monochrome_quad(&mut self)
        requires old(self).wf(), old(self).gp0_buffer@.len() >= 5,
        ensures final(self).wf(), final(self).state == old(self).state, final(self).gp0_mode == old(self).gp0_mode,
    {
        let quad = primitives::monochrome_polygon(&self.gp0_buffer, true);
        let params = self.get_draw_params();
        self.backend.draw_polygon(&quad, &params);
    }

    fn draw_textured_tri(&mut self)
        requires old(self).wf(), old(self).gp0_buffer@.len() >= 7,
        ensures
            final(self).wf(),
            final(self).gp0_mode == old(self).gp0_mode,
            final(self).state.draw_mode.texture_base_x == TexPageAttr::spec_from(old(self).gp0_buffer@[4] >> 16u32).x,
            final(self).state.display_state == old(self).state.display_state,
    {
        let tri = primitives::textured_polygon(&self.gp0_buffer, false);
        let tex_page = TexPageAttr::from_word(self.gp0_buffer[4] >> 16u32);
        self.apply_tex_page(tex_page);
        let params = self.get_draw_params();
        self.backend.draw_polygon(&tri, &params);
    }

    fn draw_textured_quad(&mut self)
        requires old(self).wf(), old(self).gp0_buffer@.len() >= 9,
        ensures
            final(self).wf(),
            final(self).gp0_mode == old(self).gp0_mode,
            final(self).state.draw_mode.texture_base_x == TexPageAttr::spec_from(old(self).gp0_buffer@[4] >> 16u32).x,
            final(self).state.display_state == old(self).state.display_state,
    {
        let quad = primitives::textured_polygon(&self.gp0_buffer, true);
        let tex_page = TexPageAttr::from_word(self.gp0_buffer[4] >> 16u32);
        self.apply_tex_page(tex_page);
        let params = self.get_draw_params();
        self.backend.draw_polygon(&quad, &params);
    }

    fn draw_shaded_tri(&mut self)
        requires old(self).wf(), old(self).gp0_buffer@.len() >= 6,
        ensures final(self).wf(), final(self).state == old(self).state, final(self).gp0_mode == old(self).gp0_mode,
    {
        let tri = primitives::shaded_polygon(&self.gp0_buffer, false);
        let params = self.get_draw_params();
        self.backend.draw_polygon(&tri, &params);
    }

    fn draw_shaded_quad(&mut self)
        requires old(self).wf(), old(self).gp0_buffer@.len() >= 8,
        ensures final(self).wf(), final(self).state == old(self).state, final(self).gp0_mode == old(self).gp0_mode,
    {
        let quad = primitives::shaded_polygon(&self.gp0_buffer, true);
        let params = self.get_draw_params();
        self.backend.draw_polygon(&quad, &params);
    }

    fn draw_shaded_textured_tri(&mut self)
        requires old(self).wf(), old(self).gp0_buffer@.len() >= 9,
        ensures
            final(self).wf(),
            final(self).gp0_mode == old(self).gp0_mode,
            final(self).state.draw_mode.texture_base_x == TexPageAttr::spec_from(old(self).gp0_buffer@[5] >> 16u32).x,
            final(self).state.display_state == old(self).state.display_state,
    {
        let tri = primitives::shaded_textured_polygon(&self.gp0_buffer, false);
        let tex_page = TexPageAttr::from_word(self.gp0_buffer[5] >> 16u32);
        self.apply_tex_page(tex_page);
        let params = self.get_draw_params();
        self.backend.draw_polygon(&tri, &params);
    }

    fn draw_shaded_textured_quad(&mut self)
        requires old(self).wf(), old(self).gp0_buffer@.len() >= 12,
        ensures
            final(self).wf(),
            final(self).gp0_mode == old(self).gp0_mode,
            final(self).state.draw_mode.texture_base_x == TexPageAttr::spec_from(old(self).gp0_buffer@[5] >> 16u32).x,
            final(self).state.display_state == old(self).state.display_state,
    {
        let quad = primitives::shaded_textured_polygon(&self.gp0_buffer, true);
        let tex_page = TexPageAttr::from_word(self.gp0_buffer[5] >> 16u32);
        self.apply_tex_page(tex_page);
        let params = self.get_draw_params();
        self.backend.draw_polygon(&quad, &params);
    }

    fn draw_monochrome_line(&mut self)
        requires old(self).wf(), old(self).gp0_buffer@.len() >= 3,
        ensures final(self).wf(), final(self).state == old(self).state, final(self).gp0_mode == old(self).gp0_mode,
    {
        let cmd = (self.gp0_buffer[0] >> 24u32) as u8;
        let mut vertices: Vec<LinePoint> = Vec::new();
        vertices.push(LinePoint { vertex: Vertex::from_word(self.gp0_buffer[1]) });
        vertices.push(LinePoint { vertex: Vertex::from_word(self.gp0_buffer[2]) });
        let line = Line::Monochrome { colour: Colour::from_word(self.gp0_buffer[0]), vertices, semi_transparent: cmd & 0x20 != 0 };
        let params = self.get_draw_params();
        self.backend.draw_line(&line, &params);
    }

    /// Poly-line: the words between the command word and the terminator are vertices.
    fn draw_monochrome_polyline(&mut self)
        requires old(self).wf(), old(self).gp0_buffer@.len() >= 2,
        ensures final(self).wf(), final(self).state == old(self).state, final(self).gp0_mode == old(self).gp0_mode,
    {
        let cmd = (self.gp0_buffer[0] >> 24u32) as u8;
        let points = polyline_points(&self.gp0_buffer);
        let line = Line::Monochrome { colour: Colour::from_word(self.gp0_buffer[0]), vertices: points, semi_transparent: cmd & 0x20 != 0 };
        let params = self.get_draw_params();
        self.backend.draw_line(&line, &params);
    }

    fn draw_shaded_line(&mut self)
        requires old(self).wf(), old(self).gp0_buffer@.len() >= 4,
        ensures final(self).wf(), final(self).state == old(self).state, final(self).gp0_mode == old(self).gp0_mode,
    {
        let cmd = (self.gp0_buffer[0] >> 24u32) as u8;
        let mut vertices: Vec<ColouredLinePoint> = Vec::new();
        vertices.push(ColouredLinePoint { vertex: Vertex::from_word(self.gp0_buffer[1]), colour: Colour::from_word(self.gp0_buffer[0]) });
        vertices.push(ColouredLinePoint { vertex: Vertex::from_word(self.gp0_buffer[3]), colour: Colour::from_word(self.gp0_buffer[2]) });
        let line = Line::Coloured { vertices, semi_transparent: cmd & 0x20 != 0 };
        let params = self.get_draw_params();
        self.backend.draw_line(&line, &params);
    }

    /// Shaded poly-line: (colour, vertex) pairs starting at word 1, up to the terminator.
    fn draw_shaded_polyline(&mut self)
        requires old(self).wf(), old(self).gp0_buffer@.len() >= 2,
        ensures final(self).wf(), final(self).state == old(self).state, final(self).gp0_mode == old(self).gp0_mode,
    {
        let cmd = (self.gp0_buffer[0] >> 24u32) as u8;
        let points = shaded_polyline_points(&self.gp0_buffer);
        let line = Line::Coloured { vertices: points, semi_transparent: cmd & 0x20 != 0 };
        let params = self.get_draw_params();
        self.backend.draw_line(&line, &params);
    }

    fn draw_variable_monochrome_rectangle(&mut self)
        requires old(self).wf(), old(self).gp0_buffer@.len() >= 2,
        ensures final(self).wf(), final(self).state == old(self).state, final(self).gp0_mode == old(self).gp0_mode,
    {
        let cmd = (self.gp0_buffer[0] >> 24u32) as u8;
        let size = if self.gp0_buffer.len() > 2 {
            let w = (self.gp0_buffer[2] & 0x3FF) as u16;
            let h = ((self.gp0_buffer[2] >> 16u32) & 0x1FF) as u16;
            RectSize::Variable { w, h }
        } else {
            RectSize::Fixed1x1
        };
        let rect = Rect::Monochrome { colour: Colour::from_word(self.gp0_buffer[0]), pos: Vertex::from_word(self.gp0_buffer[1]), size, semi_transparent: cmd & 2 != 0 };
        let params = self.get_draw_params();
        self.backend.draw_rect(&rect, &params);
    }

    fn draw_monochrome_rectangle(&mut self)
        requires old(self).wf(), old(self).gp0_buffer@.len() >= 2,
        ensures final(self).wf(), final(self).state == old(self).state, final(self).gp0_mode == old(self).gp0_mode,
    {
        let cmd = (self.gp0_buffer[0] >> 24u32) as u8;
        let rect = Rect::Monochrome {
            colour: Colour::from_word(self.gp0_buffer[0]),
            pos: Vertex::from_word(self.gp0_buffer[1]),
            size: fixed_rect_size(cmd),
            semi_transparent: cmd & 2 != 0,
        };
        let params = self.get_draw_params();
        self.backend.draw_rect(&rect, &params);
    }

    fn draw_variable_textured_rectangle(&mut self)
        requires old(self).wf(), old(self).gp0_buffer@.len() >= 3,
        ensures final(self).wf(), final(self).state == old(self).state, final(self).gp0_mode == old(self).gp0_mode,
    {
        let cmd = (self.gp0_buffer[0] >> 24u32) as u8;
        let b2 = self.gp0_buffer[2];
        let size = if self.gp0_buffer.len() > 3 {
            let w = (self.gp0_buffer[3] & 0x3FF) as u16;
            let h = ((self.gp0_buffer[3] >> 16u32) & 0x1FF) as u16;
            RectSize::Variable { w, h }
        } else {
            RectSize::Fixed1x1
        };
        let rect = Rect::Textured {
            colour: Colour::from_word(self.gp0_buffer[0]),
            pos: Vertex::from_word(self.gp0_buffer[1]),
            size,
            texcoord: Texcoord::from_word(b2),
            semi_transparent: cmd & 2 != 0,
            clut: Clut::from_word((b2 >> 16u32) as u16),
            raw: cmd & 1 != 0,
        };
        let params = self.get_draw_params();
        self.backend.draw_rect(&rect, &params);
    }

    fn draw_textured_rectangle(&mut self)
        requires old(self).wf(), old(self).gp0_buffer@.len() >= 3,
        ensures final(self).wf(), final(self).state == old(self).state, final(self).gp0_mode == old(self).gp0_mode,
    {
        let cmd = (self.gp0_buffer[0] >> 24u32) as u8;
        let b2 = self.gp0_buffer[2];
        let rect = Rect::Textured {
            colour: Colour::from_word(self.gp0_buffer[0]),
            pos: Vertex::from_word(self.gp0_buffer[1]),
            size: fixed_rect_size(cmd),
            texcoord: Texcoord::from_word(b2),
            semi_transparent: cmd & 2 != 0,
            clut: Clut::from_word((b2 >> 16u32) as u16),
            raw: cmd & 1 != 0,
        };
        let params = self.get_draw_params();
        self.backend.draw_rect(&rect, &params);
    }

    /// GP1 commands: reset (00h), reset command buffer (01h), acknowledge IRQ (02h), display
    /// enable (03h), DMA direction (04h), display start (05h), horizontal (06h) and vertical
    /// (07h) display range, display mode (08h), and GPU info (10h..1Fh).
    fn write_gp1(&mut self, word: u32)
        requires old(self).wf(),
        ensures
            final(self).wf(),
            old(self).gp1_written(*final(self), word),
    {
        let command_id = (word >> 24u32) as u8;
        if command_id == 0x00 {
            self.state.reset();
        } else if command_id == 0x01 {
            self.gp0_buffer.clear();
            self.gp0_words_remaining = 0;
        } else if command_id == 0x02 {
            self.state.irq = false;
        } else if command_id >= 0x03 && command_id <= 0x08 {
            self.state.display_state.apply_gp1(command_id, word);
        } else if command_id >= 0x10 && command_id <= 0x1F {
            self.gp1_get_gpu_info(word & 0xFF);
        }
    }

    /// GP1(10h): latch the requested info into GPUREAD.
    fn gp1_get_gpu_info(&mut self, sub_index: u32)
        requires old(self).wf(),
        ensures
            final(self).wf(),
            final(self).state == old(self).state,
            final(self).gpuread_last_value == gpu_info_spec(old(self).state, sub_index),
            final(self).gp0_read_mode == Some(Gp0ReadMode::GpuInfo(sub_index)),
            final(self).gp0_buffer == old(self).gp0_buffer,
            final(self).gp0_mode == old(self).gp0_mode,
    {
        let i = sub_index & 0xF;
        let value: u32 = if i == 2 {
            let tw = self.state.texture_window;
            (tw.texture_window_mask_x as u32) | ((tw.texture_window_mask_y as u32) << 5u32)
                | ((tw.texture_window_offset_x as u32) << 10u32) | ((tw.texture_window_offset_y as u32) << 15u32)
        } else if i == 3 {
            (self.state.drawing_area.x1 as u32) | ((self.state.drawing_area.y1 as u32) << 10u32)
        } else if i == 4 {
            (self.state.drawing_area.x2 as u32) | ((self.state.drawing_area.y2 as u32) << 10u32)
        } else if i == 5 {
            ((self.state.drawing_offset.x as u32) & 0x7FF) | (((self.state.drawing_offset.y as u32) & 0x7FF) << 11u32)
        } else if i == 7 {
            2
        } else {
            0
        };
        self.gp0_read_mode = Some(Gp0ReadMode::GpuInfo(sub_index));
        self.gpuread_last_value = value;
    }
}

/// Rectangle size from the command byte's size bits (27..28 of the word): 1 = 1x1, 2 = 8x8,
/// 3 = 16x16.
pub open spec fn fixed_rect_size_spec(cmd: u8) -> RectSize {
    let s = (cmd >> 3u8) & 3;
    if s == 2 { RectSize::Fixed8x8 } else if s == 3 { RectSize::Fixed16x16 } else { RectSize::Fixed1x1 }
}

fn fixed_rect_size(cmd: u8) -> (r: RectSize)
    ensures r == fixed_rect_size_spec(cmd),
{
    let s = (cmd >> 3u8) & 3;
    if s == 2 { RectSize::Fixed8x8 } else if s == 3 { RectSize::Fixed16x16 } else { RectSize::Fixed1x1 }
}

/// The vertices of a monochrome poly-line packet: every word between the command word and
/// the terminator.
fn polyline_points(buf: &Vec<u32>) -> (r: Vec<LinePoint>)
    requires buf@.len() >= 2,
    ensures
        r@.len() == buf@.len() - 2,
        forall|i: int| 0 <= i < r@.len() ==> #[trigger] r@[i] == (LinePoint { vertex: Vertex::spec_from(buf@[i + 1]) }),
{
    let mut out: Vec<LinePoint> = Vec::new();
    let mut i: usize = 1;
    while i < buf.len() - 1
        invariant
            1 <= i <= buf@.len() - 1,
            out@.len() == i - 1,
            forall|k: int| 0 <= k < out@.len() ==> #[trigger] out@[k] == (LinePoint { vertex: Vertex::spec_from(buf@[k + 1]) }),
        decreases buf@.len() - i,
    {
        out.push(LinePoint { vertex: Vertex::from_word(buf[i]) });
        i = i + 1;
    }
    out
}

/// The points of a shaded poly-line packet: (colour, vertex) word pairs from word 1.
fn shaded_polyline_points(buf: &Vec<u32>) -> (r: Vec<ColouredLinePoint>)
    requires buf@.len() >= 2,
    ensures
        forall|i: int| 0 <= i < r@.len() ==> 2 * i + 2 < buf@.len() && #[trigger] r@[i] == (ColouredLinePoint {
            colour: Colour::spec_from(buf@[2 * i + 1]),
            vertex: Vertex::spec_from(buf@[2 * i + 2]),
        }),
        r@.len() == (buf@.len() - 1) / 2,
{
    let mut out: Vec<ColouredLinePoint> = Vec::new();
    let mut i: usize = 1;
    while i < buf.len() - 1
        invariant
            1 <= i <= buf@.len(),
            i % 2 == 1,
            out@.len() == (i - 1) / 2,
            i < buf@.len() - 1 || out@.len() == (buf@.len() - 1) / 2,
            forall|k: int| 0 <= k < out@.len() ==> 2 * k + 2 < buf@.len() && #[trigger] out@[k] == (ColouredLinePoint {
                colour: Colour::spec_from(buf@[2 * k + 1]),
                vertex: Vertex::spec_from(buf@[2 * k + 2]),
            }),
        decreases buf@.len() - i,
    {
        out.push(ColouredLinePoint { vertex: Vertex::from_word(buf[i + 1]), colour: Colour::from_word(buf[i]) });
        i = i + 2;
    }
    out
}

} // verus!
