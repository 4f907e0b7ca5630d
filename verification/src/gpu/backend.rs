//! The interface a frontend implements to render GPU commands (windowed, software, headless).
use vstd::prelude::*;
use crate::gpu::gpu_state::{DisplayOutput, Mask};
use crate::gpu::rendering_parameters::{Colour, DrawParams, Line, Polygon, Rect, Vertex};

verus! {

/// Rendering backend for GPU commands. The core decodes commands and keeps GPU state; the
/// backend owns VRAM and draws.
pub trait GpuBackend {
    /// Render a triangle or quad.
    fn draw_polygon(&mut self, polygon: &Polygon, params: &DrawParams);

    /// Render a line or poly-line.
    fn draw_line(&mut self, line: &Line, params: &DrawParams);

    /// Render a rectangle.
    fn draw_rect(&mut self, rect: &Rect, params: &DrawParams);

    /// Fill a rectangle with a solid colour (GP0(02h)).
    fn fill_rect(&mut self, pos: Vertex, w: u16, h: u16, colour: Colour);

    /// Copy a VRAM rectangle to another place in VRAM.
    fn copy_rect(&mut self, src_x: u16, src_y: u16, dst_x: u16, dst_y: u16, w: u16, h: u16, mask: &Mask);

    /// Start a VRAM-to-CPU transfer.
    fn vram_read_begin(&mut self, vram_x: u16, vram_y: u16, w: u16, h: u16);

    /// Next word of the VRAM-to-CPU transfer, or `None` when there is none.
    fn vram_read(&mut self) -> Option<u32>;

    /// Start a CPU-to-VRAM transfer.
    fn vram_write_begin(&mut self, vram_x: u16, vram_y: u16, w: u16, h: u16, mask: &Mask);

    /// Next word of the CPU-to-VRAM transfer.
    fn vram_write(&mut self, word: u32);

    /// Present the display area.
    fn present(&mut self, output: &DisplayOutput);

    /// Flush the texture cache (GP0(01h)).
    fn clear_cache(&mut self);
}

} // verus!
