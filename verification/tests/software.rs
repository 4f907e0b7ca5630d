use parastation_core::gpu::gpu_state::{DrawMode, DrawingArea, DrawingOffset, Mask, TextureWindow};
use parastation_core::gpu::rendering_parameters::{Colour, DrawParams, Rect, RectSize, Vertex, Texcoord, Clut};
use parastation_core::gpu::software_backend::SoftwareGpuBackend;

fn params(x1: u16, y1: u16, x2: u16, y2: u16, ox: i16, oy: i16, mask: Mask) -> DrawParams {
    DrawParams {
        drawing_area: DrawingArea { x1, y1, x2, y2 },
        drawing_offset: DrawingOffset { x: ox, y: oy },
        mask,
        draw_mode: DrawMode::from_gp0_command(0),
        semi_transparency: 0,
        texture_window: TextureWindow::from_gp0_command(0),
    }
}

const NO_MASK: Mask = Mask { set_mask_while_drawing: false, check_mask_before_draw: false };
const WHITE: Colour = Colour { r: 0xFF, g: 0xFF, b: 0xFF };

#[test]
fn software_pixels_respect_the_mask_bit() {
    let mut s = SoftwareGpuBackend::new();
    s.set_pixel(3, 2, Colour { r: 0xF8, g: 0, b: 0 });
    assert_eq!(s.vram[2 * 1024 + 3], 0x001F);
    s.set_pixel(1024, 0, WHITE);
    assert_eq!(s.vram[0], 0);
    let set = Mask { set_mask_while_drawing: true, check_mask_before_draw: false };
    s.set_pixel_masked(5, 5, Colour { r: 0, g: 0, b: 0xF8 }, &set);
    assert_eq!(s.vram[5 * 1024 + 5], 0x8000 | 0x7C00);
    let check = Mask { set_mask_while_drawing: false, check_mask_before_draw: true };
    s.set_pixel_masked(5, 5, WHITE, &check);
    assert_eq!(s.vram[5 * 1024 + 5], 0x8000 | 0x7C00);
    s.set_pixel_masked(6, 5, WHITE, &check);
    assert_eq!(s.vram[5 * 1024 + 6], 0x7FFF);
}

#[test]
fn software_rect_is_offset_and_clipped() {
    let mut s = SoftwareGpuBackend::new();
    let rect = Rect::Monochrome {
        colour: WHITE,
        pos: Vertex { x: 0, y: 0 },
        size: RectSize::Variable { w: 3, h: 2 },
        semi_transparent: false,
    };
    // Offset (10, 20); the area ends at x = 12 (excluded), so only two columns remain.
    assert!(s.draw_rect(&rect, &params(0, 0, 12, 512, 10, 20, NO_MASK)));
    assert_eq!(s.vram[20 * 1024 + 10], 0x7FFF);
    assert_eq!(s.vram[20 * 1024 + 11], 0x7FFF);
    assert_eq!(s.vram[20 * 1024 + 12], 0);
    assert_eq!(s.vram[21 * 1024 + 11], 0x7FFF);
    assert_eq!(s.vram[22 * 1024 + 10], 0);
    let textured = Rect::Textured {
        colour: WHITE,
        pos: Vertex { x: 0, y: 0 },
        texcoord: Texcoord::from_word(0),
        clut: Clut::from_word(0),
        raw: false,
        size: RectSize::Fixed1x1,
        semi_transparent: false,
    };
    assert!(!s.draw_rect(&textured, &params(0, 0, 1024, 512, 0, 0, NO_MASK)));
    assert_eq!(s.vram[0], 0);
}

#[test]
fn software_present_converts_to_rgba() {
    let mut s = SoftwareGpuBackend::new();
    s.set_pixel(4, 2, Colour { r: 0xFF, g: 0x08, b: 0x10 });
    s.present(4, 2);
    assert_eq!(&s.frame[0..4], &[0xF8, 0x08, 0x10, 0xFF]);
    assert_eq!(&s.frame[4..8], &[0, 0, 0, 0xFF]);
    assert_eq!(s.frame.len(), 320 * 240 * 4);
}
