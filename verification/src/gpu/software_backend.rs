//! The integer side of the software renderer: a 1024x512 VRAM of BGR555 pixels with
//! mask-aware pixel writes, monochrome rectangles clipped to the drawing area, and the
//! conversion of a 320x240 display area into an RGBA frame.
use vstd::prelude::*;
use crate::gpu::gpu_state::{DrawingArea, Mask};
use crate::gpu::rendering_parameters::{Colour, DrawParams, Rect, RectSize};

verus! {

/// VRAM is 1024 pixels wide and 512 high.
pub const VRAM_PIXELS: usize = 0x80000;
/// The frame: 320x240 pixels of four bytes (R, G, B, A).
pub const FRAME_BYTES: usize = 307200;

/// The BGR555 form of a colour: the top five bits of each channel.
pub open spec fn bgr555(c: Colour) -> u16 {
    ((c.r as u16 >> 3u16) | ((c.g as u16 >> 3u16) << 5u16) | ((c.b as u16 >> 3u16) << 10u16)) as u16
}

/// What a masked write leaves in a pixel holding `old`: nothing changes when the mask check
/// is on and the pixel's mask bit (15) is set; otherwise the colour, with the mask bit when
/// writes set it.
pub open spec fn masked_pixel(old: u16, c: Colour, mask: Mask) -> u16 {
    if mask.check_mask_before_draw && old & 0x8000 != 0 {
        old
    } else if mask.set_mask_while_drawing {
        bgr555(c) | 0x8000
    } else {
        bgr555(c)
    }
}

/// The width and height a rectangle size gives.
pub open spec fn rect_extent(size: RectSize) -> (u16, u16) {
    match size {
        RectSize::Variable { w, h } => (w, h),
        RectSize::Fixed1x1 => (1, 1),
        RectSize::Fixed8x8 => (8, 8),
        RectSize::Fixed16x16 => (16, 16),
    }
}

/// Whether a rectangle with its corner at (x0, y0) and extent (w, h) (taken as signed loop
/// bounds) covers pixel (x, y) inside the drawing area, whose right and bottom edges are
/// excluded.
pub open spec fn rect_covers(x0: int, y0: int, w: u16, h: u16, area: DrawingArea, x: int, y: int) -> bool {
    &&& x0 <= x < x0 + (w as i16) as int
    &&& y0 <= y < y0 + (h as i16) as int
    &&& (area.x1 as i16) as int <= x < (area.x2 as i16) as int
    &&& (area.y1 as i16) as int <= y < (area.y2 as i16) as int
}

/// The frame byte `i`: pixel i/4 of the 320-wide frame, taken from VRAM at (vx, vy) plus its
/// position, channel i%4 (the five bits of red, green, blue shifted up by 3, and alpha FFh).
pub open spec fn frame_byte(vram: Seq<u16>, vx: int, vy: int, i: int) -> u8 {
    let p = i / 4;
    let pixel = vram[(vy + p / 320) * 1024 + vx + p % 320];
    let c = i % 4;
    if c == 0 {
        ((pixel & 0x1F) << 3u16) as u8
    } else if c == 1 {
        (((pixel >> 5u16) & 0x1F) << 3u16) as u8
    } else if c == 2 {
        (((pixel >> 10u16) & 0x1F) << 3u16) as u8
    } else {
        255u8
    }
}

/// A negative coordinate becomes a large unsigned one; a non-negative one keeps its value.
proof fn lemma_i16_as_u16()
    by (bit_vector)
    ensures
        forall|v: i16| v < 0 ==> #[trigger] (v as u16) >= 0x8000,
        forall|v: i16| 0 <= v ==> #[trigger] (v as u16) == v,
{
}

/// The position of a VRAM index.
proof fn lemma_vram_index(x: int, y: int)
    requires 0 <= x < 1024, 0 <= y,
    ensures (y * 1024 + x) % 1024 == x, (y * 1024 + x) / 1024 == y,
{
    vstd::arithmetic::div_mod::lemma_fundamental_div_mod_converse(y * 1024 + x, 1024, y, x);
}

/// The position of a frame byte.
proof fn lemma_frame_index(dx: int, dy: int, c: int)
    requires 0 <= dx < 320, 0 <= dy < 240, 0 <= c < 4,
    ensures
        ((dy * 320 + dx) * 4 + c) / 4 == dy * 320 + dx,
        ((dy * 320 + dx) * 4 + c) % 4 == c,
        (dy * 320 + dx) / 320 == dy,
        (dy * 320 + dx) % 320 == dx,
        0 <= (dy * 320 + dx) * 4 + c < 307200,
{
    vstd::arithmetic::div_mod::lemma_fundamental_div_mod_converse((dy * 320 + dx) * 4 + c, 4, dy * 320 + dx, c);
    vstd::arithmetic::div_mod::lemma_fundamental_div_mod_converse(dy * 320 + dx, 320, dy, dx);
    assert((dy * 320 + dx) * 4 + c < 307200) by (nonlinear_arith)
        requires 0 <= dx < 320, 0 <= dy < 240, 0 <= c < 4;
    assert(0 <= (dy * 320 + dx) * 4 + c) by (nonlinear_arith)
        requires 0 <= dx, 0 <= dy, 0 <= c;
}

/// The renderer's memory: VRAM and the frame last presented.
pub struct SoftwareGpuBackend {
    pub vram: Vec<u16>,
    pub frame: Vec<u8>,
}

impl SoftwareGpuBackend {
    pub open spec fn wf(&self) -> bool {
        &&& self.vram@.len() == VRAM_PIXELS
        &&& self.frame@.len() == FRAME_BYTES
    }

    /// Black VRAM and frame.
    pub fn new() -> (r: Self)
        ensures
            r.wf(),
            forall|i: int| 0 <= i < VRAM_PIXELS ==> #[trigger] r.vram@[i] == 0,
            forall|i: int| 0 <= i < FRAME_BYTES ==> #[trigger] r.frame@[i] == 0,
    {
        Self { vram: vec![0u16; VRAM_PIXELS], frame: vec![0u8; FRAME_BYTES] }
    }

    /// Write a pixel (ignored outside VRAM).
    pub fn set_pixel(&mut self, x: u16, y: u16, colour: Colour)
        requires old(self).wf(),
        ensures
            final(self).wf(),
            final(self).frame == old(self).frame,
            x < 1024 && y < 512 ==> final(self).vram@ == old(self).vram@.update(y * 1024 + x, bgr555(colour)),
            !(x < 1024 && y < 512) ==> final(self).vram@ == old(self).vram@,
    {
        if x < 1024 && y < 512 {
            let index = y as usize * 1024 + x as usize;
            self.vram.set(index, colour.to_u16());
        }
    }

    /// Write a pixel under the mask settings (ignored outside VRAM).
    pub fn set_pixel_masked(&mut self, x: u16, y: u16, colour: Colour, mask: &Mask)
        requires old(self).wf(),
        ensures
            final(self).wf(),
            final(self).frame == old(self).frame,
            x < 1024 && y < 512 ==> final(self).vram@ == old(self).vram@.update(y * 1024 + x,
                masked_pixel(old(self).vram@[y * 1024 + x], colour, *mask)),
            !(x < 1024 && y < 512) ==> final(self).vram@ == old(self).vram@,
    {
        if x >= 1024 || y >= 512 {
            return;
        }
        let index = y as usize * 1024 + x as usize;
        if mask.check_mask_before_draw && (self.vram[index] & 0x8000) != 0 {
            assert(self.vram@ =~= old(self).vram@.update(index as int, old(self).vram@[index as int]));
            return;
        }
        let pixel = if mask.set_mask_while_drawing {
            colour.to_u16() | 0x8000
        } else {
            colour.to_u16()
        };
        self.vram.set(index, pixel);
    }

    /// Draw a monochrome rectangle: every pixel of it, moved by the drawing offset and
    /// clipped to the drawing area, is written under the mask settings. Other rectangles are
    /// not drawn; the result says whether the rectangle was one this renderer draws.
    pub fn draw_rect(&mut self, rect: &Rect, params: &DrawParams) -> (drawn: bool)
        requires
            old(self).wf(),
            rect matches Rect::Monochrome { pos, size, .. } ==> {
                let x0 = pos.x + params.drawing_offset.x;
                let y0 = pos.y + params.drawing_offset.y;
                &&& -0x8000 <= x0 <= 0x7FFF && x0 + (rect_extent(*size).0 as i16) as int <= 0x8000
                &&& -0x8000 <= y0 <= 0x7FFF && y0 + (rect_extent(*size).1 as i16) as int <= 0x8000
            },
        ensures
            final(self).wf(),
            final(self).frame == old(self).frame,
            drawn == (rect is Monochrome),
            !drawn ==> final(self).vram@ == old(self).vram@,
            rect matches Rect::Monochrome { colour, pos, size, .. } ==> forall|i: int| 0 <= i < VRAM_PIXELS ==>
                #[trigger] final(self).vram@[i] == (if rect_covers(pos.x + params.drawing_offset.x, pos.y + params.drawing_offset.y,
                    rect_extent(*size).0, rect_extent(*size).1, params.drawing_area, i % 1024, i / 1024) {
                    masked_pixel(old(self).vram@[i], *colour, params.mask)
                } else {
                    old(self).vram@[i]
                }),
    {
        match rect {
            Rect::Monochrome { colour, pos, size, semi_transparent: _ } => {
                let (w, h): (u16, u16) = match size {
                    RectSize::Variable { w, h } => (*w, *h),
                    RectSize::Fixed1x1 => (1, 1),
                    RectSize::Fixed8x8 => (8, 8),
                    RectSize::Fixed16x16 => (16, 16),
                };
                let x0 = pos.x + params.drawing_offset.x;
                let y0 = pos.y + params.drawing_offset.y;
                let area = params.drawing_area;
                let mask = params.mask;
                let colour = *colour;
                let hh = h as i16;
                let ww = w as i16;
                let ghost old_vram = self.vram@;
                let mut dy: i16 = 0;
                while dy < hh
                    invariant
                        self.wf(),
                        self.frame == old(self).frame,
                        0 <= dy,
                        dy <= hh || hh <= 0,
                        -0x8000 <= x0 && x0 + ww as int <= 0x8000,
                        -0x8000 <= y0 && y0 + hh as int <= 0x8000,
                        ww == (w as i16), hh == (h as i16),
                        forall|i: int| 0 <= i < VRAM_PIXELS ==> #[trigger] self.vram@[i] == (if rect_covers(x0 as int, y0 as int, w, h, area, i % 1024, i / 1024)
                            && i / 1024 - y0 < dy {
                            masked_pixel(old_vram[i], colour, mask)
                        } else {
                            old_vram[i]
                        }),
                    decreases hh - dy,
                {
                    let mut dx: i16 = 0;
                    while dx < ww
                        invariant
                            self.wf(),
                            self.frame == old(self).frame,
                            0 <= dy < hh,
                            0 <= dx,
                            dx <= ww || ww <= 0,
                            -0x8000 <= x0 && x0 + ww as int <= 0x8000,
                            -0x8000 <= y0 && y0 + hh as int <= 0x8000,
                            ww == (w as i16), hh == (h as i16),
                            forall|i: int| 0 <= i < VRAM_PIXELS ==> #[trigger] self.vram@[i] == (if rect_covers(x0 as int, y0 as int, w, h, area, i % 1024, i / 1024)
                                && (i / 1024 - y0 < dy || (i / 1024 - y0 == dy && i % 1024 - x0 < dx)) {
                                masked_pixel(old_vram[i], colour, mask)
                            } else {
                                old_vram[i]
                            }),
                        decreases ww - dx,
                    {
                        let px = x0 + dx;
                        let py = y0 + dy;
                        if !(px < area.x1 as i16 || px >= area.x2 as i16 || py < area.y1 as i16 || py >= area.y2 as i16) {
                            let ghost before = self.vram@;
                            self.set_pixel_masked(px as u16, py as u16, colour, &mask);
                            proof {
                                lemma_i16_as_u16();
                                assert(px < 0 ==> (px as u16) >= 0x8000);
                                assert(py < 0 ==> (py as u16) >= 0x8000);
                                if 0 <= px < 1024 && 0 <= py < 512 {
                                    lemma_vram_index(px as int, py as int);
                                    let k = py * 1024 + px;
                                    assert forall|i: int| 0 <= i < VRAM_PIXELS implies #[trigger] self.vram@[i] == (if rect_covers(x0 as int, y0 as int, w, h, area, i % 1024, i / 1024)
                                        && (i / 1024 - y0 < dy || (i / 1024 - y0 == dy && i % 1024 - x0 < dx + 1)) {
                                        masked_pixel(old_vram[i], colour, mask)
                                    } else {
                                        old_vram[i]
                                    }) by {
                                        if i != k {
                                            assert(self.vram@[i] == before[i]);
                                            if i / 1024 == py && i % 1024 == px {
                                                lemma_vram_index(i % 1024, i / 1024);
                                            }
                                        }
                                    }
                                } else {
                                    assert forall|i: int| 0 <= i < VRAM_PIXELS implies #[trigger] self.vram@[i] == (if rect_covers(x0 as int, y0 as int, w, h, area, i % 1024, i / 1024)
                                        && (i / 1024 - y0 < dy || (i / 1024 - y0 == dy && i % 1024 - x0 < dx + 1)) {
                                        masked_pixel(old_vram[i], colour, mask)
                                    } else {
                                        old_vram[i]
                                    }) by {
                                        assert(self.vram@[i] == before[i]);
                                        assert(0 <= i % 1024 < 1024 && 0 <= i / 1024 < 512);
                                    }
                                }
                            }
                        } else {
                            proof {
                                assert forall|i: int| 0 <= i < VRAM_PIXELS implies #[trigger] self.vram@[i] == (if rect_covers(x0 as int, y0 as int, w, h, area, i % 1024, i / 1024)
                                    && (i / 1024 - y0 < dy || (i / 1024 - y0 == dy && i % 1024 - x0 < dx + 1)) {
                                    masked_pixel(old_vram[i], colour, mask)
                                } else {
                                    old_vram[i]
                                }) by {
                                }
                            }
                        }
                        dx = dx + 1;
                    }
                    proof {
                        assert forall|i: int| 0 <= i < VRAM_PIXELS implies #[trigger] self.vram@[i] == (if rect_covers(x0 as int, y0 as int, w, h, area, i % 1024, i / 1024)
                            && i / 1024 - y0 < dy + 1 {
                            masked_pixel(old_vram[i], colour, mask)
                        } else {
                            old_vram[i]
                        }) by {
                        }
                    }
                    dy = dy + 1;
                }
                true
            },
            _ => false,
        }
    }

    /// Fill the frame from the 320x240 display area at (vram_x, vram_y): BGR555 becomes
    /// RGBA with each five-bit channel shifted up by 3 and alpha FFh.
    pub fn present(&mut self, vram_x: u16, vram_y: u16)
        requires
            old(self).wf(),
            (vram_y + 239) * 1024 + vram_x + 319 < VRAM_PIXELS,
        ensures
            final(self).wf(),
            final(self).vram == old(self).vram,
            forall|i: int| 0 <= i < FRAME_BYTES ==> #[trigger] final(self).frame@[i] == frame_byte(old(self).vram@, vram_x as int, vram_y as int, i),
    {
        let mut dy: usize = 0;
        while dy < 240
            invariant
                self.wf(),
                self.vram == old(self).vram,
                dy <= 240,
                (vram_y + 239) * 1024 + vram_x + 319 < VRAM_PIXELS,
                forall|i: int| 0 <= i < dy * 1280 ==> #[trigger] self.frame@[i] == frame_byte(self.vram@, vram_x as int, vram_y as int, i),
            decreases 240 - dy,
        {
            let mut dx: usize = 0;
            while dx < 320
                invariant
                    self.wf(),
                    self.vram == old(self).vram,
                    dy < 240,
                    dx <= 320,
                    (vram_y + 239) * 1024 + vram_x + 319 < VRAM_PIXELS,
                    forall|i: int| 0 <= i < dy * 1280 + dx * 4 ==> #[trigger] self.frame@[i] == frame_byte(self.vram@, vram_x as int, vram_y as int, i),
                decreases 320 - dx,
            {
                let vx = vram_x as usize + dx;
                let vy = vram_y as usize + dy;
                assert(vy * 1024 + vx < VRAM_PIXELS) by (nonlinear_arith)
                    requires vy <= vram_y + 239, vx <= vram_x + 319, (vram_y + 239) * 1024 + vram_x + 319 < VRAM_PIXELS;
                let pixel = self.vram[vy * 1024 + vx];
                let i = (dy * 320 + dx) * 4;
                proof {
                    lemma_frame_index(dx as int, dy as int, 0);
                    lemma_frame_index(dx as int, dy as int, 1);
                    lemma_frame_index(dx as int, dy as int, 2);
                    lemma_frame_index(dx as int, dy as int, 3);
                }
                self.frame.set(i, ((pixel & 0x1F) << 3u16) as u8);
                self.frame.set(i + 1, (((pixel >> 5u16) & 0x1F) << 3u16) as u8);
                self.frame.set(i + 2, (((pixel >> 10u16) & 0x1F) << 3u16) as u8);
                self.frame.set(i + 3, 255);
                proof {
                    assert(dy * 1280 + dx * 4 == i);
                    assert forall|j: int| 0 <= j < dy * 1280 + (dx + 1) * 4 implies #[trigger] self.frame@[j] == frame_byte(self.vram@, vram_x as int, vram_y as int, j) by {
                        if j >= i {
                            lemma_frame_index(dx as int, dy as int, j - i);
                        }
                    }
                }
                dx = dx + 1;
            }
            dy = dy + 1;
        }
    }
}

} // verus!
