//! Parameters that draw commands hand to the GPU backend: colours, vertices, texture
//! references and primitive shapes.
use vstd::prelude::*;
use crate::gpu::gpu_state::{DrawMode, DrawingArea, DrawingOffset, Mask, TextureWindow};

verus! {

/// 24-bit RGB colour from a command word.
#[derive(Debug, Clone, Copy, PartialEq, Eq, Structural)]
pub struct Colour {
    pub r: u8,
    pub g: u8,
    pub b: u8,
}

impl Colour {
    pub open spec fn spec_from(word: u32) -> Colour {
        Colour { r: (word & 0xFF) as u8, g: ((word >> 8u32) & 0xFF) as u8, b: ((word >> 16u32) & 0xFF) as u8 }
    }

    /// Red in bits 0..7, green 8..15, blue 16..23.
    pub fn from_word(word: u32) -> (r: Self)
        ensures r == Self::spec_from(word),
    {
        Self { r: (word & 0xFF) as u8, g: ((word >> 8u32) & 0xFF) as u8, b: ((word >> 16u32) & 0xFF) as u8 }
    }

    /// BGR555 for VRAM: the top five bits of each channel.
    pub fn to_u16(self) -> (r: u16)
        ensures r == ((self.r as u16 >> 3u16) | ((self.g as u16 >> 3u16) << 5u16) | ((self.b as u16 >> 3u16) << 10u16)),
    {
        (self.r as u16 >> 3u16) | ((self.g as u16 >> 3u16) << 5u16) | ((self.b as u16 >> 3u16) << 10u16)
    }
}

/// A colour read back from its BGR555 form keeps the top five bits of each channel.
pub proof fn lemma_colour_to_u16_channels(c: Colour)
    ensures
        (((c.r as u16 >> 3u16) | ((c.g as u16 >> 3u16) << 5u16) | ((c.b as u16 >> 3u16) << 10u16)) & 0x1F) == c.r as u16 >> 3u16,
        ((((c.r as u16 >> 3u16) | ((c.g as u16 >> 3u16) << 5u16) | ((c.b as u16 >> 3u16) << 10u16)) >> 5u16) & 0x1F) == c.g as u16 >> 3u16,
        (((c.r as u16 >> 3u16) | ((c.g as u16 >> 3u16) << 5u16) | ((c.b as u16 >> 3u16) << 10u16)) >> 10u16) == c.b as u16 >> 3u16,
{
    let (r, g, b) = (c.r as u16, c.g as u16, c.b as u16);
    assert(r < 256 && g < 256 && b < 256 ==> ((((r >> 3u16) | ((g >> 3u16) << 5u16) | ((b >> 3u16) << 10u16)) & 0x1F) == r >> 3u16
        && ((((r >> 3u16) | ((g >> 3u16) << 5u16) | ((b >> 3u16) << 10u16)) >> 5u16) & 0x1F) == g >> 3u16
        && (((r >> 3u16) | ((g >> 3u16) << 5u16) | ((b >> 3u16) << 10u16)) >> 10u16) == b >> 3u16)) by (bit_vector);
}

/// A vertex with signed coordinates (11-bit two's complement fields, -1024..1023).
#[derive(Debug, Clone, Copy, PartialEq, Eq, Structural)]
pub struct Vertex {
    pub x: i16,
    pub y: i16,
}

/// An 11-bit two's complement field read as a signed number.
pub open spec fn sign_extend_11(v: u32) -> i16 {
    if v >= 0x400 { (v - 0x800) as i16 } else { v as i16 }
}

/// The signed value of an 11-bit field (`v` below 800h).
fn signed_coordinate(v: u32) -> (r: i16)
    requires
        v < 0x800,
    ensures
        r == sign_extend_11(v),
        r as int == (if v >= 0x400 { v - 0x800 } else { v as int }),
{
    if v >= 0x400 {
        let w: i32 = v as i32 - 0x800;
        w as i16
    } else {
        v as i16
    }
}

impl Vertex {
    pub open spec fn spec_from(word: u32) -> Vertex {
        Vertex { x: sign_extend_11(word & 0x7FF), y: sign_extend_11((word >> 16u32) & 0x7FF) }
    }

    /// X in bits 0..10, Y in bits 16..26, each sign-extended.
    pub fn from_word(word: u32) -> (r: Self)
        ensures r == Self::spec_from(word),
    {
        assert(word & 0x7FF < 0x800 && (word >> 16u32) & 0x7FF < 0x800) by (bit_vector);
        Self { x: signed_coordinate(word & 0x7FF), y: signed_coordinate((word >> 16u32) & 0x7FF) }
    }
}

/// Texture page attribute embedded in polygon commands.
#[derive(Debug, Clone, Copy, PartialEq, Eq, Structural)]
pub struct TexPageAttr {
    pub x: u8,
    pub y: bool,
    pub semi_transparency: u8,
    pub colour_depth: u8,
    pub texture_disable: bool,
}

impl TexPageAttr {
    pub open spec fn spec_from(word: u32) -> TexPageAttr {
        TexPageAttr {
            x: (word & 0xF) as u8,
            y: (word >> 4u32) & 1 != 0,
            semi_transparency: ((word >> 5u32) & 3) as u8,
            colour_depth: ((word >> 7u32) & 3) as u8,
            texture_disable: (word >> 11u32) & 1 != 0,
        }
    }

    /// Page X (bits 0..3), Y (4), semi-transparency (5..6), colour depth (7..8), disable (11).
    pub fn from_word(word: u32) -> (r: Self)
        ensures r == Self::spec_from(word),
    {
        Self {
            x: (word & 0xF) as u8,
            y: ((word >> 4u32) & 1) != 0,
            semi_transparency: ((word >> 5u32) & 3) as u8,
            colour_depth: ((word >> 7u32) & 3) as u8,
            texture_disable: ((word >> 11u32) & 1) != 0,
        }
    }
}

/// UV texture coordinates, 8 bits each.
#[derive(Debug, Clone, Copy, PartialEq, Eq, Structural)]
pub struct Texcoord {
    pub u: u8,
    pub v: u8,
}

impl Texcoord {
    pub open spec fn spec_from(word: u32) -> Texcoord {
        Texcoord { u: (word & 0xFF) as u8, v: ((word >> 8u32) & 0xFF) as u8 }
    }

    /// U in bits 0..7, V in bits 8..15.
    pub fn from_word(word: u32) -> (r: Self)
        ensures r == Self::spec_from(word),
    {
        Self { u: (word & 0xFF) as u8, v: ((word >> 8u32) & 0xFF) as u8 }
    }
}

/// Colour look-up table position for 4/8-bit textures.
#[derive(Debug, Clone, Copy, PartialEq, Eq, Structural)]
pub struct Clut {
    pub x: u8,
    pub y: u16,
}

impl Clut {
    pub open spec fn spec_from(word: u16) -> Clut {
        Clut { x: (word & 0x3F) as u8, y: ((word >> 6u16) & 0x1FF) as u16 }
    }

    /// X in bits 0..5 (16-halfword units), Y in bits 6..14.
    pub fn from_word(word: u16) -> (r: Self)
        ensures r == Self::spec_from(word),
    {
        Self { x: (word & 0x3F) as u8, y: ((word >> 6u16) & 0x1FF) as u16 }
    }
}

/// Vertex of a flat (monochrome) polygon.
#[derive(Debug, Clone, Copy, PartialEq, Eq, Structural)]
pub struct FlatVertex {
    pub vertex: Vertex,
}

/// Vertex of a Gouraud-shaded polygon.
#[derive(Debug, Clone, Copy, PartialEq, Eq, Structural)]
pub struct ShadedVertex {
    pub vertex: Vertex,
    pub colour: Colour,
}

/// Vertex of a textured polygon.
#[derive(Debug, Clone, Copy, PartialEq, Eq, Structural)]
pub struct TexturedVertex {
    pub vertex: Vertex,
    pub texcoord: Texcoord,
}

/// Vertex of a shaded and textured polygon.
#[derive(Debug, Clone, Copy, PartialEq, Eq, Structural)]
pub struct ShadedTexturedVertex {
    pub vertex: Vertex,
    pub colour: Colour,
    pub texcoord: Texcoord,
}

/// The vertices of a triangle or a quad.
#[derive(Debug, Clone, Copy)]
pub enum PolygonVertices<V> {
    Tri(V, V, V),
    Quad(V, V, V, V),
}

/// Texture parameters of a textured polygon.
#[derive(Debug, Clone, Copy)]
pub struct TextureParams {
    pub clut: Clut,
    pub tex_page: TexPageAttr,
    pub raw_texture: bool,
}

/// A polygon for the backend to draw.
#[derive(Debug, Clone, Copy)]
pub enum Polygon {
    Monochrome { colour: Colour, vertices: PolygonVertices<FlatVertex>, semi_transparent: bool },
    Textured { colour: Colour, texture_params: TextureParams, vertices: PolygonVertices<TexturedVertex>, semi_transparent: bool },
    Shaded { vertices: PolygonVertices<ShadedVertex>, semi_transparent: bool },
    ShadedTextured { texture_params: TextureParams, vertices: PolygonVertices<ShadedTexturedVertex>, semi_transparent: bool },
}

/// A point of a monochrome line.
#[derive(Debug, Clone, Copy, PartialEq, Eq, Structural)]
pub struct LinePoint {
    pub vertex: Vertex,
}

/// A point of a shaded line.
#[derive(Debug, Clone, Copy, PartialEq, Eq, Structural)]
pub struct ColouredLinePoint {
    pub vertex: Vertex,
    pub colour: Colour,
}

/// A line or poly-line for the backend to draw.
#[derive(Debug)]
pub enum Line {
    Monochrome { colour: Colour, vertices: Vec<LinePoint>, semi_transparent: bool },
    Coloured { vertices: Vec<ColouredLinePoint>, semi_transparent: bool },
}

/// Size of a rectangle: variable, or fixed 1x1, 8x8 or 16x16.
#[derive(Debug, Clone, Copy, PartialEq, Eq, Structural)]
pub enum RectSize {
    Variable { w: u16, h: u16 },
    Fixed1x1,
    Fixed8x8,
    Fixed16x16,
}

/// A rectangle for the backend to draw.
#[derive(Debug, Clone, Copy)]
pub enum Rect {
    Monochrome { colour: Colour, pos: Vertex, size: RectSize, semi_transparent: bool },
    Textured { colour: Colour, pos: Vertex, texcoord: Texcoord, clut: Clut, raw: bool, size: RectSize, semi_transparent: bool },
}

/// The part of the GPU state that draw calls need.
#[derive(Debug, Clone, Copy)]
pub struct DrawParams {
    pub drawing_area: DrawingArea,
    pub drawing_offset: DrawingOffset,
    pub mask: Mask,
    pub draw_mode: DrawMode,
    pub semi_transparency: u8,
    pub texture_window: TextureWindow,
}

} // verus!
