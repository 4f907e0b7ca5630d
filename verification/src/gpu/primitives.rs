//! Polygons assembled from the words of a GP0 polygon command: the command word (colour,
//! flags) followed by one group of words per vertex.
use vstd::prelude::*;
use crate::gpu::rendering_parameters::{
    Clut, Colour, FlatVertex, Polygon, PolygonVertices, ShadedTexturedVertex, ShadedVertex, TexPageAttr,
    Texcoord, TextureParams, TexturedVertex, Vertex,
};

verus! {

/// Words a polygon command takes: per vertex one word (monochrome), two (shaded or textured)
/// or three (shaded and textured), plus the command word where it is not the first vertex's.
pub open spec fn polygon_words(shaded: bool, textured: bool, quad: bool) -> int {
    let n: int = if quad { 4 } else { 3 };
    if shaded && textured { 3 * n } else if shaded { 2 * n } else if textured { 1 + 2 * n } else { 1 + n }
}

/// Bit 1 of the command byte: semi-transparent.
pub open spec fn semi_transparent_spec(w0: u32) -> bool {
    ((w0 >> 24u32) as u8) & 2 != 0
}

/// Pick three or four vertices.
pub open spec fn corners<V>(quad: bool, v: spec_fn(int) -> V) -> PolygonVertices<V> {
    if quad { PolygonVertices::Quad(v(0), v(1), v(2), v(3)) } else { PolygonVertices::Tri(v(0), v(1), v(2)) }
}

/// The texture parameters: CLUT in the high half of the first texcoord word, texture page
/// in the high half of the second, raw texture in bit 0 of the command byte.
pub open spec fn texture_params_spec(w0: u32, clut_word: u32, page_word: u32) -> TextureParams {
    TextureParams {
        clut: Clut::spec_from((clut_word >> 16u32) as u16),
        tex_page: TexPageAttr::spec_from(page_word >> 16u32),
        raw_texture: ((w0 >> 24u32) as u8) & 1 != 0,
    }
}

/// Monochrome: colour in word 0, vertex i in word 1 + i.
pub open spec fn monochrome_polygon_spec(b: Seq<u32>, quad: bool) -> Polygon {
    Polygon::Monochrome {
        colour: Colour::spec_from(b[0]),
        vertices: corners(quad, |i: int| FlatVertex { vertex: Vertex::spec_from(b[1 + i]) }),
        semi_transparent: semi_transparent_spec(b[0]),
    }
}

/// Shaded: vertex i has its colour in word 2i and its position in word 2i + 1.
pub open spec fn shaded_polygon_spec(b: Seq<u32>, quad: bool) -> Polygon {
    Polygon::Shaded {
        vertices: corners(quad, |i: int| ShadedVertex { vertex: Vertex::spec_from(b[2 * i + 1]), colour: Colour::spec_from(b[2 * i]) }),
        semi_transparent: semi_transparent_spec(b[0]),
    }
}

/// Textured: colour in word 0; vertex i has its position in word 2i + 1 and its texcoord in
/// word 2i + 2 (whose high halves carry the CLUT and the texture page).
pub open spec fn textured_polygon_spec(b: Seq<u32>, quad: bool) -> Polygon {
    Polygon::Textured {
        colour: Colour::spec_from(b[0]),
        texture_params: texture_params_spec(b[0], b[2], b[4]),
        vertices: corners(quad, |i: int| TexturedVertex { vertex: Vertex::spec_from(b[2 * i + 1]), texcoord: Texcoord::spec_from(b[2 * i + 2]) }),
        semi_transparent: semi_transparent_spec(b[0]),
    }
}

/// Shaded and textured: vertex i has its colour in word 3i, position in 3i + 1 and texcoord
/// in 3i + 2 (CLUT with the first, texture page with the second).
pub open spec fn shaded_textured_polygon_spec(b: Seq<u32>, quad: bool) -> Polygon {
    Polygon::ShadedTextured {
        texture_params: texture_params_spec(b[0], b[2], b[5]),
        vertices: corners(quad, |i: int| ShadedTexturedVertex {
            vertex: Vertex::spec_from(b[3 * i + 1]),
            colour: Colour::spec_from(b[3 * i]),
            texcoord: Texcoord::spec_from(b[3 * i + 2]),
        }),
        semi_transparent: semi_transparent_spec(b[0]),
    }
}

fn semi_transparent(w0: u32) -> (r: bool)
    ensures r == semi_transparent_spec(w0),
{
    ((w0 >> 24u32) as u8) & 2 != 0
}

fn texture_params(w0: u32, clut_word: u32, page_word: u32) -> (r: TextureParams)
    ensures r == texture_params_spec(w0, clut_word, page_word),
{
    TextureParams {
        clut: Clut::from_word((clut_word >> 16u32) as u16),
        tex_page: TexPageAttr::from_word(page_word >> 16u32),
        raw_texture: ((w0 >> 24u32) as u8) & 1 != 0,
    }
}

/// The monochrome triangle (`quad` false) or quad a command's words describe.
pub fn monochrome_polygon(b: &Vec<u32>, quad: bool) -> (r: Polygon)
    requires b@.len() >= polygon_words(false, false, quad),
    ensures r == monochrome_polygon_spec(b@, quad),
{
    let v0 = FlatVertex { vertex: Vertex::from_word(b[1]) };
    let v1 = FlatVertex { vertex: Vertex::from_word(b[2]) };
    let v2 = FlatVertex { vertex: Vertex::from_word(b[3]) };
    let vertices = if quad {
        PolygonVertices::Quad(v0, v1, v2, FlatVertex { vertex: Vertex::from_word(b[4]) })
    } else {
        PolygonVertices::Tri(v0, v1, v2)
    };
    Polygon::Monochrome { colour: Colour::from_word(b[0]), vertices, semi_transparent: semi_transparent(b[0]) }
}

/// The shaded triangle or quad a command's words describe.
pub fn shaded_polygon(b: &Vec<u32>, quad: bool) -> (r: Polygon)
    requires b@.len() >= polygon_words(true, false, quad),
    ensures r == shaded_polygon_spec(b@, quad),
{
    let v0 = ShadedVertex { vertex: Vertex::from_word(b[1]), colour: Colour::from_word(b[0]) };
    let v1 = ShadedVertex { vertex: Vertex::from_word(b[3]), colour: Colour::from_word(b[2]) };
    let v2 = ShadedVertex { vertex: Vertex::from_word(b[5]), colour: Colour::from_word(b[4]) };
    let vertices = if quad {
        PolygonVertices::Quad(v0, v1, v2, ShadedVertex { vertex: Vertex::from_word(b[7]), colour: Colour::from_word(b[6]) })
    } else {
        PolygonVertices::Tri(v0, v1, v2)
    };
    Polygon::Shaded { vertices, semi_transparent: semi_transparent(b[0]) }
}

/// The textured triangle or quad a command's words describe.
pub fn textured_polygon(b: &Vec<u32>, quad: bool) -> (r: Polygon)
    requires b@.len() >= polygon_words(false, true, quad),
    ensures r == textured_polygon_spec(b@, quad),
{
    let v0 = TexturedVertex { vertex: Vertex::from_word(b[1]), texcoord: Texcoord::from_word(b[2]) };
    let v1 = TexturedVertex { vertex: Vertex::from_word(b[3]), texcoord: Texcoord::from_word(b[4]) };
    let v2 = TexturedVertex { vertex: Vertex::from_word(b[5]), texcoord: Texcoord::from_word(b[6]) };
    let vertices = if quad {
        PolygonVertices::Quad(v0, v1, v2, TexturedVertex { vertex: Vertex::from_word(b[7]), texcoord: Texcoord::from_word(b[8]) })
    } else {
        PolygonVertices::Tri(v0, v1, v2)
    };
    Polygon::Textured {
        colour: Colour::from_word(b[0]),
        texture_params: texture_params(b[0], b[2], b[4]),
        vertices,
        semi_transparent: semi_transparent(b[0]),
    }
}

/// The shaded and textured triangle or quad a command's words describe.
pub fn shaded_textured_polygon(b: &Vec<u32>, quad: bool) -> (r: Polygon)
    requires b@.len() >= polygon_words(true, true, quad),
    ensures r == shaded_textured_polygon_spec(b@, quad),
{
    let v0 = ShadedTexturedVertex { vertex: Vertex::from_word(b[1]), colour: Colour::from_word(b[0]), texcoord: Texcoord::from_word(b[2]) };
    let v1 = ShadedTexturedVertex { vertex: Vertex::from_word(b[4]), colour: Colour::from_word(b[3]), texcoord: Texcoord::from_word(b[5]) };
    let v2 = ShadedTexturedVertex { vertex: Vertex::from_word(b[7]), colour: Colour::from_word(b[6]), texcoord: Texcoord::from_word(b[8]) };
    let vertices = if quad {
        PolygonVertices::Quad(v0, v1, v2, ShadedTexturedVertex { vertex: Vertex::from_word(b[10]), colour: Colour::from_word(b[9]), texcoord: Texcoord::from_word(b[11]) })
    } else {
        PolygonVertices::Tri(v0, v1, v2)
    };
    Polygon::ShadedTextured {
        texture_params: texture_params(b[0], b[2], b[5]),
        vertices,
        semi_transparent: semi_transparent(b[0]),
    }
}

} // verus!
