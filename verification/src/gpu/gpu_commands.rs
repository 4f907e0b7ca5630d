//! GP0 command identities and how many parameter words each takes.
use vstd::prelude::*;

verus! {

/// GP0 commands, identified by the top byte of the first command word.
#[derive(Debug, Clone, Copy, PartialEq, Eq, Structural)]
pub enum Gp0Command {
    Nop,
    ClearCache,
    FillRect,
    Unknown0x03,
    RaiseIrq,
    MonochromeTri,
    MonochromeQuad,
    TexturedTri,
    TexturedQuad,
    ShadedTri,
    ShadedQuad,
    ShadedTexturedTri,
    ShadedTexturedQuad,
    MonochromeLine,
    MonochromePolyline,
    ShadedLine,
    ShadedPolyline,
    VariableMonochromeRectangle,
    MonochromeRectangle,
    VariableTexturedRectangle,
    TexturedRectangle,
    CopyRect,
    SendRectToVram,
    CopyRectToCpu,
    SetRenderingAttribute,
    Unknown(u8),
}

/// The command a GP0 word starts: bits 29..31 select the class; polygons use bit 28 (gouraud),
/// 27 (quad) and 26 (textured); lines bit 28 (gouraud) and 27 (poly-line); rectangles bits
/// 27..28 (size) and 26 (textured); classes 0 and 7 go by the full command byte.
pub open spec fn gp0_command_spec(word: u32) -> Gp0Command {
    let top3 = (word >> 29u32) & 7;
    let cmd = (word >> 24u32) as u8;
    let b28 = (word >> 28u32) & 1 != 0;
    let b27 = (word >> 27u32) & 1 != 0;
    let b26 = (word >> 26u32) & 1 != 0;
    if top3 == 0 {
        if cmd == 0x01 { Gp0Command::ClearCache }
        else if cmd == 0x02 { Gp0Command::FillRect }
        else if cmd == 0x03 { Gp0Command::Unknown0x03 }
        else if cmd == 0x1F { Gp0Command::RaiseIrq }
        else { Gp0Command::Nop }
    } else if top3 == 1 {
        if !b27 && !b26 && !b28 { Gp0Command::MonochromeTri }
        else if !b27 && !b26 && b28 { Gp0Command::ShadedTri }
        else if b27 && !b26 && !b28 { Gp0Command::MonochromeQuad }
        else if b27 && !b26 && b28 { Gp0Command::ShadedQuad }
        else if !b27 && b26 && !b28 { Gp0Command::TexturedTri }
        else if !b27 && b26 && b28 { Gp0Command::ShadedTexturedTri }
        else if b27 && b26 && !b28 { Gp0Command::TexturedQuad }
        else { Gp0Command::ShadedTexturedQuad }
    } else if top3 == 2 {
        if !b27 && !b28 { Gp0Command::MonochromeLine }
        else if b27 && !b28 { Gp0Command::MonochromePolyline }
        else if !b27 && b28 { Gp0Command::ShadedLine }
        else { Gp0Command::ShadedPolyline }
    } else if top3 == 3 {
        let size = (word >> 27u32) & 3;
        if size == 0 && !b26 { Gp0Command::VariableMonochromeRectangle }
        else if size == 0 { Gp0Command::VariableTexturedRectangle }
        else if !b26 { Gp0Command::MonochromeRectangle }
        else { Gp0Command::TexturedRectangle }
    } else if top3 == 4 {
        Gp0Command::CopyRect
    } else if top3 == 5 {
        Gp0Command::SendRectToVram
    } else if top3 == 6 {
        Gp0Command::CopyRectToCpu
    } else if 0xE1 <= cmd <= 0xE6 {
        Gp0Command::SetRenderingAttribute
    } else {
        Gp0Command::Unknown(cmd)
    }
}

/// Decode the command that the first word of a GP0 packet starts.
pub fn decode_gp0_command(word: u32) -> (r: Gp0Command)
    ensures
        r == gp0_command_spec(word),
{
    let top3 = (word >> 29u32) & 7;
    let cmd = (word >> 24u32) as u8;
    let b28 = (word >> 28u32) & 1 != 0;
    let b27 = (word >> 27u32) & 1 != 0;
    let b26 = (word >> 26u32) & 1 != 0;
    if top3 == 0 {
        if cmd == 0x01 {
            Gp0Command::ClearCache
        } else if cmd == 0x02 {
            Gp0Command::FillRect
        } else if cmd == 0x03 {
            Gp0Command::Unknown0x03
        } else if cmd == 0x1F {
            Gp0Command::RaiseIrq
        } else {
            Gp0Command::Nop
        }
    } else if top3 == 1 {
        match (b27, b26, b28) {
            (false, false, false) => Gp0Command::MonochromeTri,
            (false, false, true) => Gp0Command::ShadedTri,
            (true, false, false) => Gp0Command::MonochromeQuad,
            (true, false, true) => Gp0Command::ShadedQuad,
            (false, true, false) => Gp0Command::TexturedTri,
            (false, true, true) => Gp0Command::ShadedTexturedTri,
            (true, true, false) => Gp0Command::TexturedQuad,
            (true, true, true) => Gp0Command::ShadedTexturedQuad,
        }
    } else if top3 == 2 {
        match (b27, b28) {
            (false, false) => Gp0Command::MonochromeLine,
            (true, false) => Gp0Command::MonochromePolyline,
            (false, true) => Gp0Command::ShadedLine,
            (true, true) => Gp0Command::ShadedPolyline,
        }
    } else if top3 == 3 {
        let size = (word >> 27u32) & 3;
        if size == 0 && !b26 {
            Gp0Command::VariableMonochromeRectangle
        } else if size == 0 {
            Gp0Command::VariableTexturedRectangle
        } else if !b26 {
            Gp0Command::MonochromeRectangle
        } else {
            Gp0Command::TexturedRectangle
        }
    } else if top3 == 4 {
        Gp0Command::CopyRect
    } else if top3 == 5 {
        Gp0Command::SendRectToVram
    } else if top3 == 6 {
        Gp0Command::CopyRectToCpu
    } else if cmd >= 0xE1 && cmd <= 0xE6 {
        Gp0Command::SetRenderingAttribute
    } else {
        Gp0Command::Unknown(cmd)
    }
}

/// Marker for the variable-length poly-line commands, which end at a terminator word.
pub const VARIABLE_LENGTH: usize = usize::MAX;

/// Parameter words following the command word.
pub open spec fn parameter_count_spec(c: Gp0Command) -> usize {
    match c {
        Gp0Command::FillRect => 2,
        Gp0Command::MonochromeTri => 3,
        Gp0Command::MonochromeQuad => 4,
        Gp0Command::TexturedTri => 6,
        Gp0Command::TexturedQuad => 8,
        Gp0Command::ShadedTri => 5,
        Gp0Command::ShadedQuad => 7,
        Gp0Command::ShadedTexturedTri => 8,
        Gp0Command::ShadedTexturedQuad => 11,
        Gp0Command::MonochromeLine => 2,
        Gp0Command::MonochromePolyline => VARIABLE_LENGTH,
        Gp0Command::ShadedLine => 3,
        Gp0Command::ShadedPolyline => VARIABLE_LENGTH,
        Gp0Command::VariableMonochromeRectangle => 2,
        Gp0Command::MonochromeRectangle => 1,
        Gp0Command::VariableTexturedRectangle => 3,
        Gp0Command::TexturedRectangle => 2,
        Gp0Command::CopyRect => 3,
        Gp0Command::SendRectToVram => 2,
        Gp0Command::CopyRectToCpu => 2,
        _ => 0,
    }
}

/// How many words after the command word are its parameters (`VARIABLE_LENGTH` for poly-lines).
pub fn gp0_command_parameter_count(command: &Gp0Command) -> (r: usize)
    ensures
        r == parameter_count_spec(*command),
{
    match command {
        Gp0Command::FillRect => 2,
        Gp0Command::MonochromeTri => 3,
        Gp0Command::MonochromeQuad => 4,
        Gp0Command::TexturedTri => 6,
        Gp0Command::TexturedQuad => 8,
        Gp0Command::ShadedTri => 5,
        Gp0Command::ShadedQuad => 7,
        Gp0Command::ShadedTexturedTri => 8,
        Gp0Command::ShadedTexturedQuad => 11,
        Gp0Command::MonochromeLine => 2,
        Gp0Command::MonochromePolyline => VARIABLE_LENGTH,
        Gp0Command::ShadedLine => 3,
        Gp0Command::ShadedPolyline => VARIABLE_LENGTH,
        Gp0Command::VariableMonochromeRectangle => 2,
        Gp0Command::MonochromeRectangle => 1,
        Gp0Command::VariableTexturedRectangle => 3,
        Gp0Command::TexturedRectangle => 2,
        Gp0Command::CopyRect => 3,
        Gp0Command::SendRectToVram => 2,
        Gp0Command::CopyRectToCpu => 2,
        _ => 0,
    }
}

/// Every command but the two poly-lines has a fixed packet of at most 12 words.
pub proof fn lemma_fixed_packets_are_short(word: u32)
    ensures
        gp0_command_spec(word) != Gp0Command::MonochromePolyline && gp0_command_spec(word)
            != Gp0Command::ShadedPolyline ==> parameter_count_spec(gp0_command_spec(word)) <= 11,
{
}

} // verus!
