use vstd::prelude::*;

verus! {

#[derive(Debug, PartialEq, Eq, Structural, Clone, Copy)]
pub enum PaletteDataColor {
    White,
    LightGray,
    DarkGray,
    Black,
}

/// The shade that a two-bit colour code selects.
pub open spec fn color_of(bits: u8) -> PaletteDataColor {
    if bits == 0 {
        PaletteDataColor::White
    } else if bits == 1 {
        PaletteDataColor::LightGray
    } else if bits == 2 {
        PaletteDataColor::DarkGray
    } else {
        PaletteDataColor::Black
    }
}

/// A palette register, decoded: colour index `i` takes bits `2i+1..2i` of the byte.
pub struct PaletteData {
    pub raw: u8,
    pub index_0_color: PaletteDataColor,
    pub index_1_color: PaletteDataColor,
    pub index_2_color: PaletteDataColor,
    pub index_3_color: PaletteDataColor,
}

fn bits_to_palette_data_color(bits: u8) -> (r: PaletteDataColor)
    requires
        bits < 4,
    ensures
        r == color_of(bits),
{
    match bits {
        0 => PaletteDataColor::White,
        1 => PaletteDataColor::LightGray,
        2 => PaletteDataColor::DarkGray,
        _ => PaletteDataColor::Black,
    }
}

impl PaletteData {
    pub fn init(control_register: u8) -> (r: PaletteData)
        ensures
            r.raw == control_register,
            r.index_0_color == color_of(control_register % 4),
            r.index_1_color == color_of((control_register / 4) % 4),
            r.index_2_color == color_of((control_register / 16) % 4),
            r.index_3_color == color_of((control_register / 64) % 4),
    {
        PaletteData {
            raw: control_register,
            index_0_color: bits_to_palette_data_color(control_register % 4),
            index_1_color: bits_to_palette_data_color((control_register / 4) % 4),
            index_2_color: bits_to_palette_data_color((control_register / 16) % 4),
            index_3_color: bits_to_palette_data_color((control_register / 64) % 4),
        }
    }

    /// The register byte the palette was decoded from.
    pub fn read(&self) -> (r: u8)
        ensures
            r == self.raw,
    {
        self.raw
    }
}

} // verus!
