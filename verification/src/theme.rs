//! The colors of the application.

use vstd::prelude::*;

verus! {

/// A color as its red, green and blue parts.
#[derive(Debug, Clone, Copy, PartialEq, Eq, Structural)]
pub struct Rgb {
    pub r: u8,
    pub g: u8,
    pub b: u8,
}

impl Rgb {
    /// The color written as `0xRRGGBB`.
    pub open spec fn of_hex(hex: u32) -> Rgb {
        Rgb {
            r: ((hex / 0x1_0000) % 0x100) as u8,
            g: ((hex / 0x100) % 0x100) as u8,
            b: (hex % 0x100) as u8,
        }
    }

    /// The color written as `0xRRGGBB`; higher bits of `hex` are not looked at.
    pub fn from_hex(hex: u32) -> (color: Rgb)
        ensures
            color == Self::of_hex(hex),
    {
        Rgb {
            r: ((hex / 0x1_0000) % 0x100) as u8,
            g: ((hex / 0x100) % 0x100) as u8,
            b: (hex % 0x100) as u8,
        }
    }
}

/// Colors in the palette of the project bars.
pub const PROJECT_COLOR_COUNT: usize = 12;

/// Primary background.
pub const BG_DARK: u32 = 0x181616;

/// Background of areas of medium contrast.
pub const BG_MEDIUM: u32 = 0x1D1C19;

/// Background of highlighted areas.
pub const BG_HIGHLIGHT: u32 = 0x282727;

/// Background of dimmed areas.
pub const BG_DIM: u32 = 0x121212;

/// Primary text.
pub const FG_PRIMARY: u32 = 0xC5C9C5;

/// Secondary text.
pub const FG_DIM: u32 = 0x727169;

/// Hints and placeholders.
pub const FG_HINT: u32 = 0x545454;

pub const RED: u32 = 0xC4746E;

pub const RED_LIGHT: u32 = 0xE46B6B;

pub const GREEN: u32 = 0x8A9A7B;

pub const GREEN_LIGHT: u32 = 0x87A987;

pub const YELLOW: u32 = 0xC4B28A;

pub const ORANGE: u32 = 0xB6927B;

pub const BLUE: u32 = 0x8BA4B0;

pub const BLUE_LIGHT: u32 = 0x7FB4CA;

pub const PURPLE: u32 = 0x957FB8;

pub const MAGENTA: u32 = 0xD27E99;

/// Borders and separators.
pub const BORDER: u32 = 0x727169;

pub const BORDER_DIM: u32 = 0x3A3A3A;

pub const BORDER_ACCENT: u32 = 0x8BA4B0;

/// Ash particles at full brightness.
pub const PARTICLE_ASH: u32 = 0x727169;

/// Dust particles at full brightness.
pub const PARTICLE_DUST: u32 = 0x545454;

/// The palette of the project bars.
pub open spec fn project_palette() -> Seq<Rgb> {
    seq![
        Rgb::of_hex(0x7AA2F7),
        Rgb::of_hex(0x9ECE6A),
        Rgb::of_hex(0xE0AF68),
        Rgb::of_hex(0xBB9AF7),
        Rgb::of_hex(0xFF9E64),
        Rgb::of_hex(0xF7768E),
        Rgb::of_hex(0x73DACA),
        Rgb::of_hex(0xFF757F),
        Rgb::of_hex(0xC0CAF5),
        Rgb::of_hex(0xA9DC76),
        Rgb::of_hex(0xF2CDCD),
        Rgb::of_hex(0x89DDFF),
    ]
}

/// The color of the bar of the project at `index` of the list: the
/// palette is gone through in order and begun again after its last color.
pub open spec fn project_color(index: usize) -> Rgb {
    project_palette()[(index % PROJECT_COLOR_COUNT) as int]
}

/// A color of half the brightness.
pub open spec fn halved(color: Rgb) -> Rgb {
    Rgb { r: color.r / 2, g: color.g / 2, b: color.b / 2 }
}

fn palette() -> (colors: &'static [u32])
    ensures
        colors@.len() == PROJECT_COLOR_COUNT,
        forall|i: int| 0 <= i < colors@.len() ==> Rgb::of_hex(#[trigger] colors@[i]) == project_palette()[i],
{
    &[
        0x7AA2F7,
        0x9ECE6A,
        0xE0AF68,
        0xBB9AF7,
        0xFF9E64,
        0xF7768E,
        0x73DACA,
        0xFF757F,
        0xC0CAF5,
        0xA9DC76,
        0xF2CDCD,
        0x89DDFF,
    ]
}

/// The color of the project at `index`; the colors repeat.
pub fn get_project_color(index: usize) -> (color: Rgb)
    ensures
        color == project_color(index),
{
    let colors = palette();
    Rgb::from_hex(colors[index % PROJECT_COLOR_COUNT])
}

/// A dimmed version of the color of the project at `index`.
pub fn get_project_color_dim(index: usize) -> (color: Rgb)
    ensures
        color == halved(project_color(index)),
{
    let base = get_project_color(index);
    Rgb { r: base.r / 2, g: base.g / 2, b: base.b / 2 }
}

/// The palette repeats after twelve projects.
pub proof fn lemma_palette_repeats(index: usize)
    requires
        index + PROJECT_COLOR_COUNT <= usize::MAX,
    ensures
        project_color((index + PROJECT_COLOR_COUNT) as usize) == project_color(index),
{
    vstd::arithmetic::div_mod::lemma_mod_add_multiples_vanish(index as int, 12);
}

} // verus!
