//! RGBA colors with fixed-point components, blended component-wise.

use crate::fx::{fx_ratio_val, Fx, FX_ONE_RAW};
use crate::interpolate::Interpolate;
use vstd::prelude::*;
use vstd::string::StringSliceAdditionalSpecFns;

verus! {

/// ASCII `#`, the hexadecimal color prefix.
pub const HASH: u8 = 35;

/// ASCII `0`.
pub const DIGIT_ZERO: u8 = 48;

/// ASCII `9`.
pub const DIGIT_NINE: u8 = 57;

/// ASCII `a`.
pub const LOWER_A: u8 = 97;

/// ASCII `f`.
pub const LOWER_F: u8 = 102;

/// ASCII `A`.
pub const UPPER_A: u8 = 65;

/// ASCII `F`.
pub const UPPER_F: u8 = 70;

/// An RGBA color; each component nominally lies in `[0, 1]`, where one is
/// full intensity (or full opacity for `a`).
#[derive(Clone, Copy, Debug, PartialEq, Eq, Structural)]
pub struct Color {
    /// Amount of red in the color.
    pub r: Fx,
    /// Amount of green in the color.
    pub g: Fx,
    /// Amount of blue in the color.
    pub b: Fx,
    /// How opaque this color is: zero is completely transparent, one is
    /// fully opaque.
    pub a: Fx,
}

/// The value of a hexadecimal digit byte, or a negative marker for any
/// other byte.
pub open spec fn hex_val(c: u8) -> int {
    if DIGIT_ZERO <= c <= DIGIT_NINE {
        c as int - DIGIT_ZERO as int
    } else if LOWER_A <= c <= LOWER_F {
        c as int - LOWER_A as int + 10
    } else if UPPER_A <= c <= UPPER_F {
        c as int - UPPER_A as int + 10
    } else {
        -1
    }
}

/// A color channel from a byte value in `[0, 255]`.
pub open spec fn channel_val(v: int) -> Fx {
    Fx { raw: fx_ratio_val(v, 255) as i64 }
}

/// Fully opaque white.
pub open spec fn white_spec() -> Color {
    Color {
        r: Fx { raw: FX_ONE_RAW },
        g: Fx { raw: FX_ONE_RAW },
        b: Fx { raw: FX_ONE_RAW },
        a: Fx { raw: FX_ONE_RAW },
    }
}

/// Fully opaque black.
pub open spec fn black_spec() -> Color {
    Color { r: Fx { raw: 0 }, g: Fx { raw: 0 }, b: Fx { raw: 0 }, a: Fx { raw: FX_ONE_RAW } }
}

/// Fully transparent white.
pub open spec fn transparent_white_spec() -> Color {
    Color {
        r: Fx { raw: FX_ONE_RAW },
        g: Fx { raw: FX_ONE_RAW },
        b: Fx { raw: FX_ONE_RAW },
        a: Fx { raw: 0 },
    }
}

/// Fully opaque red.
pub open spec fn red_spec() -> Color {
    Color { r: Fx { raw: FX_ONE_RAW }, g: Fx { raw: 0 }, b: Fx { raw: 0 }, a: Fx { raw: FX_ONE_RAW } }
}

/// Fully opaque green.
pub open spec fn green_spec() -> Color {
    Color { r: Fx { raw: 0 }, g: Fx { raw: FX_ONE_RAW }, b: Fx { raw: 0 }, a: Fx { raw: FX_ONE_RAW } }
}

/// Fully opaque blue.
pub open spec fn blue_spec() -> Color {
    Color { r: Fx { raw: 0 }, g: Fx { raw: 0 }, b: Fx { raw: FX_ONE_RAW }, a: Fx { raw: FX_ONE_RAW } }
}

/// The color a string names: `#rgb`, `#rgba`, `#rrggbb` and `#rrggbbaa`
/// hexadecimal forms, or one of the recognized color names. Anything else
/// is no color.
pub open spec fn parse_spec(s: &str) -> Option<Color> {
    let bytes = s.spec_bytes();
    if bytes.len() == 4 && bytes[0] == HASH {
        if hex_val(bytes[1]) >= 0 && hex_val(bytes[2]) >= 0 && hex_val(bytes[3]) >= 0 {
            Some(
                Color {
                    r: channel_val(17 * hex_val(bytes[1])),
                    g: channel_val(17 * hex_val(bytes[2])),
                    b: channel_val(17 * hex_val(bytes[3])),
                    a: Fx { raw: FX_ONE_RAW },
                },
            )
        } else {
            None
        }
    } else if bytes.len() == 5 && bytes[0] == HASH {
        if hex_val(bytes[1]) >= 0 && hex_val(bytes[2]) >= 0 && hex_val(bytes[3]) >= 0 && hex_val(
            bytes[4],
        ) >= 0 {
            Some(
                Color {
                    r: channel_val(17 * hex_val(bytes[1])),
                    g: channel_val(17 * hex_val(bytes[2])),
                    b: channel_val(17 * hex_val(bytes[3])),
                    a: channel_val(17 * hex_val(bytes[4])),
                },
            )
        } else {
            None
        }
    } else if bytes.len() == 7 && bytes[0] == HASH {
        if hex_val(bytes[1]) >= 0 && hex_val(bytes[2]) >= 0 && hex_val(bytes[3]) >= 0 && hex_val(
            bytes[4],
        ) >= 0 && hex_val(bytes[5]) >= 0 && hex_val(bytes[6]) >= 0 {
            Some(
                Color {
                    r: channel_val(16 * hex_val(bytes[1]) + hex_val(bytes[2])),
                    g: channel_val(16 * hex_val(bytes[3]) + hex_val(bytes[4])),
                    b: channel_val(16 * hex_val(bytes[5]) + hex_val(bytes[6])),
                    a: Fx { raw: FX_ONE_RAW },
                },
            )
        } else {
            None
        }
    } else if bytes.len() == 9 && bytes[0] == HASH {
        if hex_val(bytes[1]) >= 0 && hex_val(bytes[2]) >= 0 && hex_val(bytes[3]) >= 0 && hex_val(
            bytes[4],
        ) >= 0 && hex_val(bytes[5]) >= 0 && hex_val(bytes[6]) >= 0 && hex_val(bytes[7]) >= 0
            && hex_val(bytes[8]) >= 0 {
            Some(
                Color {
                    r: channel_val(16 * hex_val(bytes[1]) + hex_val(bytes[2])),
                    g: channel_val(16 * hex_val(bytes[3]) + hex_val(bytes[4])),
                    b: channel_val(16 * hex_val(bytes[5]) + hex_val(bytes[6])),
                    a: channel_val(16 * hex_val(bytes[7]) + hex_val(bytes[8])),
                },
            )
        } else {
            None
        }
    } else if s@ == "black"@ {
        Some(black_spec())
    } else if s@ == "white"@ {
        Some(white_spec())
    } else if s@ == "transparent"@ {
        Some(transparent_white_spec())
    } else if s@ == "transparent white"@ || s@ == "transparent_white"@ {
        Some(transparent_white_spec())
    } else if s@ == "transparent black"@ || s@ == "transparent_black"@ {
        Some(transparent_white_spec())
    } else if s@ == "red"@ {
        Some(red_spec())
    } else if s@ == "green"@ {
        Some(green_spec())
    } else if s@ == "blue"@ {
        Some(blue_spec())
    } else {
        None
    }
}

fn hex_digit(c: u8) -> (r: Option<u8>)
    ensures
        hex_val(c) >= 0 ==> r == Some(hex_val(c) as u8),
        hex_val(c) < 0 ==> r is None,
{
    if DIGIT_ZERO <= c && c <= DIGIT_NINE {
        Some(c - DIGIT_ZERO)
    } else if LOWER_A <= c && c <= LOWER_F {
        Some(c - LOWER_A + 10)
    } else if UPPER_A <= c && c <= UPPER_F {
        Some(c - UPPER_A + 10)
    } else {
        None
    }
}

fn channel(v: u64) -> (r: Fx)
    requires
        v <= 255,
    ensures
        r == channel_val(v as int),
{
    Fx::ratio(v, 255)
}

fn str_eq(a: &str, b: &str) -> (r: bool)
    ensures
        r == (a@ == b@),
{
    let oa = a.to_owned();
    let ob = b.to_owned();
    oa == ob
}

impl Color {
    /// Builds a color directly from four components.
    pub fn from_raw(r: Fx, g: Fx, b: Fx, a: Fx) -> (c: Color)
        ensures
            c == (Color { r, g, b, a }),
    {
        Color { r, g, b, a }
    }

    /// Opaque white.
    pub fn white() -> (c: Color)
        ensures
            c == white_spec(),
    {
        Color { r: Fx::one(), g: Fx::one(), b: Fx::one(), a: Fx::one() }
    }

    /// Opaque black.
    pub fn black() -> (c: Color)
        ensures
            c == black_spec(),
    {
        Color { r: Fx::zero(), g: Fx::zero(), b: Fx::zero(), a: Fx::one() }
    }

    /// Opaque red.
    pub fn red() -> (c: Color)
        ensures
            c == red_spec(),
    {
        Color { r: Fx::one(), g: Fx::zero(), b: Fx::zero(), a: Fx::one() }
    }

    /// Opaque green.
    pub fn green() -> (c: Color)
        ensures
            c == green_spec(),
    {
        Color { r: Fx::zero(), g: Fx::one(), b: Fx::zero(), a: Fx::one() }
    }

    /// Opaque blue.
    pub fn blue() -> (c: Color)
        ensures
            c == blue_spec(),
    {
        Color { r: Fx::zero(), g: Fx::zero(), b: Fx::one(), a: Fx::one() }
    }

    /// Transparent white.
    pub fn transparent() -> (c: Color)
        ensures
            c == transparent_white_spec(),
    {
        Color { r: Fx::one(), g: Fx::one(), b: Fx::one(), a: Fx::zero() }
    }

    /// Reads a color from a string: hexadecimal `#rgb`, `#rgba`, `#rrggbb`
    /// or `#rrggbbaa`, or a recognized color name.
    pub fn parse(s: &str) -> (r: Option<Color>)
        ensures
            r == parse_spec(s),
    {
        let bytes = s.as_bytes();
        if bytes.len() == 4 && bytes[0] == HASH {
            match (hex_digit(bytes[1]), hex_digit(bytes[2]), hex_digit(bytes[3])) {
                (Some(r), Some(g), Some(b)) => Some(
                    Color {
                        r: channel(17 * (r as u64)),
                        g: channel(17 * (g as u64)),
                        b: channel(17 * (b as u64)),
                        a: Fx::one(),
                    },
                ),
                _ => None,
            }
        } else if bytes.len() == 5 && bytes[0] == HASH {
            match (hex_digit(bytes[1]), hex_digit(bytes[2]), hex_digit(bytes[3]), hex_digit(
                bytes[4],
            )) {
                (Some(r), Some(g), Some(b), Some(a)) => Some(
                    Color {
                        r: channel(17 * (r as u64)),
                        g: channel(17 * (g as u64)),
                        b: channel(17 * (b as u64)),
                        a: channel(17 * (a as u64)),
                    },
                ),
                _ => None,
            }
        } else if bytes.len() == 7 && bytes[0] == HASH {
            match (hex_digit(bytes[1]), hex_digit(bytes[2]), hex_digit(bytes[3]), hex_digit(
                bytes[4],
            ), hex_digit(bytes[5]), hex_digit(bytes[6])) {
                (Some(r1), Some(r2), Some(g1), Some(g2), Some(b1), Some(b2)) => Some(
                    Color {
                        r: channel(16 * (r1 as u64) + (r2 as u64)),
                        g: channel(16 * (g1 as u64) + (g2 as u64)),
                        b: channel(16 * (b1 as u64) + (b2 as u64)),
                        a: Fx::one(),
                    },
                ),
                _ => None,
            }
        } else if bytes.len() == 9 && bytes[0] == HASH {
            match (hex_digit(bytes[1]), hex_digit(bytes[2]), hex_digit(bytes[3]), hex_digit(
                bytes[4],
            ), hex_digit(bytes[5]), hex_digit(bytes[6]), hex_digit(bytes[7]), hex_digit(
                bytes[8],
            )) {
                (Some(r1), Some(r2), Some(g1), Some(g2), Some(b1), Some(b2), Some(a1), Some(
                    a2,
                )) => Some(
                    Color {
                        r: channel(16 * (r1 as u64) + (r2 as u64)),
                        g: channel(16 * (g1 as u64) + (g2 as u64)),
                        b: channel(16 * (b1 as u64) + (b2 as u64)),
                        a: channel(16 * (a1 as u64) + (a2 as u64)),
                    },
                ),
                _ => None,
            }
        } else if str_eq(s, "black") {
            Some(Self::black())
        } else if str_eq(s, "white") {
            Some(Self::white())
        } else if str_eq(s, "transparent") {
            Some(Self::transparent())
        } else if str_eq(s, "transparent white") || str_eq(s, "transparent_white") {
            Some(Self::transparent())
        } else if str_eq(s, "transparent black") || str_eq(s, "transparent_black") {
            Some(Self::transparent())
        } else if str_eq(s, "red") {
            Some(Self::red())
        } else if str_eq(s, "green") {
            Some(Self::green())
        } else if str_eq(s, "blue") {
            Some(Self::blue())
        } else {
            None
        }
    }
}

impl Interpolate for Color {
    open spec fn lerp_spec(a: Color, b: Color, traw: int) -> Color {
        Color {
            r: Fx::lerp_spec(a.r, b.r, traw),
            g: Fx::lerp_spec(a.g, b.g, traw),
            b: Fx::lerp_spec(a.b, b.b, traw),
            a: Fx::lerp_spec(a.a, b.a, traw),
        }
    }

    fn interpolate(a: Color, b: Color, t: Fx) -> (r: Color) {
        Color {
            r: Fx::interpolate(a.r, b.r, t),
            g: Fx::interpolate(a.g, b.g, t),
            b: Fx::interpolate(a.b, b.b, t),
            a: Fx::interpolate(a.a, b.a, t),
        }
    }

    proof fn lemma_lerp_same(a: Color, traw: int) {
        Fx::lemma_lerp_same(a.r, traw);
        Fx::lemma_lerp_same(a.g, traw);
        Fx::lemma_lerp_same(a.b, traw);
        Fx::lemma_lerp_same(a.a, traw);
    }

    proof fn lemma_lerp_zero(a: Color, b: Color) {
        Fx::lemma_lerp_zero(a.r, b.r);
        Fx::lemma_lerp_zero(a.g, b.g);
        Fx::lemma_lerp_zero(a.b, b.b);
        Fx::lemma_lerp_zero(a.a, b.a);
    }
}

} // verus!
