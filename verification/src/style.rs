//! Colors, text-attribute sets and composed styles.
//!
//! A `Style` accumulates the SGR (Select Graphic Rendition) state and is
//! stamped onto every cell written while it is current.

use vstd::prelude::*;

verus! {

/// Bit assigned to the bold attribute in a `Modifier` set.
pub const BOLD: u16 = 0x001;
/// Bit assigned to the dim attribute.
pub const DIM: u16 = 0x002;
/// Bit assigned to the italic attribute.
pub const ITALIC: u16 = 0x004;
/// Bit assigned to the underlined attribute.
pub const UNDERLINED: u16 = 0x008;
/// Bit assigned to the slow-blink attribute.
pub const SLOW_BLINK: u16 = 0x010;
/// Bit assigned to the rapid-blink attribute.
pub const RAPID_BLINK: u16 = 0x020;
/// Bit assigned to the reversed-video attribute.
pub const REVERSED: u16 = 0x040;
/// Bit assigned to the hidden attribute.
pub const HIDDEN: u16 = 0x080;
/// Bit assigned to the crossed-out attribute.
pub const CROSSED_OUT: u16 = 0x100;

/// A set of text attributes, one bit per attribute.
#[derive(Clone, Copy, Debug, PartialEq, Eq, Structural)]
pub struct Modifier {
    pub bits: u16,
}

impl Modifier {
    /// The empty attribute set.
    pub fn empty() -> (r: Modifier)
        ensures
            r.bits == 0,
    {
        Modifier { bits: 0 }
    }

    /// True if every bit of `mask` is set.
    pub fn contains(&self, mask: u16) -> (r: bool)
        ensures
            r == (self.bits & mask == mask),
    {
        self.bits & mask == mask
    }

    /// Sets every bit of `mask`.
    pub fn insert(&mut self, mask: u16)
        ensures
            final(self).bits == (old(self).bits | mask),
    {
        self.bits = self.bits | mask;
    }

    /// Clears every bit of `mask`.
    pub fn remove(&mut self, mask: u16)
        ensures
            final(self).bits == (old(self).bits & !mask),
    {
        self.bits = self.bits & !mask;
    }
}

impl Default for Modifier {
    fn default() -> (r: Modifier)
        ensures
            r.bits == 0,
    {
        Modifier { bits: 0 }
    }
}

/// A terminal color: the named ANSI palette, an indexed 256-color value, or a
/// 24-bit value. `Reset` stands for the terminal's default.
#[derive(Clone, Copy, Debug, PartialEq, Eq, Structural)]
pub enum Color {
    Reset,
    Black,
    Red,
    Green,
    Yellow,
    Blue,
    Magenta,
    Cyan,
    Gray,
    DarkGray,
    LightRed,
    LightGreen,
    LightYellow,
    LightBlue,
    LightMagenta,
    LightCyan,
    White,
    Rgb(u8, u8, u8),
    Indexed(u8),
}

impl Default for Color {
    fn default() -> (r: Color)
        ensures
            r == Color::Reset,
    {
        Color::Reset
    }
}

/// A composed style: foreground, background, and attribute set.
#[derive(Clone, Copy, Debug, PartialEq, Eq, Structural)]
pub struct Style {
    pub fg: Color,
    pub bg: Color,
    pub modifier: Modifier,
}

/// The style every cell starts with: both colors `Reset`, no attributes.
pub open spec fn default_style() -> Style {
    Style { fg: Color::Reset, bg: Color::Reset, modifier: Modifier { bits: 0 } }
}

/// The palette color selected by a classical 3-bit SGR code, given the code's
/// offset within its group of eight.
pub open spec fn palette_color(offset: int) -> Color {
    if offset == 0 {
        Color::Black
    } else if offset == 1 {
        Color::Red
    } else if offset == 2 {
        Color::Green
    } else if offset == 3 {
        Color::Yellow
    } else if offset == 4 {
        Color::Blue
    } else if offset == 5 {
        Color::Magenta
    } else if offset == 6 {
        Color::Cyan
    } else {
        Color::White
    }
}

/// Whether `code` is one of the classical 3-bit SGR color codes.
pub open spec fn is_3bit_code(code: int) -> bool {
    (30 <= code <= 37) || (40 <= code <= 47) || (90 <= code <= 97) || (100 <= code <= 107)
}

/// The style after applying a classical 3-bit SGR color code: 30-37 set the
/// foreground, 40-47 the background; the bright ranges 90-97 and 100-107 do
/// the same and additionally set bold (a historical convention).
pub open spec fn spec_set_color_3bits(s: Style, code: int) -> Style {
    if 30 <= code <= 37 {
        Style { fg: palette_color(code - 30), ..s }
    } else if 40 <= code <= 47 {
        Style { bg: palette_color(code - 40), ..s }
    } else if 90 <= code <= 97 {
        Style {
            fg: palette_color(code - 90),
            modifier: Modifier { bits: s.modifier.bits | BOLD },
            ..s
        }
    } else if 100 <= code <= 107 {
        Style {
            bg: palette_color(code - 100),
            modifier: Modifier { bits: s.modifier.bits | BOLD },
            ..s
        }
    } else {
        s
    }
}

/// The style after consuming one SGR parameter list left to right.
///
/// Codes 38 and 48 look ahead for `5;n` (indexed) or `2;r;g;b` (24-bit);
/// an unknown or malformed code stops consumption and leaves the style as it
/// stands at that point.
pub open spec fn spec_apply_sgr(s: Style, ps: Seq<u16>) -> Style
    decreases ps.len(),
{
    if ps.len() == 0 {
        s
    } else {
        let code = ps[0] as int;
        if code == 0 {
            spec_apply_sgr(default_style(), ps.skip(1))
        } else if code == 1 {
            spec_apply_sgr(
                Style { modifier: Modifier { bits: s.modifier.bits | BOLD }, ..s },
                ps.skip(1),
            )
        } else if code == 3 {
            spec_apply_sgr(
                Style { modifier: Modifier { bits: s.modifier.bits | ITALIC }, ..s },
                ps.skip(1),
            )
        } else if code == 4 {
            spec_apply_sgr(
                Style { modifier: Modifier { bits: s.modifier.bits | UNDERLINED }, ..s },
                ps.skip(1),
            )
        } else if code == 23 {
            spec_apply_sgr(
                Style { modifier: Modifier { bits: s.modifier.bits & !ITALIC }, ..s },
                ps.skip(1),
            )
        } else if code == 24 {
            spec_apply_sgr(
                Style { modifier: Modifier { bits: s.modifier.bits & !UNDERLINED }, ..s },
                ps.skip(1),
            )
        } else if code == 39 {
            spec_apply_sgr(Style { fg: Color::Reset, ..s }, ps.skip(1))
        } else if code == 49 {
            spec_apply_sgr(Style { bg: Color::Reset, ..s }, ps.skip(1))
        } else if code == 38 {
            if ps.len() >= 3 && ps[1] == 5 {
                spec_apply_sgr(Style { fg: Color::Indexed(ps[2] as u8), ..s }, ps.skip(3))
            } else if ps.len() >= 5 && ps[1] == 2 {
                spec_apply_sgr(
                    Style { fg: Color::Rgb(ps[2] as u8, ps[3] as u8, ps[4] as u8), ..s },
                    ps.skip(5),
                )
            } else {
                s
            }
        } else if code == 48 {
            if ps.len() >= 3 && ps[1] == 5 {
                spec_apply_sgr(Style { bg: Color::Indexed(ps[2] as u8), ..s }, ps.skip(3))
            } else if ps.len() >= 5 && ps[1] == 2 {
                spec_apply_sgr(
                    Style { bg: Color::Rgb(ps[2] as u8, ps[3] as u8, ps[4] as u8), ..s },
                    ps.skip(5),
                )
            } else {
                s
            }
        } else if is_3bit_code(code) {
            spec_apply_sgr(spec_set_color_3bits(s, code), ps.skip(1))
        } else {
            s
        }
    }
}

impl Style {
    /// The default style.
    pub fn new() -> (r: Style)
        ensures
            r == default_style(),
    {
        Style { fg: Color::Reset, bg: Color::Reset, modifier: Modifier { bits: 0 } }
    }

    /// Assigns the foreground color.
    pub fn fg(&mut self, color: Color)
        ensures
            *final(self) == (Style { fg: color, ..*old(self) }),
    {
        self.fg = color;
    }

    /// Assigns the background color.
    pub fn bg(&mut self, color: Color)
        ensures
            *final(self) == (Style { bg: color, ..*old(self) }),
    {
        self.bg = color;
    }

    /// Returns the style to all defaults.
    pub fn reset(&mut self)
        ensures
            *final(self) == default_style(),
    {
        self.fg = Color::Reset;
        self.bg = Color::Reset;
        self.modifier = Modifier { bits: 0 };
    }

    /// Sets the italic attribute.
    pub fn set_italic(&mut self)
        ensures
            *final(self) == (Style {
                modifier: Modifier { bits: old(self).modifier.bits | ITALIC },
                ..*old(self)
            }),
    {
        self.modifier.insert(ITALIC);
    }

    /// Clears the italic attribute.
    pub fn unset_italic(&mut self)
        ensures
            *final(self) == (Style {
                modifier: Modifier { bits: old(self).modifier.bits & !ITALIC },
                ..*old(self)
            }),
    {
        self.modifier.remove(ITALIC);
    }

    /// Sets the underlined attribute.
    pub fn set_underline(&mut self)
        ensures
            *final(self) == (Style {
                modifier: Modifier { bits: old(self).modifier.bits | UNDERLINED },
                ..*old(self)
            }),
    {
        self.modifier.insert(UNDERLINED);
    }

    /// Clears the underlined attribute.
    pub fn unset_underline(&mut self)
        ensures
            *final(self) == (Style {
                modifier: Modifier { bits: old(self).modifier.bits & !UNDERLINED },
                ..*old(self)
            }),
    {
        self.modifier.remove(UNDERLINED);
    }

    /// Sets the bold attribute.
    pub fn set_bold(&mut self)
        ensures
            *final(self) == (Style {
                modifier: Modifier { bits: old(self).modifier.bits | BOLD },
                ..*old(self)
            }),
    {
        self.modifier.insert(BOLD);
    }

    /// Clears the bold attribute.
    pub fn unset_bold(&mut self)
        ensures
            *final(self) == (Style {
                modifier: Modifier { bits: old(self).modifier.bits & !BOLD },
                ..*old(self)
            }),
    {
        self.modifier.remove(BOLD);
    }

    /// Applies one classical 3-bit SGR color code.
    pub fn set_color_3bits(&mut self, color: usize)
        requires
            is_3bit_code(color as int),
        ensures
            *final(self) == spec_set_color_3bits(*old(self), color as int),
    {
        if 30 <= color && color <= 37 {
            self.fg = palette_color_exec((color - 30) as u8);
        } else if 40 <= color && color <= 47 {
            self.bg = palette_color_exec((color - 40) as u8);
        } else if 90 <= color && color <= 97 {
            self.fg = palette_color_exec((color - 90) as u8);
            self.modifier.insert(BOLD);
        } else {
            self.bg = palette_color_exec((color - 100) as u8);
            self.modifier.insert(BOLD);
        }
    }

    /// Applies an SGR parameter list left to right, as `spec_apply_sgr` says.
    pub fn apply_sgr(&mut self, params: &Vec<u16>)
        ensures
            *final(self) == spec_apply_sgr(*old(self), params@),
    {
        let ghost target = spec_apply_sgr(*self, params@);
        let mut i: usize = 0;
        proof {
            assert(params@.skip(0) =~= params@);
        }
        while i < params.len()
            invariant
                i <= params.len(),
                target == spec_apply_sgr(*self, params@.skip(i as int)),
            decreases params.len() - i,
        {
            let ghost i0 = i as int;
            let ghost rest = params@.skip(i0);
            let code = params[i];
            assert(rest[0] == code);
            if code == 0 {
                self.reset();
                i = i + 1;
            } else if code == 1 {
                self.set_bold();
                i = i + 1;
            } else if code == 3 {
                self.set_italic();
                i = i + 1;
            } else if code == 4 {
                self.set_underline();
                i = i + 1;
            } else if code == 23 {
                self.unset_italic();
                i = i + 1;
            } else if code == 24 {
                self.unset_underline();
                i = i + 1;
            } else if code == 39 {
                self.fg = Color::Reset;
                i = i + 1;
            } else if code == 49 {
                self.bg = Color::Reset;
                i = i + 1;
            } else if code == 38 || code == 48 {
                let is_fg = code == 38;
                if params.len() - i > 2 && params[i + 1] == 5 {
                    assert(rest[1] == 5 && rest[2] == params@[i0 + 2]);
                    let c = Color::Indexed(#[verifier::truncate] (params[i + 2] as u8));
                    if is_fg {
                        self.fg = c;
                    } else {
                        self.bg = c;
                    }
                    i = i + 3;
                } else if params.len() - i > 4 && params[i + 1] == 2 {
                    assert(rest[1] == 2 && rest[2] == params@[i0 + 2] && rest[3] == params@[i0 + 3]
                        && rest[4] == params@[i0 + 4]);
                    let c = Color::Rgb(
                        #[verifier::truncate] (params[i + 2] as u8),
                        #[verifier::truncate] (params[i + 3] as u8),
                        #[verifier::truncate] (params[i + 4] as u8),
                    );
                    if is_fg {
                        self.fg = c;
                    } else {
                        self.bg = c;
                    }
                    i = i + 5;
                } else {
                    assert(rest.len() < 3 || rest[1] != 5);
                    assert(rest.len() < 5 || rest[1] != 2);
                    i = params.len();
                }
            } else if (30 <= code && code <= 37) || (40 <= code && code <= 47)
                || (90 <= code && code <= 97) || (100 <= code && code <= 107) {
                self.set_color_3bits(code as usize);
                i = i + 1;
            } else {
                i = params.len();
            }
            proof {
                assert(rest.skip(i as int - i0) =~= params@.skip(i as int));
            }
        }
        assert(params@.skip(params.len() as int) =~= Seq::<u16>::empty());
    }
}

/// The palette color at `offset` within a group of eight 3-bit codes.
fn palette_color_exec(offset: u8) -> (r: Color)
    ensures
        r == palette_color(offset as int),
{
    if offset == 0 {
        Color::Black
    } else if offset == 1 {
        Color::Red
    } else if offset == 2 {
        Color::Green
    } else if offset == 3 {
        Color::Yellow
    } else if offset == 4 {
        Color::Blue
    } else if offset == 5 {
        Color::Magenta
    } else if offset == 6 {
        Color::Cyan
    } else {
        Color::White
    }
}

impl Default for Style {
    fn default() -> (r: Style)
        ensures
            r == default_style(),
    {
        Style { fg: Color::Reset, bg: Color::Reset, modifier: Modifier { bits: 0 } }
    }
}

} // verus!
