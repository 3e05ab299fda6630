//! Colours: the native fifteen-bit format and the display format.

use vstd::prelude::*;

verus! {

/// A colour in the native format: three channels of five bits each.
#[derive(Clone, Copy, Debug, PartialEq, Eq, Structural)]
pub struct SnesRgb {
    pub r: u8,
    pub g: u8,
    pub b: u8,
}

/// A display colour with eight bits per channel.
#[derive(Clone, Copy, Debug, PartialEq, Eq, Structural)]
pub struct Rgb {
    pub r: u8,
    pub g: u8,
    pub b: u8,
}

/// Sum of two channels, held at the five-bit maximum.
pub open spec fn sat_add5(a: u8, b: u8) -> u8 {
    if a + b > 31 {
        31u8
    } else {
        (a + b) as u8
    }
}

/// Difference of two channels, held at zero.
pub open spec fn sat_sub5(a: u8, b: u8) -> u8 {
    if a >= b {
        (a - b) as u8
    } else {
        0u8
    }
}

/// A five-bit channel attenuated by a brightness level of 0 to 15: level 0
/// is black, any other level `l` scales by `(l + 1) / 16`, rounding down.
pub open spec fn scale_channel(c: u8, level: u8) -> u8 {
    if level == 0 {
        0u8
    } else {
        ((c as int) * (level as int + 1) / 16) as u8
    }
}

/// A five-bit channel widened to eight bits: the five bits move to the top
/// and the three highest of them are repeated below.
pub open spec fn expand_channel(c: u8) -> u8 {
    (c as int * 8 + c as int / 4) as u8
}

/// The channel held in the five bits of `word` that start at bit `5 * k`.
pub open spec fn word_channel(word: u16, k: int) -> u8 {
    if k == 0 {
        (word as int % 32) as u8
    } else if k == 1 {
        (word as int / 32 % 32) as u8
    } else {
        (word as int / 1024 % 32) as u8
    }
}

proof fn lemma_channel_bits(c: u8)
    by (bit_vector)
    ensures
        c & 0x1f <= 31,
        c <= 31 ==> c & 0x1f == c,
        c <= 31 ==> (c << 3) | (c >> 2) == c * 8 + c / 4,
{
}

proof fn lemma_word_bits(word: u16)
    by (bit_vector)
    ensures
        (word & 0x1f) == word % 32,
        ((word >> 5) & 0x1f) == word / 32 % 32,
        ((word >> 10) & 0x1f) == word / 1024 % 32,
{
}

impl SnesRgb {
    /// Every channel fits in five bits.
    pub open spec fn wf(self) -> bool {
        self.r <= 31 && self.g <= 31 && self.b <= 31
    }

    /// The colour with the given channels, each cut to its low five bits.
    pub open spec fn spec_new(r: u8, g: u8, b: u8) -> SnesRgb {
        SnesRgb { r: r & 0x1f, g: g & 0x1f, b: b & 0x1f }
    }

    /// The colour stored in a fifteen-bit word, red in the low five bits,
    /// then green, then blue; the top bit is ignored.
    pub open spec fn spec_from_word(word: u16) -> SnesRgb {
        SnesRgb { r: word_channel(word, 0), g: word_channel(word, 1), b: word_channel(word, 2) }
    }

    /// The channels added one by one, each sum held at 31.
    pub open spec fn spec_saturating_add(self, other: SnesRgb) -> SnesRgb {
        SnesRgb {
            r: sat_add5(self.r, other.r),
            g: sat_add5(self.g, other.g),
            b: sat_add5(self.b, other.b),
        }
    }

    /// The channels subtracted one by one, each difference held at 0.
    pub open spec fn spec_saturating_sub(self, other: SnesRgb) -> SnesRgb {
        SnesRgb {
            r: sat_sub5(self.r, other.r),
            g: sat_sub5(self.g, other.g),
            b: sat_sub5(self.b, other.b),
        }
    }

    /// Every channel halved, rounding towards zero.
    pub open spec fn spec_halved(self) -> SnesRgb {
        SnesRgb { r: self.r / 2, g: self.g / 2, b: self.b / 2 }
    }

    /// The colour attenuated by a brightness level.
    pub open spec fn spec_with_brightness(self, level: u8) -> SnesRgb {
        SnesRgb {
            r: scale_channel(self.r, level),
            g: scale_channel(self.g, level),
            b: scale_channel(self.b, level),
        }
    }

    /// The colour in the display format.
    pub open spec fn spec_to_adjusted_rgb(self) -> Rgb {
        Rgb { r: expand_channel(self.r), g: expand_channel(self.g), b: expand_channel(self.b) }
    }

    /// Builds a colour from three channels, keeping the low five bits of each.
    pub fn new(r: u8, g: u8, b: u8) -> (c: SnesRgb)
        ensures
            c == Self::spec_new(r, g, b),
            c.wf(),
            r <= 31 && g <= 31 && b <= 31 ==> c == (SnesRgb { r, g, b }),
    {
        proof {
            lemma_channel_bits(r);
            lemma_channel_bits(g);
            lemma_channel_bits(b);
        }
        SnesRgb { r: r & 0x1f, g: g & 0x1f, b: b & 0x1f }
    }

    /// Unpacks a palette word.
    pub fn from_word(word: u16) -> (c: SnesRgb)
        ensures
            c == Self::spec_from_word(word),
            c.wf(),
    {
        proof {
            lemma_word_bits(word);
        }
        SnesRgb {
            r: (word & 0x1f) as u8,
            g: ((word >> 5) & 0x1f) as u8,
            b: ((word >> 10) & 0x1f) as u8,
        }
    }

    /// The red channel.
    pub fn r(&self) -> (v: u8)
        ensures
            v == self.r,
    {
        self.r
    }

    /// The green channel.
    pub fn g(&self) -> (v: u8)
        ensures
            v == self.g,
    {
        self.g
    }

    /// The blue channel.
    pub fn b(&self) -> (v: u8)
        ensures
            v == self.b,
    {
        self.b
    }

    /// Adds channel by channel; a sum above 31 becomes 31.
    pub fn saturating_add(&self, other: &SnesRgb) -> (c: SnesRgb)
        ensures
            c == self.spec_saturating_add(*other),
            c.wf(),
    {
        SnesRgb {
            r: add_channel(self.r, other.r),
            g: add_channel(self.g, other.g),
            b: add_channel(self.b, other.b),
        }
    }

    /// Subtracts channel by channel; a difference below 0 becomes 0.
    pub fn saturating_sub(&self, other: &SnesRgb) -> (c: SnesRgb)
        ensures
            c == self.spec_saturating_sub(*other),
            self.wf() ==> c.wf(),
    {
        SnesRgb {
            r: sub_channel(self.r, other.r),
            g: sub_channel(self.g, other.g),
            b: sub_channel(self.b, other.b),
        }
    }

    /// Halves every channel, rounding towards zero.
    pub fn halved(&self) -> (c: SnesRgb)
        ensures
            c == self.spec_halved(),
            self.wf() ==> c.wf(),
    {
        SnesRgb { r: self.r / 2, g: self.g / 2, b: self.b / 2 }
    }

    /// Attenuates the colour by a brightness level of 0 to 15.
    pub fn with_brightness(&self, level: u8) -> (c: SnesRgb)
        requires
            self.wf(),
            level <= 15,
        ensures
            c == self.spec_with_brightness(level),
            c.wf(),
            c.r <= self.r && c.g <= self.g && c.b <= self.b,
    {
        SnesRgb {
            r: dim_channel(self.r, level),
            g: dim_channel(self.g, level),
            b: dim_channel(self.b, level),
        }
    }

    /// Converts to the display format.
    pub fn to_adjusted_rgb(&self) -> (c: Rgb)
        requires
            self.wf(),
        ensures
            c == self.spec_to_adjusted_rgb(),
    {
        proof {
            lemma_channel_bits(self.r);
            lemma_channel_bits(self.g);
            lemma_channel_bits(self.b);
        }
        Rgb {
            r: (self.r << 3) | (self.r >> 2),
            g: (self.g << 3) | (self.g >> 2),
            b: (self.b << 3) | (self.b >> 2),
        }
    }
}

fn add_channel(a: u8, b: u8) -> (c: u8)
    ensures
        c == sat_add5(a, b),
        c <= 31,
{
    let sum: u16 = a as u16 + b as u16;
    if sum > 31 {
        31
    } else {
        sum as u8
    }
}

fn sub_channel(a: u8, b: u8) -> (c: u8)
    ensures
        c == sat_sub5(a, b),
        c <= a,
{
    if a >= b {
        a - b
    } else {
        0
    }
}

fn dim_channel(c: u8, level: u8) -> (d: u8)
    requires
        c <= 31,
        level <= 15,
    ensures
        d == scale_channel(c, level),
        d <= c,
{
    if level == 0 {
        0
    } else {
        assert(c * (level + 1) <= 31 * 16) by (nonlinear_arith)
            requires
                c <= 31,
                level <= 15,
        ;
        let wide: u16 = c as u16 * (level as u16 + 1);
        assert(wide / 16 <= c) by (nonlinear_arith)
            requires
                wide == c * (level + 1),
                level <= 15,
        ;
        (wide / 16) as u8
    }
}

/// A colour built from any three bytes has channels of five bits.
pub proof fn lemma_new_wf(r: u8, g: u8, b: u8)
    ensures
        SnesRgb::spec_new(r, g, b).wf(),
{
    lemma_channel_bits(r);
    lemma_channel_bits(g);
    lemma_channel_bits(b);
}

/// Both saturating operations keep every channel within five bits.
pub proof fn lemma_color_math_saturates(main: SnesRgb, operand: SnesRgb)
    requires
        main.wf(),
        operand.wf(),
    ensures
        main.spec_saturating_add(operand).wf(),
        main.spec_saturating_sub(operand).wf(),
        main.spec_saturating_add(operand).spec_halved().wf(),
        main.spec_saturating_sub(operand).spec_halved().wf(),
{
}

/// A brighter level never darkens a channel, before or after the
/// conversion to the display format.
pub proof fn lemma_brightness_monotone(c: SnesRgb, low: u8, high: u8)
    requires
        c.wf(),
        low <= high <= 15,
    ensures
        c.spec_with_brightness(low).r <= c.spec_with_brightness(high).r,
        c.spec_with_brightness(low).g <= c.spec_with_brightness(high).g,
        c.spec_with_brightness(low).b <= c.spec_with_brightness(high).b,
        c.spec_with_brightness(low).spec_to_adjusted_rgb().r <= c.spec_with_brightness(
            high,
        ).spec_to_adjusted_rgb().r,
        c.spec_with_brightness(low).spec_to_adjusted_rgb().g <= c.spec_with_brightness(
            high,
        ).spec_to_adjusted_rgb().g,
        c.spec_with_brightness(low).spec_to_adjusted_rgb().b <= c.spec_with_brightness(
            high,
        ).spec_to_adjusted_rgb().b,
{
    lemma_scale_monotone(c.r, low, high);
    lemma_scale_monotone(c.g, low, high);
    lemma_scale_monotone(c.b, low, high);
}

proof fn lemma_scale_monotone(c: u8, low: u8, high: u8)
    requires
        c <= 31,
        low <= high <= 15,
    ensures
        scale_channel(c, low) <= scale_channel(c, high) <= c,
        expand_channel(scale_channel(c, low)) <= expand_channel(scale_channel(c, high)),
{
    let a: int = c as int * (low as int + 1);
    let b: int = c as int * (high as int + 1);
    assert(0 <= a <= b <= c * 16) by (nonlinear_arith)
        requires
            a == c * (low + 1),
            b == c * (high + 1),
            low <= high <= 15,
    ;
}

} // verus!
