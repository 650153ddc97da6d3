//! Maps palette entries (RGB byte triples) to one of five intensity glyphs.

use vstd::prelude::*;

verus! {

/// The glyph for a brightness level, from darkest and sparsest to brightest
/// and densest. Levels below zero or above four are clamped.
pub open spec fn glyph_of_level(level: int) -> char {
    if level <= 0 {
        ' '
    } else if level == 1 {
        '░'
    } else if level == 2 {
        '▒'
    } else if level == 3 {
        '▓'
    } else {
        '█'
    }
}

/// Whether a character is one of the five intensity glyphs.
pub open spec fn is_glyph(c: char) -> bool {
    c == ' ' || c == '░' || c == '▒' || c == '▓' || c == '█'
}

/// Squared Euclidean magnitude of an RGB triple.
pub open spec fn sum_sq(r: u8, g: u8, b: u8) -> int {
    (r as int) * (r as int) + (g as int) * (g as int) + (b as int) * (b as int)
}

/// Brightness level of an RGB triple: the floor of `5 * sqrt(s / (3*255^2 + 1))`
/// where `s` is the squared magnitude, written without square roots as the
/// greatest `k` with `k^2 * 195076 <= 25 * s`. For byte channels the level is
/// always between 0 and 4.
pub open spec fn level_spec(r: u8, g: u8, b: u8) -> int {
    let s25 = 25 * sum_sq(r, g, b);
    if s25 >= 16 * 195076 {
        4
    } else if s25 >= 9 * 195076 {
        3
    } else if s25 >= 4 * 195076 {
        2
    } else if s25 >= 195076 {
        1
    } else {
        0
    }
}

/// The glyph that stands for palette entry `color`: the entry's three bytes
/// are read as an RGB triple and mapped by brightness.
pub open spec fn glyph_of_entry(palette: Seq<u8>, color: int) -> char {
    glyph_of_level(level_spec(palette[color * 3], palette[color * 3 + 1], palette[color * 3 + 2]))
}

/// Picks the display glyph for palette entry `color` of a table of RGB byte
/// triples.
pub fn pick_color(palette: &[u8], color: usize) -> (c: char)
    requires
        color * 3 + 3 <= palette@.len(),
    ensures
        c == glyph_of_entry(palette@, color as int),
{
    let n = palette.len();
    let base = color * 3;
    let r = palette[base] as u32;
    let g = palette[base + 1] as u32;
    let b = palette[base + 2] as u32;
    proof {
        assert(r * r <= 65025 && g * g <= 65025 && b * b <= 65025) by (nonlinear_arith)
            requires
                r <= 255,
                g <= 255,
                b <= 255,
        ;
    }
    let s25 = 25 * (r * r + g * g + b * b);
    if s25 >= 3121216 {
        '█'
    } else if s25 >= 1755684 {
        '▓'
    } else if s25 >= 780304 {
        '▒'
    } else if s25 >= 195076 {
        '░'
    } else {
        ' '
    }
}

/// The level of every RGB byte triple lies between 0 and 4, so the mapping
/// lands on one of exactly five glyphs.
pub proof fn lemma_glyph_fixed(r: u8, g: u8, b: u8)
    ensures
        0 <= level_spec(r, g, b) <= 4,
        is_glyph(glyph_of_level(level_spec(r, g, b))),
{
}

/// The mapping is monotone: a triple whose squared magnitude is at least as
/// large never gets a smaller level, so a brighter color never maps to a
/// darker glyph.
pub proof fn lemma_glyph_monotonic(r1: u8, g1: u8, b1: u8, r2: u8, g2: u8, b2: u8)
    requires
        sum_sq(r1, g1, b1) <= sum_sq(r2, g2, b2),
    ensures
        level_spec(r1, g1, b1) <= level_spec(r2, g2, b2),
{
}

} // verus!
