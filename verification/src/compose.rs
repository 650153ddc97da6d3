//! The frame compositor: rebuilds the visible canvas for each frame.
//!
//! Per frame the compositor resolves the color table and transparent index
//! in effect, overwrites the frame's rectangle pixel by pixel (skipping
//! transparent indices), and afterwards applies the frame's disposal to
//! prepare the current and the kept canvas for the next frame.

use vstd::prelude::*;
use crate::error::DecodeError;
use crate::frame::{Disposal, FrameDescriptor};
use crate::palette::{glyph_of_entry, pick_color};
use crate::region::{
    blank, blank_spec, copy, copy_spec, frame_fits, in_rect, lemma_pixel_position,
    lemma_position_unique, SENTINEL,
};

verus! {

/// A fresh canvas of `n` pixels: only the sentinel glyph.
pub open spec fn all_sentinel(n: nat) -> Seq<char> {
    Seq::new(n, |i: int| SENTINEL)
}

/// The color table in effect for a frame: its own local table if present,
/// else the source's global table.
pub open spec fn effective_palette_spec(f: &FrameDescriptor, global: Seq<u8>) -> Seq<u8> {
    match f.palette {
        Some(p) => p@,
        None => global,
    }
}

/// The transparent index in effect for a frame: the frame's own if set,
/// else the source's global background index if set, else none.
pub open spec fn effective_bg_spec(f: &FrameDescriptor, global_bg: Option<usize>) -> Option<int> {
    match f.transparent {
        Some(t) => Some(t as int),
        None => match global_bg {
            Some(b) => Some(b as int),
            None => None,
        },
    }
}

/// The local buffer position that canvas position `p` reads from.
pub open spec fn frame_index(f: &FrameDescriptor, cw: int, p: int) -> int {
    (p % cw - f.left) + (p / cw - f.top) * f.width
}

/// Canvas pixel `p` after compositing the frame: untouched outside the
/// frame's rectangle and on transparent indices, else the glyph of the
/// pixel's palette entry.
pub open spec fn composite_pixel(
    curr: Seq<char>,
    f: &FrameDescriptor,
    pal: Seq<u8>,
    bg: Option<int>,
    cw: int,
    p: int,
) -> char {
    if in_rect(f.top as int, f.left as int, f.width as int, f.height as int, cw, p) {
        let idx = f.buffer@[frame_index(f, cw, p)] as int;
        if bg == Some(idx) {
            curr[p]
        } else {
            glyph_of_entry(pal, idx)
        }
    } else {
        curr[p]
    }
}

/// The whole canvas after compositing the frame.
pub open spec fn composite_spec(
    curr: Seq<char>,
    f: &FrameDescriptor,
    pal: Seq<u8>,
    bg: Option<int>,
    cw: int,
) -> Seq<char> {
    Seq::new(curr.len(), |p: int| composite_pixel(curr, f, pal, bg, cw, p))
}

/// Whether every palette index the frame actually draws has an entry in the
/// color table in effect.
pub open spec fn indices_in_palette(f: &FrameDescriptor, pal: Seq<u8>, bg: Option<int>) -> bool {
    forall|j: int|
        0 <= j < f.buffer@.len() && bg != Some((#[trigger] f.buffer@[j]) as int) ==> (f.buffer@[j]
            as int) * 3 + 3 <= pal.len()
}

/// Composites one frame onto the canvas: resolves the color table and
/// transparent index in effect, then overwrites every non-transparent pixel
/// of the frame's rectangle with its glyph. A frame whose rectangle leaves
/// the canvas, whose buffer does not match its rectangle, or whose drawn
/// indices overflow the table is rejected with the canvas untouched.
#[verifier::loop_isolation(false)]
pub fn render_frame(
    curr: &mut Vec<char>,
    f: &FrameDescriptor,
    global_palette: &Vec<u8>,
    global_bg: Option<usize>,
    image_width: u16,
) -> (r: Result<(), DecodeError>)
    ensures
        ({
            let pal = effective_palette_spec(f, global_palette@);
            let bg = effective_bg_spec(f, global_bg);
            let cw = image_width as int;
            let len = old(curr)@.len() as int;
            &&& (r is Ok <==> frame_fits(f, cw, len) && indices_in_palette(f, pal, bg))
            &&& (r is Ok ==> final(curr)@ == composite_spec(old(curr)@, f, pal, bg, cw))
            &&& (r matches Err(DecodeError::FrameOutOfBounds) <==> !frame_fits(f, cw, len))
            &&& (r matches Err(DecodeError::PaletteOverflow) <==> frame_fits(f, cw, len)
                && !indices_in_palette(f, pal, bg))
            &&& (r is Err ==> final(curr)@ == old(curr)@)
        }),
{
    let ghost pal_s = effective_palette_spec(f, global_palette@);
    let ghost bg_s = effective_bg_spec(f, global_bg);
    let ghost cw = image_width as int;
    let ghost c0 = curr@;
    let ghost top = f.top as int;
    let ghost left = f.left as int;
    let ghost w = f.width as int;
    let ghost h = f.height as int;

    let pal: &Vec<u8> = match &f.palette {
        Some(p) => p,
        None => global_palette,
    };
    let bg: Option<usize> = match f.transparent {
        Some(t) => Some(t as usize),
        None => global_bg,
    };

    let n = curr.len();
    let lw = f.left as usize + f.width as usize;
    let th = f.top as usize + f.height as usize;
    if lw > image_width as usize {
        return Err(DecodeError::FrameOutOfBounds);
    }
    proof {
        assert((th as int) * (image_width as int) <= 131070 * 65535) by (nonlinear_arith)
            requires
                0 <= th as int <= 131070,
                0 <= image_width as int <= 65535,
        ;
    }
    if (th as u64) * (image_width as u64) > (n as u64) {
        return Err(DecodeError::FrameOutOfBounds);
    }
    proof {
        assert(w * h <= 65535 * 65535) by (nonlinear_arith)
            requires
                0 <= w <= 65535,
                0 <= h <= 65535,
        ;
    }
    let wh = f.width as usize * f.height as usize;
    if f.buffer.len() != wh {
        return Err(DecodeError::FrameOutOfBounds);
    }
    assert(frame_fits(f, cw, c0.len() as int));

    let bufn = f.buffer.len();
    let mut i: usize = 0;
    while i < bufn
        invariant
            0 <= i <= bufn,
            forall|j: int|
                0 <= j < i && bg_s != Some((#[trigger] f.buffer@[j]) as int) ==> (f.buffer@[j]
                    as int) * 3 + 3 <= pal_s.len(),
        decreases bufn - i,
    {
        let idx = f.buffer[i] as usize;
        let transparent = match bg {
            Some(b) => idx == b,
            None => false,
        };
        if !transparent && idx * 3 + 3 > pal.len() {
            assert(!indices_in_palette(f, pal_s, bg_s));
            return Err(DecodeError::PaletteOverflow);
        }
        i = i + 1;
    }
    assert(indices_in_palette(f, pal_s, bg_s));

    let cw_us = image_width as usize;
    let fl = f.left as usize;
    let ft = f.top as usize;
    let fw = f.width as usize;
    let mut x = fl;
    while x < lw
        invariant
            fl <= x <= lw,
            curr@.len() == c0.len(),
            forall|p: int|
                0 <= p < c0.len() ==> curr@[p] == (if in_rect(top, left, w, h, cw, p) && p % cw
                    < x as int {
                    composite_pixel(c0, f, pal_s, bg_s, cw, p)
                } else {
                    c0[p]
                }),
        decreases lw - x,
    {
        let mut y = ft;
        while y < th
            invariant
                fl <= x < lw,
                ft <= y <= th,
                curr@.len() == c0.len(),
                forall|p: int|
                    0 <= p < c0.len() ==> curr@[p] == (if in_rect(top, left, w, h, cw, p) && (p
                        % cw < x as int || (p % cw == x as int && p / cw < y as int)) {
                        composite_pixel(c0, f, pal_s, bg_s, cw, p)
                    } else {
                        c0[p]
                    }),
            decreases th - y,
        {
            proof {
                lemma_pixel_position(x as int, y as int, top + h, cw, c0.len() as int);
                assert(0 <= (y as int - top) * w && (x as int - left) + (y as int - top) * w < w
                    * h) by (nonlinear_arith)
                    requires
                        0 <= x as int - left < w,
                        0 <= y as int - top < h,
                ;
            }
            let p = x + y * cw_us;
            let fi = (x - fl) + (y - ft) * fw;
            let idx = f.buffer[fi] as usize;
            let transparent = match bg {
                Some(b) => idx == b,
                None => false,
            };
            if !transparent {
                assert((f.buffer@[fi as int] as int) * 3 + 3 <= pal_s.len());
                let g = pick_color(pal.as_slice(), idx);
                curr[p] = g;
            }
            proof {
                assert(frame_index(f, cw, p as int) == fi as int);
                assert forall|q: int|
                    0 <= q < c0.len() implies curr@[q] == (if in_rect(top, left, w, h, cw, q) && (q
                    % cw < x as int || (q % cw == x as int && q / cw < y as int + 1)) {
                    composite_pixel(c0, f, pal_s, bg_s, cw, q)
                } else {
                    c0[q]
                }) by {
                    if q != p as int && q % cw == x as int && q / cw == y as int {
                        lemma_position_unique(q, x as int, y as int, cw);
                    }
                }
            }
            y = y + 1;
        }
        x = x + 1;
    }
    proof {
        assert(curr@ =~= composite_spec(c0, f, pal_s, bg_s, cw));
    }
    Ok(())
}

/// Applies the frame's disposal after it has been shown, preparing the
/// current and the kept canvas for the next frame: keeping copies the
/// rectangle into the kept canvas, restoring to previous copies it back,
/// restoring to background erases it. Only the frame's rectangle is
/// touched.
pub fn dispose(f: &FrameDescriptor, image_width: u16, curr: &mut Vec<char>, prev: &mut Vec<char>)
    requires
        f.left + f.width <= image_width,
        (f.top + f.height) * (image_width as int) <= old(curr)@.len(),
        old(prev)@.len() == old(curr)@.len(),
    ensures
        final(curr)@.len() == old(curr)@.len(),
        final(prev)@.len() == old(prev)@.len(),
        (f.dispose is Any || f.dispose is Keep) ==> final(curr)@ == old(curr)@ && final(prev)@
            == copy_spec(
            old(curr)@,
            old(prev)@,
            f.top as int,
            f.left as int,
            f.width as int,
            f.height as int,
            image_width as int,
        ),
        f.dispose is Previous ==> final(prev)@ == old(prev)@ && final(curr)@ == copy_spec(
            old(prev)@,
            old(curr)@,
            f.top as int,
            f.left as int,
            f.width as int,
            f.height as int,
            image_width as int,
        ),
        f.dispose is Background ==> final(prev)@ == old(prev)@ && final(curr)@ == blank_spec(
            old(curr)@,
            f.top as int,
            f.left as int,
            f.width as int,
            f.height as int,
            image_width as int,
        ),
{
    match f.dispose {
        Disposal::Any | Disposal::Keep => copy(f, image_width, &*curr, prev),
        Disposal::Previous => copy(f, image_width, &*prev, curr),
        Disposal::Background => blank(f, image_width, curr),
    }
}

/// First-frame rendering: compositing a frame without a transparent index
/// onto a fresh canvas gives exactly the glyph rendering of the frame's own
/// pixel indices over its rectangle, while every uncovered canvas pixel
/// keeps the sentinel glyph.
pub proof fn lemma_first_frame(f: &FrameDescriptor, pal: Seq<u8>, cw: int, len: nat)
    ensures
        forall|p: int|
            0 <= p < len && in_rect(f.top as int, f.left as int, f.width as int, f.height as int, cw, p)
                ==> #[trigger] composite_spec(all_sentinel(len), f, pal, None, cw)[p]
                == glyph_of_entry(pal, f.buffer@[frame_index(f, cw, p)] as int),
        forall|p: int|
            0 <= p < len && !in_rect(f.top as int, f.left as int, f.width as int, f.height as int, cw, p)
                ==> #[trigger] composite_spec(all_sentinel(len), f, pal, None, cw)[p] == SENTINEL,
{
}

/// Round-trip restoration: when a frame's rectangle was kept (so the kept
/// canvas holds the rendered state there) and the next frame covers the
/// same rectangle and restores to previous, the canvas handed to the frame
/// after that equals the canvas after the first frame exactly.
pub proof fn lemma_restore_previous(
    c1: Seq<char>,
    prev0: Seq<char>,
    f2: &FrameDescriptor,
    pal: Seq<u8>,
    bg: Option<int>,
    cw: int,
)
    requires
        prev0.len() == c1.len(),
    ensures
        copy_spec(
            copy_spec(c1, prev0, f2.top as int, f2.left as int, f2.width as int, f2.height as int, cw),
            composite_spec(c1, f2, pal, bg, cw),
            f2.top as int,
            f2.left as int,
            f2.width as int,
            f2.height as int,
            cw,
        ) == c1,
{
    let kept = copy_spec(
        c1,
        prev0,
        f2.top as int,
        f2.left as int,
        f2.width as int,
        f2.height as int,
        cw,
    );
    let c2 = composite_spec(c1, f2, pal, bg, cw);
    assert(copy_spec(
        kept,
        c2,
        f2.top as int,
        f2.left as int,
        f2.width as int,
        f2.height as int,
        cw,
    ) =~= c1);
}

} // verus!
