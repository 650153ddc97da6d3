//! Copying and erasing rectangular canvas regions.
//!
//! A canvas is a row-major sequence of glyphs with a fixed column count.
//! Both operations touch exactly the pixels of the given rectangle.

use vstd::prelude::*;
use crate::frame::FrameDescriptor;

verus! {

/// The glyph standing for canvas pixels never rendered yet, or erased back
/// to background.
pub const SENTINEL: char = '▞';

/// Whether flat canvas position `p` of a row-major canvas with `cw` columns
/// lies inside the rectangle `left <= x < left + w`, `top <= y < top + h`.
pub open spec fn in_rect(top: int, left: int, w: int, h: int, cw: int, p: int) -> bool {
    &&& left <= p % cw < left + w
    &&& top <= p / cw < top + h
}

/// The canvas `to` with every pixel of the rectangle replaced by the
/// matching pixel of `from`, and every other pixel unchanged.
pub open spec fn copy_spec(
    from: Seq<char>,
    to: Seq<char>,
    top: int,
    left: int,
    w: int,
    h: int,
    cw: int,
) -> Seq<char> {
    Seq::new(to.len(), |p: int| if in_rect(top, left, w, h, cw, p) { from[p] } else { to[p] })
}

/// The canvas `buf` with every pixel of the rectangle set to the sentinel
/// glyph, and every other pixel unchanged.
pub open spec fn blank_spec(buf: Seq<char>, top: int, left: int, w: int, h: int, cw: int) -> Seq<
    char,
> {
    Seq::new(buf.len(), |p: int| if in_rect(top, left, w, h, cw, p) { SENTINEL } else { buf[p] })
}

/// Whether the frame's rectangle lies inside a canvas of `cw` columns and
/// `len` pixels, with a pixel buffer of exactly the rectangle's size.
pub open spec fn frame_fits(f: &FrameDescriptor, cw: int, len: int) -> bool {
    &&& f.left + f.width <= cw
    &&& (f.top + f.height) * cw <= len
    &&& f.buffer@.len() == f.width * f.height
}

/// Bounds and division facts for one pixel write at column `x`, row `y`.
pub proof fn lemma_pixel_position(x: int, y: int, rows: int, cw: int, len: int)
    requires
        0 <= x < cw,
        0 <= y < rows,
        rows * cw <= len,
    ensures
        0 <= y * cw,
        x + y * cw < len,
        (x + y * cw) % cw == x,
        (x + y * cw) / cw == y,
{
    assert(0 <= y * cw && x + y * cw < rows * cw) by (nonlinear_arith)
        requires
            0 <= x < cw,
            0 <= y,
            y + 1 <= rows,
    ;
    vstd::arithmetic::div_mod::lemma_fundamental_div_mod_converse(x + y * cw, cw, y, x);
}

/// A position whose column and row both match `(x, y)` is `x + y * cw` itself.
pub proof fn lemma_position_unique(q: int, x: int, y: int, cw: int)
    requires
        cw > 0,
        q % cw == x,
        q / cw == y,
    ensures
        q == x + y * cw,
{
    vstd::arithmetic::div_mod::lemma_fundamental_div_mod(q, cw);
}

/// Copies the frame's rectangle from one canvas into another of the same
/// size; pixels outside the rectangle keep their old value.
#[verifier::loop_isolation(false)]
pub fn copy(frame: &FrameDescriptor, image_width: u16, from: &Vec<char>, to: &mut Vec<char>)
    requires
        frame.left + frame.width <= image_width,
        (frame.top + frame.height) * (image_width as int) <= old(to)@.len(),
        from@.len() == old(to)@.len(),
    ensures
        final(to)@ == copy_spec(
            from@,
            old(to)@,
            frame.top as int,
            frame.left as int,
            frame.width as int,
            frame.height as int,
            image_width as int,
        ),
{
    let ghost cw = image_width as int;
    let ghost t0 = old(to)@;
    let ghost top = frame.top as int;
    let ghost left = frame.left as int;
    let ghost w = frame.width as int;
    let ghost h = frame.height as int;
    let cw_us = image_width as usize;
    let xend = frame.left as usize + frame.width as usize;
    let yend = frame.top as usize + frame.height as usize;
    let mut x = frame.left as usize;
    while x < xend
        invariant
            left <= x <= xend,
            xend == left + w,
            yend == top + h,
            cw == cw_us,
            left + w <= cw,
            (top + h) * cw <= t0.len(),
            from@.len() == t0.len(),
            to@.len() == t0.len(),
            forall|p: int|
                0 <= p < t0.len() ==> to@[p] == (if in_rect(top, left, w, h, cw, p) && p % cw
                    < x as int {
                    from@[p]
                } else {
                    t0[p]
                }),
        decreases xend - x,
    {
        let mut y = frame.top as usize;
        while y < yend
            invariant
                left <= x < xend,
                xend == left + w,
                yend == top + h,
                cw == cw_us,
                left + w <= cw,
                top <= y <= yend,
                (top + h) * cw <= t0.len(),
                from@.len() == t0.len(),
                to@.len() == t0.len(),
                forall|p: int|
                    0 <= p < t0.len() ==> to@[p] == (if in_rect(top, left, w, h, cw, p) && (p % cw
                        < x as int || (p % cw == x as int && p / cw < y as int)) {
                        from@[p]
                    } else {
                        t0[p]
                    }),
            decreases yend - y,
        {
            proof {
                lemma_pixel_position(x as int, y as int, top + h, cw, t0.len() as int);
            }
            let n = to.len();
            assert(x + y * cw_us < n);
            let p = x + y * cw_us;
            to[p] = from[p];
            proof {
                assert forall|q: int|
                    0 <= q < t0.len() implies to@[q] == (if in_rect(top, left, w, h, cw, q) && (q
                    % cw < x as int || (q % cw == x as int && q / cw < y as int + 1)) {
                    from@[q]
                } else {
                    t0[q]
                }) by {
                    if q != p as int && q % cw == x as int && q / cw == y as int {
                        lemma_position_unique(q, x as int, y as int, cw);
                    }
                }
            }
            y = y + 1;
        }
        x = x + 1;
    }
    proof {
        assert(to@ =~= copy_spec(from@, t0, top, left, w, h, cw));
    }
}

/// Erases the frame's rectangle of the canvas to the sentinel glyph; pixels
/// outside the rectangle keep their old value.
#[verifier::loop_isolation(false)]
pub fn blank(frame: &FrameDescriptor, image_width: u16, buf: &mut Vec<char>)
    requires
        frame.left + frame.width <= image_width,
        (frame.top + frame.height) * (image_width as int) <= old(buf)@.len(),
    ensures
        final(buf)@ == blank_spec(
            old(buf)@,
            frame.top as int,
            frame.left as int,
            frame.width as int,
            frame.height as int,
            image_width as int,
        ),
{
    let ghost cw = image_width as int;
    let ghost t0 = old(buf)@;
    let ghost top = frame.top as int;
    let ghost left = frame.left as int;
    let ghost w = frame.width as int;
    let ghost h = frame.height as int;
    let cw_us = image_width as usize;
    let xend = frame.left as usize + frame.width as usize;
    let yend = frame.top as usize + frame.height as usize;
    let mut x = frame.left as usize;
    while x < xend
        invariant
            left <= x <= xend,
            xend == left + w,
            yend == top + h,
            cw == cw_us,
            left + w <= cw,
            (top + h) * cw <= t0.len(),
            buf@.len() == t0.len(),
            forall|p: int|
                0 <= p < t0.len() ==> buf@[p] == (if in_rect(top, left, w, h, cw, p) && p % cw
                    < x as int {
                    SENTINEL
                } else {
                    t0[p]
                }),
        decreases xend - x,
    {
        let mut y = frame.top as usize;
        while y < yend
            invariant
                left <= x < xend,
                xend == left + w,
                yend == top + h,
                cw == cw_us,
                left + w <= cw,
                top <= y <= yend,
                (top + h) * cw <= t0.len(),
                    buf@.len() == t0.len(),
                forall|p: int|
                    0 <= p < t0.len() ==> buf@[p] == (if in_rect(top, left, w, h, cw, p) && (p % cw
                        < x as int || (p % cw == x as int && p / cw < y as int)) {
                        SENTINEL
                    } else {
                        t0[p]
                    }),
            decreases yend - y,
        {
            proof {
                lemma_pixel_position(x as int, y as int, top + h, cw, t0.len() as int);
            }
            let n = buf.len();
            assert(x + y * cw_us < n);
            let p = x + y * cw_us;
            buf[p] = SENTINEL;
            proof {
                assert forall|q: int|
                    0 <= q < t0.len() implies buf@[q] == (if in_rect(top, left, w, h, cw, q) && (q
                    % cw < x as int || (q % cw == x as int && q / cw < y as int + 1)) {
                    SENTINEL
                } else {
                    t0[q]
                }) by {
                    if q != p as int && q % cw == x as int && q / cw == y as int {
                        lemma_position_unique(q, x as int, y as int, cw);
                    }
                }
            }
            y = y + 1;
        }
        x = x + 1;
    }
    proof {
        assert(buf@ =~= blank_spec(t0, top, left, w, h, cw));
    }
}

/// Copying one rectangle and then erasing a second, disjoint rectangle
/// touches no pixel outside the two rectangles: the rest of the canvas reads
/// exactly as before either operation.
pub proof fn lemma_copy_blank_isolated(
    from: Seq<char>,
    to: Seq<char>,
    t1: int,
    l1: int,
    w1: int,
    h1: int,
    t2: int,
    l2: int,
    w2: int,
    h2: int,
    cw: int,
)
    requires
        from.len() == to.len(),
        forall|p: int| !(#[trigger] in_rect(t1, l1, w1, h1, cw, p) && in_rect(t2, l2, w2, h2, cw, p)),
    ensures
        forall|p: int|
            0 <= p < to.len() && !in_rect(t1, l1, w1, h1, cw, p) && !in_rect(t2, l2, w2, h2, cw, p)
                ==> #[trigger] blank_spec(
                copy_spec(from, to, t1, l1, w1, h1, cw),
                t2,
                l2,
                w2,
                h2,
                cw,
            )[p] == to[p],
{
}

/// Erasing a rectangle leaves exactly that rectangle as the sentinel glyph
/// and every other pixel unchanged, whatever the canvas held there.
pub proof fn lemma_blank_region(buf: Seq<char>, top: int, left: int, w: int, h: int, cw: int)
    ensures
        forall|p: int|
            0 <= p < buf.len() && #[trigger] in_rect(top, left, w, h, cw, p) ==> blank_spec(
                buf,
                top,
                left,
                w,
                h,
                cw,
            )[p] == SENTINEL,
        forall|p: int|
            0 <= p < buf.len() && !(#[trigger] in_rect(top, left, w, h, cw, p)) ==> blank_spec(
                buf,
                top,
                left,
                w,
                h,
                cw,
            )[p] == buf[p],
{
}

} // verus!
