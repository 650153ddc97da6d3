//! Rendering the canvas and the per-frame label as text.

use vstd::prelude::*;
use vstd::string::StringExecFns;

verus! {

/// Relies on String::push: appends the given character to the end of the
/// string.
pub assume_specification[ String::push ](s: &mut String, ch: char)
    ensures
        final(s)@ == old(s)@.push(ch),
;

/// The decimal digit character for `d` between 0 and 9.
pub open spec fn digit_char(d: int) -> char {
    if d == 0 {
        '0'
    } else if d == 1 {
        '1'
    } else if d == 2 {
        '2'
    } else if d == 3 {
        '3'
    } else if d == 4 {
        '4'
    } else if d == 5 {
        '5'
    } else if d == 6 {
        '6'
    } else if d == 7 {
        '7'
    } else if d == 8 {
        '8'
    } else {
        '9'
    }
}

/// The decimal rendering of `n`, most significant digit first, with no sign
/// and no leading zeros (a single `0` for zero itself).
pub open spec fn dec_spec(n: int) -> Seq<char>
    decreases n,
{
    if n < 10 {
        seq![digit_char(n)]
    } else {
        dec_spec(n / 10).push(digit_char(n % 10))
    }
}

/// Appends the decimal rendering of `n` to `out`.
pub fn push_decimal(out: &mut String, n: u64)
    ensures
        final(out)@ == old(out)@ + dec_spec(n as int),
    decreases n,
{
    if n >= 10 {
        push_decimal(out, n / 10);
    }
    let d = n % 10;
    let c: char = if d == 0 {
        '0'
    } else if d == 1 {
        '1'
    } else if d == 2 {
        '2'
    } else if d == 3 {
        '3'
    } else if d == 4 {
        '4'
    } else if d == 5 {
        '5'
    } else if d == 6 {
        '6'
    } else if d == 7 {
        '7'
    } else if d == 8 {
        '8'
    } else {
        '9'
    };
    out.push(c);
    proof {
        assert(out@ =~= old(out)@ + dec_spec(n as int));
    }
}

/// One canvas row as text: the `cw` glyphs of row `y`, then a line break.
pub open spec fn row_spec(buf: Seq<char>, cw: int, y: int) -> Seq<char> {
    buf.subrange(y * cw, (y + 1) * cw).push('\n')
}

/// The text of the first `y` canvas rows.
pub open spec fn rows_spec(buf: Seq<char>, cw: int, y: int) -> Seq<char>
    decreases y,
{
    if y <= 0 {
        Seq::empty()
    } else {
        rows_spec(buf, cw, y - 1) + row_spec(buf, cw, y - 1)
    }
}

/// The whole canvas as text: one line per full row of `cw` glyphs.
pub open spec fn show_spec(buf: Seq<char>, cw: int) -> Seq<char> {
    rows_spec(buf, cw, buf.len() as int / cw)
}

/// Row `y` starts within the canvas and ends no later than its last pixel.
proof fn lemma_row_bound(len: int, cw: int, y: int)
    requires
        cw > 0,
        0 <= y,
        y < len / cw,
    ensures
        0 <= y * cw,
        y * cw + cw <= len,
{
    let q = len / cw;
    vstd::arithmetic::div_mod::lemma_fundamental_div_mod(len, cw);
    vstd::arithmetic::div_mod::lemma_mod_bound(len, cw);
    assert(0 <= y * cw && y * cw + cw <= q * cw) by (nonlinear_arith)
        requires
            0 <= y,
            y + 1 <= q,
            cw > 0,
    ;
}

/// Renders the canvas as text: one line of `width` glyphs per row, rows in
/// order from the top.
#[verifier::loop_isolation(false)]
pub fn show(width: u16, buf: &Vec<char>) -> (r: String)
    requires
        width > 0,
    ensures
        r@ == show_spec(buf@, width as int),
{
    let cw = width as usize;
    let n = buf.len();
    let rows = n / cw;
    let mut s = String::new();
    let mut y: usize = 0;
    while y < rows
        invariant
            0 <= y <= rows,
            s@ == rows_spec(buf@, cw as int, y as int),
        decreases rows - y,
    {
        proof {
            lemma_row_bound(n as int, cw as int, y as int);
        }
        let mut x: usize = 0;
        while x < cw
            invariant
                0 <= x <= cw,
                y < rows,
                y * cw + cw <= n,
                0 <= y * cw,
                s@ == rows_spec(buf@, cw as int, y as int) + buf@.subrange(
                    y as int * cw as int,
                    y as int * cw as int + x as int,
                ),
            decreases cw - x,
        {
            s.push(buf[y * cw + x]);
            x = x + 1;
            proof {
                assert(s@ =~= rows_spec(buf@, cw as int, y as int) + buf@.subrange(
                    y as int * cw as int,
                    y as int * cw as int + x as int,
                ));
            }
        }
        s.push('\n');
        proof {
            assert((y as int + 1) * (cw as int) == y as int * (cw as int) + cw as int) by (nonlinear_arith);
            assert(s@ =~= rows_spec(buf@, cw as int, y as int + 1));
        }
        y = y + 1;
    }
    s
}

/// The full text emitted for one frame: a label line `frame <n>`, the canvas
/// rows, and a blank separator line.
pub open spec fn frame_block_spec(n: int, canvas: Seq<char>, cw: int) -> Seq<char> {
    "frame "@ + dec_spec(n) + seq!['\n'] + show_spec(canvas, cw) + seq!['\n']
}

/// Renders one frame for display: label line, canvas rows, blank line.
pub fn frame_block(n: u64, canvas: &Vec<char>, width: u16) -> (r: String)
    requires
        width > 0,
    ensures
        r@ == frame_block_spec(n as int, canvas@, width as int),
{
    let mut s = String::from_str("frame ");
    push_decimal(&mut s, n);
    s.push('\n');
    let body = show(width, canvas);
    s.append(body.as_str());
    s.push('\n');
    proof {
        assert(s@ =~= frame_block_spec(n as int, canvas@, width as int));
    }
    s
}

} // verus!
