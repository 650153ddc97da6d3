//! The trusted boundary to the `gif` decoder, and the per-source driver.
//!
//! The decoder is a stateful outside collaborator: what it will yield for a
//! given decoder value is given names below (`frames_of` and the screen
//! metadata), and the driver `render_all` is verified to emit, for every
//! decoder value, exactly the frame blocks that the compositor's run over
//! those named frames dictates.

use vstd::prelude::*;
use crate::compose::{
    all_sentinel, composite_spec, dispose, effective_bg_spec, effective_palette_spec, frame_index,
    indices_in_palette, lemma_first_frame, render_frame,
};
use crate::error::DecodeError;
use crate::frame::{Disposal, FrameDescriptor};
use crate::palette::glyph_of_entry;
use crate::region::{blank_spec, copy_spec, frame_fits, in_rect, SENTINEL};
use crate::text::{frame_block, frame_block_spec};

verus! {

/// Holds the `gif` crate's decoder over one source's bytes. The decoder is
/// opaque to verification and is driven only through the trusted wrappers
/// below; its reader bound keeps the type itself from being declared.
#[verifier::external_body]
pub struct SourceDecoder {
    inner: gif::Decoder<std::io::Cursor<Vec<u8>>>,
}

/// The frames this decoder value will still yield, in order, up to the
/// stream's end or its first malformed point.
pub uninterp spec fn frames_of(d: SourceDecoder) -> Seq<FrameDescriptor>;

/// The canvas width this decoder read from the screen descriptor.
pub uninterp spec fn screen_width_of(d: SourceDecoder) -> u16;

/// The canvas height this decoder read from the screen descriptor.
pub uninterp spec fn screen_height_of(d: SourceDecoder) -> u16;

/// The global background index this decoder read, if any.
pub uninterp spec fn background_of(d: SourceDecoder) -> Option<usize>;

/// The global color table this decoder read, if any.
pub uninterp spec fn global_palette_of(d: SourceDecoder) -> Option<Seq<u8>>;

/// Relies on gif::Decoder::new: reads the stream header, screen descriptor
/// and global color table of the byte stream, or reports why the stream is
/// malformed.
#[verifier::external_body]
fn decoder_new(data: &Vec<u8>) -> (r: Result<SourceDecoder, gif::DecodingError>) {
    match gif::Decoder::new(std::io::Cursor::new(data.clone())) {
        Ok(d) => Ok(SourceDecoder { inner: d }),
        Err(e) => Err(e),
    }
}

/// Relies on gif::Decoder::width: the canvas width from the screen
/// descriptor.
#[verifier::external_body]
fn decoder_width(d: &SourceDecoder) -> (r: u16)
    ensures
        r == screen_width_of(*d),
{
    d.inner.width()
}

/// Relies on gif::Decoder::height: the canvas height from the screen
/// descriptor.
#[verifier::external_body]
fn decoder_height(d: &SourceDecoder) -> (r: u16)
    ensures
        r == screen_height_of(*d),
{
    d.inner.height()
}

/// Relies on gif::Decoder::bg_color: the global background index, read from
/// a single byte of the screen descriptor.
#[verifier::external_body]
fn decoder_bg_color(d: &SourceDecoder) -> (r: Option<usize>)
    ensures
        r == background_of(*d),
        r matches Some(b) ==> b <= 255,
{
    d.inner.bg_color()
}

/// Relies on gif::Decoder::global_palette: the global color table as RGB
/// byte triples, if the source carries one.
#[verifier::external_body]
fn decoder_global_palette(d: &SourceDecoder) -> (r: Option<Vec<u8>>)
    ensures
        (match r {
            Some(p) => global_palette_of(*d) == Some(p@),
            None => global_palette_of(*d) is None,
        }),
{
    d.inner.global_palette().map(|p| p.to_vec())
}

/// Relies on gif::Decoder::read_next_frame: decodes the next frame and
/// hands it over as this crate's descriptor (the disposal tag told apart
/// arm by arm), or `None` once the stream is exhausted. A successful read
/// yields the first of the frames named by `frames_of` and leaves the rest;
/// of a failure (a malformed stream, or memory running out) nothing is
/// promised.
#[verifier::external_body]
fn decoder_next(d: &mut SourceDecoder) -> (r: Result<Option<FrameDescriptor>, gif::DecodingError>)
    ensures
        r matches Ok(Some(f)) ==> frames_of(*old(d)).len() > 0 && f == frames_of(*old(d))[0]
            && frames_of(*final(d)) == frames_of(*old(d)).drop_first(),
        r matches Ok(None) ==> frames_of(*old(d)).len() == 0,
{
    match d.inner.read_next_frame() {
        Err(e) => Err(e),
        Ok(None) => Ok(None),
        Ok(Some(f)) => Ok(Some(FrameDescriptor {
            top: f.top, left: f.left, width: f.width, height: f.height,
            palette: f.palette.clone(), transparent: f.transparent,
            dispose: match f.dispose {
                gif::DisposalMethod::Any => Disposal::Any,
                gif::DisposalMethod::Keep => Disposal::Keep,
                gif::DisposalMethod::Background => Disposal::Background,
                gif::DisposalMethod::Previous => Disposal::Previous,
            },
            buffer: f.buffer.to_vec(),
        })),
    }
}

/// Builds a blank canvas of `n` sentinel glyphs.
fn sentinel_canvas(n: usize) -> (r: Vec<char>)
    ensures
        r@ == all_sentinel(n as nat),
{
    let mut v: Vec<char> = Vec::new();
    let mut i: usize = 0;
    while i < n
        invariant
            i == v@.len() <= n,
            forall|j: int| 0 <= j < i ==> v@[j] == SENTINEL,
        decreases n - i,
    {
        v.push(SENTINEL);
        i = i + 1;
    }
    proof {
        assert(v@ =~= all_sentinel(n as nat));
    }
    v
}

/// Whether the compositor accepts the frame on this canvas: the canvas has
/// columns, the rectangle and buffer fit, and every drawn index has a
/// table entry.
pub open spec fn step_ok(
    curr: Seq<char>,
    f: FrameDescriptor,
    gpal: Seq<u8>,
    gbg: Option<usize>,
    cw: int,
) -> bool {
    &&& cw > 0
    &&& frame_fits(&f, cw, curr.len() as int)
    &&& indices_in_palette(&f, effective_palette_spec(&f, gpal), effective_bg_spec(&f, gbg))
}

/// The current canvas after the frame's disposal, given the just-rendered
/// canvas `c1` and the kept canvas.
pub open spec fn disposed_curr(c1: Seq<char>, prev: Seq<char>, f: FrameDescriptor, cw: int) -> Seq<
    char,
> {
    match f.dispose {
        Disposal::Any | Disposal::Keep => c1,
        Disposal::Previous => copy_spec(
            prev,
            c1,
            f.top as int,
            f.left as int,
            f.width as int,
            f.height as int,
            cw,
        ),
        Disposal::Background => blank_spec(
            c1,
            f.top as int,
            f.left as int,
            f.width as int,
            f.height as int,
            cw,
        ),
    }
}

/// The kept canvas after the frame's disposal.
pub open spec fn disposed_prev(c1: Seq<char>, prev: Seq<char>, f: FrameDescriptor, cw: int) -> Seq<
    char,
> {
    match f.dispose {
        Disposal::Any | Disposal::Keep => copy_spec(
            c1,
            prev,
            f.top as int,
            f.left as int,
            f.width as int,
            f.height as int,
            cw,
        ),
        Disposal::Previous => prev,
        Disposal::Background => prev,
    }
}

/// The text blocks a compositor run emits: starting at label `n` with the
/// given current and kept canvas, each frame in turn is composited, its
/// block (label line, canvas rows, blank line) emitted, and its disposal
/// applied; the run stops at the list's end or at the first frame the
/// compositor rejects.
pub open spec fn run_blocks(
    n: int,
    curr: Seq<char>,
    prev: Seq<char>,
    fs: Seq<FrameDescriptor>,
    gpal: Seq<u8>,
    gbg: Option<usize>,
    cw: int,
) -> Seq<Seq<char>>
    decreases fs.len(),
{
    if fs.len() == 0 || !step_ok(curr, fs[0], gpal, gbg, cw) {
        Seq::empty()
    } else {
        let f = fs[0];
        let c1 = composite_spec(
            curr,
            &f,
            effective_palette_spec(&f, gpal),
            effective_bg_spec(&f, gbg),
            cw,
        );
        seq![frame_block_spec(n, c1, cw)] + run_blocks(
            n + 1,
            disposed_curr(c1, prev, f, cw),
            disposed_prev(c1, prev, f, cw),
            fs.drop_first(),
            gpal,
            gbg,
            cw,
        )
    }
}

/// Renders every frame the decoder yields, appending each frame's text to
/// `out` in order: exactly the blocks of the compositor's run over the
/// decoder's named frames, from fresh sentinel canvases. `Ok` means the
/// stream was exhausted with every frame accepted; a compositor rejection
/// reports which check failed, after the full run's blocks; a decoder
/// failure reports the decoder's error, with the blocks read so far kept.
#[verifier::loop_isolation(false)]
pub fn render_all(d: &mut SourceDecoder, out: &mut Vec<String>) -> (r: Result<(), DecodeError>)
    ensures
        ({
            let fs = frames_of(*old(d));
            let cw = screen_width_of(*old(d)) as int;
            let size = (screen_width_of(*old(d)) as int * screen_height_of(*old(d)) as int) as nat;
            let gpal = match global_palette_of(*old(d)) {
                Some(p) => p,
                None => Seq::<u8>::empty(),
            };
            let blocks = run_blocks(
                0,
                all_sentinel(size),
                all_sentinel(size),
                fs,
                gpal,
                background_of(*old(d)),
                cw,
            );
            &&& old(out)@.len() <= final(out)@.len() <= old(out)@.len() + blocks.len()
            &&& (forall|i: int| 0 <= i < old(out)@.len() ==> final(out)@[i] == old(out)@[i])
            &&& (forall|i: int|
                old(out)@.len() <= i < final(out)@.len() ==> (#[trigger] final(out)@[i])@
                    == blocks[i - old(out)@.len()])
            &&& (r is Ok && fs.len() < u64::MAX ==> final(out)@.len() == old(out)@.len()
                + blocks.len() && blocks.len() == fs.len())
            &&& (r is Err && !(r matches Err(DecodeError::Source(_))) ==> final(out)@.len()
                == old(out)@.len() + blocks.len() && blocks.len() < fs.len())
            &&& (r matches Err(DecodeError::FrameOutOfBounds) ==> cw == 0 || !frame_fits(
                &fs[blocks.len() as int],
                cw,
                size as int,
            ))
            &&& (r matches Err(DecodeError::PaletteOverflow) ==> cw > 0 && frame_fits(
                &fs[blocks.len() as int],
                cw,
                size as int,
            ) && !indices_in_palette(
                &fs[blocks.len() as int],
                effective_palette_spec(&fs[blocks.len() as int], gpal),
                effective_bg_spec(&fs[blocks.len() as int], background_of(*old(d))),
            ))
        }),
{
    let ghost fs0 = frames_of(*d);
    let width = decoder_width(&*d);
    let height = decoder_height(&*d);
    let global_bg = decoder_bg_color(&*d);
    let global_palette = match decoder_global_palette(&*d) {
        Some(p) => p,
        None => Vec::new(),
    };
    let ghost cw = width as int;
    let ghost gpal = global_palette@;
    proof {
        assert(width as int * height as int <= 65535 * 65535) by (nonlinear_arith)
            requires
                0 <= width as int <= 65535,
                0 <= height as int <= 65535,
        ;
    }
    let size = width as usize * height as usize;
    let ghost blocks = run_blocks(
        0,
        all_sentinel(size as nat),
        all_sentinel(size as nat),
        fs0,
        gpal,
        global_bg,
        cw,
    );
    let mut curr = sentinel_canvas(size);
    let mut prev = sentinel_canvas(size);
    let mut count: u64 = 0;
    loop
        invariant
            curr@.len() == size,
            prev@.len() == size,
            count <= fs0.len(),
            count <= blocks.len(),
            frames_of(*d) == fs0.skip(count as int),
            out@.len() == old(out)@.len() + count,
            forall|i: int| 0 <= i < old(out)@.len() ==> out@[i] == old(out)@[i],
            forall|i: int|
                old(out)@.len() <= i < out@.len() ==> (#[trigger] out@[i])@ == blocks[i - old(
                    out,
                )@.len()],
            run_blocks(count as int, curr@, prev@, frames_of(*d), gpal, global_bg, cw)
                == blocks.skip(count as int),
        decreases u64::MAX - count,
    {
        if count == u64::MAX {
            // the label space is exhausted; stop rather than wrap the counter
            return Ok(());
        }
        let next = match decoder_next(d) {
            Ok(o) => o,
            Err(e) => {
                return Err(DecodeError::Source(e));
            },
        };
        let f = match next {
            Some(f) => f,
            None => {
                proof {
                    assert(blocks.skip(count as int) =~= Seq::<Seq<char>>::empty());
                }
                return Ok(());
            },
        };
        let ghost fs_here = fs0.skip(count as int);
        let ghost c_before = curr@;
        let ghost p_before = prev@;
        if width == 0 {
            // a canvas with no columns cannot hold or display any frame
            proof {
                assert(blocks.skip(count as int) =~= Seq::<Seq<char>>::empty());
                assert(blocks.len() == count);
            }
            return Err(DecodeError::FrameOutOfBounds);
        }
        match render_frame(&mut curr, &f, &global_palette, global_bg, width) {
            Ok(()) => {},
            Err(e) => {
                proof {
                    assert(!step_ok(curr@, fs_here[0], gpal, global_bg, cw));
                    assert(blocks.skip(count as int) =~= Seq::<Seq<char>>::empty());
                    assert(blocks.len() == count);
                    assert(f == fs0[count as int]);
                }
                return Err(e);
            },
        }
        proof {
            assert(step_ok(c_before, fs_here[0], gpal, global_bg, cw));
            assert(blocks.skip(count as int)[0] == frame_block_spec(count as int, curr@, cw));
        }
        let text = frame_block(count, &curr, width);
        out.push(text);
        dispose(&f, width, &mut curr, &mut prev);
        proof {
            assert(fs_here.drop_first() =~= fs0.skip(count as int + 1));
            assert((blocks.skip(count as int)).drop_first() =~= blocks.skip(count as int + 1));
        }
        count = count + 1;
    }
}

/// Renders every frame of one in-memory source, appending each frame's
/// text to `out` in order; the text of frames rendered before a failure
/// stays in `out`, and the first failure ends the source. The decoder call
/// decides what the bytes yield; everything emitted is fixed by
/// `render_all`'s contract over the decoder value it produces.
pub fn process(data: &Vec<u8>, out: &mut Vec<String>) -> (r: Result<(), DecodeError>)
    ensures
        final(out)@.len() >= old(out)@.len(),
        forall|i: int| 0 <= i < old(out)@.len() ==> final(out)@[i] == old(out)@[i],
{
    let mut decoder = match decoder_new(data) {
        Ok(d) => d,
        Err(e) => {
            return Err(DecodeError::Source(e));
        },
    };
    render_all(&mut decoder, out)
}

/// One compositor step never touches a pixel outside the frame's
/// rectangle: neither compositing nor any disposal changes it, so canvas
/// area that no frame of a run ever covers keeps the sentinel glyph of the
/// fresh canvas throughout the run.
pub proof fn lemma_step_outside_rect(
    curr: Seq<char>,
    prev: Seq<char>,
    f: FrameDescriptor,
    gpal: Seq<u8>,
    gbg: Option<usize>,
    cw: int,
    p: int,
)
    requires
        0 <= p < curr.len(),
        !in_rect(f.top as int, f.left as int, f.width as int, f.height as int, cw, p),
    ensures
        ({
            let c1 = composite_spec(
                curr,
                &f,
                effective_palette_spec(&f, gpal),
                effective_bg_spec(&f, gbg),
                cw,
            );
            &&& c1[p] == curr[p]
            &&& disposed_curr(c1, prev, f, cw)[p] == curr[p]
        }),
{
}

/// A run over exactly one accepted frame with no transparent index in
/// effect emits one block, whose canvas shows the glyph of the frame's own
/// palette entry at every covered pixel and the sentinel glyph at every
/// other pixel.
pub proof fn lemma_single_frame_run(f: FrameDescriptor, gpal: Seq<u8>, size: nat, cw: int)
    requires
        f.transparent is None,
        step_ok(all_sentinel(size), f, gpal, None, cw),
    ensures
        ({
            let pal = effective_palette_spec(&f, gpal);
            let c = composite_spec(all_sentinel(size), &f, pal, effective_bg_spec(&f, None), cw);
            let blocks = run_blocks(0, all_sentinel(size), all_sentinel(size), seq![f], gpal, None, cw);
            &&& blocks =~= seq![frame_block_spec(0, c, cw)]
            &&& (forall|p: int|
                0 <= p < size && in_rect(
                    f.top as int,
                    f.left as int,
                    f.width as int,
                    f.height as int,
                    cw,
                    p,
                ) ==> c[p] == glyph_of_entry(pal, f.buffer@[frame_index(&f, cw, p)] as int))
            &&& (forall|p: int|
                0 <= p < size && !in_rect(
                    f.top as int,
                    f.left as int,
                    f.width as int,
                    f.height as int,
                    cw,
                    p,
                ) ==> c[p] == SENTINEL)
        }),
{
    lemma_first_frame(&f, effective_palette_spec(&f, gpal), cw, size);
    assert(seq![f].drop_first() =~= Seq::<FrameDescriptor>::empty());
    assert(seq![f][0] == f);
    let s = all_sentinel(size);
    let c1 = composite_spec(s, &f, effective_palette_spec(&f, gpal), effective_bg_spec(&f, None), cw);
    assert(run_blocks(
        1,
        disposed_curr(c1, s, f, cw),
        disposed_prev(c1, s, f, cw),
        seq![f].drop_first(),
        gpal,
        None,
        cw,
    ) =~= Seq::<Seq<char>>::empty());
    assert(run_blocks(0, all_sentinel(size), all_sentinel(size), seq![f], gpal, None, cw)
        =~= seq![
        frame_block_spec(
            0,
            composite_spec(
                all_sentinel(size),
                &f,
                effective_palette_spec(&f, gpal),
                effective_bg_spec(&f, None),
                cw,
            ),
            cw,
        ),
    ]);
}

} // verus!
