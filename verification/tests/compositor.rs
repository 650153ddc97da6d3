use gif_glyphs::compose::{dispose, render_frame};
use gif_glyphs::frame::{Disposal, FrameDescriptor};
use gif_glyphs::error::DecodeError;
use gif_glyphs::palette::pick_color;
use gif_glyphs::region::{blank, copy};
use gif_glyphs::text::{frame_block, show};

const GLYPHS: [char; 5] = [' ', '░', '▒', '▓', '█'];
const SENTINEL: char = '▞';

fn glyph_index(c: char) -> usize {
    GLYPHS.iter().position(|&g| g == c).expect("not one of the five glyphs")
}

fn plain_frame(top: u16, left: u16, width: u16, height: u16, buffer: Vec<u8>) -> FrameDescriptor {
    FrameDescriptor {
        top,
        left,
        width,
        height,
        palette: None,
        transparent: None,
        dispose: Disposal::Keep,
        buffer,
    }
}

fn sentinel_canvas(n: usize) -> Vec<char> {
    vec![SENTINEL; n]
}

#[test]
fn pick_color_five_levels() {
    let pal: Vec<u8> = vec![
        0, 0, 0, 85, 85, 85, 150, 150, 150, 200, 200, 200, 255, 255, 255,
    ];
    assert_eq!(pick_color(&pal, 0), ' ');
    assert_eq!(pick_color(&pal, 1), '░');
    assert_eq!(pick_color(&pal, 2), '▒');
    assert_eq!(pick_color(&pal, 3), '▓');
    assert_eq!(pick_color(&pal, 4), '█');
}

#[test]
fn pick_color_monotone_over_grays() {
    let mut last = 0usize;
    for v in 0..=255u8 {
        let pal: Vec<u8> = vec![v, v, v];
        let idx = glyph_index(pick_color(&pal, 0));
        assert!(idx >= last, "level dropped from {} to {} at gray {}", last, idx, v);
        last = idx;
    }
    assert_eq!(last, 4);
}

#[test]
fn copy_then_blank_leaves_outside_untouched() {
    // canvas 4x4; copy the top-left 2x2, blank the bottom-right 2x2
    let from: Vec<char> = "abcdefghijklmnop".chars().collect();
    let orig: Vec<char> = "ABCDEFGHIJKLMNOP".chars().collect();
    let mut to = orig.clone();
    let rect1 = plain_frame(0, 0, 2, 2, vec![]);
    let rect2 = plain_frame(2, 2, 2, 2, vec![]);
    copy(&rect1, 4, &from, &mut to);
    blank(&rect2, 4, &mut to);
    for y in 0..4usize {
        for x in 0..4usize {
            let p = x + y * 4;
            let in_r1 = x < 2 && y < 2;
            let in_r2 = x >= 2 && y >= 2;
            if in_r1 {
                assert_eq!(to[p], from[p]);
            } else if in_r2 {
                assert_eq!(to[p], SENTINEL);
            } else {
                assert_eq!(to[p], orig[p]);
            }
        }
    }
}

#[test]
fn background_disposal_blanks_only_the_rectangle() {
    // 3x3 canvas of distinct letters; frame rectangle 2x1 at (1,1)
    let orig: Vec<char> = "abcdefghi".chars().collect();
    let mut curr = orig.clone();
    let mut prev = orig.clone();
    let mut f = plain_frame(1, 1, 2, 1, vec![]);
    f.dispose = Disposal::Background;
    dispose(&f, 3, &mut curr, &mut prev);
    assert_eq!(curr, "abcd▞▞ghi".chars().collect::<Vec<char>>());
    assert_eq!(prev, orig);
}

#[test]
fn first_frame_renders_directly_rest_stays_sentinel() {
    // 3x3 canvas, 2x2 frame at top=0,left=1, black/white global table
    let global: Vec<u8> = vec![0, 0, 0, 255, 255, 255];
    let mut curr = sentinel_canvas(9);
    let f = plain_frame(0, 1, 2, 2, vec![0, 1, 1, 0]);
    render_frame(&mut curr, &f, &global, None, 3).unwrap();
    let expected: Vec<char> = vec![
        SENTINEL, ' ', '█',
        SENTINEL, '█', ' ',
        SENTINEL, SENTINEL, SENTINEL,
    ];
    assert_eq!(curr, expected);
}

#[test]
fn restore_previous_round_trips_the_canvas() {
    let global: Vec<u8> = vec![0, 0, 0, 255, 255, 255];
    let mut curr = sentinel_canvas(4);
    let mut prev = sentinel_canvas(4);

    // frame 1 keeps its rectangle
    let f1 = plain_frame(0, 0, 2, 2, vec![0, 1, 1, 0]);
    render_frame(&mut curr, &f1, &global, None, 2).unwrap();
    let after_frame1 = curr.clone();
    dispose(&f1, 2, &mut curr, &mut prev);

    // frame 2 covers the same rectangle and restores to previous
    let mut f2 = plain_frame(0, 0, 2, 2, vec![1, 1, 1, 1]);
    f2.dispose = Disposal::Previous;
    render_frame(&mut curr, &f2, &global, None, 2).unwrap();
    assert_eq!(curr, vec!['█', '█', '█', '█']);
    dispose(&f2, 2, &mut curr, &mut prev);

    // the canvas a third frame would composite onto equals the one after frame 1
    assert_eq!(curr, after_frame1);
}

#[test]
fn transparent_index_skips_pixels() {
    let global: Vec<u8> = vec![0, 0, 0, 255, 255, 255];
    let mut curr = sentinel_canvas(4);
    let mut f = plain_frame(0, 0, 2, 2, vec![0, 1, 1, 0]);
    f.transparent = Some(1);
    render_frame(&mut curr, &f, &global, None, 2).unwrap();
    assert_eq!(curr, vec![' ', SENTINEL, SENTINEL, ' ']);
}

#[test]
fn global_background_index_is_transparent_without_frame_transparency() {
    let global: Vec<u8> = vec![0, 0, 0, 255, 255, 255];
    let mut curr = sentinel_canvas(4);
    let f = plain_frame(0, 0, 2, 2, vec![0, 1, 1, 0]);
    render_frame(&mut curr, &f, &global, Some(0), 2).unwrap();
    assert_eq!(curr, vec![SENTINEL, '█', '█', SENTINEL]);
}

#[test]
fn local_palette_takes_precedence() {
    let global: Vec<u8> = vec![0, 0, 0, 0, 0, 0];
    let mut curr = sentinel_canvas(1);
    let mut f = plain_frame(0, 0, 1, 1, vec![1]);
    f.palette = Some(vec![0, 0, 0, 255, 255, 255]);
    render_frame(&mut curr, &f, &global, None, 1).unwrap();
    assert_eq!(curr, vec!['█']);
}

#[test]
fn frame_leaving_the_canvas_is_rejected() {
    let global: Vec<u8> = vec![0, 0, 0];
    let mut curr = sentinel_canvas(4);
    let f = plain_frame(1, 1, 2, 2, vec![0, 0, 0, 0]);
    let r = render_frame(&mut curr, &f, &global, None, 2);
    assert!(matches!(r, Err(DecodeError::FrameOutOfBounds)));
    assert_eq!(curr, sentinel_canvas(4));
}

#[test]
fn buffer_size_mismatch_is_rejected() {
    let global: Vec<u8> = vec![0, 0, 0];
    let mut curr = sentinel_canvas(4);
    let f = plain_frame(0, 0, 2, 2, vec![0, 0]);
    let r = render_frame(&mut curr, &f, &global, None, 2);
    assert!(matches!(r, Err(DecodeError::FrameOutOfBounds)));
}

#[test]
fn palette_index_overflow_is_rejected() {
    let global: Vec<u8> = vec![0, 0, 0, 255, 255, 255];
    let mut curr = sentinel_canvas(4);
    let f = plain_frame(0, 0, 2, 2, vec![0, 5, 1, 0]);
    let r = render_frame(&mut curr, &f, &global, None, 2);
    assert!(matches!(r, Err(DecodeError::PaletteOverflow)));
    assert_eq!(curr, sentinel_canvas(4));
}

#[test]
fn transparent_overflowing_index_is_not_an_error() {
    // index 5 overflows the table but is never drawn: it is transparent
    let global: Vec<u8> = vec![0, 0, 0, 255, 255, 255];
    let mut curr = sentinel_canvas(4);
    let mut f = plain_frame(0, 0, 2, 2, vec![0, 5, 5, 0]);
    f.transparent = Some(5);
    render_frame(&mut curr, &f, &global, None, 2).unwrap();
    assert_eq!(curr, vec![' ', SENTINEL, SENTINEL, ' ']);
}

#[test]
fn show_renders_rows_with_line_breaks() {
    let buf: Vec<char> = "abcdef".chars().collect();
    assert_eq!(show(3, &buf), "abc\ndef\n");
}

#[test]
fn frame_block_has_label_rows_and_blank_line() {
    let buf: Vec<char> = vec![' ', '█', '█', ' '];
    assert_eq!(frame_block(0, &buf, 2), "frame 0\n █\n█ \n\n");
    assert_eq!(frame_block(12, &buf, 2), "frame 12\n █\n█ \n\n");
}

#[test]
fn end_to_end_two_by_two_single_frame() {
    let global: Vec<u8> = vec![0, 0, 0, 255, 255, 255];
    let mut curr = sentinel_canvas(4);
    let f = plain_frame(0, 0, 2, 2, vec![0, 1, 1, 0]);
    render_frame(&mut curr, &f, &global, None, 2).unwrap();
    let text = frame_block(0, &curr, 2);
    assert_eq!(text, "frame 0\n █\n█ \n\n");
}
