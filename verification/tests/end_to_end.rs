use std::borrow::Cow;

use gif_glyphs::decode::process;
use gif_glyphs::error::DecodeError;

/// Encodes a GIF with the given global palette and frames (each frame is
/// (width, height, indices)), all placed at the canvas origin.
fn encode(width: u16, height: u16, palette: &[u8], frames: &[(u16, u16, Vec<u8>)]) -> Vec<u8> {
    let mut bytes: Vec<u8> = Vec::new();
    {
        let mut enc = gif::Encoder::new(&mut bytes, width, height, palette).unwrap();
        for (w, h, indices) in frames {
            let mut frame = gif::Frame::default();
            frame.width = *w;
            frame.height = *h;
            frame.buffer = Cow::Borrowed(indices);
            enc.write_frame(&frame).unwrap();
        }
    }
    bytes
}

#[test]
fn two_by_two_single_frame_through_the_decoder() {
    // the encoder marks palette entry 0 as the global background index, and
    // background pixels are skipped; entries 1 and 2 render unconditionally
    let pal: &[u8] = &[0, 0, 0, 255, 255, 255, 0, 0, 0, 0, 0, 0];
    let bytes = encode(2, 2, pal, &[(2, 2, vec![2, 1, 1, 2])]);
    let mut out: Vec<String> = Vec::new();
    let r = process(&bytes, &mut out);
    assert!(r.is_ok());
    assert_eq!(out.len(), 1);
    assert_eq!(out[0], "frame 0\n █\n█ \n\n");
}

#[test]
fn frame_labels_count_from_zero() {
    let pal: &[u8] = &[0, 0, 0, 255, 255, 255, 0, 0, 0, 0, 0, 0];
    let bytes = encode(
        2,
        1,
        pal,
        &[(2, 1, vec![2, 1]), (2, 1, vec![1, 2]), (2, 1, vec![1, 1])],
    );
    let mut out: Vec<String> = Vec::new();
    process(&bytes, &mut out).unwrap();
    assert_eq!(out.len(), 3);
    assert_eq!(out[0], "frame 0\n █\n\n");
    assert_eq!(out[1], "frame 1\n█ \n\n");
    assert_eq!(out[2], "frame 2\n██\n\n");
}

#[test]
fn kept_pixels_persist_across_frames() {
    // the second frame only covers the left pixel; the right one stays
    let pal: &[u8] = &[0, 0, 0, 255, 255, 255, 0, 0, 0, 0, 0, 0];
    let bytes = encode(2, 1, pal, &[(2, 1, vec![1, 1]), (1, 1, vec![2])]);
    let mut out: Vec<String> = Vec::new();
    process(&bytes, &mut out).unwrap();
    assert_eq!(out.len(), 2);
    assert_eq!(out[0], "frame 0\n██\n\n");
    assert_eq!(out[1], "frame 1\n █\n\n");
}

#[test]
fn garbage_bytes_fail_without_output() {
    let bytes: Vec<u8> = vec![1, 2, 3, 4, 5, 6, 7, 8];
    let mut out: Vec<String> = Vec::new();
    let r = process(&bytes, &mut out);
    assert!(matches!(r, Err(DecodeError::Source(_))));
    assert!(out.is_empty());
}

#[test]
fn truncated_stream_keeps_already_rendered_frames() {
    let pal: &[u8] = &[0, 0, 0, 255, 255, 255, 0, 0, 0, 0, 0, 0];
    let full = encode(2, 1, pal, &[(2, 1, vec![2, 1]), (2, 1, vec![1, 2])]);
    // drop the trailer and the second frame's tail so decoding fails mid-way
    let cut = full[..full.len() - 6].to_vec();
    let mut out: Vec<String> = Vec::new();
    let r = process(&cut, &mut out);
    assert!(r.is_err());
    assert_eq!(out[0], "frame 0\n █\n\n");
}

#[test]
fn empty_source_renders_no_frames() {
    // the decoder treats a stream that ends without any image as malformed;
    // either way nothing is rendered
    let bytes = encode(2, 2, &[0, 0, 0, 255, 255, 255], &[]);
    let mut out: Vec<String> = Vec::new();
    let r = process(&bytes, &mut out);
    assert!(matches!(r, Err(DecodeError::Source(_))));
    assert!(out.is_empty());
}
