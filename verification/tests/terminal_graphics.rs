use base64::Engine as _;

use terminal_miku3d::graphics::{
    detect_supported_protocol, encode_graphics_frame, encode_png_frame, glyph_lit_pixels,
    graphics_frame_from_png, overlay_osd, rasterize_frame, terminal_supports_iterm2,
    terminal_supports_kitty, FrameBuffers, GraphicsFrameError, KITTY_CHUNK_LEN,
};
use terminal_miku3d::scene::GraphicsProtocol;

#[test]
fn coverage_for_braille_is_nonzero() {
    // Out of the 8 pixels of a cell: a full braille cell lights more than 90 %
    // of them and a blank lights none.
    assert!(glyph_lit_pixels('⣿') as f32 / 8.0 > 0.9);
    assert!((glyph_lit_pixels(' ') as f32 / 8.0) < 0.01);
}

#[test]
fn glyph_lit_pixels_follow_coverage_table() {
    assert_eq!(glyph_lit_pixels('@'), 8);
    assert_eq!(glyph_lit_pixels('%'), 8);
    assert_eq!(glyph_lit_pixels('#'), 7);
    assert_eq!(glyph_lit_pixels('*'), 6);
    assert_eq!(glyph_lit_pixels('='), 6);
    assert_eq!(glyph_lit_pixels('-'), 4);
    assert_eq!(glyph_lit_pixels(':'), 4);
    assert_eq!(glyph_lit_pixels('.'), 3);
    assert_eq!(glyph_lit_pixels('a'), 7);
    // One braille dot still lights the 20 % minimum (2 of 8 pixels).
    assert_eq!(glyph_lit_pixels('\u{2801}'), 2);
    assert_eq!(glyph_lit_pixels('\u{2807}'), 3);
}

#[test]
fn encode_png_has_data() {
    let mut frame = FrameBuffers::new(2, 1);
    frame.glyphs[0] = '@';
    frame.glyphs[1] = '.';
    frame.fg_rgb[0] = [255, 64, 64];
    frame.fg_rgb[1] = [64, 255, 255];
    let png = encode_png_frame(&frame).expect("png");
    assert!(png.len() > 32);
    assert_eq!(&png[1..4], b"PNG");
}

#[test]
fn rasterized_cells_are_two_by_four_pixel_blocks() {
    let mut frame = FrameBuffers::new(2, 1);
    frame.glyphs[0] = '@';
    frame.glyphs[1] = '.';
    frame.fg_rgb[0] = [255, 64, 64];
    frame.fg_rgb[1] = [64, 255, 255];
    let (pixels, w, h) = rasterize_frame(&frame);
    assert_eq!((w, h), (4, 4));
    assert_eq!(pixels.len(), 4 * 4 * 3);
    let px = |x: usize, y: usize| {
        let i = (y * 4 + x) * 3;
        [pixels[i], pixels[i + 1], pixels[i + 2]]
    };
    // '@' lights its whole block.
    for y in 0..4 {
        assert_eq!(px(0, y), [255, 64, 64]);
        assert_eq!(px(1, y), [255, 64, 64]);
    }
    // '.' lights the first 3 pixels of its block, row by row.
    assert_eq!(px(2, 0), [64, 255, 255]);
    assert_eq!(px(3, 0), [64, 255, 255]);
    assert_eq!(px(2, 1), [64, 255, 255]);
    assert_eq!(px(3, 1), [26, 32, 44]);
    assert_eq!(px(2, 3), [26, 32, 44]);
}

#[test]
fn empty_frame_rasterizes_to_one_background_cell() {
    let frame = FrameBuffers::new(0, 0);
    let (pixels, w, h) = rasterize_frame(&frame);
    assert_eq!((w, h), (2, 4));
    assert!(pixels.chunks(3).all(|p| p == [26, 32, 44]));
}

#[test]
fn kitty_frame_for_short_payload_is_one_escape() {
    let png = vec![1u8, 2, 3, 4, 5];
    let bytes = graphics_frame_from_png(&png, GraphicsProtocol::Kitty, 3, 2).expect("kitty");
    let data = base64::engine::general_purpose::STANDARD.encode(&png);
    let expected = format!("\x1b[H\x1b_Ga=T,f=100,t=d,s=6,v=8;{data}\x1b\\");
    assert_eq!(bytes, expected.into_bytes());
}

#[test]
fn kitty_frame_for_long_payload_is_chunked() {
    let png: Vec<u8> = (0..4000u32).map(|i| (i % 251) as u8).collect();
    let data = base64::engine::general_purpose::STANDARD.encode(&png);
    assert!(data.len() > KITTY_CHUNK_LEN);
    let bytes = graphics_frame_from_png(&png, GraphicsProtocol::Kitty, 10, 5).expect("kitty");
    let first = &data[..KITTY_CHUNK_LEN];
    let second = &data[KITTY_CHUNK_LEN..];
    let expected = format!(
        "\x1b[H\x1b_Ga=T,f=100,t=d,s=20,v=20,m=1;{first}\x1b\\\x1b_Gm=0;{second}\x1b\\"
    );
    assert_eq!(bytes, expected.into_bytes());
}

#[test]
fn iterm2_frame_wraps_payload() {
    let png = vec![9u8, 8, 7];
    let bytes = graphics_frame_from_png(&png, GraphicsProtocol::Iterm2, 3, 2).expect("iterm2");
    let data = base64::engine::general_purpose::STANDARD.encode(&png);
    let expected = format!(
        "\x1b[H\x1b]1337;File=inline=1;width=100%;height=100%;preserveAspectRatio=0:{data}\x07"
    );
    assert_eq!(bytes, expected.into_bytes());
}

#[test]
fn unsupported_protocols_are_refused() {
    let png = vec![1u8];
    assert_eq!(
        graphics_frame_from_png(&png, GraphicsProtocol::Auto, 1, 1),
        Err(GraphicsFrameError::Unsupported)
    );
    let frame = FrameBuffers::new(1, 1);
    assert_eq!(
        encode_graphics_frame(&frame, GraphicsProtocol::Disabled),
        Err(GraphicsFrameError::Unsupported)
    );
}

#[test]
fn encoded_graphics_frame_starts_with_kitty_header() {
    let frame = FrameBuffers::new(2, 1);
    let bytes = encode_graphics_frame(&frame, GraphicsProtocol::Kitty).expect("frame");
    assert!(bytes.starts_with(b"\x1b[H\x1b_Ga=T,f=100,t=d,s=4,v=4;"));
    assert!(bytes.ends_with(b"\x1b\\"));
}

#[test]
fn protocol_detection_prefers_kitty_for_auto() {
    assert_eq!(
        detect_supported_protocol(GraphicsProtocol::Auto, true, true),
        Some(GraphicsProtocol::Kitty)
    );
    assert_eq!(
        detect_supported_protocol(GraphicsProtocol::Auto, false, true),
        Some(GraphicsProtocol::Iterm2)
    );
    assert_eq!(detect_supported_protocol(GraphicsProtocol::Auto, false, false), None);
    assert_eq!(detect_supported_protocol(GraphicsProtocol::Kitty, false, true), None);
    assert_eq!(detect_supported_protocol(GraphicsProtocol::Disabled, true, true), None);
}

#[test]
fn terminal_capabilities_from_term_variables() {
    assert!(terminal_supports_kitty("xterm-kitty", ""));
    assert!(terminal_supports_kitty("xterm-256color", "Ghostty"));
    assert!(!terminal_supports_kitty("xterm-256color", "Apple_Terminal"));
    assert!(terminal_supports_iterm2("iTerm.app"));
    assert!(!terminal_supports_iterm2("WezTerm"));
}

#[test]
fn osd_replaces_bottom_row() {
    let mut frame = FrameBuffers::new(4, 2);
    for g in frame.glyphs.iter_mut() {
        *g = '#';
    }
    overlay_osd(&mut frame, "hello");
    assert_eq!(&frame.glyphs[..4], &['#', '#', '#', '#']);
    assert_eq!(&frame.glyphs[4..], &['h', 'e', 'l', 'l']);
    assert_eq!(frame.fg_rgb[4], [235, 235, 235]);
    assert_eq!(frame.fg_rgb[0], [255, 255, 255]);

    overlay_osd(&mut frame, "a");
    assert_eq!(&frame.glyphs[4..], &['a', ' ', ' ', ' ']);
}
