//! Terminal frame buffers and their transfer as inline images (kitty and
//! iTerm2 graphics protocols).

use vstd::prelude::*;
use vstd::string::StrSliceExecFns;

use crate::encoding::{base64_encode, base64_standard, encode_png_rgb8, png_rgb8_encoding};
use crate::scene::GraphicsProtocol;
use crate::text::{decimal_digits, push_decimal};
use crate::text::contains_ignore_case;
use crate::text::contains_lower;

verus! {

/// Width of a terminal cell in image pixels.
pub const CELL_PIXELS_W: u32 = 2;
/// Height of a terminal cell in image pixels.
pub const CELL_PIXELS_H: u32 = 4;

/// The glyph and foreground colour of every terminal cell, row by row.
pub struct FrameBuffers {
    pub width: u16,
    pub height: u16,
    pub glyphs: Vec<char>,
    pub fg_rgb: Vec<[u8; 3]>,
}

impl FrameBuffers {
    /// Both buffers hold one entry per cell.
    pub open spec fn wf(&self) -> bool {
        &&& self.glyphs@.len() == self.width as int * self.height as int
        &&& self.fg_rgb@.len() == self.width as int * self.height as int
    }

    /// A frame of blank cells drawn in white.
    pub fn new(width: u16, height: u16) -> (res: Self)
        ensures
            res.wf(),
            res.width == width,
            res.height == height,
            forall|i: int| 0 <= i < res.glyphs@.len() ==> res.glyphs@[i] == ' ',
            forall|i: int| 0 <= i < res.fg_rgb@.len() ==> res.fg_rgb@[i] == [255u8, 255u8, 255u8],
    {
        proof {
            assert((width as usize) * (height as usize) <= 65535 * 65535) by (nonlinear_arith)
                requires
                    width <= 65535,
                    height <= 65535,
            ;
        }
        let cells = (width as usize) * (height as usize);
        let mut glyphs: Vec<char> = Vec::new();
        let mut fg_rgb: Vec<[u8; 3]> = Vec::new();
        for i in 0..cells
            invariant
                glyphs@.len() == i,
                fg_rgb@.len() == i,
                forall|k: int| 0 <= k < i ==> glyphs@[k] == ' ',
                forall|k: int| 0 <= k < i ==> fg_rgb@[k] == [255u8, 255u8, 255u8],
        {
            glyphs.push(' ');
            fg_rgb.push([255u8, 255u8, 255u8]);
        }
        FrameBuffers { width, height, glyphs, fg_rgb }
    }
}

/// The on-screen-display colour.
pub open spec fn osd_rgb() -> [u8; 3] {
    [235u8, 235u8, 235u8]
}

/// Cell `i` lies in the bottom row of a `width` x `height` frame.
pub open spec fn in_osd_row(width: u16, height: u16, i: int) -> bool {
    (height as int - 1) * width as int <= i < height as int * width as int
}

/// The glyph of cell `i` after the bottom row shows `text`.
pub open spec fn osd_glyph(glyphs: Seq<char>, width: u16, height: u16, text: Seq<char>, i: int) -> char {
    let row_start = (height as int - 1) * width as int;
    if in_osd_row(width, height, i) {
        if i - row_start < text.len() {
            text[i - row_start]
        } else {
            ' '
        }
    } else {
        glyphs[i]
    }
}

/// Replaces the bottom row with `text` (cut to the frame width, padded with
/// blanks) drawn in the on-screen-display colour; an empty frame is left as
/// it was.
pub fn overlay_osd(frame: &mut FrameBuffers, text: &str)
    requires
        old(frame).wf(),
    ensures
        final(frame).wf(),
        final(frame).width == old(frame).width,
        final(frame).height == old(frame).height,
        (old(frame).width == 0 || old(frame).height == 0) ==> final(frame).glyphs@ == old(
            frame,
        ).glyphs@ && final(frame).fg_rgb@ == old(frame).fg_rgb@,
        old(frame).width > 0 && old(frame).height > 0 ==> forall|i: int|
            0 <= i < old(frame).glyphs@.len() ==> #[trigger] final(frame).glyphs@[i] == osd_glyph(
                old(frame).glyphs@,
                old(frame).width,
                old(frame).height,
                text@,
                i,
            ),
        old(frame).width > 0 && old(frame).height > 0 ==> forall|i: int|
            0 <= i < old(frame).fg_rgb@.len() ==> #[trigger] final(frame).fg_rgb@[i] == (
            if in_osd_row(old(frame).width, old(frame).height, i) {
                osd_rgb()
            } else {
                old(frame).fg_rgb@[i]
            }),
{
    if frame.width == 0 || frame.height == 0 {
        return;
    }
    let width = frame.width as usize;
    let y = (frame.height - 1) as usize;
    proof {
        assert(y * width + width == frame.width as int * frame.height as int) by (nonlinear_arith)
            requires
                y == frame.height - 1,
                width == frame.width,
        ;
        assert(y * width <= 65535 * 65535) by (nonlinear_arith)
            requires
                y < 65536,
                width < 65536,
        ;
    }
    let row_start = y * width;
    let total = frame.glyphs.len();
    let ghost g0 = frame.glyphs@;
    let ghost c0 = frame.fg_rgb@;
    for x in 0..width
        invariant
            frame.width as usize == width,
            frame.height as usize == y + 1,
            row_start == y * width,
            row_start + width == total,
            total == frame.glyphs@.len(),
            frame.glyphs@.len() == g0.len(),
            frame.fg_rgb@.len() == c0.len(),
            g0.len() == c0.len(),
            forall|i: int|
                0 <= i < g0.len() ==> #[trigger] frame.glyphs@[i] == if row_start <= i < row_start
                    + x {
                    ' '
                } else {
                    g0[i]
                },
            forall|i: int|
                0 <= i < g0.len() ==> #[trigger] frame.fg_rgb@[i] == if row_start <= i < row_start
                    + x {
                    osd_rgb()
                } else {
                    c0[i]
                },
    {
        frame.glyphs.set(row_start + x, ' ');
        frame.fg_rgb.set(row_start + x, [235u8, 235u8, 235u8]);
    }
    let n = text.unicode_len();
    let count = if n < width {
        n
    } else {
        width
    };
    for i in 0..count
        invariant
            count <= width,
            count <= text@.len(),
            n == text@.len(),
            frame.width as usize == width,
            frame.height as usize == y + 1,
            row_start == y * width,
            row_start + width == total,
            total == frame.glyphs@.len(),
            frame.glyphs@.len() == g0.len(),
            frame.fg_rgb@.len() == c0.len(),
            g0.len() == c0.len(),
            forall|k: int|
                0 <= k < g0.len() ==> #[trigger] frame.fg_rgb@[k] == if row_start <= k < row_start
                    + width {
                    osd_rgb()
                } else {
                    c0[k]
                },
            forall|k: int|
                0 <= k < g0.len() ==> #[trigger] frame.glyphs@[k] == if row_start <= k < row_start
                    + i {
                    text@[k - row_start]
                } else if row_start + i <= k < row_start + width {
                    ' '
                } else {
                    g0[k]
                },
    {
        let c = text.get_char(i);
        frame.glyphs.set(row_start + i, c);
    }
    proof {
        assert(row_start as int == (frame.height as int - 1) * frame.width as int);
        assert(row_start as int + width == frame.height as int * frame.width as int) by (
        nonlinear_arith)
            requires
                row_start as int == (frame.height as int - 1) * frame.width as int,
                width == frame.width,
        ;
    }
}

/// Number of the 8 pixels of a cell that are drawn in the foreground colour
/// for `glyph`: its coverage (blank 0, braille dots one eighth each with a
/// floor of 0.2, ASCII ramp characters by density) times 8, rounded.
pub open spec fn glyph_lit_spec(glyph: char) -> u32 {
    if glyph == ' ' {
        0
    } else if 0x2800 <= glyph as u32 && glyph as u32 <= 0x28ff {
        let dots = popcount((glyph as u32 - 0x2800) as nat);
        if dots < 2 {
            2
        } else {
            dots as u32
        }
    } else if glyph == '.' || glyph == '\'' || glyph == '`' {
        3
    } else if glyph == ':' || glyph == ';' {
        4
    } else if glyph == '-' || glyph == '_' {
        4
    } else if glyph == '=' || glyph == '+' {
        6
    } else if glyph == '*' || glyph == 'x' || glyph == 'X' {
        6
    } else if glyph == '#' {
        7
    } else if glyph == '%' {
        8
    } else if glyph == '@' {
        8
    } else {
        7
    }
}

/// Number of set bits of `v`.
pub open spec fn popcount(v: nat) -> nat
    decreases v,
{
    if v == 0 {
        0
    } else {
        v % 2 + popcount(v / 2)
    }
}

proof fn lemma_popcount_byte(v: nat)
    requires
        v < 256,
    ensures
        popcount(v) <= 8,
{
    reveal_with_fuel(popcount, 9);
}

fn count_ones_u8(b: u8) -> (res: u32)
    ensures
        res == popcount(b as nat),
        res <= 8,
{
    let mut m = b;
    let mut cnt: u32 = 0;
    proof {
        lemma_popcount_byte(b as nat);
    }
    while m > 0
        invariant
            cnt + popcount(m as nat) == popcount(b as nat),
            popcount(b as nat) <= 8,
        decreases m,
    {
        cnt = cnt + (m % 2) as u32;
        m = m / 2;
    }
    cnt
}

/// Number of lit pixels of a cell drawn with `glyph` (see `glyph_lit_spec`).
pub fn glyph_lit_pixels(glyph: char) -> (res: u32)
    ensures
        res == glyph_lit_spec(glyph),
        res <= 8,
{
    if glyph == ' ' {
        return 0;
    }
    let code = glyph as u32;
    if 0x2800 <= code && code <= 0x28ff {
        let dots = count_ones_u8((code - 0x2800) as u8);
        return if dots < 2 {
            2
        } else {
            dots
        };
    }
    match glyph {
        '.' | '\'' | '`' => 3,
        ':' | ';' => 4,
        '-' | '_' => 4,
        '=' | '+' => 6,
        '*' | 'x' | 'X' => 6,
        '#' => 7,
        '%' => 8,
        '@' => 8,
        _ => 7,
    }
}


/// Image background colour.
pub open spec fn background_rgb() -> [u8; 3] {
    [26u8, 32u8, 44u8]
}

/// Width in pixels of the image of a frame (an empty frame counts as one cell).
pub open spec fn raster_width(frame: &FrameBuffers) -> nat {
    (if frame.width == 0 {
        1nat
    } else {
        frame.width as nat
    }) * 2
}

/// Height in pixels of the image of a frame.
pub open spec fn raster_height(frame: &FrameBuffers) -> nat {
    (if frame.height == 0 {
        1nat
    } else {
        frame.height as nat
    }) * 4
}

/// Colour of image pixel `(px, py)`: within a cell, the first `lit` of its
/// eight pixels (row by row) take the cell's foreground colour, where `lit`
/// comes from the cell's glyph; all other pixels are background.  A missing
/// glyph counts as blank and a missing colour as white.
pub open spec fn pixel_rgb(frame: &FrameBuffers, px: int, py: int) -> [u8; 3] {
    let cx = px / 2;
    let cy = py / 4;
    if cx < frame.width && cy < frame.height {
        let idx = cy * frame.width as int + cx;
        let glyph = if idx < frame.glyphs@.len() {
            frame.glyphs@[idx]
        } else {
            ' '
        };
        let fg = if idx < frame.fg_rgb@.len() {
            frame.fg_rgb@[idx]
        } else {
            [255u8, 255u8, 255u8]
        };
        if (py % 4) * 2 + px % 2 < glyph_lit_spec(glyph) {
            fg
        } else {
            background_rgb()
        }
    } else {
        background_rgb()
    }
}

/// The RGB bytes of the image of a frame, row by row.
pub open spec fn raster_spec(frame: &FrameBuffers) -> Seq<u8> {
    let w = raster_width(frame) as int;
    Seq::new(
        raster_width(frame) * raster_height(frame) * 3,
        |j: int| pixel_rgb(frame, (j / 3) % w, (j / 3) / w)[j % 3],
    )
}

proof fn lemma_raster_index(frame: &FrameBuffers, px: int, py: int, c: int)
    requires
        0 <= px < raster_width(frame),
        0 <= py < raster_height(frame),
        0 <= c < 3,
    ensures
        raster_spec(frame)[(py * raster_width(frame) + px) * 3 + c] == pixel_rgb(frame, px, py)[c],
{
    let w = raster_width(frame) as int;
    let q = py * w + px;
    let j = q * 3 + c;
    assert(0 <= j < raster_width(frame) * raster_height(frame) * 3) by (nonlinear_arith)
        requires
            q == py * w + px,
            j == q * 3 + c,
            0 <= px < w,
            0 <= py < raster_height(frame),
            0 <= c < 3,
            w == raster_width(frame),
    ;
    vstd::arithmetic::div_mod::lemma_fundamental_div_mod_converse(j, 3, q, c);
    vstd::arithmetic::div_mod::lemma_fundamental_div_mod_converse(q, w, py, px);
}

/// Draws a frame as an RGB image: every cell becomes a 2x4 pixel block.
pub fn rasterize_frame(frame: &FrameBuffers) -> (res: (Vec<u8>, u32, u32))
    requires
        raster_width(frame) * raster_height(frame) * 3 <= usize::MAX,
    ensures
        res.0@ == raster_spec(frame),
        res.1 == raster_width(frame),
        res.2 == raster_height(frame),
{
    let cols: u32 = if frame.width == 0 {
        1
    } else {
        frame.width as u32
    };
    let rows: u32 = if frame.height == 0 {
        1
    } else {
        frame.height as u32
    };
    let w = cols * CELL_PIXELS_W;
    let h = rows * CELL_PIXELS_H;
    let fw = frame.width as usize;
    let glyph_count = frame.glyphs.len();
    let color_count = frame.fg_rgb.len();
    let ghost spec_img = raster_spec(frame);
    let mut out: Vec<u8> = Vec::new();
    let mut py: u32 = 0;
    let ghost mut base: int = 0;
    while py < h
        invariant
            w == raster_width(frame),
            h == raster_height(frame),
            w as int * h as int * 3 <= usize::MAX,
            fw == frame.width,
            glyph_count == frame.glyphs@.len(),
            color_count == frame.fg_rgb@.len(),
            spec_img == raster_spec(frame),
            py <= h,
            base == py as int * w as int,
            out@.len() == base * 3,
            forall|j: int| 0 <= j < out@.len() ==> #[trigger] out@[j] == spec_img[j],
        decreases h - py,
    {
        let mut px: u32 = 0;
        while px < w
            invariant
                w == raster_width(frame),
                h == raster_height(frame),
                w as int * h as int * 3 <= usize::MAX,
                fw == frame.width,
                glyph_count == frame.glyphs@.len(),
                color_count == frame.fg_rgb@.len(),
                spec_img == raster_spec(frame),
                py < h,
                px <= w,
                base == py as int * w as int,
                out@.len() == (base + px) * 3,
                forall|j: int| 0 <= j < out@.len() ==> #[trigger] out@[j] == spec_img[j],
            decreases w - px,
        {
            let cx = (px / 2) as usize;
            let cy = (py / 4) as usize;
            let mut color: [u8; 3] = [26u8, 32u8, 44u8];
            if cx < fw && cy < frame.height as usize {
                proof {
                    assert(cy * fw + cx < 65536 * 65536) by (nonlinear_arith)
                        requires
                            cy < 65536,
                            fw < 65536,
                            cx < fw,
                    ;
                }
                let idx = cy * fw + cx;
                let glyph = if idx < glyph_count {
                    frame.glyphs[idx]
                } else {
                    ' '
                };
                let fg = if idx < color_count {
                    frame.fg_rgb[idx]
                } else {
                    [255u8, 255u8, 255u8]
                };
                let lit = glyph_lit_pixels(glyph);
                if (py % 4) * 2 + px % 2 < lit {
                    color = fg;
                }
            }
            proof {
                assert(color == pixel_rgb(frame, px as int, py as int));
                assert(w as int * h as int >= (base + px + 1)) by (nonlinear_arith)
                    requires
                        base == py as int * w as int,
                        py < h,
                        px < w,
                ;
            }
            let ghost before = out@;
            out.push(color[0]);
            out.push(color[1]);
            out.push(color[2]);
            proof {
                let q = base + px;
                lemma_raster_index(frame, px as int, py as int, 0);
                lemma_raster_index(frame, px as int, py as int, 1);
                lemma_raster_index(frame, px as int, py as int, 2);
                assert forall|j: int| 0 <= j < out@.len() implies #[trigger] out@[j]
                    == spec_img[j] by {
                    if j < before.len() {
                        assert(out@[j] == before[j]);
                    } else {
                        assert(j == q * 3 + (j - q * 3));
                    }
                }
            }
            px = px + 1;
        }
        proof {
            assert((base + w) == (py + 1) as int * w as int) by (nonlinear_arith)
                requires
                    base == py as int * w as int,
            ;
            base = base + w;
        }
        py = py + 1;
    }
    proof {
        assert(base * 3 == w as int * h as int * 3) by (nonlinear_arith)
            requires
                base == h as int * w as int,
        ;
        assert(out@ =~= spec_img);
    }
    (out, w, h)
}


// ---------------------------------------------------------------------------
// Inline-image framing
// ---------------------------------------------------------------------------

/// Size of the Base64 payload carried by one kitty escape sequence.
pub const KITTY_CHUNK_LEN: usize = 4096;

/// The bytes of an ASCII text.
pub open spec fn ascii_bytes(s: Seq<char>) -> Seq<u8> {
    s.map_values(|c: char| c as u8)
}

fn push_ascii(out: &mut Vec<u8>, s: &str)
    ensures
        final(out)@ == old(out)@ + ascii_bytes(s@),
{
    let n = s.unicode_len();
    let ghost start = out@;
    for i in 0..n
        invariant
            n == s@.len(),
            out@ == start + ascii_bytes(s@.take(i as int)),
    {
        let c = s.get_char(i);
        out.push(c as u8);
        proof {
            assert(ascii_bytes(s@.take(i + 1)) =~= ascii_bytes(s@.take(i as int)).push(c as u8));
        }
    }
    proof {
        assert(s@.take(n as int) =~= s@);
    }
}

fn push_range(out: &mut Vec<u8>, data: &[u8], start: usize, end: usize)
    requires
        start <= end <= data@.len(),
    ensures
        final(out)@ == old(out)@ + data@.subrange(start as int, end as int),
{
    let ghost base = out@;
    let mut i = start;
    while i < end
        invariant
            start <= i <= end,
            end <= data@.len(),
            out@ == base + data@.subrange(start as int, i as int),
        decreases end - i,
    {
        out.push(data[i]);
        i = i + 1;
        proof {
            assert(data@.subrange(start as int, i as int) =~= data@.subrange(
                start as int,
                i - 1,
            ).push(data@[i - 1]));
        }
    }
}

/// The Base64 payload split into consecutive pieces of at most
/// `KITTY_CHUNK_LEN` bytes, from `offset` on.
pub open spec fn kitty_chunks(data: Seq<u8>, offset: nat) -> Seq<Seq<u8>>
    decreases data.len() - offset,
{
    if offset >= data.len() {
        Seq::empty()
    } else {
        let end: nat = if offset + KITTY_CHUNK_LEN < data.len() {
            (offset + KITTY_CHUNK_LEN) as nat
        } else {
            data.len()
        };
        seq![data.subrange(offset as int, end as int)] + kitty_chunks(data, end)
    }
}

/// Escape header of a kitty chunk: the first one carries the transmit
/// command and the image size in pixels; `m=1` announces more chunks.
pub open spec fn kitty_chunk_header(first: bool, more: bool, px_w: u32, px_h: u32) -> Seq<u8> {
    let flag = if more {
        ascii_bytes("1"@)
    } else {
        ascii_bytes("0"@)
    };
    if first {
        ascii_bytes("\x1b_Ga=T,f=100,t=d,s="@) + decimal_digits(px_w as nat) + ascii_bytes(",v="@)
            + decimal_digits(px_h as nat) + ascii_bytes(",m="@) + flag + ascii_bytes(";"@)
    } else {
        ascii_bytes("\x1b_Gm="@) + flag + ascii_bytes(";"@)
    }
}

/// The escape sequences carrying `chunks`, each terminated by `ESC \`.
pub open spec fn kitty_frames(chunks: Seq<Seq<u8>>, first: bool, px_w: u32, px_h: u32) -> Seq<u8>
    decreases chunks.len(),
{
    if chunks.len() == 0 {
        Seq::empty()
    } else {
        kitty_chunk_header(first, chunks.len() > 1, px_w, px_h) + chunks[0] + ascii_bytes(
            "\x1b\\"@,
        ) + kitty_frames(chunks.drop_first(), false, px_w, px_h)
    }
}

/// A kitty graphics frame: cursor home, then the PNG's Base64 text in one
/// escape sequence, or in 4096-byte chunks when it is longer.
pub open spec fn kitty_frame_spec(data: Seq<u8>, px_w: u32, px_h: u32) -> Seq<u8> {
    ascii_bytes("\x1b[H"@) + if data.len() <= KITTY_CHUNK_LEN {
        ascii_bytes("\x1b_Ga=T,f=100,t=d,s="@) + decimal_digits(px_w as nat) + ascii_bytes(",v="@)
            + decimal_digits(px_h as nat) + ascii_bytes(";"@) + data + ascii_bytes("\x1b\\"@)
    } else {
        kitty_frames(kitty_chunks(data, 0), true, px_w, px_h)
    }
}

/// An iTerm2 inline-image frame: cursor home, then the Base64 text in one
/// OSC 1337 sequence filling the terminal.
pub open spec fn iterm2_frame_spec(data: Seq<u8>) -> Seq<u8> {
    ascii_bytes("\x1b[H"@) + ascii_bytes(
        "\x1b]1337;File=inline=1;width=100%;height=100%;preserveAspectRatio=0:"@,
    ) + data + ascii_bytes("\x07"@)
}

proof fn lemma_kitty_chunks_nonempty(data: Seq<u8>, offset: nat)
    ensures
        kitty_chunks(data, offset).len() > 0 <==> offset < data.len(),
{
    reveal_with_fuel(kitty_chunks, 1);
}

fn kitty_frame_bytes(data: &[u8], px_w: u32, px_h: u32) -> (res: Vec<u8>)
    ensures
        res@ == kitty_frame_spec(data@, px_w, px_h),
{
    let mut out: Vec<u8> = Vec::new();
    push_ascii(&mut out, "\x1b[H");
    let len = data.len();
    if len <= KITTY_CHUNK_LEN {
        push_ascii(&mut out, "\x1b_Ga=T,f=100,t=d,s=");
        push_decimal(&mut out, px_w);
        push_ascii(&mut out, ",v=");
        push_decimal(&mut out, px_h);
        push_ascii(&mut out, ";");
        push_range(&mut out, data, 0, len);
        push_ascii(&mut out, "\x1b\\");
        proof {
            assert(data@.subrange(0, len as int) =~= data@);
        }
        return out;
    }
    let ghost total = kitty_frame_spec(data@, px_w, px_h);
    let mut offset: usize = 0;
    let mut first = true;
    while offset < len
        invariant
            len == data@.len(),
            len > KITTY_CHUNK_LEN,
            offset <= len,
            total == kitty_frame_spec(data@, px_w, px_h),
            out@ + kitty_frames(kitty_chunks(data@, offset as nat), first, px_w, px_h) == total,
        decreases len - offset,
    {
        let end = if len - offset > KITTY_CHUNK_LEN {
            offset + KITTY_CHUNK_LEN
        } else {
            len
        };
        let more = end < len;
        let ghost chunks = kitty_chunks(data@, offset as nat);
        let ghost rest = kitty_chunks(data@, end as nat);
        let ghost before = out@;
        proof {
            assert(chunks == seq![data@.subrange(offset as int, end as int)] + rest);
            assert(chunks.drop_first() =~= rest);
            lemma_kitty_chunks_nonempty(data@, end as nat);
            assert(chunks.len() > 1 <==> more);
        }
        if first {
            push_ascii(&mut out, "\x1b_Ga=T,f=100,t=d,s=");
            push_decimal(&mut out, px_w);
            push_ascii(&mut out, ",v=");
            push_decimal(&mut out, px_h);
            push_ascii(&mut out, ",m=");
        } else {
            push_ascii(&mut out, "\x1b_Gm=");
        }
        if more {
            push_ascii(&mut out, "1");
        } else {
            push_ascii(&mut out, "0");
        }
        push_ascii(&mut out, ";");
        proof {
            assert(out@ =~= before + kitty_chunk_header(first, more, px_w, px_h));
        }
        push_range(&mut out, data, offset, end);
        push_ascii(&mut out, "\x1b\\");
        proof {
            assert(kitty_frames(chunks, first, px_w, px_h) =~= kitty_chunk_header(
                first,
                more,
                px_w,
                px_h,
            ) + data@.subrange(offset as int, end as int) + ascii_bytes("\x1b\\"@) + kitty_frames(
                rest,
                false,
                px_w,
                px_h,
            ));
            assert(out@ + kitty_frames(rest, false, px_w, px_h) =~= total);
        }
        offset = end;
        first = false;
    }
    proof {
        lemma_kitty_chunks_nonempty(data@, offset as nat);
        assert(kitty_chunks(data@, offset as nat).len() == 0);
        assert(out@ =~= total);
    }
    out
}

fn iterm2_frame_bytes(data: &[u8]) -> (res: Vec<u8>)
    ensures
        res@ == iterm2_frame_spec(data@),
{
    let mut out: Vec<u8> = Vec::new();
    push_ascii(&mut out, "\x1b[H");
    push_ascii(&mut out, "\x1b]1337;File=inline=1;width=100%;height=100%;preserveAspectRatio=0:");
    push_range(&mut out, data, 0, data.len());
    push_ascii(&mut out, "\x07");
    proof {
        assert(data@.subrange(0, data@.len() as int) =~= data@);
    }
    out
}

/// Why a graphics frame could not be produced.
#[derive(Debug, Clone, Copy, PartialEq, Eq, Structural)]
pub enum GraphicsFrameError {
    /// The PNG encoder reported an error.
    Encode,
    /// The protocol is neither kitty nor iTerm2.
    Unsupported,
}

/// The bytes that show a PNG image inline with `protocol`, for a frame of
/// `cells_w` x `cells_h` terminal cells.
pub open spec fn graphics_frame_spec(
    png: Seq<u8>,
    protocol: GraphicsProtocol,
    cells_w: u16,
    cells_h: u16,
) -> Result<Seq<u8>, GraphicsFrameError> {
    match protocol {
        GraphicsProtocol::Kitty => Ok(
            kitty_frame_spec(
                base64_standard(png),
                (cells_w as u32 * CELL_PIXELS_W) as u32,
                (cells_h as u32 * CELL_PIXELS_H) as u32,
            ),
        ),
        GraphicsProtocol::Iterm2 => Ok(iterm2_frame_spec(base64_standard(png))),
        _ => Err(GraphicsFrameError::Unsupported),
    }
}

/// Frames an encoded PNG image for the inline-image `protocol`.
pub fn graphics_frame_from_png(
    png: &[u8],
    protocol: GraphicsProtocol,
    cells_w: u16,
    cells_h: u16,
) -> (res: Result<Vec<u8>, GraphicsFrameError>)
    requires
        png@.len() <= isize::MAX,
    ensures
        match res {
            Ok(bytes) => graphics_frame_spec(png@, protocol, cells_w, cells_h) == Ok::<
                Seq<u8>,
                GraphicsFrameError,
            >(bytes@),
            Err(e) => graphics_frame_spec(png@, protocol, cells_w, cells_h) == Err::<
                Seq<u8>,
                GraphicsFrameError,
            >(e),
        },
{
    match protocol {
        GraphicsProtocol::Kitty => {
            let data = base64_encode(png);
            let px_w = (cells_w as u32) * CELL_PIXELS_W;
            let px_h = (cells_h as u32) * CELL_PIXELS_H;
            Ok(kitty_frame_bytes(data.as_slice(), px_w, px_h))
        },
        GraphicsProtocol::Iterm2 => {
            let data = base64_encode(png);
            Ok(iterm2_frame_bytes(data.as_slice()))
        },
        _ => Err(GraphicsFrameError::Unsupported),
    }
}

/// Encodes a frame as a PNG image, 2x4 pixels per cell.
pub fn encode_png_frame(frame: &FrameBuffers) -> (res: Result<Vec<u8>, GraphicsFrameError>)
    requires
        raster_width(frame) * raster_height(frame) * 3 <= usize::MAX,
    ensures
        match png_rgb8_encoding(
            raster_spec(frame),
            raster_width(frame) as u32,
            raster_height(frame) as u32,
        ) {
            None => res == Err::<Vec<u8>, GraphicsFrameError>(GraphicsFrameError::Encode),
            Some(png) => res matches Ok(bytes) && bytes@ == png && png.len() <= isize::MAX,
        },
{
    let (pixels, w, h) = rasterize_frame(frame);
    match encode_png_rgb8(pixels.as_slice(), w, h) {
        Ok(bytes) => Ok(bytes),
        Err(_) => Err(GraphicsFrameError::Encode),
    }
}

/// Encodes a frame as a PNG image (2x4 pixels per cell) and frames it for the
/// inline-image `protocol`.
pub fn encode_graphics_frame(frame: &FrameBuffers, protocol: GraphicsProtocol) -> (res: Result<
    Vec<u8>,
    GraphicsFrameError,
>)
    requires
        raster_width(frame) * raster_height(frame) * 3 <= usize::MAX,
    ensures
        match png_rgb8_encoding(
            raster_spec(frame),
            raster_width(frame) as u32,
            raster_height(frame) as u32,
        ) {
            None => res == Err::<Vec<u8>, GraphicsFrameError>(GraphicsFrameError::Encode),
            Some(png) => match res {
                Ok(bytes) => graphics_frame_spec(png, protocol, frame.width, frame.height) == Ok::<
                    Seq<u8>,
                    GraphicsFrameError,
                >(bytes@),
                Err(e) => graphics_frame_spec(png, protocol, frame.width, frame.height) == Err::<
                    Seq<u8>,
                    GraphicsFrameError,
                >(e),
            },
        },
{
    let png = match encode_png_frame(frame) {
        Ok(bytes) => bytes,
        Err(e) => {
            return Err(e);
        },
    };
    graphics_frame_from_png(png.as_slice(), protocol, frame.width, frame.height)
}

/// Every chunk of a long kitty payload is non-empty and at most
/// `KITTY_CHUNK_LEN` bytes, and the chunks, concatenated in order, are the
/// payload again.
pub proof fn lemma_kitty_chunks_cover(data: Seq<u8>, offset: nat)
    requires
        offset <= data.len(),
    ensures
        forall|i: int|
            0 <= i < kitty_chunks(data, offset).len() ==> 0 < (#[trigger] kitty_chunks(
                data,
                offset,
            )[i]).len() <= KITTY_CHUNK_LEN,
        kitty_chunks(data, offset).fold_left(Seq::<u8>::empty(), |acc: Seq<u8>, c: Seq<u8>| acc + c)
            == data.subrange(offset as int, data.len() as int),
    decreases data.len() - offset,
{
    reveal_with_fuel(kitty_chunks, 1);
    if offset < data.len() {
        let end = if offset + KITTY_CHUNK_LEN < data.len() {
            (offset + KITTY_CHUNK_LEN) as nat
        } else {
            data.len()
        };
        let head = data.subrange(offset as int, end as int);
        let rest = kitty_chunks(data, end);
        lemma_kitty_chunks_cover(data, end);
        let chunks = kitty_chunks(data, offset);
        assert(chunks == seq![head] + rest);
        assert forall|i: int| 0 <= i < chunks.len() implies 0 < (#[trigger] chunks[i]).len()
            <= KITTY_CHUNK_LEN by {
            if i > 0 {
                assert(chunks[i] == rest[i - 1]);
            }
        }
        lemma_fold_concat_prepend(head, rest);
        assert(data.subrange(offset as int, data.len() as int) =~= head + data.subrange(
            end as int,
            data.len() as int,
        ));
    } else {
        assert(data.subrange(offset as int, data.len() as int) =~= Seq::<u8>::empty());
    }
}

/// Concatenating a list with `head` in front is `head` followed by the
/// concatenation of the list.
proof fn lemma_fold_concat_prepend(head: Seq<u8>, rest: Seq<Seq<u8>>)
    ensures
        (seq![head] + rest).fold_left(Seq::<u8>::empty(), |acc: Seq<u8>, c: Seq<u8>| acc + c)
            == head + rest.fold_left(Seq::<u8>::empty(), |acc: Seq<u8>, c: Seq<u8>| acc + c),
    decreases rest.len(),
{
    let f = |acc: Seq<u8>, c: Seq<u8>| acc + c;
    let all = seq![head] + rest;
    if rest.len() == 0 {
        assert(all =~= seq![head]);
        reveal_with_fuel(Seq::fold_left, 2);
        assert(seq![head].drop_last() =~= Seq::<Seq<u8>>::empty());
        assert(Seq::<u8>::empty() + head =~= head);
        assert(head + Seq::<u8>::empty() =~= head);
    } else {
        let init = rest.drop_last();
        lemma_fold_concat_prepend(head, init);
        assert(all.drop_last() =~= seq![head] + init);
        assert(all.last() == rest.last());
        assert(head + (init.fold_left(Seq::<u8>::empty(), f) + rest.last()) =~= (head
            + init.fold_left(Seq::<u8>::empty(), f)) + rest.last());
    }
}

/// Whether the terminal speaks the kitty graphics protocol: `TERM` mentions
/// kitty or `TERM_PROGRAM` mentions ghostty (any ASCII case).
pub fn terminal_supports_kitty(term: &str, term_program: &str) -> (res: bool)
    ensures
        res == (contains_lower(term@, "kitty"@) || contains_lower(term_program@, "ghostty"@)),
{
    contains_ignore_case(term, "kitty") || contains_ignore_case(term_program, "ghostty")
}

/// Whether the terminal speaks the iTerm2 inline-image protocol:
/// `TERM_PROGRAM` mentions iterm (any ASCII case).
pub fn terminal_supports_iterm2(term_program: &str) -> (res: bool)
    ensures
        res == contains_lower(term_program@, "iterm"@),
{
    contains_ignore_case(term_program, "iterm")
}

pub open spec fn detect_protocol_spec(
    requested: GraphicsProtocol,
    kitty_supported: bool,
    iterm2_supported: bool,
) -> Option<GraphicsProtocol> {
    match requested {
        GraphicsProtocol::Disabled => None,
        GraphicsProtocol::Kitty => if kitty_supported {
            Some(GraphicsProtocol::Kitty)
        } else {
            None
        },
        GraphicsProtocol::Iterm2 => if iterm2_supported {
            Some(GraphicsProtocol::Iterm2)
        } else {
            None
        },
        GraphicsProtocol::Auto => if kitty_supported {
            Some(GraphicsProtocol::Kitty)
        } else if iterm2_supported {
            Some(GraphicsProtocol::Iterm2)
        } else {
            None
        },
    }
}

/// A protocol asked for by name is used exactly when the terminal supports
/// it, and no other protocol is used in its place; `Auto` uses a protocol
/// exactly when the terminal supports one, kitty when it supports kitty;
/// `Disabled` uses none.
pub proof fn lemma_protocol_choice(requested: GraphicsProtocol, kitty_supported: bool, iterm2_supported: bool)
    ensures
        requested == GraphicsProtocol::Disabled ==> detect_protocol_spec(
            requested,
            kitty_supported,
            iterm2_supported,
        ) is None,
        requested == GraphicsProtocol::Kitty ==> (detect_protocol_spec(
            requested,
            kitty_supported,
            iterm2_supported,
        ) == Some(GraphicsProtocol::Kitty) <==> kitty_supported),
        requested == GraphicsProtocol::Kitty ==> (detect_protocol_spec(
            requested,
            kitty_supported,
            iterm2_supported,
        ) is None <==> !kitty_supported),
        requested == GraphicsProtocol::Iterm2 ==> (detect_protocol_spec(
            requested,
            kitty_supported,
            iterm2_supported,
        ) == Some(GraphicsProtocol::Iterm2) <==> iterm2_supported),
        requested == GraphicsProtocol::Iterm2 ==> (detect_protocol_spec(
            requested,
            kitty_supported,
            iterm2_supported,
        ) is None <==> !iterm2_supported),
        requested == GraphicsProtocol::Auto ==> (detect_protocol_spec(
            requested,
            kitty_supported,
            iterm2_supported,
        ) is Some <==> (kitty_supported || iterm2_supported)),
        requested == GraphicsProtocol::Auto && kitty_supported ==> detect_protocol_spec(
            requested,
            kitty_supported,
            iterm2_supported,
        ) == Some(GraphicsProtocol::Kitty),
        requested == GraphicsProtocol::Auto && !kitty_supported && iterm2_supported
            ==> detect_protocol_spec(requested, kitty_supported, iterm2_supported) == Some(
            GraphicsProtocol::Iterm2,
        ),
{
}

/// The inline-image protocol to use: the requested one if the terminal
/// supports it; for `Auto`, kitty before iTerm2.
pub fn detect_supported_protocol(
    requested: GraphicsProtocol,
    kitty_supported: bool,
    iterm2_supported: bool,
) -> (res: Option<GraphicsProtocol>)
    ensures
        res == detect_protocol_spec(requested, kitty_supported, iterm2_supported),
        res matches Some(p) ==> p == GraphicsProtocol::Kitty || p == GraphicsProtocol::Iterm2,
{
    match requested {
        GraphicsProtocol::Disabled => None,
        GraphicsProtocol::Kitty => if kitty_supported {
            Some(GraphicsProtocol::Kitty)
        } else {
            None
        },
        GraphicsProtocol::Iterm2 => if iterm2_supported {
            Some(GraphicsProtocol::Iterm2)
        } else {
            None
        },
        GraphicsProtocol::Auto => {
            if kitty_supported {
                Some(GraphicsProtocol::Kitty)
            } else if iterm2_supported {
                Some(GraphicsProtocol::Iterm2)
            } else {
                None
            }
        },
    }
}

} // verus!
