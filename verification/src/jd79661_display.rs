//! The packed framebuffer: a drawable surface holding the panel's wire format
//! directly, one byte per four horizontally adjacent pixels, two bits each,
//! most significant pair first.

use vstd::prelude::*;

use crate::theme::Theme;
use crate::BUFFER_LENGTH;
use crate::BYTES_PER_ROW;
use crate::HEIGHT;
use crate::WIDTH;

verus! {

/// The addressable drawing space is shifted three pixels to the right of the
/// logical panel origin: a known physical margin of this panel family.
pub const X_OFFSET: usize = 3;

/// The four native colors of the panel. The 2-bit wire code of each color is
/// given by [`JD79661Color::code`].
#[derive(Clone, Copy, PartialEq, Eq, Structural, Debug)]
pub enum JD79661Color {
    Black,
    White,
    Yellow,
    Red,
}

impl JD79661Color {
    /// The 2-bit code this color has in the packed wire format.
    pub open spec fn code(self) -> u8 {
        match self {
            JD79661Color::Black => 0x00,
            JD79661Color::White => 0x01,
            JD79661Color::Yellow => 0x02,
            JD79661Color::Red => 0x03,
        }
    }

    /// Returns the 2-bit wire code of this color.
    pub fn to_code(&self) -> (r: u8)
        ensures
            r == self.code(),
    {
        match self {
            JD79661Color::Black => 0x00,
            JD79661Color::White => 0x01,
            JD79661Color::Yellow => 0x02,
            JD79661Color::Red => 0x03,
        }
    }
}

impl Default for JD79661Color {
    /// The background color the panel is cleared to: white.
    fn default() -> (r: Self)
        ensures
            r == JD79661Color::White,
    {
        JD79661Color::White
    }
}

/// The byte that fills the buffer when every pixel of a byte holds color `c`:
/// the 2-bit code replicated four times.
pub open spec fn fill_byte(c: JD79661Color) -> u8 {
    c.code() | c.code() << 2 | c.code() << 4 | c.code() << 6
}

/// Whether the offset-adjusted coordinate `(x, y)` lies on the panel.
pub open spec fn in_bounds(x: int, y: int) -> bool {
    0 <= x < WIDTH && 0 <= y < HEIGHT
}

/// The buffer index of the byte owning the pixel at offset-adjusted `(x, y)`:
/// four horizontally adjacent pixels share one byte.
pub open spec fn byte_index(x: int, y: int) -> int {
    y * BYTES_PER_ROW + x / 4
}

/// How far the 2-bit field of sub-position `pos` (0 to 3, left to right) is
/// shifted up within its byte: the leftmost pixel holds the top two bits.
pub open spec fn pixel_shift(pos: u8) -> u8 {
    ((3 - pos) * 2) as u8
}

/// The 2-bit color code stored at sub-position `pos` of `byte`.
pub open spec fn pixel_code_in_byte(byte: u8, pos: u8) -> u8 {
    (byte >> pixel_shift(pos)) & 0x03
}

/// `byte` with the 2-bit field at sub-position `pos` overwritten by `code`
/// and the other three fields kept.
pub open spec fn write_pixel_byte(byte: u8, pos: u8, code: u8) -> u8 {
    (byte & !(0x03u8 << pixel_shift(pos))) | (code & 0x03) << pixel_shift(pos)
}

/// The buffer after one drawing request at pre-offset `(x, y)`: the owning
/// byte's field is overwritten if the adjusted coordinate is on the panel,
/// and nothing changes if it is not.
pub open spec fn apply_pixel(buf: Seq<u8>, x: int, y: int, c: JD79661Color) -> Seq<u8> {
    let xa = x - X_OFFSET;
    if in_bounds(xa, y) {
        buf.update(
            byte_index(xa, y),
            write_pixel_byte(buf[byte_index(xa, y)], (xa % 4) as u8, c.code()),
        )
    } else {
        buf
    }
}

/// The buffer after a whole sequence of drawing requests, first to last.
pub open spec fn apply_pixels(buf: Seq<u8>, ps: Seq<(i32, i32, JD79661Color)>) -> Seq<u8>
    decreases ps.len(),
{
    if ps.len() == 0 {
        buf
    } else {
        apply_pixel(
            apply_pixels(buf, ps.drop_last()),
            ps.last().0 as int,
            ps.last().1 as int,
            ps.last().2,
        )
    }
}

/// Replicating a 2-bit code four times fills all four sub-positions: every
/// pixel of a freshly filled byte reads back the fill color's code.
pub proof fn lemma_fill_byte_readback(c: JD79661Color, pos: u8)
    requires
        pos < 4,
    ensures
        pixel_code_in_byte(fill_byte(c), pos) == c.code(),
{
    let code = c.code();
    assert(code < 4);
    assert(pixel_code_in_byte(code | code << 2 | code << 4 | code << 6, pos) == code)
        by (bit_vector)
        requires
            code < 4,
            pos < 4,
    ;
}

/// Overwriting the 2-bit field at sub-position `pos` stores exactly `code`
/// there and leaves the fields of the three other pixels of the byte as they
/// were.
pub proof fn lemma_write_readback(byte: u8, pos: u8, code: u8)
    by (bit_vector)
    requires
        pos < 4,
        code < 4,
    ensures
        pixel_code_in_byte(write_pixel_byte(byte, pos, code), pos) == code,
        forall|q: u8|
            q < 4 && q != pos ==> pixel_code_in_byte(write_pixel_byte(byte, pos, code), q)
                == pixel_code_in_byte(byte, q),
{
}

/// After a drawing request whose adjusted coordinate lies on the panel,
/// reading the written pixel back yields exactly the written color's code,
/// the three other pixels sharing its byte read back unchanged, and every
/// other byte of the buffer is unchanged.
pub proof fn lemma_pixel_readback(buf: Seq<u8>, x: int, y: int, c: JD79661Color)
    requires
        buf.len() == BUFFER_LENGTH,
        in_bounds(x - X_OFFSET, y),
    ensures
        pixel_code_in_byte(
            apply_pixel(buf, x, y, c)[byte_index(x - X_OFFSET, y)],
            ((x - X_OFFSET) % 4) as u8,
        ) == c.code(),
        forall|q: u8|
            q < 4 && q != ((x - X_OFFSET) % 4) as u8 ==> #[trigger] pixel_code_in_byte(
                apply_pixel(buf, x, y, c)[byte_index(x - X_OFFSET, y)],
                q,
            ) == pixel_code_in_byte(buf[byte_index(x - X_OFFSET, y)], q),
        forall|j: int|
            0 <= j < buf.len() && j != byte_index(x - X_OFFSET, y) ==> apply_pixel(
                buf,
                x,
                y,
                c,
            )[j] == buf[j],
{
    let xa = x - X_OFFSET;
    let idx = byte_index(xa, y);
    assert(BYTES_PER_ROW == 32);
    assert(idx == y * 32 + xa / 4);
    assert(0 <= idx < buf.len());
    assert(c.code() < 4);
    lemma_write_readback(buf[idx], (xa % 4) as u8, c.code());
}

/// A sequence of drawing requests that all fall off the panel after the
/// margin-offset adjustment alters no byte of the buffer.
pub proof fn lemma_clipped_pixels_leave_buffer(buf: Seq<u8>, ps: Seq<(i32, i32, JD79661Color)>)
    requires
        forall|i: int|
            0 <= i < ps.len() ==> !in_bounds(#[trigger] ps[i].0 - X_OFFSET, ps[i].1 as int),
    ensures
        apply_pixels(buf, ps) == buf,
    decreases ps.len(),
{
    if ps.len() > 0 {
        lemma_clipped_pixels_leave_buffer(buf, ps.drop_last());
    }
}

/// The packed framebuffer: `BUFFER_LENGTH` bytes, four pixels per byte.
/// Its view is the byte sequence exactly as it goes over the wire.
pub struct JD79661Display {
    buffer: Vec<u8>,
}

impl View for JD79661Display {
    type V = Seq<u8>;

    closed spec fn view(&self) -> Seq<u8> {
        self.buffer@
    }
}

impl JD79661Display {
    /// The buffer always holds exactly one byte per four pixels of the panel.
    pub open spec fn wf(self) -> bool {
        self@.len() == BUFFER_LENGTH
    }

    /// Exposes the packed buffer by reference for a transfer. The caller must
    /// not hold the reference across a later drawing pass.
    pub fn buffer(&self) -> (r: &Vec<u8>)
        ensures
            r@ == self@,
    {
        &self.buffer
    }

    /// Writes one pixel. The request's `x` is adjusted by the physical margin
    /// offset; a request whose adjusted coordinate falls off the panel is
    /// silently dropped. A write on the panel overwrites exactly the two bits
    /// of that pixel and leaves the rest of the buffer untouched.
    pub fn set_pixel(&mut self, x: i32, y: i32, color: JD79661Color)
        requires
            old(self).wf(),
        ensures
            final(self).wf(),
            final(self)@ == apply_pixel(old(self)@, x as int, y as int, color),
            !in_bounds(x as int - X_OFFSET, y as int) ==> final(self)@ == old(self)@,
    {
        if x < X_OFFSET as i32 || y < 0 {
            return;
        }
        let xa = x - X_OFFSET as i32;
        if xa >= WIDTH as i32 || y >= HEIGHT as i32 {
            return;
        }
        let xu = xa as usize;
        let yu = y as usize;
        proof {
            assert(yu < HEIGHT && BYTES_PER_ROW == 32);
        }
        let idx: usize = yu * BYTES_PER_ROW + xu / 4;
        let pos: u8 = (xu % 4) as u8;
        let shift: u8 = (3 - pos) * 2;
        let code = color.to_code();
        let mask: u8 = 0x03u8 << shift;
        let shifted: u8 = code << shift;
        let byte = self.buffer[idx];
        let updated = (byte | shifted) & (!mask | shifted);
        proof {
            assert(updated == write_pixel_byte(byte, pos, code)) by (bit_vector)
                requires
                    pos < 4,
                    code < 4,
                    shift == pixel_shift(pos),
                    mask == (0x03u8 << shift),
                    shifted == (code << shift),
                    updated == ((byte | shifted) & (!mask | shifted)),
            ;
        }
        self.buffer[idx] = updated;
    }

    /// Applies a whole sequence of drawing requests in order, each one exactly
    /// as [`JD79661Display::set_pixel`] would. Requests off the panel are
    /// silently dropped; this operation never fails.
    pub fn set_pixels(&mut self, pixels: &Vec<(i32, i32, JD79661Color)>)
        requires
            old(self).wf(),
        ensures
            final(self).wf(),
            final(self)@ == apply_pixels(old(self)@, pixels@),
    {
        let ghost buf0 = self@;
        let mut i: usize = 0;
        while i < pixels.len()
            invariant
                self.wf(),
                i <= pixels@.len(),
                self@ == apply_pixels(buf0, pixels@.take(i as int)),
            decreases pixels@.len() - i,
        {
            let p = pixels[i];
            self.set_pixel(p.0, p.1, p.2);
            proof {
                assert(pixels@.take(i as int + 1).drop_last() =~= pixels@.take(i as int));
                assert(pixels@.take(i as int + 1).last() == pixels@[i as int]);
            }
            i += 1;
        }
        proof {
            assert(pixels@.take(pixels@.len() as int) =~= pixels@);
        }
    }

    /// Resets every byte to four repetitions of the 2-bit code of `color`,
    /// clearing the whole surface to that color.
    pub fn background_fill(&mut self, color: JD79661Color)
        ensures
            final(self).wf(),
            forall|i: int| 0 <= i < final(self)@.len() ==> final(self)@[i] == fill_byte(color),
    {
        let code = color.to_code();
        let byte = code | code << 2 | code << 4 | code << 6;
        self.buffer = vec![byte; BUFFER_LENGTH];
    }
}

impl Default for JD79661Display {
    /// A fresh surface with every pixel set to the default background color.
    fn default() -> (r: Self)
        ensures
            r.wf(),
            forall|i: int| 0 <= i < r@.len() ==> r@[i] == fill_byte(JD79661Color::White),
    {
        let mut display = JD79661Display { buffer: Vec::new() };
        display.background_fill(JD79661Color::default());
        display
    }
}

/// The theme this panel's example application draws with: white text on a
/// black background.
pub struct JD79661Theme;

impl JD79661Theme {
    /// Builds the theme.
    pub fn new() -> (r: Self)
        ensures
            r == (JD79661Theme {  }),
    {
        JD79661Theme {  }
    }
}

impl Theme for JD79661Theme {
    type Color = JD79661Color;

    fn background(&self) -> (r: Self::Color)
        ensures
            r == JD79661Color::Black,
    {
        JD79661Color::Black
    }

    fn text(&self) -> (r: Self::Color)
        ensures
            r == JD79661Color::White,
    {
        JD79661Color::White
    }
}

} // verus!
