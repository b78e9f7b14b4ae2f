use vstd::prelude::*;

use vstd::slice::slice_to_vec;
use vstd::string::StrSliceExecFns;

use crate::font::{FONT_5X6, FONT_5X6_WIDTH};

verus! {

/// State of a single pixel: `On` is ink, `Off` is background.
#[derive(Clone, Copy, Debug, PartialEq, Eq, Structural)]
pub enum Pixel {
    On,
    Off,
}

/// Mathematical model of a monochrome canvas.
///
/// The buffer is bit-packed: each byte holds 8 vertically stacked pixels, so
/// byte `width * (y / 8) + x` carries pixel `(x, y)` in bit `y % 8`.
pub struct CanvasView {
    pub width: nat,
    pub height: nat,
    pub buffer: Seq<u8>,
    pub dirty: bool,
}

impl CanvasView {
    /// Well-formedness: the height is a whole number of 8-pixel row groups
    /// and the buffer length matches the dimensions, fixed at construction.
    pub open spec fn wf(self) -> bool {
        &&& self.height % 8 == 0
        &&& self.height <= usize::MAX
        &&& self.buffer.len() == self.width * (self.height / 8)
        &&& self.width * self.height <= usize::MAX
    }

    /// Number of 8-pixel-tall row groups.
    pub open spec fn rows(self) -> nat {
        self.height / 8
    }
}

/// Byte index that carries pixel `(x, y)`.
pub open spec fn pixel_index(width: nat, x: int, y: int) -> int {
    width * (y / 8) + x
}

/// Position of pixel `(x, y)`'s bit within its byte.
pub open spec fn pixel_shift(y: int) -> u8 {
    (y % 8) as u8
}

/// The byte that fills the whole buffer for a given pixel state.
pub open spec fn fill_byte(colour: Pixel) -> u8 {
    match colour {
        Pixel::On => 0xFF,
        Pixel::Off => 0x00,
    }
}

/// Model of `set_pixel`: out-of-range coordinates leave the canvas unchanged.
pub open spec fn spec_set_pixel(c: CanvasView, x: int, y: int, colour: Pixel) -> CanvasView {
    if 0 <= x < c.width && 0 <= y < c.height {
        let i = pixel_index(c.width, x, y);
        let b = match colour {
            Pixel::On => c.buffer[i] | (1u8 << pixel_shift(y)),
            Pixel::Off => c.buffer[i] & !(1u8 << pixel_shift(y)),
        };
        CanvasView { buffer: c.buffer.update(i, b), dirty: true, ..c }
    } else {
        c
    }
}

/// Model of `pixel`: `None` out of range, else the addressed bit.
pub open spec fn spec_pixel(c: CanvasView, x: int, y: int) -> Option<Pixel> {
    if 0 <= x < c.width && 0 <= y < c.height {
        let i = pixel_index(c.width, x, y);
        if (c.buffer[i] >> pixel_shift(y)) & 1 == 1 {
            Some(Pixel::On)
        } else {
            Some(Pixel::Off)
        }
    } else {
        None
    }
}

/// Model of `fill`: every byte becomes the fill sentinel.
pub open spec fn spec_fill(c: CanvasView, colour: Pixel) -> CanvasView {
    CanvasView {
        buffer: Seq::new(c.buffer.len(), |i: int| fill_byte(colour)),
        dirty: true,
        ..c
    }
}

/// Model of `invert`: every byte is complemented.
pub open spec fn spec_invert(c: CanvasView) -> CanvasView {
    CanvasView { buffer: Seq::new(c.buffer.len(), |i: int| !c.buffer[i]), dirty: true, ..c }
}

/// The buffer with the bytes of `[start, end)` complemented; the dirty flag
/// is left alone, as row inversion is part of painting, not new content.
pub open spec fn spec_complement_span(c: CanvasView, start: int, end: int) -> CanvasView {
    CanvasView {
        buffer: Seq::new(
            c.buffer.len(),
            |i: int|
                if start <= i < end {
                    !c.buffer[i]
                } else {
                    c.buffer[i]
                },
        ),
        ..c
    }
}

/// The buffer with the bytes of `[start, end)` set to a fill sentinel and the
/// canvas marked dirty.
pub open spec fn spec_fill_span(c: CanvasView, start: int, end: int, colour: Pixel) -> CanvasView {
    CanvasView {
        buffer: Seq::new(
            c.buffer.len(),
            |i: int|
                if start <= i < end {
                    fill_byte(colour)
                } else {
                    c.buffer[i]
                },
        ),
        dirty: true,
        ..c
    }
}

/// Model of `invert_row`: one 8-pixel-tall row group complemented, guarded
/// against running past the buffer end.
pub open spec fn spec_invert_row(c: CanvasView, row: int) -> CanvasView {
    if 0 <= row && row * c.width < c.buffer.len() {
        spec_complement_span(c, row * c.width, row * c.width + c.width)
    } else {
        c
    }
}

/// Model of `invert_row_slice`: the columns `[start_col, end_col)` of one row
/// group complemented; out-of-range arguments are a silent no-op.
pub open spec fn spec_invert_row_slice(
    c: CanvasView,
    row: int,
    start_col: int,
    end_col: int,
) -> CanvasView {
    if 0 <= row < c.rows() && 0 <= start_col <= end_col <= c.width {
        spec_complement_span(c, row * c.width + start_col, row * c.width + end_col)
    } else {
        c
    }
}

/// Model of `fill_row`: one row group overwritten with the fill sentinel.
/// The dirty flag is set even when the row is out of range.
pub open spec fn spec_fill_row(c: CanvasView, row: int, colour: Pixel) -> CanvasView {
    if 0 <= row < c.rows() {
        spec_fill_span(c, row * c.width, row * c.width + c.width, colour)
    } else {
        CanvasView { dirty: true, ..c }
    }
}

/// Model of `fill_rows`: the row groups `[start_row, end_row)`, clipped to the
/// canvas, overwritten with the fill sentinel.
pub open spec fn spec_fill_rows(
    c: CanvasView,
    start_row: int,
    end_row: int,
    colour: Pixel,
) -> CanvasView {
    let stop = if end_row > c.rows() {
        c.rows() as int
    } else {
        end_row
    };
    spec_fill_span(c, start_row * c.width, stop * c.width, colour)
}

/// First index of the glyph for code point `ch` in the font table.
pub open spec fn glyph_start(ch: char) -> int {
    (ch as int - 0x20) * FONT_5X6_WIDTH
}

/// Model of `print_char`: the five glyph column bytes written (for `On`) or
/// complemented (for `Off`) at the character cell, and the canvas marked
/// dirty. Code points outside printable ASCII and cells that do not fit on
/// the canvas are a silent no-op.
pub open spec fn spec_print_char(
    c: CanvasView,
    ch: char,
    row: int,
    col: int,
    colour: Pixel,
) -> CanvasView {
    if 0x20 <= ch as int <= 0x7F && 0 <= row < c.rows() && 0 <= col && col + FONT_5X6_WIDTH
        <= c.width {
        let base = row * c.width + col;
        CanvasView {
            buffer: Seq::new(
                c.buffer.len(),
                |i: int|
                    if base <= i < base + FONT_5X6_WIDTH {
                        let g = FONT_5X6@[glyph_start(ch) + (i - base)];
                        match colour {
                            Pixel::On => g,
                            Pixel::Off => !g,
                        }
                    } else {
                        c.buffer[i]
                    },
            ),
            dirty: true,
            ..c
        }
    } else {
        c
    }
}

/// Model of `print`: the glyphs of `text` printed left to right on 6-column
/// centres, each through `spec_print_char`.
pub open spec fn spec_print(
    c: CanvasView,
    text: Seq<char>,
    row: int,
    col: int,
    colour: Pixel,
) -> CanvasView
    decreases text.len(),
{
    if text.len() == 0 {
        c
    } else {
        spec_print(
            spec_print_char(c, text[0], row, col, colour),
            text.skip(1),
            row,
            col + 6,
            colour,
        )
    }
}

/// Printing never changes a canvas's dimensions, never shrinks its buffer,
/// never clears its dirty flag, and keeps it well formed.
pub proof fn lemma_print_props(c: CanvasView, text: Seq<char>, row: int, col: int, colour: Pixel)
    ensures
        spec_print(c, text, row, col, colour).width == c.width,
        spec_print(c, text, row, col, colour).height == c.height,
        spec_print(c, text, row, col, colour).buffer.len() == c.buffer.len(),
        c.dirty ==> spec_print(c, text, row, col, colour).dirty,
        c.wf() ==> spec_print(c, text, row, col, colour).wf(),
    decreases text.len(),
{
    if text.len() > 0 {
        lemma_print_props(spec_print_char(c, text[0], row, col, colour), text.skip(1), row, col + 6, colour);
    }
}

/// Monochrome display buffer using one bit per pixel.
///
/// The width should be the display's width in pixels; the height must be a
/// multiple of 8, since each buffer byte spans 8 vertically stacked rows.
pub struct MonochromeCanvas {
    width: usize,
    height: usize,
    buffer: Vec<u8>,
    dirty: bool,
}

impl View for MonochromeCanvas {
    type V = CanvasView;

    closed spec fn view(&self) -> CanvasView {
        CanvasView {
            width: self.width as nat,
            height: self.height as nat,
            buffer: self.buffer@,
            dirty: self.dirty,
        }
    }
}

/// The byte addressed by an in-range pixel lies inside a well-formed buffer,
/// and such a buffer fits in a machine word.
proof fn lemma_pixel_index_in_bounds(c: CanvasView, x: int, y: int)
    requires
        c.wf(),
        0 <= x < c.width,
        0 <= y < c.height,
    ensures
        0 <= pixel_index(c.width, x, y) < c.buffer.len(),
        c.buffer.len() <= usize::MAX,
{
    let w = c.width as int;
    let h = c.height as int;
    let h8 = h / 8;
    let r = y / 8;
    assert(0 <= r < h8);
    assert(w * r + x < w * h8) by (nonlinear_arith)
        requires
            0 <= x < w,
            0 <= r < h8,
    ;
    assert(w * h8 <= w * h) by (nonlinear_arith)
        requires
            0 <= w,
            0 <= h8 <= h,
    ;
}

/// Bytes `[row * width, (row + 1) * width)` stay inside a well-formed buffer
/// whenever `row` is a valid row group; such a buffer fits in a machine word.
proof fn lemma_row_in_bounds(c: CanvasView, row: int)
    requires
        c.wf(),
        0 <= row < c.rows(),
    ensures
        0 <= row * c.width,
        row * c.width + c.width <= c.buffer.len(),
        c.buffer.len() <= usize::MAX,
{
    let w = c.width as int;
    let h = c.height as int;
    let h8 = h / 8;
    assert(0 <= row * w && row * w + w <= w * h8) by (nonlinear_arith)
        requires
            0 <= w,
            0 <= row,
            row < h8,
    ;
    assert(w * h8 <= w * h) by (nonlinear_arith)
        requires
            0 <= w,
            0 <= h8 <= h,
    ;
}

/// A row group at or past the end of a well-formed canvas starts at or past
/// the end of its buffer.
pub proof fn lemma_row_out_of_bounds(c: CanvasView, row: int)
    requires
        c.wf(),
        row >= c.rows(),
    ensures
        row * c.width >= c.buffer.len(),
{
    let w = c.width as int;
    let h8 = (c.height / 8) as int;
    assert(row * w >= h8 * w && h8 * w == w * h8) by (nonlinear_arith)
        requires
            0 <= w,
            0 <= h8 <= row,
    ;
}

/// Printing with the cursor on or past the right edge, or on a row group
/// past the bottom edge, changes nothing however long the text is.
pub proof fn lemma_print_noop(c: CanvasView, text: Seq<char>, row: int, col: int, colour: Pixel)
    requires
        row < 0 || row >= c.rows() || col >= c.width,
    ensures
        spec_print(c, text, row, col, colour) == c,
    decreases text.len(),
{
    if text.len() > 0 {
        assert(spec_print_char(c, text[0], row, col, colour) == c);
        lemma_print_noop(c, text.skip(1), row, col + 6, colour);
    }
}

impl MonochromeCanvas {
    /// A cleared canvas of the given dimensions, initially marked dirty.
    pub fn new(width: usize, height: usize) -> (c: MonochromeCanvas)
        requires
            height % 8 == 0,
            width * height <= usize::MAX,
        ensures
            c@.wf(),
            c@.width == width,
            c@.height == height,
            c@.buffer == Seq::new((width * (height / 8)) as nat, |i: int| 0u8),
            c@.dirty,
    {
        proof {
            assert(width * (height as int / 8) * 8 == width * height) by (nonlinear_arith)
                requires height % 8 == 0;
        }
        let size: usize = (width * (height / 8)) as usize;
        let mut buffer: Vec<u8> = Vec::new();
        let mut i: usize = 0;
        while i < size
            invariant
                i <= size,
                buffer@ =~= Seq::new(i as nat, |j: int| 0u8),
            decreases size - i,
        {
            buffer.push(0);
            i = i + 1;
        }
        proof {
            assert(width * (height / 8) as int == width * (height as int / 8));
        }
        MonochromeCanvas { width, height, buffer, dirty: true }
    }

    /// A canvas over a copy of an existing bit-packed buffer, initially
    /// marked dirty. The buffer must already have exactly the packed size.
    pub fn from_buffer(width: usize, height: usize, buffer: &[u8]) -> (c: MonochromeCanvas)
        requires
            height % 8 == 0,
            width * height <= usize::MAX,
            buffer@.len() == width * ((height as int) / 8),
        ensures
            c@.wf(),
            c@.width == width,
            c@.height == height,
            c@.buffer == buffer@,
            c@.dirty,
    {
        proof {
            assert(width * (height as int / 8) * 8 == width * height) by (nonlinear_arith)
                requires height % 8 == 0;
        }
        MonochromeCanvas { width, height, buffer: slice_to_vec(buffer), dirty: true }
    }

    /// Width of the display in pixels.
    pub fn width(&self) -> (w: usize)
        ensures
            w == self@.width,
    {
        self.width
    }

    /// Height of the display in pixels.
    pub fn height(&self) -> (h: usize)
        ensures
            h == self@.height,
    {
        self.height
    }

    /// Size of the packed buffer in bytes.
    pub fn data_size(&self) -> (n: usize)
        ensures
            n == self@.buffer.len(),
    {
        self.buffer.len()
    }

    /// The packed buffer.
    pub fn data(&self) -> (d: &[u8])
        ensures
            d@ == self@.buffer,
    {
        self.buffer.as_slice()
    }

    /// Whether the content has changed since the dirty flag was last cleared.
    pub fn is_dirty(&self) -> (d: bool)
        ensures
            d == self@.dirty,
    {
        self.dirty
    }

    /// Acknowledge a successful transmit of the buffer.
    pub fn clear_dirty_flag(&mut self)
        ensures
            final(self)@ == (CanvasView { dirty: false, ..old(self)@ }),
    {
        self.dirty = false;
    }

    /// Set one pixel. Out-of-range coordinates are a silent no-op; the guard
    /// rejects the first row and column past the nominal edge as well.
    pub fn set_pixel(&mut self, x: usize, y: usize, colour: Pixel)
        requires
            old(self)@.wf(),
        ensures
            final(self)@.wf(),
            final(self)@ == spec_set_pixel(old(self)@, x as int, y as int, colour),
    {
        if x >= self.width || y >= self.height {
            return ;
        }
        proof {
            lemma_pixel_index_in_bounds(self@, x as int, y as int);
        }
        let byte_index: usize = self.width * (y / 8) + x;
        let shift: u8 = (y % 8) as u8;
        let b: u8 = self.buffer[byte_index];
        match colour {
            Pixel::On => self.buffer.set(byte_index, b | (1u8 << shift)),
            Pixel::Off => self.buffer.set(byte_index, b & !(1u8 << shift)),
        }
        self.dirty = true;
    }

    /// Read one pixel; `None` when the coordinates are out of range.
    pub fn pixel(&self, x: usize, y: usize) -> (p: Option<Pixel>)
        requires
            self@.wf(),
        ensures
            p == spec_pixel(self@, x as int, y as int),
    {
        if x >= self.width || y >= self.height {
            return None;
        }
        proof {
            lemma_pixel_index_in_bounds(self@, x as int, y as int);
        }
        let byte_index: usize = self.width * (y / 8) + x;
        let shift: u8 = (y % 8) as u8;
        if (self.buffer[byte_index] >> shift) & 1 == 1 {
            Some(Pixel::On)
        } else {
            Some(Pixel::Off)
        }
    }

    /// Fill the entire canvas with a single pixel state.
    pub fn fill(&mut self, colour: Pixel)
        ensures
            final(self)@ == spec_fill(old(self)@, colour),
    {
        let value: u8 = match colour {
            Pixel::On => 0xFF,
            Pixel::Off => 0x00,
        };
        let len: usize = self.buffer.len();
        let mut i: usize = 0;
        while i < len
            invariant
                i <= len,
                len == self.buffer.len(),
                self.width == old(self).width,
                self.height == old(self).height,
                value == fill_byte(colour),
                forall|j: int| 0 <= j < i ==> self.buffer@[j] == value,
                forall|j: int| i <= j < len ==> self.buffer@[j] == old(self).buffer@[j],
            decreases len - i,
        {
            self.buffer.set(i, value);
            i = i + 1;
        }
        self.dirty = true;
        proof {
            assert(self@.buffer =~= spec_fill(old(self)@, colour).buffer);
        }
    }

    /// Complement every byte, inverting all pixels.
    pub fn invert(&mut self)
        ensures
            final(self)@ == spec_invert(old(self)@),
    {
        let len: usize = self.buffer.len();
        let mut i: usize = 0;
        while i < len
            invariant
                i <= len,
                len == self.buffer.len(),
                self.width == old(self).width,
                self.height == old(self).height,
                forall|j: int| 0 <= j < i ==> self.buffer@[j] == !old(self).buffer@[j],
                forall|j: int| i <= j < len ==> self.buffer@[j] == old(self).buffer@[j],
            decreases len - i,
        {
            let b: u8 = self.buffer[i];
            self.buffer.set(i, !b);
            i = i + 1;
        }
        self.dirty = true;
        proof {
            assert(self@.buffer =~= spec_invert(old(self)@).buffer);
        }
    }

    /// Complement one 8-pixel-tall row group, guarded against running past
    /// the buffer end. The dirty flag is untouched: row inversion is a paint
    /// step, not new content.
    pub fn invert_row(&mut self, row: usize)
        requires
            old(self)@.wf(),
        ensures
            final(self)@.wf(),
            final(self)@ == spec_invert_row(old(self)@, row as int),
    {
        let rows: usize = self.height / 8;
        if row >= rows {
            proof {
                lemma_row_out_of_bounds(self@, row as int);
            }
            return ;
        }
        proof {
            lemma_row_in_bounds(self@, row as int);
        }
        let start: usize = row * self.width;
        let end: usize = start + self.width;
        if self.width == 0 {
            proof {
                assert(self@.buffer =~= spec_invert_row(old(self)@, row as int).buffer);
            }
            return ;
        }
        let mut i: usize = start;
        while i < end
            invariant
                start <= i <= end,
                end <= self.buffer.len(),
                self.width == old(self).width,
                self.height == old(self).height,
                self.dirty == old(self).dirty,
                self.buffer@.len() == old(self).buffer@.len(),
                forall|j: int| start <= j < i ==> self.buffer@[j] == !old(self).buffer@[j],
                forall|j: int|
                    0 <= j < self.buffer@.len() && !(start <= j < i) ==> self.buffer@[j] == old(
                        self,
                    ).buffer@[j],
            decreases end - i,
        {
            let b: u8 = self.buffer[i];
            self.buffer.set(i, !b);
            i = i + 1;
        }
        proof {
            assert(self@.buffer =~= spec_invert_row(old(self)@, row as int).buffer);
        }
    }

    /// Complement the columns `[start_col, end_col)` of one row group;
    /// out-of-range arguments are a silent no-op. The dirty flag is
    /// untouched.
    pub fn invert_row_slice(&mut self, row: usize, start_col: usize, end_col: usize)
        requires
            old(self)@.wf(),
        ensures
            final(self)@.wf(),
            final(self)@ == spec_invert_row_slice(
                old(self)@,
                row as int,
                start_col as int,
                end_col as int,
            ),
    {
        let rows: usize = self.height / 8;
        if row >= rows || start_col > end_col || end_col > self.width {
            return ;
        }
        proof {
            lemma_row_in_bounds(self@, row as int);
        }
        let base: usize = row * self.width;
        let start: usize = base + start_col;
        let end: usize = base + end_col;
        let mut i: usize = start;
        while i < end
            invariant
                start <= i <= end,
                end <= self.buffer.len(),
                self.width == old(self).width,
                self.height == old(self).height,
                self.dirty == old(self).dirty,
                self.buffer@.len() == old(self).buffer@.len(),
                forall|j: int| start <= j < i ==> self.buffer@[j] == !old(self).buffer@[j],
                forall|j: int|
                    0 <= j < self.buffer@.len() && !(start <= j < i) ==> self.buffer@[j] == old(
                        self,
                    ).buffer@[j],
            decreases end - i,
        {
            let b: u8 = self.buffer[i];
            self.buffer.set(i, !b);
            i = i + 1;
        }
        proof {
            assert(self@.buffer =~= spec_invert_row_slice(
                old(self)@,
                row as int,
                start_col as int,
                end_col as int,
            ).buffer);
        }
    }

    /// Overwrite one row group with a fill sentinel and mark the canvas
    /// dirty; a row past the bottom edge only marks it dirty.
    pub fn fill_row(&mut self, row: usize, colour: Pixel)
        requires
            old(self)@.wf(),
        ensures
            final(self)@.wf(),
            final(self)@ == spec_fill_row(old(self)@, row as int, colour),
    {
        let rows: usize = self.height / 8;
        if row >= rows {
            self.dirty = true;
            return ;
        }
        proof {
            lemma_row_in_bounds(self@, row as int);
        }
        let value: u8 = match colour {
            Pixel::On => 0xFF,
            Pixel::Off => 0x00,
        };
        let start: usize = row * self.width;
        let end: usize = start + self.width;
        let mut i: usize = start;
        while i < end
            invariant
                start <= i <= end,
                end <= self.buffer.len(),
                self.width == old(self).width,
                self.height == old(self).height,
                self.buffer@.len() == old(self).buffer@.len(),
                value == fill_byte(colour),
                forall|j: int| start <= j < i ==> self.buffer@[j] == value,
                forall|j: int|
                    0 <= j < self.buffer@.len() && !(start <= j < i) ==> self.buffer@[j] == old(
                        self,
                    ).buffer@[j],
            decreases end - i,
        {
            self.buffer.set(i, value);
            i = i + 1;
        }
        self.dirty = true;
        proof {
            assert(self@.buffer =~= spec_fill_row(old(self)@, row as int, colour).buffer);
        }
    }

    /// Overwrite the row groups `[start_row, end_row)`, clipped to the
    /// canvas, with a fill sentinel, and mark the canvas dirty.
    pub fn fill_rows(&mut self, start_row: usize, end_row: usize, colour: Pixel)
        requires
            old(self)@.wf(),
        ensures
            final(self)@.wf(),
            final(self)@ == spec_fill_rows(
                old(self)@,
                start_row as int,
                end_row as int,
                colour,
            ),
    {
        let rows: usize = self.height / 8;
        let stop: usize = if end_row > rows {
            rows
        } else {
            end_row
        };
        let ghost lo = start_row as int * old(self)@.width;
        let ghost hi = stop as int * old(self)@.width;
        let mut row: usize = start_row;
        while row < stop
            invariant
                old(self)@.wf(),
                start_row <= row || row == start_row,
                row <= stop || start_row >= stop,
                start_row <= row,
                row <= stop || row == start_row,
                stop <= old(self)@.rows(),
                self@.wf(),
                self@.width == old(self)@.width,
                self@.height == old(self)@.height,
                lo == start_row as int * old(self)@.width,
                self@ == if row == start_row {
                    old(self)@
                } else {
                    spec_fill_span(old(self)@, lo, row as int * old(self)@.width as int, colour)
                },
            decreases stop - row,
        {
            let ghost prev = self@;
            self.fill_row(row, colour);
            proof {
                let w = old(self)@.width as int;
                let r = row as int;
                lemma_row_in_bounds(old(self)@, r);
                assert(lo <= r * w && r * w + w == (r + 1) * w) by (nonlinear_arith)
                    requires
                        0 <= w,
                        start_row as int <= r,
                        lo == start_row as int * w,
                ;
                assert(self@.buffer =~= spec_fill_span(
                    old(self)@,
                    lo,
                    (r + 1) * w,
                    colour,
                ).buffer);
            }
            row = row + 1;
        }
        self.dirty = true;
        proof {
            if start_row >= stop {
                let w = old(self)@.width as int;
                assert(hi <= lo) by (nonlinear_arith)
                    requires
                        0 <= w,
                        stop as int <= start_row as int,
                        lo == start_row as int * w,
                        hi == stop as int * w,
                ;
            }
            assert(self@.buffer =~= spec_fill_rows(
                old(self)@,
                start_row as int,
                end_row as int,
                colour,
            ).buffer);
        }
    }

    /// Replace the backing buffer with a copy of another canvas's buffer.
    /// The two canvases must have the same dimensions; the dirty flag is
    /// carried over from the source's content being new here.
    pub fn copy_from(&mut self, canvas: &MonochromeCanvas)
        requires
            old(self)@.wf(),
            canvas@.width == old(self)@.width,
            canvas@.height == old(self)@.height,
            canvas@.wf(),
        ensures
            final(self)@.wf(),
            final(self)@ == (CanvasView { buffer: canvas@.buffer, ..old(self)@ }),
    {
        self.buffer = slice_to_vec(canvas.data());
    }

    /// Print one character's glyph at a character cell. Code points outside
    /// printable ASCII, and cells that do not fit on the canvas, are a
    /// silent no-op.
    pub fn print_char(&mut self, ch: char, row: usize, col: usize, colour: Pixel)
        requires
            old(self)@.wf(),
        ensures
            final(self)@.wf(),
            final(self)@ == spec_print_char(old(self)@, ch, row as int, col as int, colour),
    {
        let code: u32 = ch as u32;
        if code < 0x20 || code > 0x7F {
            return ;
        }
        let rows: usize = self.height / 8;
        if row >= rows {
            return ;
        }
        if col >= self.width || self.width - col < FONT_5X6_WIDTH {
            return ;
        }
        proof {
            lemma_row_in_bounds(self@, row as int);
        }
        let glyph_index: usize = ((code - 0x20) as usize) * FONT_5X6_WIDTH;
        let base: usize = row * self.width + col;
        let mut k: usize = 0;
        while k < FONT_5X6_WIDTH
            invariant
                k <= FONT_5X6_WIDTH,
                base + FONT_5X6_WIDTH <= self.buffer.len(),
                glyph_index == glyph_start(ch),
                glyph_index + FONT_5X6_WIDTH <= 480,
                0x20 <= ch as int <= 0x7F,
                self.width == old(self).width,
                self.height == old(self).height,
                self.buffer@.len() == old(self).buffer@.len(),
                forall|j: int|
                    base <= j < base + k ==> self.buffer@[j] == (match colour {
                        Pixel::On => FONT_5X6@[glyph_start(ch) + (j - base)],
                        Pixel::Off => !FONT_5X6@[glyph_start(ch) + (j - base)],
                    }),
                forall|j: int|
                    0 <= j < self.buffer@.len() && !(base <= j < base + k) ==> self.buffer@[j]
                        == old(self).buffer@[j],
            decreases FONT_5X6_WIDTH - k,
        {
            let g: u8 = FONT_5X6[glyph_index + k];
            let b: u8 = match colour {
                Pixel::On => g,
                Pixel::Off => !g,
            };
            self.buffer.set(base + k, b);
            k = k + 1;
        }
        self.dirty = true;
        proof {
            assert(self@.buffer =~= spec_print_char(
                old(self)@,
                ch,
                row as int,
                col as int,
                colour,
            ).buffer);
        }
    }

    /// Print a string of glyphs left to right on 6-column centres, starting
    /// at a character cell. Characters outside printable ASCII are silently
    /// skipped, as are glyphs that run off the canvas.
    pub fn print(&mut self, text: &str, row: usize, col: usize, colour: Pixel)
        requires
            old(self)@.wf(),
        ensures
            final(self)@.wf(),
            final(self)@ == spec_print(old(self)@, text@, row as int, col as int, colour),
            final(self)@.width == old(self)@.width,
            final(self)@.height == old(self)@.height,
            old(self)@.dirty ==> final(self)@.dirty,
    {
        let rows: usize = self.height / 8;
        if row >= rows {
            proof {
                lemma_print_noop(self@, text@, row as int, col as int, colour);
            }
            return ;
        }
        proof {
            let w = self@.width as int;
            let h = self@.height as int;
            assert(w * 8 <= w * h) by (nonlinear_arith)
                requires
                    0 <= w,
                    8 <= h,
            ;
        }
        let len: usize = text.unicode_len();
        let mut i: usize = 0;
        let mut cur_col: usize = col;
        proof {
            assert(text@.skip(0) =~= text@);
        }
        while i < len
            invariant
                i <= len,
                len == text@.len(),
                self@.wf(),
                self@.width == old(self)@.width,
                self@.height == old(self)@.height,
                self@.width * 8 <= usize::MAX,
                old(self)@.dirty ==> self@.dirty,
                spec_print(old(self)@, text@, row as int, col as int, colour) == spec_print(
                    self@,
                    text@.skip(i as int),
                    row as int,
                    cur_col as int,
                    colour,
                ),
            decreases len - i,
        {
            if cur_col >= self.width {
                proof {
                    lemma_print_noop(self@, text@.skip(i as int), row as int, cur_col as int, colour);
                }
                return ;
            }
            let ch: char = text.get_char(i);
            self.print_char(ch, row, cur_col, colour);
            proof {
                assert(text@.skip(i as int).skip(1) =~= text@.skip(i as int + 1));
                assert(text@.skip(i as int)[0] == text@[i as int]);
            }
            cur_col = cur_col + 6;
            i = i + 1;
        }
    }
}

/// Setting a pixel in range and reading it back gives the state that was set.
pub proof fn lemma_set_pixel_roundtrip(c: CanvasView, x: int, y: int, colour: Pixel)
    requires
        c.wf(),
        0 <= x < c.width,
        0 <= y < c.height,
    ensures
        spec_pixel(spec_set_pixel(c, x, y, colour), x, y) == Some(colour),
{
    lemma_pixel_index_in_bounds(c, x, y);
    let s = pixel_shift(y);
    let b = c.buffer[pixel_index(c.width, x, y)];
    assert(s < 8);
    assert(((b | (1u8 << s)) >> s) & 1 == 1) by (bit_vector)
        requires
            s < 8,
    ;
    assert(((b & !(1u8 << s)) >> s) & 1 == 0) by (bit_vector)
        requires
            s < 8,
    ;
}

/// Setting one pixel leaves every other pixel exactly as it was.
pub proof fn lemma_set_pixel_frame(c: CanvasView, x: int, y: int, colour: Pixel, x2: int, y2: int)
    requires
        c.wf(),
        0 <= x < c.width,
        0 <= y < c.height,
        0 <= x2 < c.width,
        0 <= y2 < c.height,
        !(x2 == x && y2 == y),
    ensures
        spec_pixel(spec_set_pixel(c, x, y, colour), x2, y2) == spec_pixel(c, x2, y2),
{
    lemma_pixel_index_in_bounds(c, x, y);
    lemma_pixel_index_in_bounds(c, x2, y2);
    let w = c.width as int;
    let q1 = y / 8;
    let q2 = y2 / 8;
    if x2 == x && q2 == q1 {
        // Same byte, different bit.
        let s = pixel_shift(y);
        let t = pixel_shift(y2);
        assert(s != t);
        let b = c.buffer[pixel_index(c.width, x, y)];
        assert((((b | (1u8 << s)) >> t) & 1) == ((b >> t) & 1)) by (bit_vector)
            requires
                s < 8,
                t < 8,
                s != t,
        ;
        assert((((b & !(1u8 << s)) >> t) & 1) == ((b >> t) & 1)) by (bit_vector)
            requires
                s < 8,
                t < 8,
                s != t,
        ;
    } else {
        // Different bytes: the write cannot reach the other pixel's byte.
        if q1 == q2 {
            assert(pixel_index(c.width, x, y) != pixel_index(c.width, x2, y2));
        } else {
            assert(w * q1 + x != w * q2 + x2) by (nonlinear_arith)
                requires
                    q1 != q2,
                    0 <= x < w,
                    0 <= x2 < w,
            ;
        }
    }
}

/// Inverting the canvas twice restores every pixel; only the dirty flag is
/// forced on.
pub proof fn lemma_invert_involution(c: CanvasView)
    ensures
        spec_invert(spec_invert(c)) == (CanvasView { dirty: true, ..c }),
{
    assert forall|b: u8| !(!b) == b by {
        assert(forall|b: u8| !(!b) == b) by (bit_vector);
    }
    assert(spec_invert(spec_invert(c)).buffer =~= c.buffer);
}

/// Filling with `On` and then with `Off` leaves the canvas dirty with an
/// all-zero buffer.
pub proof fn lemma_fill_on_then_off(c: CanvasView)
    ensures
        spec_fill(spec_fill(c, Pixel::On), Pixel::Off).dirty,
        spec_fill(spec_fill(c, Pixel::On), Pixel::Off).buffer == Seq::new(
            c.buffer.len(),
            |i: int| 0u8,
        ),
{
    assert(spec_fill(spec_fill(c, Pixel::On), Pixel::Off).buffer =~= Seq::new(
        c.buffer.len(),
        |i: int| 0u8,
    ));
}

} // verus!
