use vstd::prelude::*;

use vstd::string::{StrSliceExecFns, StringExecFns};

use crate::canvas::{
    spec_fill_row, spec_fill_rows, spec_print, CanvasView, MonochromeCanvas, Pixel,
};
use crate::events::{Direction, Event, EventHandler};
use crate::surface::Control;

verus! {

/// Mathematical model of a text panel.
pub struct TextPanelView {
    /// Whether the next paint must redraw.
    pub dirty: bool,
    /// The text as set, newlines included.
    pub text: Seq<char>,
    /// The text split at newlines.
    pub lines: Seq<Seq<char>>,
    /// Vertical and horizontal scroll position, in lines and columns.
    pub scroll: (nat, nat),
    /// Line count and widest line width of the text.
    pub text_size: (nat, nat),
    /// Height (in row groups) and width of the control.
    pub control_size: (nat, nat),
}

/// The text split at newline characters. A trailing newline yields a final
/// empty line, so the number of lines is always the newline count plus one.
pub open spec fn spec_lines(text: Seq<char>) -> Seq<Seq<char>>
    decreases text.len(),
{
    if text.len() == 0 {
        seq![Seq::<char>::empty()]
    } else if text[0] == '\n' {
        seq![Seq::<char>::empty()] + spec_lines(text.skip(1))
    } else {
        let rest = spec_lines(text.skip(1));
        seq![seq![text[0]] + rest[0]] + rest.skip(1)
    }
}

/// A split always has at least one line.
pub proof fn lemma_lines_nonempty(text: Seq<char>)
    ensures
        spec_lines(text).len() >= 1,
    decreases text.len(),
{
    if text.len() > 0 {
        lemma_lines_nonempty(text.skip(1));
    }
}

/// Widest line of a split, in characters.
pub open spec fn spec_max_width(lines: Seq<Seq<char>>) -> nat
    decreases lines.len(),
{
    if lines.len() == 0 {
        0
    } else {
        let rest = spec_max_width(lines.drop_last());
        if lines.last().len() > rest {
            lines.last().len()
        } else {
            rest
        }
    }
}

/// How a split decomposes around a newline-free span `[start, i)`: the span
/// is the whole first line up to the newline at `i`, or the last line when
/// the text ends at `i`.
proof fn lemma_lines_split_at(text: Seq<char>, start: int, i: int)
    requires
        0 <= start <= i <= text.len(),
        forall|j: int| start <= j < i ==> text[j] != '\n',
    ensures
        i < text.len() && text[i] == '\n' ==> spec_lines(text.skip(start)) == seq![
            text.subrange(start, i),
        ] + spec_lines(text.skip(i + 1)),
        i == text.len() ==> spec_lines(text.skip(start)) == seq![text.subrange(start, i)],
    decreases i - start,
{
    lemma_lines_nonempty(text.skip(start));
    if start == i {
        if i < text.len() && text[i] == '\n' {
            assert(text.skip(start)[0] == text[i]);
            assert(text.skip(start).skip(1) =~~= text.skip(i + 1));
            assert(spec_lines(text.skip(start)) =~~= seq![text.subrange(start, i)] + spec_lines(
                text.skip(i + 1),
            ));
        } else if i == text.len() {
            assert(text.skip(start).len() == 0);
            assert(text.subrange(start, i) =~~= Seq::<char>::empty());
            assert(spec_lines(text.skip(start)) =~~= seq![text.subrange(start, i)]);
        }
    } else {
        assert(text.skip(start)[0] == text[start]);
        assert(text.skip(start).skip(1) =~~= text.skip(start + 1));
        lemma_lines_split_at(text, start + 1, i);
        let rest = spec_lines(text.skip(start + 1));
        if i < text.len() && text[i] == '\n' {
            assert(rest == seq![text.subrange(start + 1, i)] + spec_lines(text.skip(i + 1)));
            assert(rest[0] == text.subrange(start + 1, i));
            assert(seq![text[start]] + rest[0] =~~= text.subrange(start, i));
            assert(rest.skip(1) =~~= spec_lines(text.skip(i + 1)));
            assert(spec_lines(text.skip(start)) =~~= seq![text.subrange(start, i)] + spec_lines(
                text.skip(i + 1),
            ));
        } else if i == text.len() {
            assert(rest == seq![text.subrange(start + 1, i)]);
            assert(rest[0] == text.subrange(start + 1, i));
            assert(seq![text[start]] + rest[0] =~~= text.subrange(start, i));
            assert(rest.skip(1) =~~= Seq::<Seq<char>>::empty());
            assert(spec_lines(text.skip(start)) =~~= seq![text.subrange(start, i)]);
        }
    }
}

/// The vertical scroll position after one encoder step: it moves only when
/// the text is taller than the control, up to the last fully scrolled
/// window, and never below zero.
pub open spec fn spec_text_scroll(scroll: int, d: Direction, text_h: int, ctrl_h: int) -> int {
    if text_h > ctrl_h {
        match d {
            Direction::Up => if scroll < text_h - ctrl_h {
                scroll + 1
            } else {
                scroll
            },
            Direction::Down => if scroll > 0 {
                scroll - 1
            } else {
                scroll
            },
        }
    } else {
        scroll
    }
}

/// Model of `handle`: an encoder step scrolls and marks dirty when it moved;
/// every other event leaves the panel alone.
pub open spec fn spec_text_handle(v: TextPanelView, e: Event) -> TextPanelView {
    match e {
        Event::EncoderChange(_, d, _) => {
            let s = spec_text_scroll(
                v.scroll.0 as int,
                d,
                v.text_size.0 as int,
                v.control_size.0 as int,
            );
            TextPanelView {
                scroll: (s as nat, v.scroll.1),
                dirty: v.dirty || s != v.scroll.0,
                ..v
            }
        },
        _ => v,
    }
}

/// Whether `handle` reports the event as consumed: exactly the encoder
/// events, whether or not the window moved.
pub open spec fn spec_text_handled(e: Event) -> bool {
    e is EncoderChange
}

/// The visible window of lines painted top to bottom: each paints its row
/// group blank and prints its text.
pub open spec fn spec_text_paint_rows(
    c: CanvasView,
    lines: Seq<Seq<char>>,
    idx: int,
    stop: int,
    v_scroll: int,
    row: int,
    col: int,
) -> CanvasView
    decreases stop - idx,
{
    if idx < stop && 0 <= idx < lines.len() {
        let r0 = row + idx - v_scroll;
        let c1 = spec_fill_row(c, r0, Pixel::Off);
        let c2 = spec_print(c1, lines[idx], r0, col, Pixel::On);
        spec_text_paint_rows(c2, lines, idx + 1, stop, v_scroll, row, col)
    } else {
        c
    }
}

/// Model of `paint`: when dirty, the control's rows are cleared and the
/// window of lines starting at the vertical scroll position is drawn;
/// otherwise the canvas is untouched.
pub open spec fn spec_text_paint(v: TextPanelView, c: CanvasView, row: int, col: int) -> CanvasView {
    if v.dirty {
        let height = if v.control_size.0 < v.text_size.0 {
            v.control_size.0 as int
        } else {
            v.text_size.0 as int
        };
        let c1 = spec_fill_rows(c, row, row + v.control_size.0, Pixel::Off);
        spec_text_paint_rows(
            c1,
            v.lines,
            v.scroll.0 as int,
            v.scroll.0 + height,
            v.scroll.0 as int,
            row,
            col,
        )
    } else {
        c
    }
}

/// Painting rows that all lie under the bottom edge of an already-dirty
/// canvas changes nothing.
proof fn lemma_text_paint_rows_noop(
    c: CanvasView,
    lines: Seq<Seq<char>>,
    idx: int,
    stop: int,
    v_scroll: int,
    row: int,
    col: int,
)
    requires
        c.dirty,
        row + idx - v_scroll >= c.rows(),
        idx >= v_scroll,
    ensures
        spec_text_paint_rows(c, lines, idx, stop, v_scroll, row, col) == c,
    decreases stop - idx,
{
    if idx < stop && 0 <= idx < lines.len() {
        let r0 = row + idx - v_scroll;
        assert(spec_fill_row(c, r0, Pixel::Off) == c);
        crate::canvas::lemma_print_noop(c, lines[idx], r0, col, Pixel::On);
        lemma_text_paint_rows_noop(c, lines, idx + 1, stop, v_scroll, row, col);
    }
}

/// Simple scrollable text panel: owns a text blob split into lines, a
/// vertical scroll position, and paints the visible window.
pub struct TextPanel {
    /// Whether the next paint must redraw.
    pub dirty: bool,
    /// The text as set.
    pub text: String,
    /// The text split at newlines.
    pub lines: Vec<String>,
    /// Vertical and horizontal scroll position.
    pub scroll_pos: (usize, usize),
    /// Line count and widest line width of the text.
    pub text_size: (usize, usize),
    /// Height (in row groups) and width of the control.
    pub control_size: (usize, usize),
}

impl View for TextPanel {
    type V = TextPanelView;

    open spec fn view(&self) -> TextPanelView {
        TextPanelView {
            dirty: self.dirty,
            text: self.text@,
            lines: self.lines.deep_view(),
            scroll: (self.scroll_pos.0 as nat, self.scroll_pos.1 as nat),
            text_size: (self.text_size.0 as nat, self.text_size.1 as nat),
            control_size: (self.control_size.0 as nat, self.control_size.1 as nat),
        }
    }
}

impl TextPanel {
    /// An empty panel: no text, no scroll, nothing to repaint.
    pub fn new() -> (p: TextPanel)
        ensures
            !p@.dirty,
            p@.text == Seq::<char>::empty(),
            p@.lines == Seq::<Seq<char>>::empty(),
            p@.scroll == ((0nat, 0nat)),
            p@.text_size == ((0nat, 0nat)),
            p@.control_size == ((0nat, 0nat)),
    {
        let p = TextPanel {
            dirty: false,
            text: String::new(),
            lines: Vec::new(),
            scroll_pos: (0, 0),
            text_size: (0, 0),
            control_size: (0, 0),
        };
        proof {
            assert(p.lines.deep_view() =~= Seq::<Seq<char>>::empty());
        }
        p
    }

    /// Set the current text: it is split at newlines, the line count and the
    /// widest line are recomputed, and the panel is marked dirty.
    pub fn set_text(&mut self, text: &str)
        ensures
            final(self)@.text == text@,
            final(self)@.lines == spec_lines(text@),
            final(self)@.text_size.0 == spec_lines(text@).len(),
            final(self)@.text_size.1 == spec_max_width(spec_lines(text@)),
            final(self)@.dirty,
            final(self)@.scroll == old(self)@.scroll,
            final(self)@.control_size == old(self)@.control_size,
    {
        self.text = String::from_str(text);

        // Split at newlines.
        let n: usize = text.unicode_len();
        let mut lines: Vec<String> = Vec::new();
        let mut start: usize = 0;
        let mut i: usize = 0;
        proof {
            assert(text@.skip(0) =~= text@);
            assert(lines.deep_view() =~= Seq::<Seq<char>>::empty());
            assert(lines.deep_view() + spec_lines(text@.skip(0)) =~= spec_lines(text@));
        }
        while i < n
            invariant
                0 <= start <= i <= n,
                n == text@.len(),
                forall|j: int| start <= j < i ==> text@[j] != '\n',
                spec_lines(text@) == lines.deep_view() + spec_lines(text@.skip(start as int)),
            decreases n - i,
        {
            let ch: char = text.get_char(i);
            if ch == '\n' {
                let line: &str = text.substring_char(start, i);
                lines.push(String::from_str(line));
                proof {
                    lemma_lines_split_at(text@, start as int, i as int);
                    assert(lines.deep_view() =~~= lines.deep_view().drop_last().push(
                        text@.subrange(start as int, i as int),
                    ));
                    assert(spec_lines(text@) =~~= lines.deep_view() + spec_lines(
                        text@.skip(i as int + 1),
                    ));
                }
                start = i + 1;
            }
            i = i + 1;
        }
        let last: &str = text.substring_char(start, n);
        lines.push(String::from_str(last));
        proof {
            lemma_lines_split_at(text@, start as int, n as int);
            assert(lines.deep_view() =~~= lines.deep_view().drop_last().push(
                text@.subrange(start as int, n as int),
            ));
            assert(spec_lines(text@) =~~= lines.deep_view());
        }

        // Compute the widest line.
        let mut max_w: usize = 0;
        let mut k: usize = 0;
        proof {
            assert(lines.deep_view().take(0) =~= Seq::<Seq<char>>::empty());
        }
        while k < lines.len()
            invariant
                k <= lines@.len(),
                lines.deep_view() == spec_lines(text@),
                lines.deep_view().len() == lines@.len(),
                max_w == spec_max_width(lines.deep_view().take(k as int)),
            decreases lines@.len() - k,
        {
            let w: usize = lines[k].as_str().unicode_len();
            proof {
                assert(lines.deep_view().take(k as int + 1).drop_last() =~= lines.deep_view().take(
                    k as int,
                ));
                assert(lines.deep_view().take(k as int + 1).last() == lines.deep_view()[k as int]);
            }
            if w > max_w {
                max_w = w;
            }
            k = k + 1;
        }
        proof {
            assert(lines.deep_view().take(lines@.len() as int) =~= lines.deep_view());
        }

        let count: usize = lines.len();
        self.lines = lines;
        self.text_size = (count, max_w);
        self.dirty = true;
    }

    /// The current text.
    pub fn text(&self) -> (t: &str)
        ensures
            t@ == self@.text,
    {
        self.text.as_str()
    }
}

impl EventHandler for TextPanel {
    open spec fn spec_handle(v: TextPanelView, event: Event) -> TextPanelView {
        spec_text_handle(v, event)
    }

    open spec fn spec_handled(v: TextPanelView, event: Event) -> bool {
        spec_text_handled(event)
    }

    fn handle(&mut self, event: &Event) -> (r: bool) {
        match event {
            Event::EncoderChange(_encoder, direction, _shift) => {
                let v_scroll: usize = self.scroll_pos.0;
                let text_height: usize = self.text_size.0;
                let height: usize = self.control_size.0;
                if text_height > height {
                    match direction {
                        Direction::Up => {
                            if v_scroll < text_height - height {
                                self.scroll_pos.0 = self.scroll_pos.0 + 1;
                                self.dirty = true;
                            }
                        },
                        Direction::Down => {
                            if v_scroll > 0 {
                                self.scroll_pos.0 = self.scroll_pos.0 - 1;
                                self.dirty = true;
                            }
                        },
                    }
                }
                true
            },
            _ => false,
        }
    }
}

impl Control for TextPanel {
    open spec fn spec_set_size(v: TextPanelView, height: nat, width: nat) -> TextPanelView {
        TextPanelView { control_size: (height, width), dirty: true, ..v }
    }

    open spec fn spec_repaint(v: TextPanelView) -> TextPanelView {
        TextPanelView { dirty: true, ..v }
    }

    open spec fn spec_paint(v: TextPanelView, c: CanvasView, row: int, col: int) -> (
        TextPanelView,
        CanvasView,
    ) {
        (TextPanelView { dirty: false, ..v }, spec_text_paint(v, c, row, col))
    }

    fn set_size(&mut self, height: usize, width: usize) {
        self.control_size = (height, width);
        self.dirty = true;
    }

    fn set_repaint(&mut self) {
        self.dirty = true;
    }

    fn paint(&mut self, canvas: &mut MonochromeCanvas, row: usize, col: usize) {
        if !self.dirty {
            return ;
        }
        let height: usize = if self.control_size.0 < self.text_size.0 {
            self.control_size.0
        } else {
            self.text_size.0
        };
        let v_scroll: usize = self.scroll_pos.0;

        // Clear the control's background.
        let end_row: usize = if self.control_size.0 > usize::MAX - row {
            usize::MAX
        } else {
            row + self.control_size.0
        };
        canvas.fill_rows(row, end_row, Pixel::Off);
        proof {
            let c0 = old(canvas)@;
            assert(spec_fill_rows(c0, row as int, end_row as int, Pixel::Off) == spec_fill_rows(
                c0,
                row as int,
                row + old(self)@.control_size.0,
                Pixel::Off,
            )) by {
                if end_row != row + old(self)@.control_size.0 {
                    assert(c0.rows() <= usize::MAX);
                }
            }
        }

        // Draw the visible window of lines.
        let rows_vis: usize = canvas.height() / 8;
        let stop: usize = if height > usize::MAX - v_scroll {
            usize::MAX
        } else {
            v_scroll + height
        };
        let ghost c1 = canvas@;
        let ghost stop_spec = v_scroll + height;
        let mut idx: usize = v_scroll;
        while idx < stop && idx < self.lines.len() && row < rows_vis && idx - v_scroll < rows_vis
            - row
            invariant
                v_scroll <= idx,
                canvas@.wf(),
                canvas@.width == c1.width,
                canvas@.height == c1.height,
                canvas@.dirty,
                c1.dirty,
                c1.wf(),
                rows_vis == canvas@.rows(),
                stop == if stop_spec > usize::MAX {
                    usize::MAX as int
                } else {
                    stop_spec
                },
                self.lines.deep_view().len() == self.lines@.len(),
                spec_text_paint_rows(
                    c1,
                    self.lines.deep_view(),
                    v_scroll as int,
                    stop_spec,
                    v_scroll as int,
                    row as int,
                    col as int,
                ) == spec_text_paint_rows(
                    canvas@,
                    self.lines.deep_view(),
                    idx as int,
                    stop_spec,
                    v_scroll as int,
                    row as int,
                    col as int,
                ),
            decreases stop - idx,
        {
            let current_row: usize = row + (idx - v_scroll);
            canvas.fill_row(current_row, Pixel::Off);
            let ghost mid = canvas@;
            canvas.print(self.lines[idx].as_str(), current_row, col, Pixel::On);
            proof {
                crate::canvas::lemma_print_props(
                    mid,
                    self.lines.deep_view()[idx as int],
                    current_row as int,
                    col as int,
                    Pixel::On,
                );
                assert(self.lines@[idx as int]@ == self.lines.deep_view()[idx as int]);
            }
            idx = idx + 1;
        }
        let lines_len: usize = self.lines.len();
        proof {
            assert(self.lines@.len() == lines_len);
            if idx < stop_spec && idx < self.lines.deep_view().len() {
                // The loop stopped at the bottom edge; everything further is
                // out of range.
                assert(idx < self.lines@.len());
                assert(idx < stop);
                if row >= rows_vis {
                    assert(row as int + idx as int - v_scroll as int >= rows_vis as int);
                } else {
                    assert(idx - v_scroll >= rows_vis - row);
                    assert(row as int + idx as int - v_scroll as int >= rows_vis as int);
                }
                lemma_text_paint_rows_noop(
                    canvas@,
                    self.lines.deep_view(),
                    idx as int,
                    stop_spec,
                    v_scroll as int,
                    row as int,
                    col as int,
                );
            }
        }
        self.dirty = false;
    }
}

} // verus!
