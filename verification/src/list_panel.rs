use vstd::prelude::*;

use vstd::arithmetic::div_mod::{lemma_div_is_ordered, lemma_fundamental_div_mod_converse};
use vstd::string::StringExecFns;

use crate::canvas::{
    spec_fill_rows, spec_invert_row, spec_print, CanvasView, MonochromeCanvas, Pixel,
};
use crate::events::{Direction, Event, EventHandler};
use crate::surface::Control;

verus! {

/// Mathematical model of a list panel.
pub struct ListPanelView<T> {
    /// Whether the next paint must redraw.
    pub dirty: bool,
    /// The items: a caller's key and the label shown for it.
    pub items: Seq<(T, Seq<char>)>,
    /// Index of the selected item.
    pub current: nat,
    /// Index of the first visible item.
    pub offset: nat,
    /// Height (in row groups) and width of the control.
    pub control_size: (nat, nat),
}

/// The proportional scroll offset for a selection: when the list is taller
/// than the control, the visible window tracks the selection's relative
/// position; otherwise everything is visible from the top.
pub open spec fn spec_list_offset(count: int, height: int, idx: int) -> int {
    if count > height {
        ((count - height + 1) * idx) / count
    } else {
        0
    }
}

/// Model of `set_current`: an index into the list selects it and recomputes
/// the scroll offset; an empty list or an out-of-range index resets the
/// selection and scroll to the top. Either way the panel is marked dirty.
pub open spec fn spec_set_current<T>(v: ListPanelView<T>, idx: int) -> ListPanelView<T> {
    let count = v.items.len() as int;
    if count == 0 || idx >= count {
        ListPanelView { current: 0, offset: 0, dirty: true, ..v }
    } else {
        ListPanelView {
            current: idx as nat,
            offset: spec_list_offset(count, v.control_size.0 as int, idx) as nat,
            dirty: true,
            ..v
        }
    }
}

/// The selection one encoder step away: up moves towards the head and wraps
/// from the head to the tail; down moves towards the tail and wraps past the
/// tail to the head (through the out-of-range reset).
pub open spec fn spec_list_target<T>(v: ListPanelView<T>, d: Direction) -> int {
    match d {
        Direction::Up => {
            if v.current == 0 {
                if v.items.len() == 0 {
                    0
                } else {
                    v.items.len() - 1
                }
            } else {
                v.current as int - 1
            }
        },
        Direction::Down => {
            if v.current >= v.items.len() {
                v.items.len() as int
            } else {
                v.current as int + 1
            }
        },
    }
}

/// Model of `handle`: an encoder step moves the selection; every other
/// event leaves the panel alone. The event is never reported as consumed.
pub open spec fn spec_list_handle<T>(v: ListPanelView<T>, e: Event) -> ListPanelView<T> {
    match e {
        Event::EncoderChange(_, d, _) => spec_set_current(v, spec_list_target(v, d)),
        _ => v,
    }
}

/// The visible items painted top to bottom: each prints its label one
/// column in from the left edge, and the selected item's row is inverted.
pub open spec fn spec_list_paint_rows<T>(
    c: CanvasView,
    items: Seq<(T, Seq<char>)>,
    current: int,
    offset: int,
    p: int,
    stop: int,
    row: int,
    col: int,
) -> CanvasView
    decreases stop - p,
{
    if p < stop && 0 <= p && offset + p < items.len() {
        let c1 = spec_print(c, items[offset + p].1, row + p, col + 1, Pixel::On);
        let c2 = if offset + p == current {
            spec_invert_row(c1, row + p)
        } else {
            c1
        };
        spec_list_paint_rows(c2, items, current, offset, p + 1, stop, row, col)
    } else {
        c
    }
}

/// Model of `paint`: when dirty, the control's rows are cleared and the
/// window of items starting at the scroll offset is drawn; otherwise the
/// canvas is untouched.
pub open spec fn spec_list_paint<T>(
    v: ListPanelView<T>,
    c: CanvasView,
    row: int,
    col: int,
) -> CanvasView {
    if v.dirty {
        let c1 = spec_fill_rows(c, row, row + v.control_size.0, Pixel::Off);
        spec_list_paint_rows(
            c1,
            v.items,
            v.current as int,
            v.offset as int,
            0,
            v.control_size.0 as int,
            row,
            col,
        )
    } else {
        c
    }
}

/// Painting items whose rows all lie under the bottom edge of an
/// already-dirty canvas changes nothing.
proof fn lemma_list_paint_rows_noop<T>(
    c: CanvasView,
    items: Seq<(T, Seq<char>)>,
    current: int,
    offset: int,
    p: int,
    stop: int,
    row: int,
    col: int,
)
    requires
        c.wf(),
        c.dirty,
        0 <= p,
        row + p >= c.rows(),
    ensures
        spec_list_paint_rows(c, items, current, offset, p, stop, row, col) == c,
    decreases stop - p,
{
    if p < stop && offset + p < items.len() {
        crate::canvas::lemma_print_noop(c, items[offset + p].1, row + p, col + 1, Pixel::On);
        if offset + p == current {
            crate::canvas::lemma_row_out_of_bounds(c, row + p);
        }
        lemma_list_paint_rows_noop(c, items, current, offset, p + 1, stop, row, col);
    }
}

/// A scrollable selection list: owns keyed, labelled items, a selected
/// index, and a proportional scroll offset that tracks the selection.
pub struct ListPanel<T> {
    /// Whether the next paint must redraw.
    pub dirty: bool,
    /// The items: a caller's key and the label shown for it.
    pub list: Vec<(T, String)>,
    /// Index of the selected item.
    pub current: usize,
    /// Index of the first visible item.
    pub offset: usize,
    /// Height (in row groups) and width of the control.
    pub control_size: (usize, usize),
}

impl<T> View for ListPanel<T> {
    type V = ListPanelView<T>;

    open spec fn view(&self) -> ListPanelView<T> {
        ListPanelView {
            dirty: self.dirty,
            items: self.list@.map_values(|p: (T, String)| (p.0, p.1@)),
            current: self.current as nat,
            offset: self.offset as nat,
            control_size: (self.control_size.0 as nat, self.control_size.1 as nat),
        }
    }
}

impl<T> ListPanel<T> {
    /// An empty list with the selection at the top.
    pub fn new() -> (p: ListPanel<T>)
        ensures
            !p@.dirty,
            p@.items == Seq::<(T, Seq<char>)>::empty(),
            p@.current == 0,
            p@.offset == 0,
            p@.control_size == ((0nat, 0nat)),
    {
        let p = ListPanel {
            dirty: false,
            list: Vec::new(),
            current: 0,
            offset: 0,
            control_size: (0, 0),
        };
        proof {
            assert(p@.items =~= Seq::<(T, Seq<char>)>::empty());
        }
        p
    }

    /// Append one item at the end of the list.
    pub fn add_item(&mut self, key: T, text: &str)
        ensures
            final(self)@.items == old(self)@.items.push((key, text@)),
            final(self)@.dirty == old(self)@.dirty,
            final(self)@.current == old(self)@.current,
            final(self)@.offset == old(self)@.offset,
            final(self)@.control_size == old(self)@.control_size,
    {
        self.list.push((key, String::from_str(text)));
        proof {
            assert(final(self)@.items =~~= old(self)@.items.push((key, text@)));
        }
    }

    /// Select an item and recompute the proportional scroll offset; an
    /// empty list or an out-of-range index resets the selection and scroll
    /// to the top.
    pub fn set_current(&mut self, idx: usize)
        ensures
            final(self)@ == spec_set_current(old(self)@, idx as int),
    {
        let count: usize = self.list.len();
        if count == 0 || idx >= count {
            self.current = 0;
            self.offset = 0;
        } else {
            self.current = idx;
            let height: usize = self.control_size.0;
            if count > height {
                proof {
                    let a = count as int - height as int + 1;
                    let c = count as int;
                    let i = idx as int;
                    assert(a * i <= (c + 1) * (c - 1)) by (nonlinear_arith)
                        requires
                            0 <= a <= c + 1,
                            0 <= i <= c - 1,
                    ;
                    assert((c + 1) * (c - 1) == c * c - 1) by (nonlinear_arith);
                    assert(c * c <= 0xFFFFFFFFFFFFFFFFu128 * 0xFFFFFFFFFFFFFFFFu128) by (
                    nonlinear_arith)
                        requires
                            0 <= c <= 0xFFFFFFFFFFFFFFFFu128,
                    ;
                }
                let num: u128 = ((count as u128) - (height as u128) + 1) * (idx as u128);
                let off: u128 = num / (count as u128);
                proof {
                    let a = count as int - height as int + 1;
                    let c = count as int;
                    let i = idx as int;
                    assert(c * c - 1 == (c - 1) * c + (c - 1)) by (nonlinear_arith);
                    lemma_div_is_ordered(a * i, c * c - 1, c);
                    lemma_fundamental_div_mod_converse(c * c - 1, c, c - 1, c - 1);
                    assert((a * i) / c <= c - 1);
                }
                self.offset = off as usize;
            } else {
                self.offset = 0;
            }
        }
        self.dirty = true;
    }
}

impl<T> EventHandler for ListPanel<T> {
    open spec fn spec_handle(v: ListPanelView<T>, event: Event) -> ListPanelView<T> {
        spec_list_handle(v, event)
    }

    open spec fn spec_handled(v: ListPanelView<T>, event: Event) -> bool {
        false
    }

    fn handle(&mut self, event: &Event) -> (r: bool) {
        match event {
            Event::EncoderChange(_, direction, _shift) => {
                match direction {
                    Direction::Up => {
                        let target: usize = if self.current == 0 {
                            let len: usize = self.list.len();
                            if len == 0 {
                                0
                            } else {
                                len - 1
                            }
                        } else {
                            self.current - 1
                        };
                        self.set_current(target);
                    },
                    Direction::Down => {
                        let target: usize = if self.current >= self.list.len() {
                            self.list.len()
                        } else {
                            self.current + 1
                        };
                        self.set_current(target);
                    },
                }
            },
            _ => (),
        }
        false
    }
}

impl<T> Control for ListPanel<T> {
    open spec fn spec_set_size(v: ListPanelView<T>, height: nat, width: nat) -> ListPanelView<T> {
        ListPanelView { control_size: (height, width), ..v }
    }

    open spec fn spec_repaint(v: ListPanelView<T>) -> ListPanelView<T> {
        ListPanelView { dirty: true, ..v }
    }

    open spec fn spec_paint(v: ListPanelView<T>, c: CanvasView, row: int, col: int) -> (
        ListPanelView<T>,
        CanvasView,
    ) {
        (ListPanelView { dirty: false, ..v }, spec_list_paint(v, c, row, col))
    }

    fn set_size(&mut self, height: usize, width: usize) {
        self.control_size = (height, width);
    }

    fn set_repaint(&mut self) {
        self.dirty = true;
    }

    fn paint(&mut self, canvas: &mut MonochromeCanvas, row: usize, col: usize) {
        if !self.dirty {
            return ;
        }

        // Clear the control's background.
        let end_row: usize = if self.control_size.0 > usize::MAX - row {
            usize::MAX
        } else {
            row + self.control_size.0
        };
        canvas.fill_rows(row, end_row, Pixel::Off);
        proof {
            let c0 = old(canvas)@;
            assert(spec_fill_rows(c0, row as int, end_row as int, Pixel::Off) == spec_fill_rows(
                c0,
                row as int,
                row + old(self)@.control_size.0,
                Pixel::Off,
            )) by {
                if end_row != row + old(self)@.control_size.0 {
                    assert(c0.rows() <= usize::MAX);
                }
            }
        }

        // Draw the visible slice of items, inverting the selected row.
        let rows_vis: usize = canvas.height() / 8;
        let stop: usize = self.control_size.0;
        let offset: usize = self.offset;
        let ghost c1 = canvas@;
        let ghost items = self@.items;
        let mut p: usize = 0;
        while p < stop && offset < self.list.len() && self.list.len() - offset > p && row < rows_vis
            && p < rows_vis - row
            invariant
                0 <= p <= stop,
                offset == self.offset,
                stop == self.control_size.0,
                canvas@.wf(),
                canvas@.width == c1.width,
                canvas@.height == c1.height,
                canvas@.dirty,
                c1.dirty,
                c1.wf(),
                rows_vis == canvas@.rows(),
                items == self@.items,
                self@.items.len() == self.list@.len(),
                spec_list_paint_rows(
                    c1,
                    items,
                    self.current as int,
                    offset as int,
                    0,
                    stop as int,
                    row as int,
                    col as int,
                ) == spec_list_paint_rows(
                    canvas@,
                    items,
                    self.current as int,
                    offset as int,
                    p as int,
                    stop as int,
                    row as int,
                    col as int,
                ),
            decreases stop - p,
        {
            let current_row: usize = row + p;
            let col1: usize = if col < usize::MAX {
                col + 1
            } else {
                col
            };
            let ghost mid0 = canvas@;
            canvas.print(self.list[offset + p].1.as_str(), current_row, col1, Pixel::On);
            proof {
                assert(self.list@[offset as int + p as int].1@ == items[offset as int
                    + p as int].1);
                if col == usize::MAX {
                    let w = mid0.width as int;
                    let h = mid0.height as int;
                    assert(w * 8 <= w * h) by (nonlinear_arith)
                        requires
                            0 <= w,
                            8 <= h,
                    ;
                    crate::canvas::lemma_print_noop(
                        mid0,
                        items[offset as int + p as int].1,
                        current_row as int,
                        col as int,
                        Pixel::On,
                    );
                    crate::canvas::lemma_print_noop(
                        mid0,
                        items[offset as int + p as int].1,
                        current_row as int,
                        col as int + 1,
                        Pixel::On,
                    );
                }
                crate::canvas::lemma_print_props(
                    mid0,
                    items[offset as int + p as int].1,
                    current_row as int,
                    col as int + 1,
                    Pixel::On,
                );
            }
            if offset + p == self.current {
                canvas.invert_row(current_row);
            }
            p = p + 1;
        }
        let list_len: usize = self.list.len();
        proof {
            assert(self.list@.len() == list_len);
            if p < stop && offset as int + p < items.len() {
                assert(row as int + p >= canvas@.rows()) by {
                    if row < rows_vis {
                        assert(p >= rows_vis - row);
                    }
                }
                lemma_list_paint_rows_noop(
                    canvas@,
                    items,
                    self.current as int,
                    offset as int,
                    p as int,
                    stop as int,
                    row as int,
                    col as int,
                );
            }
        }
        self.dirty = false;
    }
}

} // verus!
