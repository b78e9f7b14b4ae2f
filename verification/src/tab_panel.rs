use vstd::prelude::*;

use vstd::string::StringExecFns;

use crate::canvas::{
    spec_fill_row, spec_invert_row_slice, spec_print, spec_set_pixel, CanvasView,
    MonochromeCanvas, Pixel,
};
use crate::events::{Button, Event, EventHandler};
use crate::list_panel::{spec_list_handle, spec_list_paint, ListPanel, ListPanelView};
use crate::surface::Control;
use crate::text_panel::{
    spec_text_handle, spec_text_handled, spec_text_paint, TextPanel, TextPanelView,
};

verus! {

/// Mathematical model of a widget a tab can host.
pub enum WidgetView {
    Text(TextPanelView),
    List(ListPanelView<u8>),
}

/// Mathematical model of one tab: its header label and its hosted widget.
pub struct TabItemView {
    pub name: Seq<char>,
    pub control: WidgetView,
}

/// Mathematical model of the tab panel.
pub struct TabPanelView {
    /// Whether the tab bar must be repainted.
    pub dirty: bool,
    /// The three tab slots.
    pub tabs: Seq<Option<TabItemView>>,
    /// Index of the visible tab.
    pub current: nat,
    /// Height (in row groups) and width of the panel.
    pub size: (nat, nat),
}

/// A concrete widget a tab can host: the closed set of panel kinds this
/// surface offers, dispatched without virtual calls.
pub enum Widget {
    Text(TextPanel),
    List(ListPanel<u8>),
}

impl View for Widget {
    type V = WidgetView;

    open spec fn view(&self) -> WidgetView {
        match self {
            Widget::Text(p) => WidgetView::Text(p@),
            Widget::List(p) => WidgetView::List(p@),
        }
    }
}

/// Model of `Widget::handle`: each widget kind consumes events its own way.
pub open spec fn spec_widget_handle(w: WidgetView, e: Event) -> WidgetView {
    match w {
        WidgetView::Text(v) => WidgetView::Text(spec_text_handle(v, e)),
        WidgetView::List(v) => WidgetView::List(spec_list_handle(v, e)),
    }
}

/// Whether `Widget::handle` reports the event as consumed.
pub open spec fn spec_widget_handled(w: WidgetView, e: Event) -> bool {
    match w {
        WidgetView::Text(_) => spec_text_handled(e),
        WidgetView::List(_) => false,
    }
}

/// Model of `Widget::set_size`.
pub open spec fn spec_widget_set_size(w: WidgetView, height: nat, width: nat) -> WidgetView {
    match w {
        WidgetView::Text(v) => WidgetView::Text(
            TextPanelView { control_size: (height, width), dirty: true, ..v },
        ),
        WidgetView::List(v) => WidgetView::List(
            ListPanelView { control_size: (height, width), ..v },
        ),
    }
}

/// Model of `Widget::set_repaint`.
pub open spec fn spec_widget_set_repaint(w: WidgetView) -> WidgetView {
    match w {
        WidgetView::Text(v) => WidgetView::Text(TextPanelView { dirty: true, ..v }),
        WidgetView::List(v) => WidgetView::List(ListPanelView { dirty: true, ..v }),
    }
}

/// Model of `Widget::paint`: the widget after painting and the canvas it
/// painted into.
pub open spec fn spec_widget_paint(w: WidgetView, c: CanvasView, row: int, col: int) -> (
    WidgetView,
    CanvasView,
) {
    match w {
        WidgetView::Text(v) => (
            WidgetView::Text(TextPanelView { dirty: false, ..v }),
            spec_text_paint(v, c, row, col),
        ),
        WidgetView::List(v) => (
            WidgetView::List(ListPanelView { dirty: false, ..v }),
            spec_list_paint(v, c, row, col),
        ),
    }
}

impl EventHandler for Widget {
    open spec fn spec_handle(v: WidgetView, event: Event) -> WidgetView {
        spec_widget_handle(v, event)
    }

    open spec fn spec_handled(v: WidgetView, event: Event) -> bool {
        spec_widget_handled(v, event)
    }

    fn handle(&mut self, event: &Event) -> (r: bool) {
        match self {
            Widget::Text(p) => p.handle(event),
            Widget::List(p) => p.handle(event),
        }
    }
}

impl Control for Widget {
    open spec fn spec_set_size(v: WidgetView, height: nat, width: nat) -> WidgetView {
        spec_widget_set_size(v, height, width)
    }

    open spec fn spec_repaint(v: WidgetView) -> WidgetView {
        spec_widget_set_repaint(v)
    }

    open spec fn spec_paint(v: WidgetView, c: CanvasView, row: int, col: int) -> (
        WidgetView,
        CanvasView,
    ) {
        spec_widget_paint(v, c, row, col)
    }

    fn set_size(&mut self, height: usize, width: usize) {
        match self {
            Widget::Text(p) => p.set_size(height, width),
            Widget::List(p) => p.set_size(height, width),
        }
    }

    fn set_repaint(&mut self) {
        match self {
            Widget::Text(p) => p.set_repaint(),
            Widget::List(p) => p.set_repaint(),
        }
    }

    fn paint(&mut self, canvas: &mut MonochromeCanvas, row: usize, col: usize) {
        match self {
            Widget::Text(p) => p.paint(canvas, row, col),
            Widget::List(p) => p.paint(canvas, row, col),
        }
    }
}

/// The tab underline painted under an unselected header: single pixels along
/// the top pixel row, spanning columns `[col + idx, col + 41)` of the glyph
/// row.
pub open spec fn spec_tab_underline(c: CanvasView, col: int, idx: int) -> CanvasView
    decreases 41 - idx,
{
    if 1 <= idx < 41 {
        spec_tab_underline(spec_set_pixel(c, col + idx, 0, Pixel::On), col, idx + 1)
    } else {
        c
    }
}

/// Model of one tab header: vertical borders either side of the label, the
/// label itself, and either an inverted header (the selected tab) or an
/// underline (the others).
pub open spec fn spec_tab_item_paint(
    name: Seq<char>,
    c: CanvasView,
    row: int,
    col: int,
    current: bool,
) -> CanvasView {
    let c1 = spec_set_pixel(c, col, 1, Pixel::On);
    let c2 = spec_set_pixel(c1, col, 2, Pixel::On);
    let c3 = spec_set_pixel(c2, col, 3, Pixel::On);
    let c4 = spec_set_pixel(c3, col, 4, Pixel::On);
    let c5 = spec_set_pixel(c4, col, 5, Pixel::On);
    let c6 = spec_set_pixel(c5, col, 6, Pixel::On);
    let c7 = spec_set_pixel(c6, col, 7, Pixel::On);
    let c8 = spec_set_pixel(c7, col + 41, 1, Pixel::On);
    let c9 = spec_set_pixel(c8, col + 41, 2, Pixel::On);
    let c10 = spec_set_pixel(c9, col + 41, 3, Pixel::On);
    let c11 = spec_set_pixel(c10, col + 41, 4, Pixel::On);
    let c12 = spec_set_pixel(c11, col + 41, 5, Pixel::On);
    let c13 = spec_set_pixel(c12, col + 41, 6, Pixel::On);
    let c14 = spec_set_pixel(c13, col + 41, 7, Pixel::On);
    let c15 = spec_print(c14, name, row, col + 2, Pixel::On);
    if current {
        spec_invert_row_slice(c15, row, col + 1, col + 41)
    } else {
        spec_tab_underline(c15, col, 1)
    }
}

/// An underline entirely off the canvas changes nothing.
proof fn lemma_tab_underline_noop(c: CanvasView, col: int, idx: int)
    requires
        col >= c.width || c.height == 0,
        idx >= 0,
    ensures
        spec_tab_underline(c, col, idx) == c,
    decreases 41 - idx,
{
    if 1 <= idx < 41 {
        assert(spec_set_pixel(c, col + idx, 0, Pixel::On) == c);
        lemma_tab_underline_noop(c, col, idx + 1);
    }
}

/// A tab header entirely off the canvas changes nothing.
proof fn lemma_tab_item_paint_noop(name: Seq<char>, c: CanvasView, row: int, col: int, current: bool)
    requires
        c.wf(),
        0 <= row,
        col >= c.width || c.height == 0,
    ensures
        spec_tab_item_paint(name, c, row, col, current) == c,
{
    if c.height == 0 {
        assert(c.rows() == 0);
    }
    crate::canvas::lemma_print_noop(c, name, row, col + 2, Pixel::On);
    lemma_tab_underline_noop(c, col, 1);
}

/// One tab: a header label and the widget shown while it is selected.
pub struct Tab {
    /// The header label.
    pub name: String,
    /// The hosted widget.
    pub control: Widget,
}

impl View for Tab {
    type V = TabItemView;

    open spec fn view(&self) -> TabItemView {
        TabItemView { name: self.name@, control: self.control@ }
    }
}

impl Tab {
    /// Paint this tab's header at a column offset: borders, label, and
    /// either the selection inversion or the underline.
    #[verifier::rlimit(50)]
    fn paint(&self, canvas: &mut MonochromeCanvas, row: usize, col: usize, current: bool)
        requires
            old(canvas)@.wf(),
        ensures
            final(canvas)@.wf(),
            final(canvas)@ == spec_tab_item_paint(
                self@.name,
                old(canvas)@,
                row as int,
                col as int,
                current,
            ),
            final(canvas)@.width == old(canvas)@.width,
            final(canvas)@.height == old(canvas)@.height,
            old(canvas)@.dirty ==> final(canvas)@.dirty,
    {
        if col > usize::MAX - 42 {
            proof {
                let c = old(canvas)@;
                if c.height != 0 {
                    let w = c.width as int;
                    let h = c.height as int;
                    assert(w * 8 <= w * h) by (nonlinear_arith)
                        requires
                            0 <= w,
                            8 <= h,
                    ;
                    assert(col >= c.width);
                }
                lemma_tab_item_paint_noop(
                    self@.name,
                    old(canvas)@,
                    row as int,
                    col as int,
                    current,
                );
            }
            return ;
        }

        // Vertical borders either side of the header.
        canvas.set_pixel(col, 1, Pixel::On);
        canvas.set_pixel(col, 2, Pixel::On);
        canvas.set_pixel(col, 3, Pixel::On);
        canvas.set_pixel(col, 4, Pixel::On);
        canvas.set_pixel(col, 5, Pixel::On);
        canvas.set_pixel(col, 6, Pixel::On);
        canvas.set_pixel(col, 7, Pixel::On);
        canvas.set_pixel(col + 41, 1, Pixel::On);
        canvas.set_pixel(col + 41, 2, Pixel::On);
        canvas.set_pixel(col + 41, 3, Pixel::On);
        canvas.set_pixel(col + 41, 4, Pixel::On);
        canvas.set_pixel(col + 41, 5, Pixel::On);
        canvas.set_pixel(col + 41, 6, Pixel::On);
        canvas.set_pixel(col + 41, 7, Pixel::On);

        canvas.print(self.name.as_str(), row, col + 2, Pixel::On);
        if current {
            canvas.invert_row_slice(row, col + 1, col + 41);
        } else {
            let ghost c15 = canvas@;
            let mut idx: usize = 1;
            while idx < 41
                invariant
                    1 <= idx <= 41,
                    canvas@.wf(),
                    canvas@.width == c15.width,
                    canvas@.height == c15.height,
                    c15.dirty ==> canvas@.dirty,
                    col <= usize::MAX - 42,
                    spec_tab_underline(c15, col as int, 1) == spec_tab_underline(
                        canvas@,
                        col as int,
                        idx as int,
                    ),
                decreases 41 - idx,
            {
                canvas.set_pixel(col + idx, 0, Pixel::On);
                idx = idx + 1;
            }
        }
    }
}

/// Model of selecting a tab: the selection moves, the bar is marked for
/// repaint, and the newly visible widget is told to repaint itself.
pub open spec fn spec_set_tab(t: TabPanelView, idx: int) -> TabPanelView {
    let tabs = if 0 <= idx < t.tabs.len() && t.tabs[idx] is Some {
        t.tabs.update(
            idx,
            Some(
                TabItemView {
                    control: spec_widget_set_repaint(t.tabs[idx]->Some_0.control),
                    ..t.tabs[idx]->Some_0
                },
            ),
        )
    } else {
        t.tabs
    };
    TabPanelView { current: idx as nat, dirty: true, tabs, ..t }
}

/// The tab a button press selects: the three function keys map to the three
/// slots, on the press edge only.
pub open spec fn spec_tab_target(e: Event) -> Option<int> {
    match e {
        Event::ButtonChange(b, pressed, _) => {
            if pressed {
                match b {
                    Button::F1 => Some(0),
                    Button::F2 => Some(1),
                    Button::F3 => Some(2),
                    _ => None,
                }
            } else {
                None
            }
        },
        _ => None,
    }
}

/// Model of `TabPanel::handle` on the panel state: a function-key press
/// switches tabs first, then the event is forwarded to the (possibly newly)
/// selected tab's widget.
pub open spec fn spec_tab_handle(t: TabPanelView, e: Event) -> TabPanelView {
    let t1 = match spec_tab_target(e) {
        Some(i) => if i < t.tabs.len() {
            spec_set_tab(t, i)
        } else {
            t
        },
        None => t,
    };
    if t1.current < t1.tabs.len() && t1.tabs[t1.current as int] is Some {
        let tab = t1.tabs[t1.current as int]->Some_0;
        TabPanelView {
            tabs: t1.tabs.update(
                t1.current as int,
                Some(TabItemView { control: spec_widget_handle(tab.control, e), ..tab }),
            ),
            ..t1
        }
    } else {
        t1
    }
}

/// Whether `TabPanel::handle` reports the event as consumed: the selected
/// widget's own answer, or false with no widget to forward to.
pub open spec fn spec_tab_handled(t: TabPanelView, e: Event) -> bool {
    let t1 = match spec_tab_target(e) {
        Some(i) => if i < t.tabs.len() {
            spec_set_tab(t, i)
        } else {
            t
        },
        None => t,
    };
    if t1.current < t1.tabs.len() && t1.tabs[t1.current as int] is Some {
        spec_widget_handled(t1.tabs[t1.current as int]->Some_0.control, e)
    } else {
        false
    }
}

/// Full screen container for up to three tabbed widgets, switched by the
/// function keys.
pub struct TabPanel {
    /// Whether the tab bar must be repainted.
    pub dirty: bool,
    /// The three tab slots.
    pub tabs: Vec<Option<Tab>>,
    /// Index of the visible tab.
    pub current: usize,
    /// Height (in row groups) and width of the panel.
    pub size: (usize, usize),
}

impl View for TabPanel {
    type V = TabPanelView;

    open spec fn view(&self) -> TabPanelView {
        TabPanelView {
            dirty: self.dirty,
            tabs: self.tabs.deep_view(),
            current: self.current as nat,
            size: (self.size.0 as nat, self.size.1 as nat),
        }
    }
}

impl DeepView for Tab {
    type V = TabItemView;

    open spec fn deep_view(&self) -> TabItemView {
        self@
    }
}

impl TabPanel {
    /// An empty panel: three vacant slots and the first selected.
    pub fn new() -> (p: TabPanel)
        ensures
            !p@.dirty,
            p@.tabs == seq![
                Option::<TabItemView>::None,
                Option::<TabItemView>::None,
                Option::<TabItemView>::None,
            ],
            p@.current == 0,
            p@.size == ((0nat, 0nat)),
    {
        let mut tabs: Vec<Option<Tab>> = Vec::new();
        tabs.push(None);
        tabs.push(None);
        tabs.push(None);
        let p = TabPanel { dirty: false, tabs, current: 0, size: (0, 0) };
        proof {
            assert(p@.tabs =~= seq![
                Option::<TabItemView>::None,
                Option::<TabItemView>::None,
                Option::<TabItemView>::None,
            ]);
        }
        p
    }

    /// Put a named widget in one of the three slots and mark the bar for
    /// repaint.
    pub fn add_tab(&mut self, idx: usize, name: &str, control: Widget)
        requires
            idx < old(self)@.tabs.len(),
        ensures
            final(self)@.tabs == old(self)@.tabs.update(
                idx as int,
                Some(TabItemView { name: name@, control: control@ }),
            ),
            final(self)@.dirty,
            final(self)@.current == old(self)@.current,
            final(self)@.size == old(self)@.size,
    {
        self.tabs.set(idx, Some(Tab { name: String::from_str(name), control }));
        self.dirty = true;
        proof {
            assert(final(self)@.tabs =~~= old(self)@.tabs.update(
                idx as int,
                Some(TabItemView { name: name@, control: control@ }),
            ));
        }
    }

    /// Switch to a tab: mark the bar dirty and force the newly visible
    /// widget to repaint.
    fn set_tab(&mut self, idx: usize)
        requires
            idx < old(self)@.tabs.len(),
        ensures
            final(self)@ == spec_set_tab(old(self)@, idx as int),
    {
        self.current = idx;
        self.dirty = true;

        match &mut self.tabs[idx] {
            Some(tab) => {
                tab.control.set_repaint();
            },
            None => (),
        }
        proof {
            assert(final(self)@.tabs =~~= spec_set_tab(old(self)@, idx as int).tabs);
        }
    }
}

impl EventHandler for TabPanel {
    open spec fn spec_handle(v: TabPanelView, event: Event) -> TabPanelView {
        spec_tab_handle(v, event)
    }

    open spec fn spec_handled(v: TabPanelView, event: Event) -> bool {
        spec_tab_handled(v, event)
    }

    fn handle(&mut self, event: &Event) -> (r: bool) {
        match event {
            Event::ButtonChange(button, pressed, _shift) => {
                match button {
                    Button::F1 => {
                        if *pressed && self.tabs.len() > 0 {
                            self.set_tab(0);
                        }
                    },
                    Button::F2 => {
                        if *pressed && self.tabs.len() > 1 {
                            self.set_tab(1);
                        }
                    },
                    Button::F3 => {
                        if *pressed && self.tabs.len() > 2 {
                            self.set_tab(2);
                        }
                    },
                    _ => (),
                }
            },
            _ => (),
        }

        // Pass the event on to the (possibly newly) selected tab.
        let mut handled: bool = false;
        if self.current < self.tabs.len() {
            let cur: usize = self.current;
            match &mut self.tabs[cur] {
                Some(tab) => {
                    handled = tab.control.handle(event);
                },
                None => (),
            }
            proof {
                assert(final(self)@.tabs =~~= spec_tab_handle(old(self)@, *event).tabs);
            }
        }
        handled
    }
}

/// The tab bar headers from slot `idx` on, each painted on its own
/// 43-column centre, with the selected one inverted.
pub open spec fn spec_tab_bar(
    tabs: Seq<Option<TabItemView>>,
    c: CanvasView,
    current: int,
    row: int,
    col: int,
    idx: int,
) -> CanvasView
    decreases tabs.len() - idx,
{
    if 0 <= idx < tabs.len() {
        let c1 = match tabs[idx] {
            Some(t) => spec_tab_item_paint(t.name, c, row, col + idx * 42 + idx, idx == current),
            None => c,
        };
        spec_tab_bar(tabs, c1, current, row, col, idx + 1)
    } else {
        c
    }
}

/// Model of `TabPanel::set_size`: the panel takes the size; every hosted
/// widget takes the width and the height less the tab bar's row.
pub open spec fn spec_tab_set_size(t: TabPanelView, height: nat, width: nat) -> TabPanelView {
    let child_h: nat = if height == 0 {
        0
    } else {
        (height - 1) as nat
    };
    TabPanelView {
        size: (height, width),
        tabs: Seq::new(
            t.tabs.len(),
            |i: int|
                match t.tabs[i] {
                    Some(tb) => Some(
                        TabItemView {
                            control: spec_widget_set_size(tb.control, child_h, width),
                            ..tb
                        },
                    ),
                    None => None,
                },
        ),
        ..t
    }
}

/// Model of `TabPanel::paint`: when the bar is dirty, the bar row is
/// cleared and every header repainted; then the selected tab's widget
/// paints below the bar whenever that row still lies on the canvas.
pub open spec fn spec_tab_panel_paint(t: TabPanelView, c: CanvasView, row: int, col: int) -> (
    TabPanelView,
    CanvasView,
) {
    let t1 = if t.dirty {
        TabPanelView { dirty: false, ..t }
    } else {
        t
    };
    let c1 = if t.dirty {
        spec_tab_bar(t.tabs, spec_fill_row(c, row, Pixel::Off), t.current as int, row, col, 0)
    } else {
        c
    };
    if t1.current < t1.tabs.len() && t1.tabs[t1.current as int] is Some && row < c.rows() {
        let tab = t1.tabs[t1.current as int]->Some_0;
        let painted = spec_widget_paint(tab.control, c1, row + 1, col);
        (
            TabPanelView {
                tabs: t1.tabs.update(
                    t1.current as int,
                    Some(TabItemView { control: painted.0, ..tab }),
                ),
                ..t1
            },
            painted.1,
        )
    } else {
        (t1, c1)
    }
}

/// Tab headers that all start at or past the right edge of the canvas — or
/// on a canvas with no rows at all — change nothing.
proof fn lemma_tab_bar_noop(
    tabs: Seq<Option<TabItemView>>,
    c: CanvasView,
    current: int,
    row: int,
    col: int,
    idx: int,
)
    requires
        c.wf(),
        0 <= row,
        0 <= idx,
        col + idx * 42 + idx >= c.width || c.height == 0,
    ensures
        spec_tab_bar(tabs, c, current, row, col, idx) == c,
    decreases tabs.len() - idx,
{
    if 0 <= idx < tabs.len() {
        match tabs[idx] {
            Some(t) => {
                lemma_tab_item_paint_noop(t.name, c, row, col + idx * 42 + idx, idx == current);
            },
            None => (),
        }
        lemma_tab_bar_noop(tabs, c, current, row, col, idx + 1);
    }
}

/// Whether a widget is marked to repaint on its next paint.
pub open spec fn spec_widget_dirty(w: WidgetView) -> bool {
    match w {
        WidgetView::Text(v) => v.dirty,
        WidgetView::List(v) => v.dirty,
    }
}

/// Switching tabs happens on the press edge only: pressing the second
/// function key while the first tab is shown selects the second tab and
/// forces its widget to repaint, while releasing the same key changes
/// nothing about the selection.
pub proof fn lemma_tab_switch_on_press_edge(t: TabPanelView, shift: bool)
    requires
        t.current == 0,
        t.tabs.len() == 3,
        t.tabs[1] is Some,
    ensures
        spec_tab_handle(t, Event::ButtonChange(Button::F2, true, shift)).current == 1,
        spec_widget_dirty(
            spec_tab_handle(t, Event::ButtonChange(Button::F2, true, shift)).tabs[1]->Some_0.control,
        ),
        spec_tab_handle(t, Event::ButtonChange(Button::F2, false, shift)).current == 0,
{
    let press = Event::ButtonChange(Button::F2, true, shift);
    let t1 = spec_set_tab(t, 1);
    assert(spec_tab_handle(t, press).tabs[1] is Some);
    let after = spec_tab_handle(t, press).tabs[1]->Some_0.control;
    assert(after == spec_widget_handle(
        spec_widget_set_repaint(t.tabs[1]->Some_0.control),
        press,
    ));
    match t.tabs[1]->Some_0.control {
        WidgetView::Text(_) => {
            assert(spec_widget_dirty(after));
        },
        WidgetView::List(_) => {
            assert(spec_widget_dirty(after));
        },
    }
}

impl Control for TabPanel {
    open spec fn spec_set_size(v: TabPanelView, height: nat, width: nat) -> TabPanelView {
        spec_tab_set_size(v, height, width)
    }

    open spec fn spec_repaint(v: TabPanelView) -> TabPanelView {
        TabPanelView { dirty: true, ..v }
    }

    open spec fn spec_paint(v: TabPanelView, c: CanvasView, row: int, col: int) -> (
        TabPanelView,
        CanvasView,
    ) {
        spec_tab_panel_paint(v, c, row, col)
    }

    fn set_size(&mut self, height: usize, width: usize) {
        self.size = (height, width);
        let child_h: usize = if height == 0 {
            0
        } else {
            height - 1
        };
        let len: usize = self.tabs.len();
        let mut idx: usize = 0;
        while idx < len
            invariant
                idx <= len,
                len == self.tabs@.len(),
                old(self)@.tabs.len() == len,
                self.dirty == old(self).dirty,
                self.current == old(self).current,
                self.size == ((height, width)),
                child_h as nat == if height == 0 {
                    0nat
                } else {
                    (height - 1) as nat
                },
                self@.tabs.len() == len,
                forall|i: int|
                    0 <= i < idx ==> #[trigger] self@.tabs[i] == spec_tab_set_size(
                        old(self)@,
                        height as nat,
                        width as nat,
                    ).tabs[i],
                forall|i: int| idx <= i < len ==> #[trigger] self@.tabs[i] == old(self)@.tabs[i],
            decreases len - idx,
        {
            let ghost pre = self@.tabs;
            match &mut self.tabs[idx] {
                Some(tab) => {
                    tab.control.set_size(child_h, width);
                },
                None => (),
            }
            proof {
                assert(forall|i: int|
                    0 <= i < len && i != idx ==> #[trigger] self@.tabs[i] == pre[i]);
                assert(pre[idx as int] == old(self)@.tabs[idx as int]);
                assert(self@.tabs[idx as int] == self.tabs@[idx as int].deep_view());
                match old(self)@.tabs[idx as int] {
                    Some(tb) => {
                        assert(self.tabs@[idx as int] is Some);
                        assert(self.tabs@[idx as int]->Some_0.control@ == spec_widget_set_size(
                            tb.control,
                            child_h as nat,
                            width as nat,
                        ));
                        assert(self.tabs@[idx as int]->Some_0.name@ == tb.name);
                    },
                    None => {
                        assert(self.tabs@[idx as int] is None);
                    },
                }
                assert(self@.tabs[idx as int] == spec_tab_set_size(
                    old(self)@,
                    height as nat,
                    width as nat,
                ).tabs[idx as int]);
            }
            idx = idx + 1;
        }
        proof {
            assert(final(self)@.tabs =~~= spec_tab_set_size(
                old(self)@,
                height as nat,
                width as nat,
            ).tabs);
        }
    }

    fn set_repaint(&mut self) {
        self.dirty = true;
    }

    fn paint(&mut self, canvas: &mut MonochromeCanvas, row: usize, col: usize) {
        let rows_total: usize = canvas.height() / 8;

        // Repaint the tab bar if required.
        if self.dirty {
            canvas.fill_row(row, Pixel::Off);
            let ghost cbar = canvas@;
            if canvas.height() == 0 {
                proof {
                    lemma_tab_bar_noop(self@.tabs, cbar, self.current as int, row as int, col as int, 0);
                }
            } else {
                proof {
                    let w = canvas@.width as int;
                    let h = canvas@.height as int;
                    assert(w * 8 <= w * h) by (nonlinear_arith)
                        requires
                            0 <= w,
                            8 <= h,
                    ;
                }
                let width_val: usize = canvas.width();
                let len: usize = self.tabs.len();
                let mut idx: usize = 0;
                let mut cur_col: usize = col;
                while idx < len && cur_col <= width_val
                    invariant
                        idx <= len,
                        len == self.tabs@.len(),
                        self@.tabs.len() == len,
                        canvas@.wf(),
                        canvas@.width == cbar.width,
                        canvas@.height == cbar.height,
                        canvas@.height != 0,
                        cbar.wf(),
                        width_val == canvas@.width,
                        width_val * 8 <= usize::MAX,
                        cur_col == col + idx * 42 + idx,
                        spec_tab_bar(
                            self@.tabs,
                            cbar,
                            self.current as int,
                            row as int,
                            col as int,
                            0,
                        ) == spec_tab_bar(
                            self@.tabs,
                            canvas@,
                            self.current as int,
                            row as int,
                            col as int,
                            idx as int,
                        ),
                        self.dirty == old(self).dirty,
                        self.current == old(self).current,
                        self.size == old(self).size,
                        self@.tabs == old(self)@.tabs,
                    decreases len - idx,
                {
                    let is_current: bool = idx == self.current;
                    match &self.tabs[idx] {
                        Some(tab) => {
                            tab.paint(canvas, row, cur_col, is_current);
                        },
                        None => (),
                    }
                    cur_col = cur_col + 42 + 1;
                    idx = idx + 1;
                }
                proof {
                    if idx < len {
                        lemma_tab_bar_noop(
                            self@.tabs,
                            canvas@,
                            self.current as int,
                            row as int,
                            col as int,
                            idx as int,
                        );
                    }
                }
            }
            self.dirty = false;
        }

        // Render the selected tab's widget below the bar.
        if self.current < self.tabs.len() && row < rows_total {
            let cur: usize = self.current;
            match &mut self.tabs[cur] {
                Some(tab) => {
                    tab.control.paint(canvas, row + 1, col);
                },
                None => (),
            }
            proof {
                assert(final(self)@.tabs =~~= spec_tab_panel_paint(
                    old(self)@,
                    old(canvas)@,
                    row as int,
                    col as int,
                ).0.tabs);
            }
        }
    }
}

} // verus!
