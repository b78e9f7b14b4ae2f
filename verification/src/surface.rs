use vstd::prelude::*;

use crate::canvas::{CanvasView, MonochromeCanvas};
use crate::events::{Event, EventHandler};
use crate::list_panel::ListPanel;
use crate::tab_panel::{TabPanel, Widget};
use crate::text_panel::TextPanel;

verus! {

/// A retained-mode widget: it owns its state, repaints only when marked
/// dirty, and paints strictly inside the canvas it is handed. Every widget
/// carries mathematical models of sizing, repaint requests and painting, and
/// the executable methods are bound to those models exactly.
pub trait Control: EventHandler {
    /// Model of `set_size` on the widget's state.
    spec fn spec_set_size(v: Self::V, height: nat, width: nat) -> Self::V;

    /// Model of `set_repaint` on the widget's state.
    spec fn spec_repaint(v: Self::V) -> Self::V;

    /// Model of `paint`: the widget after painting, and the canvas it
    /// painted into.
    spec fn spec_paint(v: Self::V, c: CanvasView, row: int, col: int) -> (Self::V, CanvasView);

    /// Set the height (in 8-pixel row groups) and width of the control.
    fn set_size(&mut self, height: usize, width: usize)
        ensures
            final(self)@ == Self::spec_set_size(old(self)@, height as nat, width as nat),
    ;

    /// Tell the control it needs to repaint, e.g. when it becomes visible.
    fn set_repaint(&mut self)
        ensures
            final(self)@ == Self::spec_repaint(old(self)@),
    ;

    /// Paint the control to the canvas if necessary, with the given row
    /// group and column offsets, which must lie on the canvas. Painting
    /// never changes the canvas's dimensions.
    fn paint(&mut self, canvas: &mut MonochromeCanvas, row: usize, col: usize)
        requires
            old(canvas)@.wf(),
            row <= old(canvas)@.rows(),
            col <= old(canvas)@.width,
        ensures
            final(self)@ == Self::spec_paint(old(self)@, old(canvas)@, row as int, col as int).0,
            final(canvas)@ == Self::spec_paint(old(self)@, old(canvas)@, row as int, col as int).1,
            final(canvas)@.wf(),
            final(canvas)@.width == old(canvas)@.width,
            final(canvas)@.height == old(canvas)@.height,
    ;
}

/// The root of the widget tree: owns at most one child control sized to the
/// full display and delegates painting and events to it.
pub struct Surface<T: Control> {
    /// Height in 8-pixel row groups, and width in pixels.
    pub size: (usize, usize),
    /// The root control, once set.
    pub child: Option<T>,
}

impl<T: Control> Surface<T> {
    /// A surface for a display of the given pixel dimensions, with no child
    /// yet.
    pub fn new(height: usize, width: usize) -> (s: Surface<T>)
        ensures
            s.size == (((height / 8) as usize, width)),
            s.child is None,
    {
        Surface { size: (height / 8, width), child: None }
    }

    /// Paint the surface by delegating to the child, which starts at the
    /// canvas origin; with no child the canvas is untouched.
    pub fn paint(&mut self, canvas: &mut MonochromeCanvas)
        requires
            old(canvas)@.wf(),
        ensures
            final(canvas)@.wf(),
            final(canvas)@.width == old(canvas)@.width,
            final(canvas)@.height == old(canvas)@.height,
            final(self).size == old(self).size,
            old(self).child is None ==> final(self).child is None && final(canvas)@ == old(
                canvas,
            )@,
            old(self).child matches Some(ch) ==> {
                &&& final(self).child matches Some(c2)
                &&& c2@ == T::spec_paint(ch@, old(canvas)@, 0, 0).0
                &&& final(canvas)@ == T::spec_paint(ch@, old(canvas)@, 0, 0).1
            },
    {
        match &mut self.child {
            Some(child) => child.paint(canvas, 0, 0),
            None => (),
        }
    }

    /// Install the child control, replacing any previous one, and size it to
    /// the surface.
    pub fn set_child(&mut self, child: T)
        ensures
            final(self).size == old(self).size,
            final(self).child matches Some(c2) && c2@ == T::spec_set_size(
                child@,
                old(self).size.0 as nat,
                old(self).size.1 as nat,
            ),
    {
        self.child = Some(child);
        match &mut self.child {
            Some(c) => c.set_size(self.size.0, self.size.1),
            None => (),
        }
    }

    /// Hand an event to the child; the result is the child's own answer, or
    /// false when there is no child to forward to.
    pub fn handle(&mut self, event: &Event) -> (r: bool)
        ensures
            final(self).size == old(self).size,
            old(self).child is None ==> !r && final(self).child is None,
            old(self).child matches Some(ch) ==> {
                &&& r == T::spec_handled(ch@, *event)
                &&& final(self).child matches Some(c2)
                &&& c2@ == T::spec_handle(ch@, *event)
            },
    {
        match &mut self.child {
            Some(child) => child.handle(event),
            None => false,
        }
    }
}

/// Build the stock three-tab interface for a display of the given pixel
/// dimensions: two text pages and a selection list.
pub fn setup_ui(height: usize, width: usize) -> (s: Surface<TabPanel>)
    ensures
        s.child is Some,
        s.size == (((height / 8) as usize, width)),
{
    let mut surface: Surface<TabPanel> = Surface::new(height, width);

    let mut text_panel1 = TextPanel::new();
    text_panel1.set_text("This\nis some\ntext\n\nHello\nWorld\n\nThis is a new\nworld\nof\nstuff");

    let mut text_panel2 = TextPanel::new();
    text_panel2.set_text("The quick brown fox\njumps over the lazy\ndog.");

    let mut list_panel: ListPanel<u8> = ListPanel::new();
    list_panel.add_item(0, "Item A");
    list_panel.add_item(1, "Item B");
    list_panel.add_item(2, "Item C");
    list_panel.add_item(3, "Item D");
    list_panel.add_item(4, "Item E");
    list_panel.add_item(5, "Item F");
    list_panel.add_item(6, "Item G");
    list_panel.add_item(7, "Item H");
    list_panel.add_item(8, "Item I");
    list_panel.add_item(9, "Item J");

    let mut panel = TabPanel::new();
    panel.add_tab(0, "FIRST", Widget::Text(text_panel1));
    panel.add_tab(1, "SECOND", Widget::Text(text_panel2));
    panel.add_tab(2, "THIRD", Widget::List(list_panel));
    surface.set_child(panel);

    surface
}

} // verus!
