use vstd::prelude::*;

use std::collections::VecDeque;

use crate::error::Error;

verus! {

/// A semantic button on the control surface.
#[derive(Clone, Copy, Debug, PartialEq, Eq, Structural)]
pub enum Button {
    Erase,
    Rec,
    Play,
    Grid,
    TransportRight,
    TransportLeft,
    Restart,
    MainEncoder,
    NoteRepeat,
    Sampling,
    Browse,
    Group,
    Main,
    BrowseRight,
    BrowseLeft,
    Nav,
    Control,
    F3,
    F2,
    F1,
    Mute,
    Solo,
    Select,
    Duplicate,
    View,
    PadMode,
    Pattern,
    Scene,
    Unknown,
}

/// Direction of an encoder step.
#[derive(Clone, Copy, Debug, PartialEq, Eq, Structural)]
pub enum Direction {
    Up,
    Down,
}

/// A decoded, edge-triggered input event.
///
/// Events are produced only by the report decoder and are never mutated after
/// creation.
#[derive(Clone, Copy, Debug, PartialEq, Eq, Structural)]
pub enum Event {
    /// Button change (button, pressed, shift held).
    ButtonChange(Button, bool, bool),
    /// Encoder change (encoder number, direction, shift held).
    EncoderChange(u8, Direction, bool),
    /// Pad change (pad number, velocity, shift held).
    PadChange(u8, u8, bool),
}

/// Ordered queue of the events produced during one tick, drained by the
/// caller in decode order.
pub struct EventContext {
    pub events: VecDeque<Event>,
}

impl View for EventContext {
    type V = Seq<Event>;

    open spec fn view(&self) -> Seq<Event> {
        self.events@
    }
}

impl EventContext {
    /// An empty event queue.
    pub fn new() -> (ctx: EventContext)
        ensures
            ctx@ == Seq::<Event>::empty(),
    {
        EventContext { events: VecDeque::new() }
    }

    /// Append an event at the back of the queue.
    pub fn add_event(&mut self, event: Event)
        ensures
            final(self)@ == old(self)@.push(event),
    {
        self.events.push_back(event);
    }
}

/// A producer of events: one call performs any pending device work and
/// appends the events it decoded to the context.
pub trait EventTask {
    /// The state the task needs before a tick; every tick preserves it.
    spec fn task_wf(&self) -> bool;

    fn tick(&mut self, context: &mut EventContext) -> (r: Result<(), Error>)
        requires
            old(self).task_wf(),
        ensures
            final(self).task_wf(),
    ;
}

/// A consumer of events; the result says whether the event was handled.
/// Every handler carries a mathematical model of what one event does to its
/// state and of which events it reports as consumed, and `handle` is bound
/// to that model exactly.
pub trait EventHandler: View {
    /// Model of `handle` on the handler's state.
    spec fn spec_handle(v: Self::V, event: Event) -> Self::V;

    /// Whether `handle` reports the event as consumed.
    spec fn spec_handled(v: Self::V, event: Event) -> bool;

    fn handle(&mut self, event: &Event) -> (r: bool)
        ensures
            final(self)@ == Self::spec_handle(old(self)@, *event),
            r == Self::spec_handled(old(self)@, *event),
    ;
}

} // verus!
