use vstd::prelude::*;

use crate::colour::Colour;
use crate::events::{Button, EventTask};
use crate::leds::{spec_set_button_led, spec_set_pad_led, LedBankView};

verus! {

/// Common controller behaviours: LED output on top of the event-producing
/// tick. The controller maintains a desired-state LED table, and every
/// request lands in it exactly as the hardware mapping dictates.
pub trait Controller: EventTask {
    /// The desired-state LED table the controller maintains.
    spec fn led_table(&self) -> LedBankView;

    /// Set the state of a button's LED; a button with no hardware mapping is
    /// a silent no-op.
    fn set_button_led(&mut self, button: Button, colour: Colour)
        requires
            old(self).task_wf(),
        ensures
            final(self).task_wf(),
            final(self).led_table() == spec_set_button_led(
                old(self).led_table(),
                button,
                colour,
            ),
    ;

    /// Set the colour of a pad's LED; a pad with no hardware mapping is a
    /// silent no-op.
    fn set_pad_led(&mut self, pad: u8, colour: Colour)
        requires
            old(self).task_wf(),
        ensures
            final(self).task_wf(),
            final(self).led_table() == spec_set_pad_led(old(self).led_table(), pad, colour),
    ;
}

} // verus!
