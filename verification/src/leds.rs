use vstd::prelude::*;

use crate::colour::{spec_as_mono, Colour};
use crate::events::Button;

verus! {

// Hardware LED slot indices. Mono LEDs occupy one byte at their index; RGB
// LEDs occupy three consecutive bytes.
pub const LED_F1: u8 = 0x00;

pub const LED_F2: u8 = 0x01;

pub const LED_F3: u8 = 0x02;

pub const LED_CONTROL: u8 = 0x03;

pub const LED_NAV: u8 = 0x04;

pub const LED_BROWSE_LEFT: u8 = 0x05;

pub const LED_BROWSE_RIGHT: u8 = 0x06;

pub const LED_MAIN: u8 = 0x07;

pub const LED_GROUP: u8 = 0x08;

pub const LED_BROWSE: u8 = 0x0B;

pub const LED_SAMPLING: u8 = 0x0C;

pub const LED_NOTE_REPEAT: u8 = 0x0D;

pub const LED_RESTART: u8 = 0x0E;

pub const LED_TRANSPORT_LEFT: u8 = 0x0F;

pub const LED_TRANSPORT_RIGHT: u8 = 0x10;

pub const LED_GRID: u8 = 0x11;

pub const LED_PLAY: u8 = 0x12;

pub const LED_REC: u8 = 0x13;

pub const LED_ERASE: u8 = 0x14;

pub const LED_SHIFT: u8 = 0x15;

pub const LED_SCENE: u8 = 0x16;

pub const LED_PATTERN: u8 = 0x17;

pub const LED_PADMODE: u8 = 0x18;

pub const LED_VIEW: u8 = 0x19;

pub const LED_DUPLICATE: u8 = 0x1A;

pub const LED_SELECT: u8 = 0x1B;

pub const LED_SOLO: u8 = 0x1C;

pub const LED_MUTE: u8 = 0x1D;

pub const LED_PAD13: u8 = 0x1E;

pub const LED_PAD14: u8 = 0x21;

pub const LED_PAD15: u8 = 0x24;

pub const LED_PAD16: u8 = 0x27;

pub const LED_PAD09: u8 = 0x2A;

pub const LED_PAD10: u8 = 0x2D;

pub const LED_PAD11: u8 = 0x30;

pub const LED_PAD12: u8 = 0x33;

pub const LED_PAD05: u8 = 0x36;

pub const LED_PAD06: u8 = 0x39;

pub const LED_PAD07: u8 = 0x3C;

pub const LED_PAD08: u8 = 0x3F;

pub const LED_PAD01: u8 = 0x42;

pub const LED_PAD02: u8 = 0x45;

pub const LED_PAD03: u8 = 0x48;

pub const LED_PAD04: u8 = 0x4B;

/// Number of byte slots in the LED table.
pub const LED_TABLE_SIZE: usize = 78;

/// Whether an LED slot drives an RGB LED (three channel bytes) rather than a
/// mono LED (one byte): the group LED plus the contiguous pad LED range.
pub open spec fn spec_is_rgb_led(led: u8) -> bool {
    led == LED_GROUP || (LED_PAD13 <= led && led <= LED_PAD04)
}

/// Mathematical model of the LED table: the raw slot bytes and whether they
/// differ from what was last transmitted.
pub struct LedBankView {
    pub leds: Seq<u8>,
    pub dirty: bool,
}

impl LedBankView {
    /// The table has its fixed hardware size.
    pub open spec fn wf(self) -> bool {
        self.leds.len() == LED_TABLE_SIZE
    }
}

/// Model of `set`: RGB slots store the three channels at half intensity (a
/// hardware brightness calibration); mono slots store the single on/off
/// byte. The bank becomes dirty only when a stored byte actually changes.
pub open spec fn spec_set_led(b: LedBankView, led: u8, colour: Colour) -> LedBankView {
    if spec_is_rgb_led(led) {
        let r = colour.r / 2;
        let g = colour.g / 2;
        let bl = colour.b / 2;
        let changed = r != b.leds[led as int] || g != b.leds[led as int + 1] || bl != b.leds[
            led as int + 2
        ];
        LedBankView {
            leds: b.leds.update(led as int, r).update(led as int + 1, g).update(
                led as int + 2,
                bl,
            ),
            dirty: b.dirty || changed,
        }
    } else {
        let m = spec_as_mono(colour);
        let changed = m != b.leds[led as int];
        LedBankView { leds: b.leds.update(led as int, m), dirty: b.dirty || changed }
    }
}

/// Desired-state table for the hardware LEDs, with encode-on-write and a
/// dirty flag that tracks whether the table differs from what was last
/// transmitted.
pub struct LedBank {
    leds: Vec<u8>,
    dirty: bool,
}

impl View for LedBank {
    type V = LedBankView;

    closed spec fn view(&self) -> LedBankView {
        LedBankView { leds: self.leds@, dirty: self.dirty }
    }
}

impl LedBank {
    /// A bank with every slot off, marked dirty so the first flush
    /// transmits the initial state.
    pub fn new() -> (b: LedBank)
        ensures
            b@.wf(),
            b@.leds == Seq::new(LED_TABLE_SIZE as nat, |i: int| 0u8),
            b@.dirty,
    {
        let mut leds: Vec<u8> = Vec::new();
        let mut i: usize = 0;
        while i < LED_TABLE_SIZE
            invariant
                i <= LED_TABLE_SIZE,
                leds@ =~= Seq::new(i as nat, |j: int| 0u8),
            decreases LED_TABLE_SIZE - i,
        {
            leds.push(0);
            i = i + 1;
        }
        LedBank { leds, dirty: true }
    }

    /// Whether the table differs from what was last transmitted.
    pub fn is_dirty(&self) -> (d: bool)
        ensures
            d == self@.dirty,
    {
        self.dirty
    }

    /// Acknowledge a successful transmit of the table.
    pub fn clear_dirty_flag(&mut self)
        ensures
            final(self)@ == (LedBankView { dirty: false, ..old(self)@ }),
    {
        self.dirty = false;
    }

    /// The raw slot bytes, as they go on the wire after the report id.
    pub fn data(&self) -> (d: &[u8])
        ensures
            d@ == self@.leds,
    {
        self.leds.as_slice()
    }

    /// Whether an LED slot drives an RGB LED.
    pub fn is_rgb_led(&self, led: u8) -> (r: bool)
        ensures
            r == spec_is_rgb_led(led),
    {
        (led == LED_GROUP) || (LED_PAD13 <= led && led <= LED_PAD04)
    }

    /// Set the desired colour of an LED slot. The slot index must lie inside
    /// the table; RGB slots always leave two bytes of headroom.
    pub fn set(&mut self, led: u8, colour: Colour)
        requires
            old(self)@.wf(),
            (led as int) < LED_TABLE_SIZE,
        ensures
            final(self)@.wf(),
            final(self)@ == spec_set_led(old(self)@, led, colour),
    {
        let base: usize = led as usize;
        if self.is_rgb_led(led) {
            let (r, g, b) = colour.components();
            let r2: u8 = r / 2;
            let g2: u8 = g / 2;
            let b2: u8 = b / 2;
            let changed: bool = (r2 != self.leds[base]) || (g2 != self.leds[base + 1]) || (b2
                != self.leds[base + 2]);
            self.leds.set(base, r2);
            self.leds.set(base + 1, g2);
            self.leds.set(base + 2, b2);
            self.dirty = self.dirty || changed;
        } else {
            let m: u8 = colour.as_mono();
            let changed: bool = m != self.leds[base];
            self.leds.set(base, m);
            self.dirty = self.dirty || changed;
        }
    }
}

/// The LED slot driving a button's LED, where the button has one.
pub open spec fn spec_button_to_led(button: Button) -> Option<u8> {
    match button {
        Button::Erase => Some(LED_ERASE),
        Button::Rec => Some(LED_REC),
        Button::Play => Some(LED_PLAY),
        Button::Grid => Some(LED_GRID),
        Button::TransportRight => Some(LED_TRANSPORT_RIGHT),
        Button::TransportLeft => Some(LED_TRANSPORT_LEFT),
        Button::Restart => Some(LED_RESTART),
        Button::NoteRepeat => Some(LED_NOTE_REPEAT),
        Button::Sampling => Some(LED_SAMPLING),
        Button::Browse => Some(LED_BROWSE),
        Button::Group => Some(LED_GROUP),
        Button::Main => Some(LED_MAIN),
        Button::BrowseRight => Some(LED_BROWSE_RIGHT),
        Button::BrowseLeft => Some(LED_BROWSE_LEFT),
        Button::Nav => Some(LED_NAV),
        Button::Control => Some(LED_CONTROL),
        Button::F3 => Some(LED_F3),
        Button::F2 => Some(LED_F2),
        Button::F1 => Some(LED_F1),
        Button::Mute => Some(LED_MUTE),
        Button::Solo => Some(LED_SOLO),
        Button::Select => Some(LED_SELECT),
        Button::Duplicate => Some(LED_DUPLICATE),
        Button::View => Some(LED_VIEW),
        Button::PadMode => Some(LED_PADMODE),
        Button::Pattern => Some(LED_PATTERN),
        Button::Scene => Some(LED_SCENE),
        _ => None,
    }
}

/// The LED slot driving a pad's RGB LED, where the pad index is in range.
/// The pads are wired bottom row first, so pad 0 maps to the 13th pad LED.
pub open spec fn spec_pad_to_led(pad: u8) -> Option<u8> {
    if pad == 0x0 {
        Some(LED_PAD13)
    } else if pad == 0x1 {
        Some(LED_PAD14)
    } else if pad == 0x2 {
        Some(LED_PAD15)
    } else if pad == 0x3 {
        Some(LED_PAD16)
    } else if pad == 0x4 {
        Some(LED_PAD09)
    } else if pad == 0x5 {
        Some(LED_PAD10)
    } else if pad == 0x6 {
        Some(LED_PAD11)
    } else if pad == 0x7 {
        Some(LED_PAD12)
    } else if pad == 0x8 {
        Some(LED_PAD05)
    } else if pad == 0x9 {
        Some(LED_PAD06)
    } else if pad == 0xA {
        Some(LED_PAD07)
    } else if pad == 0xB {
        Some(LED_PAD08)
    } else if pad == 0xC {
        Some(LED_PAD01)
    } else if pad == 0xD {
        Some(LED_PAD02)
    } else if pad == 0xE {
        Some(LED_PAD03)
    } else if pad == 0xF {
        Some(LED_PAD04)
    } else {
        None
    }
}

/// The LED table after a button LED request: the mapped slot written, or
/// the table unchanged for a button with no LED.
pub open spec fn spec_set_button_led(b: LedBankView, button: Button, colour: Colour) -> LedBankView {
    match spec_button_to_led(button) {
        Some(led) => spec_set_led(b, led, colour),
        None => b,
    }
}

/// The LED table after a pad LED request: the mapped slot written, or the
/// table unchanged for a pad index past the grid.
pub open spec fn spec_set_pad_led(b: LedBankView, pad: u8, colour: Colour) -> LedBankView {
    match spec_pad_to_led(pad) {
        Some(led) => spec_set_led(b, led, colour),
        None => b,
    }
}

} // verus!
