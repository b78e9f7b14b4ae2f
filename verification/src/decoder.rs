use vstd::prelude::*;

use crate::colour::Colour;
use crate::error::Error;
use crate::events::{Button, Direction, Event, EventContext};
use crate::leds::{spec_set_led, LedBank, LedBankView, LED_SHIFT};

verus! {

// Button bit indices in the buttons report bitmask.
pub const BUTTON_SHIFT: u8 = 0x00;

pub const BUTTON_ERASE: u8 = 0x01;

pub const BUTTON_REC: u8 = 0x02;

pub const BUTTON_PLAY: u8 = 0x03;

pub const BUTTON_GRID: u8 = 0x04;

pub const BUTTON_TRANSPORT_RIGHT: u8 = 0x05;

pub const BUTTON_TRANSPORT_LEFT: u8 = 0x06;

pub const BUTTON_RESTART: u8 = 0x07;

pub const BUTTON_MAIN_ENCODER: u8 = 0x0B;

pub const BUTTON_NOTE_REPEAT: u8 = 0x0C;

pub const BUTTON_SAMPLING: u8 = 0x0D;

pub const BUTTON_BROWSE: u8 = 0x0E;

pub const BUTTON_GROUP: u8 = 0x0F;

pub const BUTTON_MAIN: u8 = 0x10;

pub const BUTTON_BROWSE_RIGHT: u8 = 0x11;

pub const BUTTON_BROWSE_LEFT: u8 = 0x12;

pub const BUTTON_NAV: u8 = 0x13;

pub const BUTTON_CONTROL: u8 = 0x14;

pub const BUTTON_F3: u8 = 0x15;

pub const BUTTON_F2: u8 = 0x16;

pub const BUTTON_F1: u8 = 0x17;

pub const BUTTON_MUTE: u8 = 0x18;

pub const BUTTON_SOLO: u8 = 0x19;

pub const BUTTON_SELECT: u8 = 0x1A;

pub const BUTTON_DUPLICATE: u8 = 0x1B;

pub const BUTTON_VIEW: u8 = 0x1C;

pub const BUTTON_PAD_MODE: u8 = 0x1D;

pub const BUTTON_PATTERN: u8 = 0x1E;

pub const BUTTON_SCENE: u8 = 0x1F;

/// Sentinel one past the last scanned button bit.
pub const BUTTON_NONE: u8 = 0x20;

/// Number of button latches, one per scanned bit.
pub const BUTTON_COUNT: usize = 32;

/// Number of velocity pads.
pub const PAD_COUNT: usize = 16;

/// Velocity threshold a raw 12-bit pad sample must exceed to count as
/// pressed.
pub const PAD_THRESHOLD: u16 = 512;

/// Expected payload length of a buttons report: four bitmask bytes plus the
/// encoder byte.
pub const BUTTONS_PAYLOAD_LEN: usize = 5;

/// Expected payload length of a pads report.
pub const PADS_PAYLOAD_LEN: usize = 64;

/// Mathematical model of the decoder's latched state.
pub struct DecoderView {
    /// Last seen level of each scanned button bit.
    pub buttons: Seq<bool>,
    /// Whether the shift button is held; mirrors `buttons[0]`.
    pub shift: bool,
    /// Last seen raw encoder value.
    pub encoder: u8,
    /// Last seen raw 12-bit sample of each pad.
    pub pad_values: Seq<u16>,
    /// Whether each pad is latched active.
    pub pad_active: Seq<bool>,
}

impl DecoderView {
    /// Well-formedness: fixed table sizes, and the shift flag latched in
    /// step with the shift button's own latch.
    pub open spec fn wf(self) -> bool {
        &&& self.buttons.len() == BUTTON_COUNT
        &&& self.pad_values.len() == PAD_COUNT
        &&& self.pad_active.len() == PAD_COUNT
        &&& self.shift == self.buttons[0]
    }
}

/// Bit `btn` of the button bitmask at the start of a buttons payload.
pub open spec fn spec_button_bit(payload: Seq<u8>, btn: int) -> bool {
    (payload[btn / 8] >> ((btn % 8) as u8)) & 1 != 0
}

/// The semantic button for a report bit index.
pub open spec fn spec_device_button(code: u8) -> Button {
    if code == BUTTON_ERASE {
        Button::Erase
    } else if code == BUTTON_REC {
        Button::Rec
    } else if code == BUTTON_PLAY {
        Button::Play
    } else if code == BUTTON_GRID {
        Button::Grid
    } else if code == BUTTON_TRANSPORT_RIGHT {
        Button::TransportRight
    } else if code == BUTTON_TRANSPORT_LEFT {
        Button::TransportLeft
    } else if code == BUTTON_RESTART {
        Button::Restart
    } else if code == BUTTON_MAIN_ENCODER {
        Button::MainEncoder
    } else if code == BUTTON_NOTE_REPEAT {
        Button::NoteRepeat
    } else if code == BUTTON_SAMPLING {
        Button::Sampling
    } else if code == BUTTON_BROWSE {
        Button::Browse
    } else if code == BUTTON_GROUP {
        Button::Group
    } else if code == BUTTON_MAIN {
        Button::Main
    } else if code == BUTTON_BROWSE_RIGHT {
        Button::BrowseRight
    } else if code == BUTTON_BROWSE_LEFT {
        Button::BrowseLeft
    } else if code == BUTTON_NAV {
        Button::Nav
    } else if code == BUTTON_CONTROL {
        Button::Control
    } else if code == BUTTON_F3 {
        Button::F3
    } else if code == BUTTON_F2 {
        Button::F2
    } else if code == BUTTON_F1 {
        Button::F1
    } else if code == BUTTON_MUTE {
        Button::Mute
    } else if code == BUTTON_SOLO {
        Button::Solo
    } else if code == BUTTON_SELECT {
        Button::Select
    } else if code == BUTTON_DUPLICATE {
        Button::Duplicate
    } else if code == BUTTON_VIEW {
        Button::View
    } else if code == BUTTON_PAD_MODE {
        Button::PadMode
    } else if code == BUTTON_PATTERN {
        Button::Pattern
    } else if code == BUTTON_SCENE {
        Button::Scene
    } else {
        Button::Unknown
    }
}

/// Direction derived from consecutive raw encoder values. The rule is
/// asymmetric at the wrap points: `15 -> 0` steps up and `0 -> 15` steps
/// down, overriding the plain comparison.
pub open spec fn spec_encoder_direction(old_value: u8, new_value: u8) -> Direction {
    if (old_value < new_value || (old_value == 0x0F && new_value == 0x00)) && !(old_value == 0x00
        && new_value == 0x0F) {
        Direction::Up
    } else {
        Direction::Down
    }
}

/// The encoder event a buttons report produces: one step event when the raw
/// value changed, nothing otherwise.
pub open spec fn spec_encoder_events(old_value: u8, new_value: u8, shift: bool) -> Seq<Event> {
    if old_value != new_value {
        seq![Event::EncoderChange(0, spec_encoder_direction(old_value, new_value), shift)]
    } else {
        Seq::<Event>::empty()
    }
}

/// The button events a buttons report produces for bits `[0, n)`: one
/// edge-triggered event per changed latch, in bit order, with the shift bit
/// itself consumed silently.
pub open spec fn spec_button_events(
    states: Seq<bool>,
    payload: Seq<u8>,
    shift: bool,
    n: int,
) -> Seq<Event>
    decreases n,
{
    if n <= 0 {
        Seq::<Event>::empty()
    } else {
        let done = spec_button_events(states, payload, shift, n - 1);
        let btn = n - 1;
        if btn != 0 && spec_button_bit(payload, btn) != states[btn] {
            done + seq![
                Event::ButtonChange(
                    spec_device_button(btn as u8),
                    spec_button_bit(payload, btn),
                    shift,
                ),
            ]
        } else {
            done
        }
    }
}

/// All events a buttons report produces: the button edges, then the encoder
/// step. Every event carries the report's own shift bit, since the shift
/// latch is updated before any other bit is scanned.
pub open spec fn spec_buttons_events(d: DecoderView, payload: Seq<u8>) -> Seq<Event> {
    let shift_after = spec_button_bit(payload, 0);
    spec_button_events(d.buttons, payload, shift_after, BUTTON_COUNT as int) + spec_encoder_events(
        d.encoder,
        payload[4],
        shift_after,
    )
}

/// The decoder state after a buttons report: every latch takes the
/// payload's level and the encoder latch takes the payload's raw value.
pub open spec fn spec_buttons_state(d: DecoderView, payload: Seq<u8>) -> DecoderView {
    DecoderView {
        buttons: Seq::new(BUTTON_COUNT as nat, |i: int| spec_button_bit(payload, i)),
        shift: spec_button_bit(payload, 0),
        encoder: payload[4],
        ..d
    }
}

/// The LED table after a buttons report: a shift edge immediately requests
/// the shift LED on or off; otherwise the table is untouched.
pub open spec fn spec_shift_led(b: LedBankView, d: DecoderView, payload: Seq<u8>) -> LedBankView {
    if spec_button_bit(payload, 0) != d.buttons[0] {
        spec_set_led(
            b,
            LED_SHIFT,
            if spec_button_bit(payload, 0) {
                Colour { r: 0xFF, g: 0xFF, b: 0xFF }
            } else {
                Colour { r: 0x00, g: 0x00, b: 0x00 }
            },
        )
    } else {
        b
    }
}

/// Pad index carried in sample `k` of a pads payload: the high nibble of the
/// sample's second byte.
pub open spec fn spec_pad_sample_pad(payload: Seq<u8>, k: int) -> int {
    ((payload[2 * k + 1] & 0xF0) >> 4) as int
}

/// Raw 12-bit value carried in sample `k` of a pads payload: the low nibble
/// of the second byte over the whole first byte.
pub open spec fn spec_pad_sample_value(payload: Seq<u8>, k: int) -> u16 {
    (((payload[2 * k + 1] & 0x0F) as u16) << 8) | (payload[2 * k] as u16)
}

/// Decoder state after one pad sample: the raw value is always recorded, and
/// the pad's latch always ends up at "value exceeds the threshold" (on a
/// non-transition the latch already holds that level).
pub open spec fn spec_pad_sample_state(d: DecoderView, pad: int, value: u16) -> DecoderView {
    let pressed = value > PAD_THRESHOLD;
    DecoderView {
        pad_values: d.pad_values.update(pad, value),
        pad_active: d.pad_active.update(pad, pressed),
        ..d
    }
}

/// Events of one pad sample: exactly one event on a latch transition —
/// the velocity on crossing the threshold upward, zero on dropping to or
/// under it while latched active — and none on a steady level.
pub open spec fn spec_pad_sample_events(d: DecoderView, pad: int, value: u16) -> Seq<Event> {
    let pressed = value > PAD_THRESHOLD;
    if pressed != d.pad_active[pad] {
        seq![
            Event::PadChange(
                pad as u8,
                if pressed {
                    (value >> 4) as u8
                } else {
                    0
                },
                d.shift,
            ),
        ]
    } else {
        Seq::<Event>::empty()
    }
}

/// Sequential scan of the samples `[k, 16)` of a pads payload: the decoder
/// state after them and the events they emit, in sample order. The scan
/// threads the state through, since several samples may address the same
/// pad.
pub open spec fn spec_pads_scan(d: DecoderView, payload: Seq<u8>, k: int) -> (DecoderView, Seq<
    Event,
>)
    decreases PAD_COUNT - k,
{
    if 0 <= k < PAD_COUNT {
        let pad = spec_pad_sample_pad(payload, k);
        let value = spec_pad_sample_value(payload, k);
        let r = spec_pads_scan(spec_pad_sample_state(d, pad, value), payload, k + 1);
        (r.0, spec_pad_sample_events(d, pad, value) + r.1)
    } else {
        (d, Seq::<Event>::empty())
    }
}

/// Turns raw, fixed-layout input report payloads into edge-triggered
/// semantic events, latching button, encoder and pad state between reports.
pub struct ReportDecoder {
    button_states: Vec<bool>,
    shift_pressed: bool,
    encoder_value: u8,
    pads_data: Vec<u16>,
    pads_status: Vec<bool>,
}

impl View for ReportDecoder {
    type V = DecoderView;

    closed spec fn view(&self) -> DecoderView {
        DecoderView {
            buttons: self.button_states@,
            shift: self.shift_pressed,
            encoder: self.encoder_value,
            pad_values: self.pads_data@,
            pad_active: self.pads_status@,
        }
    }
}

impl ReportDecoder {
    /// A decoder with every latch released and the encoder at zero.
    pub fn new() -> (d: ReportDecoder)
        ensures
            d@.wf(),
            d@.buttons == Seq::new(BUTTON_COUNT as nat, |i: int| false),
            !d@.shift,
            d@.encoder == 0,
            d@.pad_values == Seq::new(PAD_COUNT as nat, |i: int| 0u16),
            d@.pad_active == Seq::new(PAD_COUNT as nat, |i: int| false),
    {
        let mut button_states: Vec<bool> = Vec::new();
        let mut i: usize = 0;
        while i < BUTTON_COUNT
            invariant
                i <= BUTTON_COUNT,
                button_states@ =~= Seq::new(i as nat, |j: int| false),
            decreases BUTTON_COUNT - i,
        {
            button_states.push(false);
            i = i + 1;
        }
        let mut pads_data: Vec<u16> = Vec::new();
        let mut pads_status: Vec<bool> = Vec::new();
        let mut k: usize = 0;
        while k < PAD_COUNT
            invariant
                k <= PAD_COUNT,
                pads_data@ =~= Seq::new(k as nat, |j: int| 0u16),
                pads_status@ =~= Seq::new(k as nat, |j: int| false),
            decreases PAD_COUNT - k,
        {
            pads_data.push(0);
            pads_status.push(false);
            k = k + 1;
        }
        ReportDecoder {
            button_states,
            shift_pressed: false,
            encoder_value: 0,
            pads_data,
            pads_status,
        }
    }

    /// Process a buttons report payload: scan every button bit against its
    /// latch, consume a shift edge into the shift latch plus an immediate
    /// shift LED request, emit one `ButtonChange` per other edge, then emit
    /// one `EncoderChange` if the raw encoder value moved. A payload shorter
    /// than the fixed length is rejected whole.
    pub fn process_buttons(
        &mut self,
        buffer: &[u8],
        leds: &mut LedBank,
        context: &mut EventContext,
    ) -> (r: Result<(), Error>)
        requires
            old(self)@.wf(),
            old(leds)@.wf(),
        ensures
            final(self)@.wf(),
            final(leds)@.wf(),
            r is Ok <==> buffer@.len() >= BUTTONS_PAYLOAD_LEN,
            buffer@.len() >= BUTTONS_PAYLOAD_LEN ==> {
                &&& final(self)@ == spec_buttons_state(old(self)@, buffer@)
                &&& final(leds)@ == spec_shift_led(old(leds)@, old(self)@, buffer@)
                &&& final(context)@ == old(context)@ + spec_buttons_events(old(self)@, buffer@)
            },
            buffer@.len() < BUTTONS_PAYLOAD_LEN ==> {
                &&& r == Err::<(), Error>(Error::InvalidReport)
                &&& final(self)@ == old(self)@
                &&& final(leds)@ == old(leds)@
                &&& final(context)@ == old(context)@
            },
    {
        if buffer.len() < BUTTONS_PAYLOAD_LEN {
            return Err(Error::InvalidReport);
        }
        let ghost d0 = self@;
        let ghost l0 = leds@;
        let ghost shift_after = spec_button_bit(buffer@, 0);

        // Scan buttons; bit 0 is the shift button and is scanned first, so
        // every emitted event sees the report's own shift state.
        let mut btn: u8 = BUTTON_SHIFT;
        while btn < BUTTON_NONE
            invariant
                btn <= BUTTON_NONE,
                buffer@.len() >= BUTTONS_PAYLOAD_LEN,
                d0.wf(),
                l0.wf(),
                leds@.wf(),
                d0 == old(self)@,
                l0 == old(leds)@,
                shift_after == spec_button_bit(buffer@, 0),
                self@.pad_values == d0.pad_values,
                self@.pad_active == d0.pad_active,
                self@.encoder == d0.encoder,
                self@.buttons.len() == BUTTON_COUNT,
                forall|i: int|
                    0 <= i < btn ==> self@.buttons[i] == spec_button_bit(buffer@, i),
                forall|i: int| btn <= i < BUTTON_COUNT ==> self@.buttons[i] == d0.buttons[i],
                self@.shift == if btn == 0 {
                    d0.shift
                } else {
                    shift_after
                },
                leds@ == if btn == 0 {
                    l0
                } else {
                    spec_shift_led(l0, d0, buffer@)
                },
                context@ == old(context)@ + spec_button_events(
                    d0.buttons,
                    buffer@,
                    shift_after,
                    btn as int,
                ),
            decreases BUTTON_NONE - btn,
        {
            let pressed: bool = is_button_pressed(buffer, btn);
            let idx: usize = btn as usize;
            if pressed != self.button_states[idx] {
                self.button_states.set(idx, pressed);
                if btn == BUTTON_SHIFT {
                    self.shift_pressed = pressed;
                    leds.set(
                        LED_SHIFT,
                        if pressed {
                            Colour::white()
                        } else {
                            Colour::black()
                        },
                    );
                } else {
                    let button: Button = as_device_button(btn);
                    context.add_event(Event::ButtonChange(button, pressed, self.shift_pressed));
                }
            }
            proof {
                assert(context@ =~= old(context)@ + spec_button_events(
                    d0.buttons,
                    buffer@,
                    shift_after,
                    btn as int + 1,
                ));
            }
            btn = btn + 1;
        }

        // Handle encoder data.
        let encoder_value: u8 = buffer[4];
        let ghost pre_encoder = context@;
        if self.encoder_value != encoder_value {
            let direction: Direction = if (self.encoder_value < encoder_value || (
            self.encoder_value == 0x0F && encoder_value == 0x00)) && !(self.encoder_value == 0x00
                && encoder_value == 0x0F) {
                Direction::Up
            } else {
                Direction::Down
            };
            context.add_event(Event::EncoderChange(0, direction, self.shift_pressed));
            self.encoder_value = encoder_value;
        }
        proof {
            assert(final(self)@.buttons =~= spec_buttons_state(d0, buffer@).buttons);
            assert(final(context)@ =~= old(context)@ + spec_buttons_events(d0, buffer@));
        }
        Ok(())
    }

    /// Process a pads report payload of 16 packed two-byte samples. Each
    /// sample updates its pad's raw value; an event is emitted only on a
    /// latch transition, with asymmetric hysteresis: a pad turns active when
    /// its value exceeds the threshold, and turns inactive (emitting
    /// velocity 0) only when it was active and the value is at or under the
    /// threshold. A payload shorter than the fixed length is rejected whole.
    pub fn process_pads(&mut self, buffer: &[u8], context: &mut EventContext) -> (r: Result<
        (),
        Error,
    >)
        requires
            old(self)@.wf(),
        ensures
            final(self)@.wf(),
            r is Ok <==> buffer@.len() >= PADS_PAYLOAD_LEN,
            buffer@.len() >= PADS_PAYLOAD_LEN ==> {
                &&& final(self)@ == spec_pads_scan(old(self)@, buffer@, 0).0
                &&& final(context)@ == old(context)@ + spec_pads_scan(old(self)@, buffer@, 0).1
            },
            buffer@.len() < PADS_PAYLOAD_LEN ==> {
                &&& r == Err::<(), Error>(Error::InvalidReport)
                &&& final(self)@ == old(self)@
                &&& final(context)@ == old(context)@
            },
    {
        if buffer.len() < PADS_PAYLOAD_LEN {
            return Err(Error::InvalidReport);
        }
        let ghost d0 = self@;
        let mut k: usize = 0;
        while k < PAD_COUNT
            invariant
                k <= PAD_COUNT,
                buffer@.len() >= PADS_PAYLOAD_LEN,
                d0.wf(),
                d0 == old(self)@,
                self@.wf(),
                self@.buttons == d0.buttons,
                self@.shift == d0.shift,
                self@.encoder == d0.encoder,
                spec_pads_scan(d0, buffer@, 0).0 == spec_pads_scan(self@, buffer@, k as int).0,
                old(context)@ + spec_pads_scan(d0, buffer@, 0).1 == context@ + spec_pads_scan(
                    self@,
                    buffer@,
                    k as int,
                ).1,
            decreases PAD_COUNT - k,
        {
            let low_byte: u8 = buffer[2 * k];
            let high_byte: u8 = buffer[2 * k + 1];
            let pad: usize = ((high_byte & 0xF0) >> 4) as usize;
            let value: u16 = (((high_byte & 0x0F) as u16) << 8) | (low_byte as u16);
            let pressed: bool = value > PAD_THRESHOLD;
            proof {
                let hb = high_byte;
                assert(((hb & 0xF0) >> 4) < 16) by (bit_vector);
            }
            let ghost pre = self@;
            self.pads_data.set(pad, value);
            if pressed != self.pads_status[pad] {
                self.pads_status.set(pad, pressed);
                let velocity: u8 = if pressed {
                    (value >> 4) as u8
                } else {
                    0
                };
                context.add_event(Event::PadChange(pad as u8, velocity, self.shift_pressed));
            }
            proof {
                assert(self@.pad_active =~= spec_pad_sample_state(
                    pre,
                    pad as int,
                    value,
                ).pad_active);
                assert(self@ == spec_pad_sample_state(pre, pad as int, value));
                assert(old(context)@ + spec_pads_scan(d0, buffer@, 0).1 =~= context@
                    + spec_pads_scan(self@, buffer@, k as int + 1).1);
            }
            k = k + 1;
        }
        Ok(())
    }
}

/// Whether a button's bit is set in the bitmask at the start of a buttons
/// payload.
pub fn is_button_pressed(buffer: &[u8], button: u8) -> (pressed: bool)
    requires
        button < BUTTON_COUNT,
        buffer@.len() >= 4,
    ensures
        pressed == spec_button_bit(buffer@, button as int),
{
    let byte_idx: usize = (button / 8) as usize;
    let b: u8 = buffer[byte_idx];
    let s: u8 = button % 8;
    let pressed: bool = (b & (1u8 << s)) != 0;
    proof {
        assert(((b & (1u8 << s)) != 0) == (((b >> s) & 1) != 0)) by (bit_vector)
            requires
                s < 8,
        ;
    }
    pressed
}

/// The semantic button for a report bit index.
pub fn as_device_button(code: u8) -> (b: Button)
    ensures
        b == spec_device_button(code),
{
    if code == BUTTON_ERASE {
        Button::Erase
    } else if code == BUTTON_REC {
        Button::Rec
    } else if code == BUTTON_PLAY {
        Button::Play
    } else if code == BUTTON_GRID {
        Button::Grid
    } else if code == BUTTON_TRANSPORT_RIGHT {
        Button::TransportRight
    } else if code == BUTTON_TRANSPORT_LEFT {
        Button::TransportLeft
    } else if code == BUTTON_RESTART {
        Button::Restart
    } else if code == BUTTON_MAIN_ENCODER {
        Button::MainEncoder
    } else if code == BUTTON_NOTE_REPEAT {
        Button::NoteRepeat
    } else if code == BUTTON_SAMPLING {
        Button::Sampling
    } else if code == BUTTON_BROWSE {
        Button::Browse
    } else if code == BUTTON_GROUP {
        Button::Group
    } else if code == BUTTON_MAIN {
        Button::Main
    } else if code == BUTTON_BROWSE_RIGHT {
        Button::BrowseRight
    } else if code == BUTTON_BROWSE_LEFT {
        Button::BrowseLeft
    } else if code == BUTTON_NAV {
        Button::Nav
    } else if code == BUTTON_CONTROL {
        Button::Control
    } else if code == BUTTON_F3 {
        Button::F3
    } else if code == BUTTON_F2 {
        Button::F2
    } else if code == BUTTON_F1 {
        Button::F1
    } else if code == BUTTON_MUTE {
        Button::Mute
    } else if code == BUTTON_SOLO {
        Button::Solo
    } else if code == BUTTON_SELECT {
        Button::Select
    } else if code == BUTTON_DUPLICATE {
        Button::Duplicate
    } else if code == BUTTON_VIEW {
        Button::View
    } else if code == BUTTON_PAD_MODE {
        Button::PadMode
    } else if code == BUTTON_PATTERN {
        Button::Pattern
    } else if code == BUTTON_SCENE {
        Button::Scene
    } else {
        Button::Unknown
    }
}

/// The button events of a payload that differs from the latched state in one
/// bit `i` alone: exactly the one event for bit `i` once the scan passes it.
proof fn lemma_button_events_single(
    states: Seq<bool>,
    payload: Seq<u8>,
    shift: bool,
    i: int,
    n: int,
)
    requires
        states.len() == BUTTON_COUNT,
        1 <= i < BUTTON_COUNT,
        spec_button_bit(payload, i) != states[i],
        forall|j: int|
            0 <= j < BUTTON_COUNT && j != i ==> spec_button_bit(payload, j) == states[j],
        0 <= n <= BUTTON_COUNT,
    ensures
        spec_button_events(states, payload, shift, n) == if i < n {
            seq![
                Event::ButtonChange(
                    spec_device_button(i as u8),
                    spec_button_bit(payload, i),
                    shift,
                ),
            ]
        } else {
            Seq::<Event>::empty()
        },
    decreases n,
{
    if n > 0 {
        lemma_button_events_single(states, payload, shift, i, n - 1);
        if n - 1 == i {
            assert(Seq::<Event>::empty() + seq![
                Event::ButtonChange(
                    spec_device_button(i as u8),
                    spec_button_bit(payload, i),
                    shift,
                ),
            ] =~= seq![
                Event::ButtonChange(
                    spec_device_button(i as u8),
                    spec_button_bit(payload, i),
                    shift,
                ),
            ]);
        }
    }
}

/// The button events of a payload that matches the latched state everywhere:
/// none.
proof fn lemma_button_events_none(states: Seq<bool>, payload: Seq<u8>, shift: bool, n: int)
    requires
        states.len() == BUTTON_COUNT,
        forall|j: int| 0 <= j < BUTTON_COUNT ==> spec_button_bit(payload, j) == states[j],
        0 <= n <= BUTTON_COUNT,
    ensures
        spec_button_events(states, payload, shift, n) == Seq::<Event>::empty(),
    decreases n,
{
    if n > 0 {
        lemma_button_events_none(states, payload, shift, n - 1);
    }
}

/// A buttons payload with bit `i` newly set — every other bit and the raw
/// encoder value unchanged — emits exactly one event: that button's press,
/// carrying the current shift state.
pub proof fn lemma_button_press_emits_once(d: DecoderView, payload: Seq<u8>, i: int)
    requires
        d.wf(),
        1 <= i < BUTTON_COUNT,
        spec_button_bit(payload, i),
        !d.buttons[i],
        forall|j: int| 0 <= j < BUTTON_COUNT && j != i ==> spec_button_bit(payload, j) == d.buttons[j],
        payload[4] == d.encoder,
    ensures
        spec_buttons_events(d, payload) == seq![
            Event::ButtonChange(spec_device_button(i as u8), true, d.shift),
        ],
{
    let shift_after = spec_button_bit(payload, 0);
    assert(shift_after == d.shift);
    lemma_button_events_single(d.buttons, payload, shift_after, i, BUTTON_COUNT as int);
    assert(spec_buttons_events(d, payload) =~= seq![
        Event::ButtonChange(spec_device_button(i as u8), true, d.shift),
    ]);
}

/// A buttons payload that matches the latched state everywhere emits no
/// events and leaves the decoder and the LED table exactly as they were.
pub proof fn lemma_buttons_idempotent(d: DecoderView, payload: Seq<u8>, b: LedBankView)
    requires
        d.wf(),
        forall|j: int| 0 <= j < BUTTON_COUNT ==> spec_button_bit(payload, j) == d.buttons[j],
        payload[4] == d.encoder,
    ensures
        spec_buttons_events(d, payload) == Seq::<Event>::empty(),
        spec_buttons_state(d, payload) == d,
        spec_shift_led(b, d, payload) == b,
{
    let shift_after = spec_button_bit(payload, 0);
    lemma_button_events_none(d.buttons, payload, shift_after, BUTTON_COUNT as int);
    assert(spec_buttons_events(d, payload) =~= Seq::<Event>::empty());
    assert(spec_buttons_state(d, payload).buttons =~= d.buttons);
}

/// Re-feeding the very payload that was just decoded emits nothing: the
/// first report latched every level, so the second sees no edges.
pub proof fn lemma_buttons_refeed_silent(d: DecoderView, payload: Seq<u8>, b: LedBankView)
    requires
        d.wf(),
    ensures
        spec_buttons_state(d, payload).wf(),
        spec_buttons_events(spec_buttons_state(d, payload), payload) == Seq::<Event>::empty(),
        spec_buttons_state(spec_buttons_state(d, payload), payload) == spec_buttons_state(
            d,
            payload,
        ),
        spec_shift_led(b, spec_buttons_state(d, payload), payload) == b,
{
    let d1 = spec_buttons_state(d, payload);
    lemma_buttons_idempotent(d1, payload, b);
}

/// The encoder wrap rule is asymmetric: a raw step from 15 to 0 is a step
/// up, and a raw step from 0 to 15 is a step down, overriding the plain
/// comparison of the raw values.
pub proof fn lemma_encoder_wraparound()
    ensures
        spec_encoder_direction(0x0F, 0x00) == Direction::Up,
        spec_encoder_direction(0x00, 0x0F) == Direction::Down,
{
}

/// Pad hysteresis: from an inactive latch, a sample above the threshold
/// emits exactly one velocity event and latches the pad active; a following
/// sample at (or under) the threshold emits exactly one zero-velocity event
/// and releases the latch.
pub proof fn lemma_pad_hysteresis(d: DecoderView, pad: int, rise: u16, fall: u16)
    requires
        d.wf(),
        0 <= pad < PAD_COUNT,
        !d.pad_active[pad],
        rise > PAD_THRESHOLD,
        fall <= PAD_THRESHOLD,
    ensures
        spec_pad_sample_events(d, pad, rise) == seq![
            Event::PadChange(pad as u8, (rise >> 4) as u8, d.shift),
        ],
        spec_pad_sample_state(d, pad, rise).pad_active[pad],
        spec_pad_sample_events(spec_pad_sample_state(d, pad, rise), pad, fall) == seq![
            Event::PadChange(pad as u8, 0u8, d.shift),
        ],
        !spec_pad_sample_state(spec_pad_sample_state(d, pad, rise), pad, fall).pad_active[pad],
{
}

/// A sample that stays on its pad's latched side of the threshold — in
/// particular one oscillating above it while the pad is active — emits no
/// event.
pub proof fn lemma_pad_steady_silent(d: DecoderView, pad: int, value: u16)
    requires
        d.wf(),
        0 <= pad < PAD_COUNT,
        d.pad_active[pad] == (value > PAD_THRESHOLD),
    ensures
        spec_pad_sample_events(d, pad, value) == Seq::<Event>::empty(),
{
}

} // verus!
