use maschine::decoder::ReportDecoder;
use maschine::error::Error;
use maschine::events::{Button, Direction, Event, EventContext};
use maschine::leds::{LedBank, LED_SHIFT};

fn drain(ctx: &mut EventContext) -> Vec<Event> {
    let mut out = Vec::new();
    while let Some(e) = ctx.events.pop_front() {
        out.push(e);
    }
    out
}

fn buttons_payload(mask: u32, encoder: u8) -> Vec<u8> {
    vec![
        (mask & 0xFF) as u8,
        ((mask >> 8) & 0xFF) as u8,
        ((mask >> 16) & 0xFF) as u8,
        ((mask >> 24) & 0xFF) as u8,
        encoder,
    ]
}

fn pads_payload(samples: &[(u8, u16)]) -> Vec<u8> {
    let mut payload = vec![0u8; 64];
    for (k, &(pad, value)) in samples.iter().enumerate() {
        payload[2 * k] = (value & 0xFF) as u8;
        payload[2 * k + 1] = (pad << 4) | ((value >> 8) & 0x0F) as u8;
    }
    payload
}

#[test]
fn new_button_bit_emits_exactly_one_event_and_refeed_is_silent() {
    let mut d = ReportDecoder::new();
    let mut leds = LedBank::new();
    let mut ctx = EventContext::new();

    // Bit 1 is the erase button.
    let payload = buttons_payload(1 << 1, 0);
    assert!(d.process_buttons(payload.as_slice(), &mut leds, &mut ctx).is_ok());
    let events = drain(&mut ctx);
    assert_eq!(events, vec![Event::ButtonChange(Button::Erase, true, false)]);

    // The same payload again: no edges, no events.
    assert!(d.process_buttons(payload.as_slice(), &mut leds, &mut ctx).is_ok());
    assert!(drain(&mut ctx).is_empty());
}

#[test]
fn shift_is_consumed_into_its_led_not_an_event() {
    let mut d = ReportDecoder::new();
    let mut leds = LedBank::new();
    let mut ctx = EventContext::new();

    let payload = buttons_payload(1 << 0, 0);
    assert!(d.process_buttons(payload.as_slice(), &mut leds, &mut ctx).is_ok());
    assert!(drain(&mut ctx).is_empty());
    assert_eq!(leds.data()[LED_SHIFT as usize], 0xFF);

    // Releasing shift turns the LED back off, still without an event.
    let payload = buttons_payload(0, 0);
    assert!(d.process_buttons(payload.as_slice(), &mut leds, &mut ctx).is_ok());
    assert!(drain(&mut ctx).is_empty());
    assert_eq!(leds.data()[LED_SHIFT as usize], 0x00);
}

#[test]
fn events_carry_the_reports_own_shift_state() {
    let mut d = ReportDecoder::new();
    let mut leds = LedBank::new();
    let mut ctx = EventContext::new();

    // Shift and play pressed in the same report: the shift latch is updated
    // before the play bit is scanned.
    let payload = buttons_payload((1 << 0) | (1 << 3), 0);
    assert!(d.process_buttons(payload.as_slice(), &mut leds, &mut ctx).is_ok());
    let events = drain(&mut ctx);
    assert_eq!(events, vec![Event::ButtonChange(Button::Play, true, true)]);
}

#[test]
fn encoder_wraparound_is_asymmetric() {
    let mut d = ReportDecoder::new();
    let mut leds = LedBank::new();
    let mut ctx = EventContext::new();

    // 0 -> 15 is forced down, not a plain increase.
    assert!(d.process_buttons(buttons_payload(0, 15).as_slice(), &mut leds, &mut ctx).is_ok());
    assert_eq!(drain(&mut ctx), vec![Event::EncoderChange(0, Direction::Down, false)]);

    // 15 -> 0 wraps upward.
    assert!(d.process_buttons(buttons_payload(0, 0).as_slice(), &mut leds, &mut ctx).is_ok());
    assert_eq!(drain(&mut ctx), vec![Event::EncoderChange(0, Direction::Up, false)]);

    // An unchanged raw value emits nothing.
    assert!(d.process_buttons(buttons_payload(0, 0).as_slice(), &mut leds, &mut ctx).is_ok());
    assert!(drain(&mut ctx).is_empty());
}

#[test]
fn encoder_plain_steps_follow_the_comparison() {
    let mut d = ReportDecoder::new();
    let mut leds = LedBank::new();
    let mut ctx = EventContext::new();

    assert!(d.process_buttons(buttons_payload(0, 3).as_slice(), &mut leds, &mut ctx).is_ok());
    assert_eq!(drain(&mut ctx), vec![Event::EncoderChange(0, Direction::Up, false)]);
    assert!(d.process_buttons(buttons_payload(0, 2).as_slice(), &mut leds, &mut ctx).is_ok());
    assert_eq!(drain(&mut ctx), vec![Event::EncoderChange(0, Direction::Down, false)]);
}

#[test]
fn short_buttons_payload_is_an_invalid_report() {
    let mut d = ReportDecoder::new();
    let mut leds = LedBank::new();
    let mut ctx = EventContext::new();

    let payload = vec![0u8; 4];
    assert_eq!(
        d.process_buttons(payload.as_slice(), &mut leds, &mut ctx),
        Err(Error::InvalidReport)
    );
    assert!(drain(&mut ctx).is_empty());
}

#[test]
fn pad_hysteresis_emits_on_rise_and_on_fall_to_threshold() {
    let mut d = ReportDecoder::new();
    let mut ctx = EventContext::new();

    // Crossing the threshold upward: one event with the velocity.
    let payload = pads_payload(&[(3, 600)]);
    assert!(d.process_pads(payload.as_slice(), &mut ctx).is_ok());
    assert_eq!(drain(&mut ctx), vec![Event::PadChange(3, (600u16 >> 4) as u8, false)]);

    // Oscillating above the threshold: no repeated events.
    let payload = pads_payload(&[(3, 700)]);
    assert!(d.process_pads(payload.as_slice(), &mut ctx).is_ok());
    assert!(drain(&mut ctx).is_empty());

    // Dropping to exactly the threshold releases the latch with velocity 0.
    let payload = pads_payload(&[(3, 512)]);
    assert!(d.process_pads(payload.as_slice(), &mut ctx).is_ok());
    assert_eq!(drain(&mut ctx), vec![Event::PadChange(3, 0, false)]);

    // Staying low emits nothing further.
    let payload = pads_payload(&[(3, 100)]);
    assert!(d.process_pads(payload.as_slice(), &mut ctx).is_ok());
    assert!(drain(&mut ctx).is_empty());
}

#[test]
fn short_pads_payload_is_an_invalid_report() {
    let mut d = ReportDecoder::new();
    let mut ctx = EventContext::new();

    let payload = vec![0u8; 63];
    assert_eq!(d.process_pads(payload.as_slice(), &mut ctx), Err(Error::InvalidReport));
    assert!(drain(&mut ctx).is_empty());
}

#[test]
fn pad_events_carry_the_shift_state() {
    let mut d = ReportDecoder::new();
    let mut leds = LedBank::new();
    let mut ctx = EventContext::new();

    assert!(d.process_buttons(buttons_payload(1, 0).as_slice(), &mut leds, &mut ctx).is_ok());
    let payload = pads_payload(&[(5, 1000)]);
    assert!(d.process_pads(payload.as_slice(), &mut ctx).is_ok());
    assert_eq!(drain(&mut ctx), vec![Event::PadChange(5, (1000u16 >> 4) as u8, true)]);
}
