use maschine::colour::Colour;
use maschine::controller::Controller;
use maschine::driver::{MaschineMikroMk2, DISPLAY_HEIGHT, DISPLAY_WIDTH};
use maschine::error::Error;
use maschine::events::{Button, Event, EventContext, EventTask};
use maschine::leds::{LED_PAD13, LED_PLAY, LED_TABLE_SIZE};
use maschine::transport::{HidTransport, ScriptedTransport};

fn frame_header(chunk: u8) -> [u8; 9] {
    [0xE0, 0x00, 0x00, chunk * 2, 0x00, 0x80, 0x00, 0x02, 0x00]
}

#[test]
fn three_ticks_visit_the_phases_in_order() {
    let mut ctlr = MaschineMikroMk2::new(ScriptedTransport::new());
    let mut ctx = EventContext::new();

    // Phase 0: the dirty framebuffer goes out as four framed chunks.
    assert!(ctlr.tick(&mut ctx).is_ok());
    assert_eq!(ctlr.device.written.len(), 4);
    for chunk in 0..4usize {
        let msg = &ctlr.device.written[chunk];
        assert_eq!(msg.len(), 9 + 256);
        assert_eq!(&msg[..9], frame_header(chunk as u8));
        assert!(msg[9..].iter().all(|&b| b == 0x00));
    }
    assert!(!ctlr.display.is_dirty());

    // Phase 1: the dirty LED table goes out behind its report id.
    assert!(ctlr.tick(&mut ctx).is_ok());
    assert_eq!(ctlr.device.written.len(), 5);
    let msg = &ctlr.device.written[4];
    assert_eq!(msg.len(), 1 + LED_TABLE_SIZE);
    assert_eq!(msg[0], 0x80);
    assert!(msg[1..].iter().all(|&b| b == 0x00));
    assert!(!ctlr.leds.is_dirty());

    // Phase 2: input is read; with nothing pending, nothing happens.
    assert!(ctlr.tick(&mut ctx).is_ok());
    assert_eq!(ctlr.device.written.len(), 5);
    assert!(ctx.events.is_empty());

    // The rotation starts over, and with nothing dirty nothing is sent.
    assert_eq!(ctlr.tick_state, 0);
    assert!(ctlr.tick(&mut ctx).is_ok());
    assert_eq!(ctlr.device.written.len(), 5);
}

#[test]
fn read_phase_decodes_a_buttons_report() {
    let mut ctlr = MaschineMikroMk2::new(ScriptedTransport::new());
    // Tag 0x01, erase pressed, encoder 0.
    ctlr.device.push_report(vec![0x01, 0x02, 0x00, 0x00, 0x00, 0x00]);
    let mut ctx = EventContext::new();
    assert!(ctlr.tick(&mut ctx).is_ok());
    assert!(ctlr.tick(&mut ctx).is_ok());
    assert!(ctlr.tick(&mut ctx).is_ok());
    assert_eq!(ctx.events.pop_front(), Some(Event::ButtonChange(Button::Erase, true, false)));
    assert!(ctx.events.is_empty());
}

#[test]
fn read_phase_decodes_a_pads_report() {
    let mut ctlr = MaschineMikroMk2::new(ScriptedTransport::new());
    // Tag 0x20, then sample 0: pad 2, raw value 600.
    let mut report = vec![0u8; 65];
    report[0] = 0x20;
    report[1] = (600u16 & 0xFF) as u8;
    report[2] = (2 << 4) | ((600u16 >> 8) & 0x0F) as u8;
    ctlr.device.push_report(report);
    let mut ctx = EventContext::new();
    assert!(ctlr.tick(&mut ctx).is_ok());
    assert!(ctlr.tick(&mut ctx).is_ok());
    assert!(ctlr.tick(&mut ctx).is_ok());
    assert_eq!(ctx.events.pop_front(), Some(Event::PadChange(2, (600u16 >> 4) as u8, false)));
    assert!(ctx.events.is_empty());
}

#[test]
fn transport_failure_surfaces_and_freezes_the_phase() {
    let mut ctlr = MaschineMikroMk2::new(ScriptedTransport::new());
    ctlr.device.failing = true;
    let mut ctx = EventContext::new();
    assert_eq!(ctlr.tick(&mut ctx), Err(Error::Transport));
    assert_eq!(ctlr.tick_state, 0);
    assert!(ctlr.display.is_dirty());

    // Once the transport recovers, the same phase is retried.
    ctlr.device.failing = false;
    assert!(ctlr.tick(&mut ctx).is_ok());
    assert_eq!(ctlr.tick_state, 1);
    assert_eq!(ctlr.device.written.len(), 4);
}

#[test]
fn button_led_is_stored_mono() {
    let mut ctlr = MaschineMikroMk2::new(ScriptedTransport::new());
    ctlr.set_button_led(Button::Play, Colour::white());
    assert_eq!(ctlr.leds.data()[LED_PLAY as usize], 0xFF);
    ctlr.set_button_led(Button::Play, Colour::new(0x10, 0x20, 0x30));
    assert_eq!(ctlr.leds.data()[LED_PLAY as usize], 0x00);
    // A button with no LED is a silent no-op.
    ctlr.set_button_led(Button::Unknown, Colour::white());
}

#[test]
fn pad_led_is_stored_rgb_at_half_intensity() {
    let mut ctlr = MaschineMikroMk2::new(ScriptedTransport::new());
    ctlr.set_pad_led(0, Colour::new(0xFF, 0x80, 0x40));
    let base = LED_PAD13 as usize;
    assert_eq!(ctlr.leds.data()[base], 0x7F);
    assert_eq!(ctlr.leds.data()[base + 1], 0x40);
    assert_eq!(ctlr.leds.data()[base + 2], 0x20);
    // A pad index past the grid is a silent no-op.
    ctlr.set_pad_led(16, Colour::white());
}

#[test]
fn led_table_becomes_dirty_only_on_change() {
    let mut ctlr = MaschineMikroMk2::new(ScriptedTransport::new());
    let mut ctx = EventContext::new();
    // Flush the initial state.
    assert!(ctlr.tick(&mut ctx).is_ok());
    assert!(ctlr.tick(&mut ctx).is_ok());
    assert!(!ctlr.leds.is_dirty());

    // Writing the colour the table already holds does not mark it dirty.
    ctlr.set_pad_led(0, Colour::black());
    assert!(!ctlr.leds.is_dirty());
    ctlr.set_pad_led(0, Colour::white());
    assert!(ctlr.leds.is_dirty());
}

#[test]
fn scripted_transport_records_writes_and_replays_reads() {
    let mut t = ScriptedTransport::new();
    assert_eq!(t.write(&[1, 2, 3]), Ok(3));
    assert_eq!(t.written, vec![vec![1, 2, 3]]);

    t.push_report(vec![9, 8]);
    let mut buffer = vec![0u8; 4];
    assert_eq!(t.read(&mut buffer), Ok(2));
    assert_eq!(buffer, vec![9, 8, 0, 0]);
    assert_eq!(t.read(&mut buffer), Ok(0));
}
