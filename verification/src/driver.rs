use vstd::prelude::*;

use vstd::slice::slice_subrange;

use crate::canvas::MonochromeCanvas;
use crate::colour::Colour;
use crate::controller::Controller;
use crate::decoder::ReportDecoder;
use crate::error::Error;
use crate::events::{Button, EventContext, EventTask};
use crate::leds::{
    spec_button_to_led, spec_pad_to_led, LedBank, LedBankView, LED_BROWSE, LED_BROWSE_LEFT, LED_BROWSE_RIGHT, LED_CONTROL,
    LED_DUPLICATE, LED_ERASE, LED_F1, LED_F2, LED_F3, LED_GRID, LED_GROUP, LED_MAIN, LED_MUTE,
    LED_NAV, LED_NOTE_REPEAT, LED_PAD01, LED_PAD02, LED_PAD03, LED_PAD04, LED_PAD05, LED_PAD06,
    LED_PAD07, LED_PAD08, LED_PAD09, LED_PAD10, LED_PAD11, LED_PAD12, LED_PAD13, LED_PAD14,
    LED_PAD15, LED_PAD16, LED_PADMODE, LED_PATTERN, LED_PLAY, LED_REC, LED_RESTART, LED_SAMPLING,
    LED_SCENE, LED_SELECT, LED_SOLO, LED_TRANSPORT_LEFT, LED_TRANSPORT_RIGHT, LED_VIEW,
};
use crate::transport::HidTransport;

verus! {

/// USB vendor id of the controller.
pub const VENDOR_ID: u16 = 0x17cc;

/// USB product id of the controller.
pub const PRODUCT_ID: u16 = 0x1200;

/// Size of the scratch buffer an inbound report is read into.
pub const INPUT_BUFFER_SIZE: usize = 512;

/// Width of the display in pixels.
pub const DISPLAY_WIDTH: usize = 128;

/// Height of the display in pixels.
pub const DISPLAY_HEIGHT: usize = 64;

/// Number of fixed-size chunks a display frame is split into.
pub const FRAME_CHUNKS: usize = 4;

/// Bytes of packed framebuffer carried by one display frame message.
pub const FRAME_CHUNK_SIZE: usize = 256;

/// One outbound display frame message: a fixed 9-byte header carrying the
/// chunk index at offset 3, followed by one quarter of the packed
/// framebuffer.
pub open spec fn spec_frame_message(buffer: Seq<u8>, chunk: int) -> Seq<u8> {
    seq![0xE0u8, 0x00u8, 0x00u8, (chunk * 2) as u8, 0x00u8, 0x80u8, 0x00u8, 0x02u8, 0x00u8]
        + buffer.subrange(chunk * FRAME_CHUNK_SIZE, (chunk + 1) * FRAME_CHUNK_SIZE)
}

/// One outbound LED message: the report id followed by the full slot table.
pub open spec fn spec_led_message(leds: Seq<u8>) -> Seq<u8> {
    seq![0x80u8] + leds
}

/// Build one display frame message for a packed framebuffer.
fn frame_message(data: &[u8], chunk: usize) -> (m: Vec<u8>)
    requires
        chunk < FRAME_CHUNKS,
        data@.len() == FRAME_CHUNKS * FRAME_CHUNK_SIZE,
    ensures
        m@ == spec_frame_message(data@, chunk as int),
{
    let mut m: Vec<u8> = Vec::new();
    m.push(0xE0);
    m.push(0x00);
    m.push(0x00);
    m.push((chunk * 2) as u8);
    m.push(0x00);
    m.push(0x80);
    m.push(0x00);
    m.push(0x02);
    m.push(0x00);
    let offset: usize = chunk * FRAME_CHUNK_SIZE;
    let mut i: usize = 0;
    while i < FRAME_CHUNK_SIZE
        invariant
            i <= FRAME_CHUNK_SIZE,
            offset == chunk * FRAME_CHUNK_SIZE,
            chunk < FRAME_CHUNKS,
            data@.len() == FRAME_CHUNKS * FRAME_CHUNK_SIZE,
            m@.len() == 9 + i,
            m@.subrange(0, 9) =~= seq![
                0xE0u8,
                0x00u8,
                0x00u8,
                (chunk * 2) as u8,
                0x00u8,
                0x80u8,
                0x00u8,
                0x02u8,
                0x00u8,
            ],
            forall|j: int| 9 <= j < 9 + i ==> #[trigger] m@[j] == data@[offset + j - 9],
        decreases FRAME_CHUNK_SIZE - i,
    {
        let b: u8 = data[offset + i];
        m.push(b);
        proof {
            assert(m@.subrange(0, 9) =~= seq![
                0xE0u8,
                0x00u8,
                0x00u8,
                (chunk * 2) as u8,
                0x00u8,
                0x80u8,
                0x00u8,
                0x02u8,
                0x00u8,
            ]);
        }
        i = i + 1;
    }
    proof {
        assert(m@ =~= spec_frame_message(data@, chunk as int));
    }
    m
}

/// Build the outbound LED message for a slot table.
fn led_message(data: &[u8]) -> (m: Vec<u8>)
    ensures
        m@ == spec_led_message(data@),
{
    let mut m: Vec<u8> = Vec::new();
    m.push(0x80);
    let len: usize = data.len();
    let mut i: usize = 0;
    while i < len
        invariant
            i <= len,
            len == data@.len(),
            m@.len() == 1 + i,
            m@[0] == 0x80u8,
            forall|j: int| 1 <= j < 1 + i ==> #[trigger] m@[j] == data@[j - 1],
        decreases len - i,
    {
        let b: u8 = data[i];
        m.push(b);
        i = i + 1;
    }
    proof {
        assert(m@ =~= spec_led_message(data@));
    }
    m
}

/// Driver for the controller: owns the framebuffer, the LED table and the
/// report decoder, and round-robins outbound and inbound traffic over the
/// transport one phase per tick.
pub struct MaschineMikroMk2<T: HidTransport> {
    /// The HID transport the device is reached through.
    pub device: T,
    /// Which phase the next `tick` runs: 0 sends the frame, 1 sends the
    /// LEDs, 2 reads input.
    pub tick_state: u8,
    /// The display framebuffer.
    pub display: MonochromeCanvas,
    /// The desired-state LED table.
    pub leds: LedBank,
    /// The input report decoder.
    pub decoder: ReportDecoder,
}

impl<T: HidTransport> MaschineMikroMk2<T> {
    /// Well-formedness: the rotation phase is one of the three, the display
    /// has the device's fixed dimensions, and the tables have their fixed
    /// sizes.
    pub open spec fn wf(&self) -> bool {
        &&& self.tick_state < 3
        &&& self.display@.wf()
        &&& self.display@.width == DISPLAY_WIDTH
        &&& self.display@.height == DISPLAY_HEIGHT
        &&& self.leds@.wf()
        &&& self.decoder@.wf()
    }

    /// A driver over a transport, with a cleared display and every latch
    /// released; display and LEDs start dirty so the first rotation pushes
    /// the initial state.
    pub fn new(device: T) -> (m: MaschineMikroMk2<T>)
        ensures
            m.wf(),
            m.tick_state == 0,
            m.display@.dirty,
            m.leds@.dirty,
    {
        MaschineMikroMk2 {
            device,
            tick_state: 0,
            display: MonochromeCanvas::new(DISPLAY_WIDTH, DISPLAY_HEIGHT),
            leds: LedBank::new(),
            decoder: ReportDecoder::new(),
        }
    }

    /// The LED slot driving a button's LED, where the button has one.
    pub fn button_to_led(&self, button: Button) -> (r: Option<u8>)
        ensures
            r == spec_button_to_led(button),
    {
        match button {
            Button::Erase => Some(LED_ERASE),
            Button::Rec => Some(LED_REC),
            Button::Play => Some(LED_PLAY),
            Button::Grid => Some(LED_GRID),
            Button::TransportRight => Some(LED_TRANSPORT_RIGHT),
            Button::TransportLeft => Some(LED_TRANSPORT_LEFT),
            Button::Restart => Some(LED_RESTART),
            Button::NoteRepeat => Some(LED_NOTE_REPEAT),
            Button::Sampling => Some(LED_SAMPLING),
            Button::Browse => Some(LED_BROWSE),
            Button::Group => Some(LED_GROUP),
            Button::Main => Some(LED_MAIN),
            Button::BrowseRight => Some(LED_BROWSE_RIGHT),
            Button::BrowseLeft => Some(LED_BROWSE_LEFT),
            Button::Nav => Some(LED_NAV),
            Button::Control => Some(LED_CONTROL),
            Button::F3 => Some(LED_F3),
            Button::F2 => Some(LED_F2),
            Button::F1 => Some(LED_F1),
            Button::Mute => Some(LED_MUTE),
            Button::Solo => Some(LED_SOLO),
            Button::Select => Some(LED_SELECT),
            Button::Duplicate => Some(LED_DUPLICATE),
            Button::View => Some(LED_VIEW),
            Button::PadMode => Some(LED_PADMODE),
            Button::Pattern => Some(LED_PATTERN),
            Button::Scene => Some(LED_SCENE),
            _ => None,
        }
    }

    /// The LED slot driving a pad's RGB LED, where the pad index is in
    /// range.
    pub fn pad_to_led(&self, pad: u8) -> (r: Option<u8>)
        ensures
            r == spec_pad_to_led(pad),
    {
        if pad == 0x0 {
            Some(LED_PAD13)
        } else if pad == 0x1 {
            Some(LED_PAD14)
        } else if pad == 0x2 {
            Some(LED_PAD15)
        } else if pad == 0x3 {
            Some(LED_PAD16)
        } else if pad == 0x4 {
            Some(LED_PAD09)
        } else if pad == 0x5 {
            Some(LED_PAD10)
        } else if pad == 0x6 {
            Some(LED_PAD11)
        } else if pad == 0x7 {
            Some(LED_PAD12)
        } else if pad == 0x8 {
            Some(LED_PAD05)
        } else if pad == 0x9 {
            Some(LED_PAD06)
        } else if pad == 0xA {
            Some(LED_PAD07)
        } else if pad == 0xB {
            Some(LED_PAD08)
        } else if pad == 0xC {
            Some(LED_PAD01)
        } else if pad == 0xD {
            Some(LED_PAD02)
        } else if pad == 0xE {
            Some(LED_PAD03)
        } else if pad == 0xF {
            Some(LED_PAD04)
        } else {
            None
        }
    }

    /// Send a display frame for the graphics panel: when the framebuffer is
    /// dirty, transmit it in fixed-size chunks, each behind its header; the
    /// dirty flag is cleared on success whether or not a transmit happened.
    fn send_frame(&mut self) -> (r: Result<(), Error>)
        requires
            old(self).wf(),
        ensures
            final(self).wf(),
            final(self).tick_state == old(self).tick_state,
            final(self).leds == old(self).leds,
            final(self).decoder == old(self).decoder,
            final(self).display@.width == old(self).display@.width,
            final(self).display@.height == old(self).display@.height,
            final(self).display@.buffer == old(self).display@.buffer,
            r matches Err(e) ==> e == Error::Transport && final(self).display@.dirty == old(
                self,
            ).display@.dirty,
            r is Ok ==> !final(self).display@.dirty,
            !old(self).display@.dirty ==> r is Ok,
    {
        if self.display.is_dirty() {
            let mut chunk: usize = 0;
            while chunk < FRAME_CHUNKS
                invariant
                    chunk <= FRAME_CHUNKS,
                    old(self).display@.dirty,
                    self.wf(),
                    self.tick_state == old(self).tick_state,
                    self.leds == old(self).leds,
                    self.decoder == old(self).decoder,
                    self.display == old(self).display,
                decreases FRAME_CHUNKS - chunk,
            {
                let msg: Vec<u8> = frame_message(self.display.data(), chunk);
                match self.device.write(msg.as_slice()) {
                    Ok(_) => (),
                    Err(e) => {
                        return Err(e);
                    },
                }
                chunk = chunk + 1;
            }
        }
        self.display.clear_dirty_flag();
        Ok(())
    }

    /// Update the LEDs if the table has been touched: transmit the full
    /// table behind its report id; the dirty flag is cleared on success
    /// whether or not a transmit happened.
    fn send_leds(&mut self) -> (r: Result<(), Error>)
        requires
            old(self).wf(),
        ensures
            final(self).wf(),
            final(self).tick_state == old(self).tick_state,
            final(self).display == old(self).display,
            final(self).decoder == old(self).decoder,
            final(self).leds@.leds == old(self).leds@.leds,
            r matches Err(e) ==> e == Error::Transport && final(self).leds == old(self).leds,
            r is Ok ==> !final(self).leds@.dirty,
            !old(self).leds@.dirty ==> r is Ok,
    {
        if self.leds.is_dirty() {
            let msg: Vec<u8> = led_message(self.leds.data());
            match self.device.write(msg.as_slice()) {
                Ok(_) => (),
                Err(e) => {
                    return Err(e);
                },
            }
        }
        self.leds.clear_dirty_flag();
        Ok(())
    }

    /// Read incoming reports from the device: up to a fixed number of
    /// transport reads, routing a buttons report by its tag on every read
    /// and a pads report by its tag on a fixed sampling modulus of reads.
    /// Decoded events land in the context in arrival order.
    fn read(&mut self, context: &mut EventContext) -> (r: Result<(), Error>)
        requires
            old(self).wf(),
        ensures
            final(self).wf(),
            final(self).tick_state == old(self).tick_state,
            final(self).display == old(self).display,
            old(context)@.is_prefix_of(final(context)@),
            r matches Err(e) ==> e == Error::Transport,
    {
        let mut buffer: Vec<u8> = Vec::new();
        let mut i: usize = 0;
        while i < INPUT_BUFFER_SIZE
            invariant
                i <= INPUT_BUFFER_SIZE,
                buffer@.len() == i,
            decreases INPUT_BUFFER_SIZE - i,
        {
            buffer.push(0);
            i = i + 1;
        }
        let mut idx: usize = 0;
        proof {
            assert(old(context)@.is_prefix_of(context@));
        }
        while idx < 32
            invariant
                idx <= 32,
                buffer@.len() == INPUT_BUFFER_SIZE,
                self.wf(),
                self.tick_state == old(self).tick_state,
                self.display == old(self).display,
                old(context)@.is_prefix_of(context@),
            decreases 32 - idx,
        {
            let bytes_read: usize = match self.device.read(&mut buffer) {
                Ok(n) => n,
                Err(e) => {
                    return Err(e);
                },
            };
            let ghost pre = context@;
            if bytes_read > 0 && buffer[0] == 0x01 {
                let payload: &[u8] = slice_subrange(buffer.as_slice(), 1, 6);
                match self.decoder.process_buttons(payload, &mut self.leds, context) {
                    Ok(_) => (),
                    Err(e) => {
                        return Err(e);
                    },
                }
            } else if bytes_read > 0 && buffer[0] == 0x20 && idx % 7 == 0 {
                let payload: &[u8] = slice_subrange(buffer.as_slice(), 1, INPUT_BUFFER_SIZE);
                match self.decoder.process_pads(payload, context) {
                    Ok(_) => (),
                    Err(e) => {
                        return Err(e);
                    },
                }
            }
            proof {
                assert(pre.is_prefix_of(context@));
                assert(old(context)@.is_prefix_of(context@));
            }
            idx = idx + 1;
        }
        Ok(())
    }
}

impl<T: HidTransport> EventTask for MaschineMikroMk2<T> {
    open spec fn task_wf(&self) -> bool {
        self.wf()
    }

    /// One step of the three-phase rotation: phase 0 pushes the display
    /// frame, phase 1 pushes the LED table, phase 2 reads and decodes
    /// input. The phase advances only when the step succeeds; a transport
    /// failure surfaces unmodified and leaves the phase to be retried.
    fn tick(&mut self, context: &mut EventContext) -> (r: Result<(), Error>)
        ensures
            r is Ok ==> final(self).tick_state == (old(self).tick_state + 1) % 3,
            r matches Err(e) ==> e == Error::Transport && final(self).tick_state == old(
                self,
            ).tick_state,
            final(self).display@.width == old(self).display@.width,
            final(self).display@.height == old(self).display@.height,
            old(self).tick_state == 0 ==> {
                &&& final(self).display@.buffer == old(self).display@.buffer
                &&& final(self).leds == old(self).leds
                &&& final(self).decoder == old(self).decoder
                &&& final(context)@ == old(context)@
                &&& (r is Ok ==> !final(self).display@.dirty)
            },
            old(self).tick_state == 1 ==> {
                &&& final(self).display == old(self).display
                &&& final(self).decoder == old(self).decoder
                &&& final(self).leds@.leds == old(self).leds@.leds
                &&& final(context)@ == old(context)@
                &&& (r is Ok ==> !final(self).leds@.dirty)
            },
            old(self).tick_state == 2 ==> {
                &&& final(self).display == old(self).display
                &&& old(context)@.is_prefix_of(final(context)@)
            },
            old(self).tick_state == 0 && !old(self).display@.dirty ==> r is Ok,
            old(self).tick_state == 1 && !old(self).leds@.dirty ==> r is Ok,
    {
        if self.tick_state == 0 {
            match self.send_frame() {
                Ok(_) => (),
                Err(e) => {
                    return Err(e);
                },
            }
        } else if self.tick_state == 1 {
            match self.send_leds() {
                Ok(_) => (),
                Err(e) => {
                    return Err(e);
                },
            }
        } else if self.tick_state == 2 {
            match self.read(context) {
                Ok(_) => (),
                Err(e) => {
                    return Err(e);
                },
            }
        }
        self.tick_state = (self.tick_state + 1) % 3;
        Ok(())
    }
}

impl<T: HidTransport> Controller for MaschineMikroMk2<T> {
    open spec fn led_table(&self) -> LedBankView {
        self.leds@
    }

    fn set_button_led(&mut self, button: Button, colour: Colour)
        ensures
            final(self).tick_state == old(self).tick_state,
            final(self).display == old(self).display,
            final(self).decoder == old(self).decoder,
    {
        match self.button_to_led(button) {
            Some(led) => self.leds.set(led, colour),
            None => (),
        }
    }

    fn set_pad_led(&mut self, pad: u8, colour: Colour)
        ensures
            final(self).tick_state == old(self).tick_state,
            final(self).display == old(self).display,
            final(self).decoder == old(self).decoder,
    {
        match self.pad_to_led(pad) {
            Some(led) => self.leds.set(led, colour),
            None => (),
        }
    }
}

} // verus!
