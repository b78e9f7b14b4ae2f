use vstd::prelude::*;

use crate::colour::Colour;
use crate::controller::Controller;
use crate::events::{Button, Event, EventHandler};
use crate::leds::{spec_set_button_led, spec_set_pad_led, LedBankView};
use crate::rng::random_in_range;

verus! {

#[verifier::external_type_specification]
#[verifier::external_body]
pub struct ExInstant(std::time::Instant);

/// Relies on `std::time::Instant::now`: an opaque timestamp of the moment of
/// the call; the clock decides, so nothing is promised of it.
#[verifier::external_body]
fn instant_now() -> std::time::Instant {
    std::time::Instant::now()
}

/// Relies on `Instant::elapsed` and `Duration::as_millis`: whole
/// milliseconds since the instant; the clock decides, so nothing is
/// promised of the value.
#[verifier::external_body]
fn elapsed_millis(since: &std::time::Instant) -> u128 {
    since.elapsed().as_millis()
}

/// Side length of the pad grid the lights fall through.
pub const GRID_SIDE: usize = 4;

/// Number of lights in the animation.
pub const LIGHT_COUNT: usize = 8;

/// Milliseconds between animation frames.
pub const FRAME_INTERVAL_MS: u128 = 500;

/// One falling light on the pad grid.
pub struct Light {
    /// Column on the grid.
    pub x: usize,
    /// Row on the grid.
    pub y: usize,
    /// Rows fallen per frame.
    pub v: usize,
    /// The colour shown on the pad under the light.
    pub colour: Colour,
}

impl Light {
    /// The light sits on the grid and falls one row per frame.
    pub open spec fn wf(&self) -> bool {
        &&& self.x < GRID_SIDE
        &&& self.y < GRID_SIDE
        &&& self.v == 1
    }
}

/// A demo animation of coloured lights falling down the pad grid, toggled by
/// the play button; each frame paints the grid dark, lights the pads under
/// the lights, then lets every light fall one row, respawning at the top in
/// a random column and colour once it leaves the grid.
pub struct Rainbow {
    /// Whether the animation is running.
    pub active: bool,
    /// Whether the play button's LED must be updated.
    pub dirty: bool,
    /// When the animation started, for frame pacing.
    pub clock: std::time::Instant,
    /// Time of the next frame, in milliseconds since the clock.
    pub next_frame: u128,
    /// The falling lights.
    pub lights: Vec<Light>,
}

/// The pads `[k, 16)` painted dark, in order.
pub open spec fn spec_clear_pads(b: LedBankView, k: int) -> LedBankView
    decreases 16 - k,
{
    if 0 <= k < 16 {
        spec_clear_pads(
            spec_set_pad_led(b, k as u8, Colour { r: 0x00, g: 0x00, b: 0x00 }),
            k + 1,
        )
    } else {
        b
    }
}

/// The lights from index `i` on painted onto their pads, in order.
pub open spec fn spec_light_pads(b: LedBankView, lights: Seq<Light>, i: int) -> LedBankView
    decreases lights.len() - i,
{
    if 0 <= i < lights.len() {
        let l = lights[i];
        spec_light_pads(
            spec_set_pad_led(b, (l.x + l.y * GRID_SIDE) as u8, l.colour),
            lights,
            i + 1,
        )
    } else {
        b
    }
}

/// The LED writes of one animation frame: the whole grid dark, then each
/// light's pad in its colour.
pub open spec fn spec_frame_leds(b: LedBankView, lights: Seq<Light>) -> LedBankView {
    spec_light_pads(spec_clear_pads(b, 0), lights, 0)
}

/// All LED writes of one `render` call: the animation frame when one was
/// due, then the play button reflecting the toggle when an update was
/// pending.
pub open spec fn spec_render_leds(r: Rainbow, b: LedBankView, stepped: bool) -> LedBankView {
    let animated = if stepped {
        spec_frame_leds(b, r.lights@)
    } else {
        b
    };
    if r.dirty {
        spec_set_button_led(
            animated,
            Button::Play,
            if r.active {
                Colour { r: 0xFF, g: 0xFF, b: 0xFF }
            } else {
                Colour { r: 0x00, g: 0x00, b: 0x00 }
            },
        )
    } else {
        animated
    }
}

impl View for Rainbow {
    type V = Rainbow;

    open spec fn view(&self) -> Rainbow {
        *self
    }
}

impl Rainbow {
    /// Every light sits on the grid.
    pub open spec fn wf(&self) -> bool {
        forall|i: int| 0 <= i < self.lights@.len() ==> #[trigger] self.lights@[i].wf()
    }

    /// An inactive animation with its lights scattered at random.
    pub fn new() -> (r: Rainbow)
        ensures
            r.wf(),
            !r.active,
            !r.dirty,
            r.lights@.len() == LIGHT_COUNT,
    {
        let mut lights: Vec<Light> = Vec::new();
        let mut i: usize = 0;
        while i < LIGHT_COUNT
            invariant
                i <= LIGHT_COUNT,
                lights@.len() == i,
                forall|j: int| 0 <= j < i ==> #[trigger] lights@[j].wf(),
            decreases LIGHT_COUNT - i,
        {
            lights.push(
                Light {
                    x: random_in_range(0, GRID_SIDE),
                    y: random_in_range(0, GRID_SIDE),
                    v: 1,
                    colour: Colour::black(),
                },
            );
            i = i + 1;
        }
        Rainbow { active: false, dirty: false, clock: instant_now(), next_frame: 0, lights }
    }

    /// Run one animation step against the controller: when active and a
    /// frame is due, repaint the pad LEDs from the lights' current positions
    /// and advance the lights; and whenever the toggle changed, reflect it
    /// on the play button's LED. The clock decides whether a frame was due,
    /// so the LED effect is stated for both outcomes.
    pub fn render<C: Controller>(&mut self, ctlr: &mut C)
        requires
            old(self).wf(),
            old(ctlr).task_wf(),
        ensures
            final(self).wf(),
            final(ctlr).task_wf(),
            final(self).active == old(self).active,
            !final(self).dirty,
            final(self).lights@.len() == old(self).lights@.len(),
            exists|stepped: bool|
                #![auto]
                (stepped ==> old(self).active) && final(ctlr).led_table() == spec_render_leds(
                    *old(self),
                    old(ctlr).led_table(),
                    stepped,
                ),
    {
        let ghost b0 = ctlr.led_table();
        let ghost mut stepped: bool = false;
        if self.active {
            let ms: u128 = elapsed_millis(&self.clock);
            if ms >= self.next_frame {
                proof {
                    stepped = true;
                }
                self.next_frame = if ms > u128::MAX - FRAME_INTERVAL_MS {
                    u128::MAX
                } else {
                    ms + FRAME_INTERVAL_MS
                };

                // Paint the grid dark, then light the pads under the lights.
                let mut pad: u8 = 0;
                while pad < 16
                    invariant
                        pad <= 16,
                        self.lights == old(self).lights,
                        self.active == old(self).active,
                        self.dirty == old(self).dirty,
                        self.next_frame == old(self).next_frame || true,
                        ctlr.task_wf(),
                        spec_clear_pads(b0, 0) == spec_clear_pads(ctlr.led_table(), pad as int),
                    decreases 16 - pad,
                {
                    ctlr.set_pad_led(pad, Colour::black());
                    pad = pad + 1;
                }
                proof {
                    assert(ctlr.led_table() == spec_clear_pads(b0, 0));
                }
                let ghost b1 = ctlr.led_table();
                let count: usize = self.lights.len();
                let mut i: usize = 0;
                while i < count
                    invariant
                        i <= count,
                        count == self.lights@.len(),
                        self.lights == old(self).lights,
                        self.active == old(self).active,
                        self.dirty == old(self).dirty,
                        old(self).wf(),
                        ctlr.task_wf(),
                        spec_light_pads(b1, self.lights@, 0) == spec_light_pads(
                            ctlr.led_table(),
                            self.lights@,
                            i as int,
                        ),
                    decreases count - i,
                {
                    proof {
                        assert(self.lights@[i as int].wf());
                    }
                    let x: usize = self.lights[i].x;
                    let y: usize = self.lights[i].y;
                    let colour: Colour = self.lights[i].colour;
                    ctlr.set_pad_led((x + y * GRID_SIDE) as u8, colour);
                    i = i + 1;
                }
                proof {
                    assert(ctlr.led_table() == spec_frame_leds(b0, old(self).lights@));
                }

                // Let every light fall one row; one that leaves the grid
                // respawns at the top in a random column and colour.
                let mut k: usize = 0;
                while k < count
                    invariant
                        count == self.lights@.len(),
                        self.active == old(self).active,
                        self.dirty == old(self).dirty,
                        forall|j: int| 0 <= j < count ==> #[trigger] self.lights@[j].wf(),
                        ctlr.task_wf(),
                    decreases count - k,
                {
                    proof {
                        assert(self.lights@[k as int].wf());
                    }
                    let ghost pre = self.lights@;
                    let light = &mut self.lights[k];
                    light.y = light.y + light.v;
                    if light.y >= GRID_SIDE {
                        light.y = 0;
                        light.x = random_in_range(0, GRID_SIDE);
                        light.colour = Colour::random();
                    }
                    proof {
                        assert(self.lights@[k as int].wf());
                        assert(forall|j: int|
                            0 <= j < count && j != k ==> self.lights@[j] == pre[j]);
                    }
                    k = k + 1;
                }
            }
        }

        proof {
            assert(ctlr.led_table() == if stepped {
                spec_frame_leds(b0, old(self).lights@)
            } else {
                b0
            });
        }
        if self.dirty {
            ctlr.set_button_led(
                Button::Play,
                if self.active {
                    Colour::white()
                } else {
                    Colour::black()
                },
            );
            self.dirty = false;
        }
        proof {
            assert((stepped ==> old(self).active) && ctlr.led_table() == spec_render_leds(
                *old(self),
                b0,
                stepped,
            ));
        }
    }
}

impl EventHandler for Rainbow {
    /// A press of the play button toggles the animation and asks for the
    /// button LED to be updated; everything else is ignored.
    open spec fn spec_handle(v: Rainbow, event: Event) -> Rainbow {
        match event {
            Event::ButtonChange(Button::Play, true, _) => Rainbow {
                active: !v.active,
                dirty: true,
                ..v
            },
            _ => v,
        }
    }

    open spec fn spec_handled(v: Rainbow, event: Event) -> bool {
        event matches Event::ButtonChange(Button::Play, true, _)
    }

    fn handle(&mut self, event: &Event) -> (r: bool) {
        match event {
            Event::ButtonChange(Button::Play, pressed, _) => {
                if *pressed {
                    self.active = !self.active;
                    self.dirty = true;
                    return true;
                }
            },
            _ => (),
        }
        false
    }
}

} // verus!
