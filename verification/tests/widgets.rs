use maschine::canvas::{MonochromeCanvas, Pixel};
use maschine::colour::Colour;
use maschine::driver::MaschineMikroMk2;
use maschine::events::{Button, Direction, Event, EventHandler};
use maschine::leds::LED_PLAY;
use maschine::list_panel::ListPanel;
use maschine::pad::Rainbow;
use maschine::surface::{setup_ui, Control, Surface};
use maschine::tab_panel::{TabPanel, Widget};
use maschine::text_panel::TextPanel;
use maschine::transport::ScriptedTransport;

fn three_tab_panel() -> TabPanel {
    let mut first = TextPanel::new();
    first.set_text("one");
    let mut second = TextPanel::new();
    second.set_text("two");
    let mut list: ListPanel<u8> = ListPanel::new();
    list.add_item(0, "entry");
    let mut panel = TabPanel::new();
    panel.add_tab(0, "FIRST", Widget::Text(first));
    panel.add_tab(1, "SECOND", Widget::Text(second));
    panel.add_tab(2, "THIRD", Widget::List(list));
    panel
}

fn widget_dirty(w: &Widget) -> bool {
    match w {
        Widget::Text(p) => p.dirty,
        Widget::List(p) => p.dirty,
    }
}

#[test]
fn f2_press_switches_to_tab_one_and_forces_its_repaint() {
    let mut panel = three_tab_panel();
    // Painting clears every dirty flag first.
    let mut canvas = MonochromeCanvas::new(128, 64);
    panel.set_size(8, 128);
    panel.paint(&mut canvas, 0, 0);
    assert_eq!(panel.current, 0);

    panel.handle(&Event::ButtonChange(Button::F2, true, false));
    assert_eq!(panel.current, 1);
    match &panel.tabs[1] {
        Some(tab) => assert!(widget_dirty(&tab.control)),
        None => panic!("tab slot must be occupied"),
    }
}

#[test]
fn f2_release_does_not_switch_tabs() {
    let mut panel = three_tab_panel();
    panel.handle(&Event::ButtonChange(Button::F2, false, false));
    assert_eq!(panel.current, 0);
}

#[test]
fn set_current_on_an_empty_list_resets_safely() {
    let mut list: ListPanel<u8> = ListPanel::new();
    list.set_current(5);
    assert_eq!(list.current, 0);
    assert_eq!(list.offset, 0);
}

#[test]
fn set_current_computes_the_proportional_offset() {
    let mut list: ListPanel<u8> = ListPanel::new();
    for i in 0..10u8 {
        list.add_item(i, "entry");
    }
    list.set_size(4, 128);
    list.set_current(9);
    assert_eq!(list.current, 9);
    // (10 - 4 + 1) * 9 / 10 = 6.
    assert_eq!(list.offset, 6);
    list.set_current(0);
    assert_eq!(list.offset, 0);
}

#[test]
fn list_selection_wraps_at_both_ends() {
    let mut list: ListPanel<u8> = ListPanel::new();
    for i in 0..3u8 {
        list.add_item(i, "entry");
    }
    // Up from the head wraps to the tail.
    list.handle(&Event::EncoderChange(0, Direction::Up, false));
    assert_eq!(list.current, 2);
    // Down past the tail wraps to the head through the reset.
    list.handle(&Event::EncoderChange(0, Direction::Down, false));
    assert_eq!(list.current, 0);
    assert_eq!(list.offset, 0);
}

#[test]
fn text_scroll_is_clamped_to_the_content() {
    let mut text = TextPanel::new();
    text.set_text("a\nb\nc\nd\ne");
    text.set_size(2, 128);
    for _ in 0..5 {
        text.handle(&Event::EncoderChange(0, Direction::Up, false));
    }
    // Five lines in a two-row window leave at most three rows above.
    assert_eq!(text.scroll_pos.0, 3);
    for _ in 0..5 {
        text.handle(&Event::EncoderChange(0, Direction::Down, false));
    }
    assert_eq!(text.scroll_pos.0, 0);
}

#[test]
fn text_that_fits_does_not_scroll() {
    let mut text = TextPanel::new();
    text.set_text("a\nb");
    text.set_size(4, 128);
    assert!(text.handle(&Event::EncoderChange(0, Direction::Up, false)));
    assert_eq!(text.scroll_pos.0, 0);
}

#[test]
fn set_text_measures_lines_and_width() {
    let mut text = TextPanel::new();
    text.set_text("ab\ncdef\n");
    // A trailing newline yields a final empty line.
    assert_eq!(text.text_size, (3, 4));
    assert_eq!(text.text(), "ab\ncdef\n");

    text.set_text("");
    assert_eq!(text.text_size, (1, 0));
}

#[test]
fn surface_paints_the_tree_into_the_canvas() {
    let mut surface = setup_ui(64, 128);
    let mut canvas = MonochromeCanvas::new(128, 64);
    canvas.clear_dirty_flag();
    surface.paint(&mut canvas);
    assert!(canvas.is_dirty());
    // The tab bar's first border pixel is lit.
    assert_eq!(canvas.pixel(0, 1), Some(Pixel::On));
}

#[test]
fn set_child_sizes_the_root_to_the_surface() {
    let surface = setup_ui(64, 128);
    match &surface.child {
        Some(panel) => {
            assert_eq!(panel.size, (8, 128));
            match &panel.tabs[0] {
                Some(tab) => match &tab.control {
                    Widget::Text(p) => assert_eq!(p.control_size, (7, 128)),
                    Widget::List(_) => panic!("first tab hosts a text panel"),
                },
                None => panic!("first tab slot must be occupied"),
            }
        },
        None => panic!("the surface must own its root"),
    }
}

#[test]
fn surface_without_a_child_handles_nothing() {
    let mut surface: Surface<TabPanel> = Surface::new(64, 128);
    assert!(!surface.handle(&Event::ButtonChange(Button::F1, true, false)));
}

#[test]
fn rainbow_toggles_on_play_press_only() {
    let mut rainbow = Rainbow::new();
    assert!(!rainbow.active);
    assert!(rainbow.handle(&Event::ButtonChange(Button::Play, true, false)));
    assert!(rainbow.active);
    assert!(!rainbow.handle(&Event::ButtonChange(Button::Play, false, false)));
    assert!(rainbow.active);
    assert!(rainbow.handle(&Event::ButtonChange(Button::Play, true, false)));
    assert!(!rainbow.active);
}

#[test]
fn rainbow_reflects_the_toggle_on_the_play_led() {
    let mut rainbow = Rainbow::new();
    let mut ctlr = MaschineMikroMk2::new(ScriptedTransport::new());
    rainbow.handle(&Event::ButtonChange(Button::Play, true, false));
    rainbow.render(&mut ctlr);
    assert_eq!(ctlr.leds.data()[LED_PLAY as usize], 0xFF);
    assert!(!rainbow.dirty);
}

#[test]
fn rainbow_lights_start_on_the_grid() {
    let rainbow = Rainbow::new();
    assert_eq!(rainbow.lights.len(), 8);
    for light in rainbow.lights.iter() {
        assert!(light.x < 4);
        assert!(light.y < 4);
    }
}

#[test]
fn colour_reductions_follow_the_mono_threshold() {
    assert_eq!(Colour::new(0x80, 0x00, 0x00).as_mono(), 0xFF);
    assert_eq!(Colour::new(0x7F, 0x7F, 0x7F).as_mono(), 0x00);
    assert_eq!(Colour::new(0x00, 0x00, 0xFF).as_1bit(), 0xFF);
    assert_eq!(Colour::white().components(), (0xFF, 0xFF, 0xFF));
    assert_eq!(Colour::black().components(), (0x00, 0x00, 0x00));
}

#[test]
fn list_paint_inverts_the_selected_row() {
    let mut list: ListPanel<u8> = ListPanel::new();
    list.add_item(0, "A");
    list.add_item(1, "B");
    list.set_size(2, 128);
    list.set_current(1);
    let mut canvas = MonochromeCanvas::new(128, 64);
    list.paint(&mut canvas, 0, 0);
    // Row 1 holds the selection: its left edge byte is inverted background.
    assert_eq!(canvas.data()[128], 0xFF);
    // Row 0 background stays clear.
    assert_eq!(canvas.data()[0], 0x00);
    assert!(!list.dirty);
}
