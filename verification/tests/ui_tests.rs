use tiliqua_ui::encoder::Encoder;
use tiliqua_ui::i2c::ErrorKind;
use tiliqua_ui::i2c::I2cBus;
use tiliqua_ui::i2c::Operation;
use tiliqua_ui::leds::mobo_pca9635_set_bargraph;
use tiliqua_ui::leds::mobo_pca9635_set_midi;
use tiliqua_ui::opt::OptionPage;
use tiliqua_ui::optif::OptInterface;
use tiliqua_ui::optif::PmodLedCmd;
use tiliqua_ui::opts::Options;
use tiliqua_ui::opts::Screen;
use tiliqua_ui::pca9635::Pca9635Driver;

/// A bus double: accepts every transaction and records it.
struct MockBus {
    writes: Vec<(u8, Vec<Operation>)>,
}

impl MockBus {
    fn new() -> MockBus {
        MockBus { writes: Vec::new() }
    }
}

impl I2cBus for MockBus {
    fn transaction(
        &mut self,
        address: u8,
        operations: &mut Vec<Operation>,
    ) -> Result<(), ErrorKind> {
        self.writes.push((address, operations.clone()));
        Ok(())
    }
}

fn write_bytes(op: &Operation) -> &Vec<u8> {
    match op {
        Operation::Write(b) => b,
        Operation::Read(b) => b,
    }
}

fn new_ui() -> OptInterface<Options, MockBus> {
    let opts = Options::new();
    let encoder = Encoder::new(false);
    let pca9635 = Pca9635Driver::new(MockBus::new());
    OptInterface::new(opts, 5, encoder, pca9635)
}

#[test]
fn pca9635_push_sends_the_fixed_control_block() {
    let mut drv = Pca9635Driver::new(MockBus::new());
    drv.leds[0] = 0x11;
    drv.leds[15] = 0x22;
    assert!(drv.push().is_ok());
    assert_eq!(drv.i2c.writes.len(), 1);
    let (addr, ops) = &drv.i2c.writes[0];
    assert_eq!(*addr, 5);
    assert_eq!(ops.len(), 1);
    let bytes = write_bytes(&ops[0]);
    assert_eq!(bytes.len(), 25);
    assert_eq!(&bytes[0..3], &[0x80, 0x81, 0x01]);
    assert_eq!(bytes[3], 0x11);
    assert_eq!(bytes[18], 0x22);
    assert_eq!(&bytes[19..25], &[0xFF, 0x00, 0xAA, 0xAA, 0xAA, 0xAA]);
}

#[test]
fn bargraph_lights_pairs_by_normalized_value() {
    // trig sns = 1000 in [100, 5000]: 12*900 = 10800 against pair
    // thresholds of 4900 per twelfth; pairs 0..3 show green, none red.
    let mut o = Options::new();
    o.modify = false;
    o.screen.value = Screen::Scope;
    o.scope.selected = Some(2);
    let mut leds = [0u8; 16];
    mobo_pca9635_set_bargraph(&o, &mut leds, false);
    let mut expected = [0u8; 16];
    expected[0] = 0xff;
    expected[2] = 0xff;
    expected[14] = 0xff;
    expected[12] = 0xff;
    assert_eq!(leds, expected);
}

#[test]
fn bargraph_untouched_without_selection() {
    let mut o = Options::new();
    o.modify = false;
    let mut leds = [7u8; 16];
    mobo_pca9635_set_bargraph(&o, &mut leds, false);
    assert_eq!(leds, [7u8; 16]);
}

#[test]
fn bargraph_blinks_dark_while_modifying() {
    let mut o = Options::new();
    o.modify = true;
    o.xbeam.selected = Some(0);
    let mut leds = [0u8; 16];
    mobo_pca9635_set_bargraph(&o, &mut leds, false);
    assert_eq!(leds, [0u8; 16]);
    // with the toggle phase high the bar shows
    let mut leds2 = [0u8; 16];
    mobo_pca9635_set_bargraph(&o, &mut leds2, true);
    assert_ne!(leds2, [0u8; 16]);
}

#[test]
fn midi_pair_channels() {
    let mut leds = [0u8; 16];
    mobo_pca9635_set_midi(&mut leds, 0x40, 0x80);
    assert_eq!(leds[8], 0x80);
    assert_eq!(leds[9], 0x40);
}

#[test]
fn update_pushes_one_frame_per_tick() {
    let mut ui = new_ui();
    ui.update(0, false);
    ui.update(0, false);
    assert_eq!(ui.pca9635.i2c.writes.len(), 2);
    let (addr, ops) = &ui.pca9635.i2c.writes[0];
    assert_eq!(*addr, 5);
    assert_eq!(write_bytes(&ops[0]).len(), 25);
}

#[test]
fn encoder_detent_changes_screen_in_modify_mode() {
    // the demonstration menu starts in modify mode at the screen level,
    // so one full detent advances the screen selector
    let mut ui = new_ui();
    ui.update(1, false);
    assert_eq!(ui.opts.screen.value, Screen::Xbeam);
    ui.update(1, false);
    assert_eq!(ui.opts.screen.value, Screen::Scope);
}

#[test]
fn click_through_update_toggles_modify() {
    let mut ui = new_ui();
    assert!(ui.opts.modify);
    ui.update(0, true); // press
    assert!(ui.opts.modify);
    ui.update(0, false); // release completes the click
    assert!(!ui.opts.modify);
}

#[test]
fn draw_hint_follows_recent_interaction() {
    let mut ui = new_ui();
    ui.update(2, false); // a tick: recently touched
    assert!(ui.opts.draw);
    ui.update(0, true);
    ui.update(0, false); // click: modify off
    assert!(!ui.opts.modify);
    // after the fade time with no interaction the hint clears
    for _ in 0..300 {
        ui.update(0, false);
    }
    assert!(!ui.opts.draw);
}

#[test]
fn update_reports_blink_commands_in_modify_mode() {
    // modify mode, no selection: metering until the blink phase flips at
    // ten periods of uptime, then the screen selector LED in green
    let mut ui = new_ui();
    for i in 1..=10 {
        let cmds = ui.update(0, false);
        if i < 10 {
            assert_eq!(cmds, vec![PmodLedCmd::AllAuto]);
        } else {
            assert_eq!(cmds, vec![PmodLedCmd::Manual { index: 0, value: i8::MIN }]);
        }
    }
}

#[test]
fn update_reports_fade_commands_after_interaction() {
    let mut ui = new_ui();
    ui.update(0, true);
    ui.update(0, false); // click: browse mode, recently touched
    let cmds = ui.update(0, false);
    // eight cleared channels plus the green screen-level fade LED
    assert_eq!(cmds.len(), 9);
    for (n, cmd) in cmds.iter().take(8).enumerate() {
        assert_eq!(*cmd, PmodLedCmd::Manual { index: n, value: 0 });
    }
    // five milliseconds into the 1000 ms fade: (1000 - 5) * 120 / 1000
    assert_eq!(cmds[8], PmodLedCmd::Manual { index: 0, value: -119 });
}

#[test]
fn update_consumes_tick_batches() {
    let mut ui = new_ui();
    ui.update(0, true);
    ui.update(0, false); // browse mode
    ui.update(6, false); // three detents at once: enter list, step twice
    assert_eq!(ui.opts.xbeam.selected, Some(2));
}
