use tiliqua_ui::opt::OptionPage;
use tiliqua_ui::opt::OptionView;
use tiliqua_ui::opts::Options;
use tiliqua_ui::opts::Screen;
use tiliqua_ui::opts_sid;
use tiliqua_ui::opts_sid::ModulationTarget;
use tiliqua_ui::opts_sid::VoiceModulationType;

#[test]
fn tick_up_enters_option_list_of_nonempty_view() {
    let mut o = Options::new();
    o.modify = false;
    assert_eq!(o.active_selected(), None);
    o.tick_up();
    assert_eq!(o.active_selected(), Some(0));
    assert_eq!(o.xbeam.selected, Some(0));
}

#[test]
fn tick_down_from_first_option_exits_to_screen_level() {
    let mut o = Options::new();
    o.modify = false;
    o.xbeam.selected = Some(0);
    o.tick_down();
    assert_eq!(o.active_selected(), None);
}

#[test]
fn tick_down_at_screen_level_in_browse_mode_is_a_no_op() {
    let mut o = Options::new();
    o.modify = false;
    o.tick_down();
    assert_eq!(o.active_selected(), None);
    assert_eq!(o.screen.value, Screen::Xbeam);
}

#[test]
fn browse_cursor_stops_at_last_option() {
    let mut o = Options::new();
    o.modify = false;
    o.xbeam.selected = Some(0);
    for _ in 0..10 {
        o.tick_up();
    }
    // the vector-beam view has four options
    assert_eq!(o.xbeam.selected, Some(3));
}

#[test]
fn modify_tick_at_screen_level_changes_screen() {
    let mut o = Options::new();
    assert!(o.modify);
    assert_eq!(o.screen.value, Screen::Xbeam);
    o.tick_up();
    assert_eq!(o.screen.value, Screen::Scope);
    o.tick_down();
    assert_eq!(o.screen.value, Screen::Xbeam);
    // no wraparound at either end of the screen list
    o.tick_down();
    assert_eq!(o.screen.value, Screen::Xbeam);
}

#[test]
fn modify_tick_edits_selected_option() {
    let mut o = Options::new();
    o.modify = true;
    o.xbeam.selected = Some(0);
    o.tick_up();
    assert_eq!(o.xbeam.persist.value, 1280);
    o.tick_down();
    assert_eq!(o.xbeam.persist.value, 1024);
}

#[test]
fn click_flips_modify_and_touches_nothing_else() {
    let mut o = Options::new();
    o.modify = false;
    o.scope.selected = Some(1);
    let persist = o.xbeam.persist.value;
    let trig_lvl = o.scope.trig_lvl.value;
    let screen = o.screen.value;
    o.toggle_modify();
    assert!(o.modify);
    assert_eq!(o.scope.selected, Some(1));
    assert_eq!(o.xbeam.persist.value, persist);
    assert_eq!(o.scope.trig_lvl.value, trig_lvl);
    assert_eq!(o.screen.value, screen);
    o.toggle_modify();
    assert!(!o.modify);
    assert_eq!(o.scope.selected, Some(1));
}

#[test]
fn consume_ticks_applies_batches() {
    let mut o = Options::new();
    o.modify = false;
    o.consume_ticks(3);
    // enter the list, then step twice
    assert_eq!(o.xbeam.selected, Some(2));
    o.consume_ticks(-3);
    assert_eq!(o.xbeam.selected, None);
}

#[test]
fn end_to_end_scenario() {
    // From the screen level: enter the list, edit the first option once in
    // modify mode, leave modify mode, and step the cursor once.
    let mut o = Options::new();
    o.modify = false;
    o.tick_up(); // select option 0
    o.toggle_modify(); // click: edit mode
    o.tick_up(); // edit options[0] once
    o.toggle_modify(); // click: back to browse
    o.tick_up(); // move the cursor
    assert_eq!(o.screen.value, Screen::Xbeam);
    assert_eq!(o.xbeam.selected, Some(1));
    assert!(!o.modify);
    assert_eq!(o.xbeam.persist.value, 1024 + 256);
}

#[test]
fn end_to_end_two_edit_ticks_keep_cursor_put() {
    // The same five events with both clicks at the end of the edit phase:
    // both middle ticks edit the option and the cursor never moves.
    let mut o = Options::new();
    o.modify = false;
    o.tick_up();
    o.toggle_modify();
    o.tick_up();
    o.tick_up();
    o.toggle_modify();
    assert_eq!(o.screen.value, Screen::Xbeam);
    assert_eq!(o.xbeam.selected, Some(0));
    assert!(!o.modify);
    assert_eq!(o.xbeam.persist.value, 1024 + 512);
}

#[test]
fn navigation_is_per_view() {
    let mut o = Options::new();
    o.modify = true;
    o.tick_up(); // screen -> Scope
    o.modify = false;
    o.tick_up(); // select scope option 0
    assert_eq!(o.scope.selected, Some(0));
    assert_eq!(o.xbeam.selected, None);
    o.modify = true;
    o.tick_up(); // edit grain_sz: already at its maximum 1000
    assert_eq!(o.scope.grain_sz.value, 1000);
    o.tick_down();
    assert_eq!(o.scope.grain_sz.value, 999);
}

#[test]
fn sid_menu_navigates_six_screens() {
    let mut o = opts_sid::Options::new();
    assert_eq!(o.screen.value, opts_sid::Screen::Voice1);
    o.modify = true;
    o.tick_down();
    assert_eq!(o.screen.value, opts_sid::Screen::Modulate);
    o.tick_down();
    assert_eq!(o.screen.value, opts_sid::Screen::Modulate);
    for _ in 0..10 {
        o.tick_up();
    }
    assert_eq!(o.screen.value, opts_sid::Screen::Scope);
}

#[test]
fn sid_voice_defaults() {
    let v = opts_sid::VoiceOptions::new();
    assert_eq!(v.freq.value, 1000);
    assert_eq!(v.wave.value, opts_sid::Wave::Noise);
    assert_eq!(v.sustain.value, 15);
    assert_eq!(v.len(), 11);
}

#[test]
fn sid_modulates_voice_table() {
    assert_eq!(
        ModulationTarget::Freq1.modulates_voice(0),
        Some(VoiceModulationType::Frequency)
    );
    assert_eq!(ModulationTarget::Freq1.modulates_voice(1), None);
    assert_eq!(
        ModulationTarget::Freq12.modulates_voice(0),
        Some(VoiceModulationType::Frequency)
    );
    assert_eq!(
        ModulationTarget::Freq12.modulates_voice(1),
        Some(VoiceModulationType::Frequency)
    );
    assert_eq!(ModulationTarget::Freq12.modulates_voice(2), None);
    assert_eq!(
        ModulationTarget::Gate3.modulates_voice(2),
        Some(VoiceModulationType::Gate)
    );
    assert_eq!(
        ModulationTarget::PWidth2.modulates_voice(1),
        Some(VoiceModulationType::PulseWidth)
    );
    assert_eq!(ModulationTarget::FiltCut.modulates_voice(0), None);
    assert_eq!(ModulationTarget::Nothing.modulates_voice(0), None);
}
