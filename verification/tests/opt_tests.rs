use tiliqua_ui::opt::EnumValues;
use tiliqua_ui::opt::NumOption;
use tiliqua_ui::opt::EnumOption;
use tiliqua_ui::opt::i64_dec_string;
use tiliqua_ui::opts::NoteControl;
use tiliqua_ui::opts::Screen;
use tiliqua_ui::opts::TouchLedMirror;

fn persist() -> NumOption {
    NumOption::new(String::from("persist"), 1024, 256, 512, 32768)
}

fn hue() -> NumOption {
    NumOption::new(String::from("hue"), 0, 1, 0, 15)
}

#[test]
fn num_tick_up_steps() {
    let mut o = persist();
    o.tick_up();
    assert_eq!(o.value, 1280);
    o.tick_down();
    assert_eq!(o.value, 1024);
}

#[test]
fn num_tick_up_never_exceeds_max() {
    let mut o = hue();
    for _ in 0..100 {
        o.tick_up();
        assert!(o.value <= 15);
    }
    assert_eq!(o.value, 15);
}

#[test]
fn num_tick_down_never_undershoots_min() {
    let mut o = persist();
    for _ in 0..1000 {
        o.tick_down();
        assert!(o.value >= 512);
    }
    assert_eq!(o.value, 512);
}

#[test]
fn num_tick_saturates_at_max_without_overshoot() {
    // 1024 + 256 * k walks 1280, 1536, ...; near the top the step clamps.
    let mut o = NumOption::new(String::from("x"), 32700, 256, 512, 32768);
    o.tick_up();
    assert_eq!(o.value, 32768);
    o.tick_up();
    assert_eq!(o.value, 32768);
}

#[test]
fn num_round_trip_when_unclamped() {
    let mut o = persist();
    for _ in 0..5 {
        o.tick_up();
    }
    for _ in 0..5 {
        o.tick_down();
    }
    assert_eq!(o.value, 1024);
}

#[test]
fn num_round_trip_fails_after_clamp() {
    // Saturation is not invertible: once the walk hits the maximum, the
    // way back down ends lower than the start.
    let mut o = hue();
    for _ in 0..15 {
        o.tick_up();
    }
    assert_eq!(o.value, 15);
    o.tick_up(); // clamped
    o.tick_down();
    assert_eq!(o.value, 14);
}

#[test]
fn num_value_renders_decimal() {
    assert_eq!(persist().value(), "1024");
    let neg = NumOption::new(String::from("ypos"), -150, 25, -500, 500);
    assert_eq!(neg.value(), "-150");
    let zero = NumOption::new(String::from("z"), 0, 1, 0, 15);
    assert_eq!(zero.value(), "0");
}

#[test]
fn dec_string_exact() {
    assert_eq!(i64_dec_string(0), "0");
    assert_eq!(i64_dec_string(9), "9");
    assert_eq!(i64_dec_string(10), "10");
    assert_eq!(i64_dec_string(32768), "32768");
    assert_eq!(i64_dec_string(-1), "-1");
    assert_eq!(i64_dec_string(-10000), "-10000");
}

#[test]
fn enum_tick_up_no_wraparound_at_last() {
    let mut o = EnumOption::new(String::from("screen"), Screen::Touch);
    o.tick_up();
    assert_eq!(o.value, Screen::Touch);
}

#[test]
fn enum_tick_down_no_wraparound_at_first() {
    let mut o = EnumOption::new(String::from("screen"), Screen::Xbeam);
    o.tick_down();
    assert_eq!(o.value, Screen::Xbeam);
}

#[test]
fn enum_tick_walks_iteration_order() {
    let mut o = EnumOption::new(String::from("screen"), Screen::Xbeam);
    o.tick_up();
    assert_eq!(o.value, Screen::Scope);
    o.tick_up();
    assert_eq!(o.value, Screen::Touch);
    o.tick_down();
    assert_eq!(o.value, Screen::Scope);
}

#[test]
fn enum_value_renders_label() {
    let o = EnumOption::new(String::from("led"), TouchLedMirror::MirrorOff);
    assert_eq!(o.value(), "mirror-off");
    let o2 = EnumOption::new(String::from("control"), NoteControl::Midi);
    assert_eq!(o2.value(), "midi");
    assert_eq!(Screen::Xbeam.label(), "XBEAM");
}

#[test]
fn enum_index_round_trip() {
    for i in 0..Screen::count() {
        assert_eq!(Screen::from_index(i).index(), i);
    }
}

#[test]
fn option_names_kept() {
    assert_eq!(persist().name().as_str(), "persist");
    let o = EnumOption::new(String::from("control"), NoteControl::Touch);
    assert_eq!(o.name().as_str(), "control");
}

#[test]
fn ratio_spans_range() {
    let o = persist();
    let (num, den) = o.ratio();
    assert_eq!(num, 512);
    assert_eq!(den, 32256);
    let e = EnumOption::new(String::from("screen"), Screen::Scope);
    assert_eq!(e.ratio(), (1, 3));
}
