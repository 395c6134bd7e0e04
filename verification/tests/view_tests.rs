use tiliqua_ui::opt::EnumOption;
use tiliqua_ui::opt::EnumValues;
use tiliqua_ui::opt::OptionPage;
use tiliqua_ui::opt::OptionView;
use tiliqua_ui::opts::Options;
use tiliqua_ui::opts::Screen;
use tiliqua_ui::palette::ColorPalette;

#[test]
fn view_lists_names_and_values_in_order() {
    let o = Options::new();
    assert_eq!(o.xbeam.len(), 4);
    assert_eq!(o.xbeam.name_at(0), "persist");
    assert_eq!(o.xbeam.value_at(0), "1024");
    assert_eq!(o.xbeam.name_at(3), "decay");
    assert_eq!(o.xbeam.value_at(3), "1");
    assert_eq!(o.touch.name_at(0), "control");
    assert_eq!(o.touch.value_at(0), "touch");
    assert_eq!(o.touch.value_at(1), "mirror-on");
}

#[test]
fn page_reports_active_view() {
    let mut o = Options::new();
    assert_eq!(o.screen_index(), 0);
    assert_eq!(o.screen_count(), 3);
    assert_eq!(o.active_len(), 4);
    o.screen.value = Screen::Touch;
    assert_eq!(o.screen_index(), 2);
    assert_eq!(o.active_len(), 2);
}

#[test]
fn selected_ratio_follows_the_cursor() {
    let mut o = Options::new();
    assert_eq!(o.selected_ratio(), None);
    o.xbeam.selected = Some(1);
    // hue 0 in [0, 15]
    assert_eq!(o.selected_ratio(), Some((0, 15)));
}

#[test]
fn set_selected_only_moves_the_cursor() {
    let mut o = Options::new();
    let persist = o.xbeam.persist.value;
    o.xbeam.set_selected(Some(2));
    assert_eq!(o.xbeam.selected(), Some(2));
    assert_eq!(o.xbeam.persist.value, persist);
    o.xbeam.set_selected(None);
    assert_eq!(o.xbeam.selected(), None);
}

#[test]
fn palette_variants_step_in_order() {
    let mut p = EnumOption::new(String::from("palette"), ColorPalette::Exp);
    assert_eq!(p.value(), "exp");
    p.tick_up();
    assert_eq!(p.value.index(), 1);
    assert_eq!(p.value(), "linear");
    p.tick_up();
    p.tick_up();
    assert_eq!(p.value(), "inv-gray");
    p.tick_up();
    assert_eq!(p.value, ColorPalette::InvGray);
    assert_eq!(ColorPalette::count(), 4);
}

#[test]
fn tick_at_index_edits_exactly_that_option() {
    let mut o = Options::new();
    o.scope.tick_up_at(1);
    assert_eq!(o.scope.trig_lvl.value, 100);
    assert_eq!(o.scope.grain_sz.value, 1000);
    assert_eq!(o.scope.trig_sns.value, 1000);
    o.scope.tick_down_at(1);
    assert_eq!(o.scope.trig_lvl.value, 0);
}
