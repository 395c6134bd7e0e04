//! The option set of the demonstration firmware: three screens (vector
//! beam, oscilloscope, touch) of numeric and enumerated options.

use vstd::prelude::*;

use crate::opt::EnumOption;
use crate::opt::EnumValues;
use crate::opt::NumOption;
use crate::opt::OptionPage;
use crate::opt::OptionString;
use crate::opt::OptionView;
use crate::opt::PageModel;
use crate::opt::ViewModel;
use crate::opt::opt_tick_down;
use crate::opt::opt_tick_up;
use crate::opt::page_consume_ticks;
use crate::opt::page_ok;
use crate::opt::page_tick_down;
use crate::opt::page_tick_up;
use crate::opt::run_ticks;
use crate::opt::sel_view;
use crate::opt::view_nav_down;
use crate::opt::view_nav_up;

verus! {

#[derive(Clone, Copy, PartialEq, Eq, Structural, Debug)]
pub enum TouchLedMirror {
    MirrorOff,
    MirrorOn,
}

impl EnumValues for TouchLedMirror {
    open spec fn labels() -> Seq<Seq<char>> {
        seq!["mirror-off"@, "mirror-on"@]
    }

    open spec fn index_of(self) -> int {
        match self {
            TouchLedMirror::MirrorOff => 0,
            TouchLedMirror::MirrorOn => 1,
        }
    }

    proof fn index_in_range(self) {
    }

    fn count() -> usize {
        2
    }

    fn index(self) -> usize {
        match self {
            TouchLedMirror::MirrorOff => 0,
            TouchLedMirror::MirrorOn => 1,
        }
    }

    fn from_index(i: usize) -> Self {
        if i == 0 {
            TouchLedMirror::MirrorOff
        } else {
            TouchLedMirror::MirrorOn
        }
    }

    fn label(self) -> &'static str {
        match self {
            TouchLedMirror::MirrorOff => "mirror-off",
            TouchLedMirror::MirrorOn => "mirror-on",
        }
    }
}

#[derive(Clone, Copy, PartialEq, Eq, Structural, Debug)]
pub enum NoteControl {
    Touch,
    Midi,
}

impl EnumValues for NoteControl {
    open spec fn labels() -> Seq<Seq<char>> {
        seq!["touch"@, "midi"@]
    }

    open spec fn index_of(self) -> int {
        match self {
            NoteControl::Touch => 0,
            NoteControl::Midi => 1,
        }
    }

    proof fn index_in_range(self) {
    }

    fn count() -> usize {
        2
    }

    fn index(self) -> usize {
        match self {
            NoteControl::Touch => 0,
            NoteControl::Midi => 1,
        }
    }

    fn from_index(i: usize) -> Self {
        if i == 0 {
            NoteControl::Touch
        } else {
            NoteControl::Midi
        }
    }

    fn label(self) -> &'static str {
        match self {
            NoteControl::Touch => "touch",
            NoteControl::Midi => "midi",
        }
    }
}

#[derive(Clone, Copy, PartialEq, Eq, Structural, Debug)]
pub enum Screen {
    Xbeam,
    Scope,
    Touch,
}

impl EnumValues for Screen {
    open spec fn labels() -> Seq<Seq<char>> {
        seq!["XBEAM"@, "SCOPE"@, "TOUCH"@]
    }

    open spec fn index_of(self) -> int {
        match self {
            Screen::Xbeam => 0,
            Screen::Scope => 1,
            Screen::Touch => 2,
        }
    }

    proof fn index_in_range(self) {
    }

    fn count() -> usize {
        3
    }

    fn index(self) -> usize {
        match self {
            Screen::Xbeam => 0,
            Screen::Scope => 1,
            Screen::Touch => 2,
        }
    }

    fn from_index(i: usize) -> Self {
        if i == 0 {
            Screen::Xbeam
        } else if i == 1 {
            Screen::Scope
        } else {
            Screen::Touch
        }
    }

    fn label(self) -> &'static str {
        match self {
            Screen::Xbeam => "XBEAM",
            Screen::Scope => "SCOPE",
            Screen::Touch => "TOUCH",
        }
    }
}

/// Options of the vector-beam screen.
#[derive(Clone)]
pub struct XbeamOptions {
    pub selected: Option<usize>,
    pub persist: NumOption,
    pub hue: NumOption,
    pub intensity: NumOption,
    pub decay: NumOption,
}

impl OptionView for XbeamOptions {
    open spec fn view_model(&self) -> ViewModel {
        ViewModel {
            selected: sel_view(self.selected),
            options: seq![
                self.persist.model(),
                self.hue.model(),
                self.intensity.model(),
                self.decay.model(),
            ],
        }
    }

    fn selected(&self) -> Option<usize> {
        self.selected
    }

    fn set_selected(&mut self, s: Option<usize>) {
        self.selected = s;
    }

    fn len(&self) -> usize {
        4
    }

    fn tick_up_at(&mut self, i: usize) {
        match i {
            0 => self.persist.tick_up(),
            1 => self.hue.tick_up(),
            2 => self.intensity.tick_up(),
            _ => self.decay.tick_up(),
        }
        proof {
            assert(self.view_model() =~= (ViewModel {
                options: old(self).view_model().options.update(
                    i as int,
                    opt_tick_up(old(self).view_model().options[i as int]),
                ),
                ..old(self).view_model()
            }));
        }
    }

    fn tick_down_at(&mut self, i: usize) {
        match i {
            0 => self.persist.tick_down(),
            1 => self.hue.tick_down(),
            2 => self.intensity.tick_down(),
            _ => self.decay.tick_down(),
        }
        proof {
            assert(self.view_model() =~= (ViewModel {
                options: old(self).view_model().options.update(
                    i as int,
                    opt_tick_down(old(self).view_model().options[i as int]),
                ),
                ..old(self).view_model()
            }));
        }
    }

    fn name_at(&self, i: usize) -> OptionString {
        match i {
            0 => self.persist.name().clone(),
            1 => self.hue.name().clone(),
            2 => self.intensity.name().clone(),
            _ => self.decay.name().clone(),
        }
    }

    fn value_at(&self, i: usize) -> OptionString {
        match i {
            0 => self.persist.value(),
            1 => self.hue.value(),
            2 => self.intensity.value(),
            _ => self.decay.value(),
        }
    }

    fn ratio_at(&self, i: usize) -> (i64, i64) {
        match i {
            0 => self.persist.ratio(),
            1 => self.hue.ratio(),
            2 => self.intensity.ratio(),
            _ => self.decay.ratio(),
        }
    }
}

/// Options of the oscilloscope screen.
#[derive(Clone)]
pub struct ScopeOptions {
    pub selected: Option<usize>,
    pub grain_sz: NumOption,
    pub trig_lvl: NumOption,
    pub trig_sns: NumOption,
}

impl OptionView for ScopeOptions {
    open spec fn view_model(&self) -> ViewModel {
        ViewModel {
            selected: sel_view(self.selected),
            options: seq![
                self.grain_sz.model(),
                self.trig_lvl.model(),
                self.trig_sns.model(),
            ],
        }
    }

    fn selected(&self) -> Option<usize> {
        self.selected
    }

    fn set_selected(&mut self, s: Option<usize>) {
        self.selected = s;
    }

    fn len(&self) -> usize {
        3
    }

    fn tick_up_at(&mut self, i: usize) {
        match i {
            0 => self.grain_sz.tick_up(),
            1 => self.trig_lvl.tick_up(),
            _ => self.trig_sns.tick_up(),
        }
        proof {
            assert(self.view_model() =~= (ViewModel {
                options: old(self).view_model().options.update(
                    i as int,
                    opt_tick_up(old(self).view_model().options[i as int]),
                ),
                ..old(self).view_model()
            }));
        }
    }

    fn tick_down_at(&mut self, i: usize) {
        match i {
            0 => self.grain_sz.tick_down(),
            1 => self.trig_lvl.tick_down(),
            _ => self.trig_sns.tick_down(),
        }
        proof {
            assert(self.view_model() =~= (ViewModel {
                options: old(self).view_model().options.update(
                    i as int,
                    opt_tick_down(old(self).view_model().options[i as int]),
                ),
                ..old(self).view_model()
            }));
        }
    }

    fn name_at(&self, i: usize) -> OptionString {
        match i {
            0 => self.grain_sz.name().clone(),
            1 => self.trig_lvl.name().clone(),
            _ => self.trig_sns.name().clone(),
        }
    }

    fn value_at(&self, i: usize) -> OptionString {
        match i {
            0 => self.grain_sz.value(),
            1 => self.trig_lvl.value(),
            _ => self.trig_sns.value(),
        }
    }

    fn ratio_at(&self, i: usize) -> (i64, i64) {
        match i {
            0 => self.grain_sz.ratio(),
            1 => self.trig_lvl.ratio(),
            _ => self.trig_sns.ratio(),
        }
    }
}

/// Options of the touch screen.
#[derive(Clone)]
pub struct TouchOptions {
    pub selected: Option<usize>,
    pub note_control: EnumOption<NoteControl>,
    pub led_mirror: EnumOption<TouchLedMirror>,
}

impl OptionView for TouchOptions {
    open spec fn view_model(&self) -> ViewModel {
        ViewModel {
            selected: sel_view(self.selected),
            options: seq![self.note_control.model(), self.led_mirror.model()],
        }
    }

    fn selected(&self) -> Option<usize> {
        self.selected
    }

    fn set_selected(&mut self, s: Option<usize>) {
        self.selected = s;
    }

    fn len(&self) -> usize {
        2
    }

    fn tick_up_at(&mut self, i: usize) {
        match i {
            0 => self.note_control.tick_up(),
            _ => self.led_mirror.tick_up(),
        }
        proof {
            assert(self.view_model() =~= (ViewModel {
                options: old(self).view_model().options.update(
                    i as int,
                    opt_tick_up(old(self).view_model().options[i as int]),
                ),
                ..old(self).view_model()
            }));
        }
    }

    fn tick_down_at(&mut self, i: usize) {
        match i {
            0 => self.note_control.tick_down(),
            _ => self.led_mirror.tick_down(),
        }
        proof {
            assert(self.view_model() =~= (ViewModel {
                options: old(self).view_model().options.update(
                    i as int,
                    opt_tick_down(old(self).view_model().options[i as int]),
                ),
                ..old(self).view_model()
            }));
        }
    }

    fn name_at(&self, i: usize) -> OptionString {
        match i {
            0 => self.note_control.name().clone(),
            _ => self.led_mirror.name().clone(),
        }
    }

    fn value_at(&self, i: usize) -> OptionString {
        match i {
            0 => self.note_control.value(),
            _ => self.led_mirror.value(),
        }
    }

    fn ratio_at(&self, i: usize) -> (i64, i64) {
        match i {
            0 => self.note_control.ratio(),
            _ => self.led_mirror.ratio(),
        }
    }
}

/// The root menu of the demonstration firmware.
#[derive(Clone)]
pub struct Options {
    pub modify: bool,
    pub draw: bool,
    pub screen: EnumOption<Screen>,
    pub xbeam: XbeamOptions,
    pub scope: ScopeOptions,
    pub touch: TouchOptions,
}

impl Options {
    /// The hard-coded menu the firmware starts with.
    pub fn new() -> (r: Options)
        ensures
            page_ok(r.page()),
            r.modify == true,
            r.draw == false,
            r.screen.value == Screen::Xbeam,
            r.xbeam.selected is None,
            r.scope.selected is None,
            r.touch.selected is None,
            r.xbeam.persist.value == 1024,
            r.xbeam.hue.value == 0,
            r.xbeam.intensity.value == 6,
            r.xbeam.decay.value == 1,
            r.scope.grain_sz.value == 1000,
            r.scope.trig_lvl.value == 0,
            r.scope.trig_sns.value == 1000,
            r.touch.note_control.value == NoteControl::Touch,
            r.touch.led_mirror.value == TouchLedMirror::MirrorOn,
    {
        Options {
            modify: true,
            draw: false,
            screen: EnumOption::new(String::from_str("screen"), Screen::Xbeam),
            xbeam: XbeamOptions {
                selected: None,
                persist: NumOption::new(String::from_str("persist"), 1024, 256, 512, 32768),
                hue: NumOption::new(String::from_str("hue"), 0, 1, 0, 15),
                intensity: NumOption::new(String::from_str("intensity"), 6, 1, 0, 15),
                decay: NumOption::new(String::from_str("decay"), 1, 1, 0, 15),
            },
            scope: ScopeOptions {
                selected: None,
                grain_sz: NumOption::new(String::from_str("grainsz"), 1000, 1, 512, 1000),
                trig_lvl: NumOption::new(String::from_str("trig lvl"), 0, 100, -10000, 10000),
                trig_sns: NumOption::new(String::from_str("trig sns"), 1000, 100, 100, 5000),
            },
            touch: TouchOptions {
                selected: None,
                note_control: EnumOption::new(String::from_str("control"), NoteControl::Touch),
                led_mirror: EnumOption::new(String::from_str("led"), TouchLedMirror::MirrorOn),
            },
        }
    }
}

impl Options {
    /// Apply a signed batch of encoder ticks to the menu.
    pub fn consume_ticks(&mut self, ticks: i8)
        requires
            page_ok(old(self).page()),
        ensures
            final(self).page() == page_consume_ticks(old(self).page(), ticks as int),
    {
        run_ticks(self, ticks);
    }
}

impl OptionPage for Options {
    open spec fn page(&self) -> PageModel {
        PageModel {
            modify: self.modify,
            draw: self.draw,
            screen: self.screen.model(),
            views: seq![
                self.xbeam.view_model(),
                self.scope.view_model(),
                self.touch.view_model(),
            ],
        }
    }

    fn modify(&self) -> bool {
        self.modify
    }

    fn toggle_modify(&mut self) {
        self.modify = !self.modify;
        proof {
            assert(self.page() =~= (PageModel {
                modify: !old(self).page().modify,
                ..old(self).page()
            }));
        }
    }

    fn draw(&self) -> bool {
        self.draw
    }

    fn set_draw(&mut self, d: bool) {
        self.draw = d;
        proof {
            assert(self.page() =~= (PageModel { draw: d, ..old(self).page() }));
        }
    }

    fn tick_up(&mut self) {
        let m = self.modify;
        let st = match self.screen.value {
            Screen::Xbeam => view_nav_up(&mut self.xbeam, m),
            Screen::Scope => view_nav_up(&mut self.scope, m),
            Screen::Touch => view_nav_up(&mut self.touch, m),
        };
        if st {
            self.screen.tick_up();
        }
        proof {
            assert(self.page() =~= page_tick_up(old(self).page()));
        }
    }

    fn tick_down(&mut self) {
        let m = self.modify;
        let st = match self.screen.value {
            Screen::Xbeam => view_nav_down(&mut self.xbeam, m),
            Screen::Scope => view_nav_down(&mut self.scope, m),
            Screen::Touch => view_nav_down(&mut self.touch, m),
        };
        if st {
            self.screen.tick_down();
        }
        proof {
            assert(self.page() =~= page_tick_down(old(self).page()));
        }
    }

    fn active_selected(&self) -> Option<usize> {
        match self.screen.value {
            Screen::Xbeam => self.xbeam.selected(),
            Screen::Scope => self.scope.selected(),
            Screen::Touch => self.touch.selected(),
        }
    }

    fn active_len(&self) -> usize {
        match self.screen.value {
            Screen::Xbeam => self.xbeam.len(),
            Screen::Scope => self.scope.len(),
            Screen::Touch => self.touch.len(),
        }
    }

    fn selected_ratio(&self) -> Option<(i64, i64)> {
        let s = match self.screen.value {
            Screen::Xbeam => self.xbeam.selected(),
            Screen::Scope => self.scope.selected(),
            Screen::Touch => self.touch.selected(),
        };
        match s {
            Some(i) => Some(
                match self.screen.value {
                    Screen::Xbeam => self.xbeam.ratio_at(i),
                    Screen::Scope => self.scope.ratio_at(i),
                    Screen::Touch => self.touch.ratio_at(i),
                },
            ),
            None => None,
        }
    }

    fn screen_index(&self) -> usize {
        self.screen.value.index()
    }

    fn screen_count(&self) -> usize {
        Screen::count()
    }
}

} // verus!
