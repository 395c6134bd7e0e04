//! The option set of the SID-voice firmware: six screens of modulation,
//! per-voice, filter and oscilloscope options.

use vstd::prelude::*;

use crate::opt::EnumOption;
use crate::opt::EnumValues;
use crate::opt::NumOption;
use crate::opt::OptionPage;
use crate::opt::OptionString;
use crate::opt::OptionView;
use crate::opt::PageModel;
use crate::opt::ViewModel;
use crate::opt::opt_tick_down;
use crate::opt::opt_tick_up;
use crate::opt::page_consume_ticks;
use crate::opt::page_ok;
use crate::opt::page_tick_down;
use crate::opt::page_tick_up;
use crate::opt::run_ticks;
use crate::opt::sel_view;
use crate::opt::view_nav_down;
use crate::opt::view_nav_up;

verus! {

#[derive(Clone, Copy, PartialEq, Eq, Structural, Debug)]
pub enum Screen {
    Modulate,
    Voice1,
    Voice2,
    Voice3,
    Filter,
    Scope,
}

impl EnumValues for Screen {
    open spec fn labels() -> Seq<Seq<char>> {
        seq!["MODULATE"@, "VOICE1"@, "VOICE2"@, "VOICE3"@, "FILTER"@, "SCOPE"@]
    }

    open spec fn index_of(self) -> int {
        match self {
            Screen::Modulate => 0,
            Screen::Voice1 => 1,
            Screen::Voice2 => 2,
            Screen::Voice3 => 3,
            Screen::Filter => 4,
            Screen::Scope => 5,
        }
    }

    proof fn index_in_range(self) {
    }

    fn count() -> usize {
        6
    }

    fn index(self) -> usize {
        match self {
            Screen::Modulate => 0,
            Screen::Voice1 => 1,
            Screen::Voice2 => 2,
            Screen::Voice3 => 3,
            Screen::Filter => 4,
            Screen::Scope => 5,
        }
    }

    fn from_index(i: usize) -> Self {
        if i == 0 {
            Screen::Modulate
        } else if i == 1 {
            Screen::Voice1
        } else if i == 2 {
            Screen::Voice2
        } else if i == 3 {
            Screen::Voice3
        } else if i == 4 {
            Screen::Filter
        } else {
            Screen::Scope
        }
    }

    fn label(self) -> &'static str {
        match self {
            Screen::Modulate => "MODULATE",
            Screen::Voice1 => "VOICE1",
            Screen::Voice2 => "VOICE2",
            Screen::Voice3 => "VOICE3",
            Screen::Filter => "FILTER",
            Screen::Scope => "SCOPE",
        }
    }
}

#[derive(Clone, Copy, PartialEq, Eq, Structural, Debug)]
pub enum TriggerMode {
    Always,
    Rising,
}

impl EnumValues for TriggerMode {
    open spec fn labels() -> Seq<Seq<char>> {
        seq!["always"@, "rising"@]
    }

    open spec fn index_of(self) -> int {
        match self {
            TriggerMode::Always => 0,
            TriggerMode::Rising => 1,
        }
    }

    proof fn index_in_range(self) {
    }

    fn count() -> usize {
        2
    }

    fn index(self) -> usize {
        match self {
            TriggerMode::Always => 0,
            TriggerMode::Rising => 1,
        }
    }

    fn from_index(i: usize) -> Self {
        if i == 0 {
            TriggerMode::Always
        } else {
            TriggerMode::Rising
        }
    }

    fn label(self) -> &'static str {
        match self {
            TriggerMode::Always => "always",
            TriggerMode::Rising => "rising",
        }
    }
}

#[derive(Clone, Copy, PartialEq, Eq, Structural, Debug)]
pub enum Wave {
    Triangle,
    Saw,
    Pulse,
    Noise,
}

impl EnumValues for Wave {
    open spec fn labels() -> Seq<Seq<char>> {
        seq!["triangle"@, "saw"@, "pulse"@, "noise"@]
    }

    open spec fn index_of(self) -> int {
        match self {
            Wave::Triangle => 0,
            Wave::Saw => 1,
            Wave::Pulse => 2,
            Wave::Noise => 3,
        }
    }

    proof fn index_in_range(self) {
    }

    fn count() -> usize {
        4
    }

    fn index(self) -> usize {
        match self {
            Wave::Triangle => 0,
            Wave::Saw => 1,
            Wave::Pulse => 2,
            Wave::Noise => 3,
        }
    }

    fn from_index(i: usize) -> Self {
        if i == 0 {
            Wave::Triangle
        } else if i == 1 {
            Wave::Saw
        } else if i == 2 {
            Wave::Pulse
        } else {
            Wave::Noise
        }
    }

    fn label(self) -> &'static str {
        match self {
            Wave::Triangle => "triangle",
            Wave::Saw => "saw",
            Wave::Pulse => "pulse",
            Wave::Noise => "noise",
        }
    }
}

#[derive(Clone, Copy, PartialEq, Eq, Structural, Debug)]
pub enum ModulationTarget {
    Nothing,
    Freq1,
    Freq2,
    Freq3,
    Freq12,
    Gate1,
    Gate2,
    Gate3,
    Gate12,
    PWidth1,
    PWidth2,
    PWidth3,
    FiltCut,
}

impl EnumValues for ModulationTarget {
    open spec fn labels() -> Seq<Seq<char>> {
        seq![
            "nothing"@,
            "freq1"@,
            "freq2"@,
            "freq3"@,
            "freq12"@,
            "gate1"@,
            "gate2"@,
            "gate3"@,
            "gate12"@,
            "p-width1"@,
            "p-width2"@,
            "p-width3"@,
            "filt-cut"@,
        ]
    }

    open spec fn index_of(self) -> int {
        match self {
            ModulationTarget::Nothing => 0,
            ModulationTarget::Freq1 => 1,
            ModulationTarget::Freq2 => 2,
            ModulationTarget::Freq3 => 3,
            ModulationTarget::Freq12 => 4,
            ModulationTarget::Gate1 => 5,
            ModulationTarget::Gate2 => 6,
            ModulationTarget::Gate3 => 7,
            ModulationTarget::Gate12 => 8,
            ModulationTarget::PWidth1 => 9,
            ModulationTarget::PWidth2 => 10,
            ModulationTarget::PWidth3 => 11,
            ModulationTarget::FiltCut => 12,
        }
    }

    proof fn index_in_range(self) {
    }

    fn count() -> usize {
        13
    }

    fn index(self) -> usize {
        match self {
            ModulationTarget::Nothing => 0,
            ModulationTarget::Freq1 => 1,
            ModulationTarget::Freq2 => 2,
            ModulationTarget::Freq3 => 3,
            ModulationTarget::Freq12 => 4,
            ModulationTarget::Gate1 => 5,
            ModulationTarget::Gate2 => 6,
            ModulationTarget::Gate3 => 7,
            ModulationTarget::Gate12 => 8,
            ModulationTarget::PWidth1 => 9,
            ModulationTarget::PWidth2 => 10,
            ModulationTarget::PWidth3 => 11,
            ModulationTarget::FiltCut => 12,
        }
    }

    fn from_index(i: usize) -> Self {
        if i == 0 {
            ModulationTarget::Nothing
        } else if i == 1 {
            ModulationTarget::Freq1
        } else if i == 2 {
            ModulationTarget::Freq2
        } else if i == 3 {
            ModulationTarget::Freq3
        } else if i == 4 {
            ModulationTarget::Freq12
        } else if i == 5 {
            ModulationTarget::Gate1
        } else if i == 6 {
            ModulationTarget::Gate2
        } else if i == 7 {
            ModulationTarget::Gate3
        } else if i == 8 {
            ModulationTarget::Gate12
        } else if i == 9 {
            ModulationTarget::PWidth1
        } else if i == 10 {
            ModulationTarget::PWidth2
        } else if i == 11 {
            ModulationTarget::PWidth3
        } else {
            ModulationTarget::FiltCut
        }
    }

    fn label(self) -> &'static str {
        match self {
            ModulationTarget::Nothing => "nothing",
            ModulationTarget::Freq1 => "freq1",
            ModulationTarget::Freq2 => "freq2",
            ModulationTarget::Freq3 => "freq3",
            ModulationTarget::Freq12 => "freq12",
            ModulationTarget::Gate1 => "gate1",
            ModulationTarget::Gate2 => "gate2",
            ModulationTarget::Gate3 => "gate3",
            ModulationTarget::Gate12 => "gate12",
            ModulationTarget::PWidth1 => "p-width1",
            ModulationTarget::PWidth2 => "p-width2",
            ModulationTarget::PWidth3 => "p-width3",
            ModulationTarget::FiltCut => "filt-cut",
        }
    }
}

/// The way a modulation target acts on one voice, if it acts on it at all.
#[derive(Clone, Copy, PartialEq, Eq, Structural, Debug)]
pub enum VoiceModulationType {
    Frequency,
    Gate,
    PulseWidth,
}

/// What [`ModulationTarget::modulates_voice`] returns, as a lookup table.
pub open spec fn spec_modulates_voice(t: ModulationTarget, n: int) -> Option<
    VoiceModulationType,
> {
    match t {
        ModulationTarget::Freq1 => if n == 0 { Some(VoiceModulationType::Frequency) } else { None },
        ModulationTarget::Freq2 => if n == 1 { Some(VoiceModulationType::Frequency) } else { None },
        ModulationTarget::Freq3 => if n == 2 { Some(VoiceModulationType::Frequency) } else { None },
        ModulationTarget::Freq12 => if n == 0 || n == 1 {
            Some(VoiceModulationType::Frequency)
        } else {
            None
        },
        ModulationTarget::Gate1 => if n == 0 { Some(VoiceModulationType::Gate) } else { None },
        ModulationTarget::Gate2 => if n == 1 { Some(VoiceModulationType::Gate) } else { None },
        ModulationTarget::Gate3 => if n == 2 { Some(VoiceModulationType::Gate) } else { None },
        ModulationTarget::Gate12 => if n == 0 || n == 1 {
            Some(VoiceModulationType::Gate)
        } else {
            None
        },
        ModulationTarget::PWidth1 => if n == 0 {
            Some(VoiceModulationType::PulseWidth)
        } else {
            None
        },
        ModulationTarget::PWidth2 => if n == 1 {
            Some(VoiceModulationType::PulseWidth)
        } else {
            None
        },
        ModulationTarget::PWidth3 => if n == 2 {
            Some(VoiceModulationType::PulseWidth)
        } else {
            None
        },
        _ => None,
    }
}

impl ModulationTarget {
    /// Whether this modulation target drives voice `n`, and in which role.
    pub fn modulates_voice(&self, n: usize) -> (r: Option<VoiceModulationType>)
        ensures
            r == spec_modulates_voice(*self, n as int),
    {
        match (n, *self) {
            (0, ModulationTarget::Freq1) => Some(VoiceModulationType::Frequency),
            (1, ModulationTarget::Freq2) => Some(VoiceModulationType::Frequency),
            (2, ModulationTarget::Freq3) => Some(VoiceModulationType::Frequency),
            (0, ModulationTarget::Freq12) => Some(VoiceModulationType::Frequency),
            (1, ModulationTarget::Freq12) => Some(VoiceModulationType::Frequency),
            (0, ModulationTarget::Gate1) => Some(VoiceModulationType::Gate),
            (1, ModulationTarget::Gate2) => Some(VoiceModulationType::Gate),
            (2, ModulationTarget::Gate3) => Some(VoiceModulationType::Gate),
            (0, ModulationTarget::Gate12) => Some(VoiceModulationType::Gate),
            (1, ModulationTarget::Gate12) => Some(VoiceModulationType::Gate),
            (0, ModulationTarget::PWidth1) => Some(VoiceModulationType::PulseWidth),
            (1, ModulationTarget::PWidth2) => Some(VoiceModulationType::PulseWidth),
            (2, ModulationTarget::PWidth3) => Some(VoiceModulationType::PulseWidth),
            _ => None,
        }
    }
}

/// Options of one voice screen.
#[derive(Clone)]
pub struct VoiceOptions {
    pub selected: Option<usize>,
    pub freq: NumOption,
    pub freq_os: NumOption,
    pub pw: NumOption,
    pub wave: EnumOption<Wave>,
    pub gate: NumOption,
    pub sync: NumOption,
    pub ring: NumOption,
    pub attack: NumOption,
    pub decay: NumOption,
    pub sustain: NumOption,
    pub release: NumOption,
}

impl VoiceOptions {
    /// The hard-coded defaults every voice screen starts with.
    pub fn new() -> (r: VoiceOptions)
        ensures
            crate::opt::view_ok(r.view_model()),
            r.selected is None,
            r.freq.value == 1000,
            r.freq_os.value == 1000,
            r.pw.value == 2048,
            r.wave.value == Wave::Noise,
            r.gate.value == 0,
            r.sync.value == 0,
            r.ring.value == 0,
            r.attack.value == 0,
            r.decay.value == 0,
            r.sustain.value == 15,
            r.release.value == 0,
    {
        VoiceOptions {
            selected: None,
            freq: NumOption::new(String::from_str("f-base"), 1000, 125, 0, 65500),
            freq_os: NumOption::new(String::from_str("f-offs"), 1000, 10, 500, 2000),
            pw: NumOption::new(String::from_str("pw"), 2048, 128, 0, 4096),
            wave: EnumOption::new(String::from_str("wave"), Wave::Noise),
            gate: NumOption::new(String::from_str("gate"), 0, 1, 0, 1),
            sync: NumOption::new(String::from_str("sync"), 0, 1, 0, 1),
            ring: NumOption::new(String::from_str("ring"), 0, 1, 0, 1),
            attack: NumOption::new(String::from_str("attack"), 0, 1, 0, 15),
            decay: NumOption::new(String::from_str("decay"), 0, 1, 0, 15),
            sustain: NumOption::new(String::from_str("sustain"), 15, 1, 0, 15),
            release: NumOption::new(String::from_str("release"), 0, 1, 0, 15),
        }
    }
}

impl OptionView for VoiceOptions {
    open spec fn view_model(&self) -> ViewModel {
        ViewModel {
            selected: sel_view(self.selected),
            options: seq![
                self.freq.model(),
                self.freq_os.model(),
                self.pw.model(),
                self.wave.model(),
                self.gate.model(),
                self.sync.model(),
                self.ring.model(),
                self.attack.model(),
                self.decay.model(),
                self.sustain.model(),
                self.release.model(),
            ],
        }
    }

    fn selected(&self) -> Option<usize> {
        self.selected
    }

    fn set_selected(&mut self, s: Option<usize>) {
        self.selected = s;
    }

    fn len(&self) -> usize {
        11
    }

    fn tick_up_at(&mut self, i: usize) {
        match i {
            0 => self.freq.tick_up(),
            1 => self.freq_os.tick_up(),
            2 => self.pw.tick_up(),
            3 => self.wave.tick_up(),
            4 => self.gate.tick_up(),
            5 => self.sync.tick_up(),
            6 => self.ring.tick_up(),
            7 => self.attack.tick_up(),
            8 => self.decay.tick_up(),
            9 => self.sustain.tick_up(),
            _ => self.release.tick_up(),
        }
        proof {
            assert(self.view_model() =~= (ViewModel {
                options: old(self).view_model().options.update(
                    i as int,
                    opt_tick_up(old(self).view_model().options[i as int]),
                ),
                ..old(self).view_model()
            }));
        }
    }

    fn tick_down_at(&mut self, i: usize) {
        match i {
            0 => self.freq.tick_down(),
            1 => self.freq_os.tick_down(),
            2 => self.pw.tick_down(),
            3 => self.wave.tick_down(),
            4 => self.gate.tick_down(),
            5 => self.sync.tick_down(),
            6 => self.ring.tick_down(),
            7 => self.attack.tick_down(),
            8 => self.decay.tick_down(),
            9 => self.sustain.tick_down(),
            _ => self.release.tick_down(),
        }
        proof {
            assert(self.view_model() =~= (ViewModel {
                options: old(self).view_model().options.update(
                    i as int,
                    opt_tick_down(old(self).view_model().options[i as int]),
                ),
                ..old(self).view_model()
            }));
        }
    }

    fn name_at(&self, i: usize) -> OptionString {
        match i {
            0 => self.freq.name().clone(),
            1 => self.freq_os.name().clone(),
            2 => self.pw.name().clone(),
            3 => self.wave.name().clone(),
            4 => self.gate.name().clone(),
            5 => self.sync.name().clone(),
            6 => self.ring.name().clone(),
            7 => self.attack.name().clone(),
            8 => self.decay.name().clone(),
            9 => self.sustain.name().clone(),
            _ => self.release.name().clone(),
        }
    }

    fn value_at(&self, i: usize) -> OptionString {
        match i {
            0 => self.freq.value(),
            1 => self.freq_os.value(),
            2 => self.pw.value(),
            3 => self.wave.value(),
            4 => self.gate.value(),
            5 => self.sync.value(),
            6 => self.ring.value(),
            7 => self.attack.value(),
            8 => self.decay.value(),
            9 => self.sustain.value(),
            _ => self.release.value(),
        }
    }

    fn ratio_at(&self, i: usize) -> (i64, i64) {
        match i {
            0 => self.freq.ratio(),
            1 => self.freq_os.ratio(),
            2 => self.pw.ratio(),
            3 => self.wave.ratio(),
            4 => self.gate.ratio(),
            5 => self.sync.ratio(),
            6 => self.ring.ratio(),
            7 => self.attack.ratio(),
            8 => self.decay.ratio(),
            9 => self.sustain.ratio(),
            _ => self.release.ratio(),
        }
    }
}

/// Options of the filter screen.
#[derive(Clone)]
pub struct FilterOptions {
    pub selected: Option<usize>,
    pub cutoff: NumOption,
    pub reso: NumOption,
    pub filt1: NumOption,
    pub filt2: NumOption,
    pub filt3: NumOption,
    pub lp: NumOption,
    pub bp: NumOption,
    pub hp: NumOption,
    pub v3off: NumOption,
    pub volume: NumOption,
}

impl OptionView for FilterOptions {
    open spec fn view_model(&self) -> ViewModel {
        ViewModel {
            selected: sel_view(self.selected),
            options: seq![
                self.cutoff.model(),
                self.reso.model(),
                self.filt1.model(),
                self.filt2.model(),
                self.filt3.model(),
                self.lp.model(),
                self.bp.model(),
                self.hp.model(),
                self.v3off.model(),
                self.volume.model(),
            ],
        }
    }

    fn selected(&self) -> Option<usize> {
        self.selected
    }

    fn set_selected(&mut self, s: Option<usize>) {
        self.selected = s;
    }

    fn len(&self) -> usize {
        10
    }

    fn tick_up_at(&mut self, i: usize) {
        match i {
            0 => self.cutoff.tick_up(),
            1 => self.reso.tick_up(),
            2 => self.filt1.tick_up(),
            3 => self.filt2.tick_up(),
            4 => self.filt3.tick_up(),
            5 => self.lp.tick_up(),
            6 => self.bp.tick_up(),
            7 => self.hp.tick_up(),
            8 => self.v3off.tick_up(),
            _ => self.volume.tick_up(),
        }
        proof {
            assert(self.view_model() =~= (ViewModel {
                options: old(self).view_model().options.update(
                    i as int,
                    opt_tick_up(old(self).view_model().options[i as int]),
                ),
                ..old(self).view_model()
            }));
        }
    }

    fn tick_down_at(&mut self, i: usize) {
        match i {
            0 => self.cutoff.tick_down(),
            1 => self.reso.tick_down(),
            2 => self.filt1.tick_down(),
            3 => self.filt2.tick_down(),
            4 => self.filt3.tick_down(),
            5 => self.lp.tick_down(),
            6 => self.bp.tick_down(),
            7 => self.hp.tick_down(),
            8 => self.v3off.tick_down(),
            _ => self.volume.tick_down(),
        }
        proof {
            assert(self.view_model() =~= (ViewModel {
                options: old(self).view_model().options.update(
                    i as int,
                    opt_tick_down(old(self).view_model().options[i as int]),
                ),
                ..old(self).view_model()
            }));
        }
    }

    fn name_at(&self, i: usize) -> OptionString {
        match i {
            0 => self.cutoff.name().clone(),
            1 => self.reso.name().clone(),
            2 => self.filt1.name().clone(),
            3 => self.filt2.name().clone(),
            4 => self.filt3.name().clone(),
            5 => self.lp.name().clone(),
            6 => self.bp.name().clone(),
            7 => self.hp.name().clone(),
            8 => self.v3off.name().clone(),
            _ => self.volume.name().clone(),
        }
    }

    fn value_at(&self, i: usize) -> OptionString {
        match i {
            0 => self.cutoff.value(),
            1 => self.reso.value(),
            2 => self.filt1.value(),
            3 => self.filt2.value(),
            4 => self.filt3.value(),
            5 => self.lp.value(),
            6 => self.bp.value(),
            7 => self.hp.value(),
            8 => self.v3off.value(),
            _ => self.volume.value(),
        }
    }

    fn ratio_at(&self, i: usize) -> (i64, i64) {
        match i {
            0 => self.cutoff.ratio(),
            1 => self.reso.ratio(),
            2 => self.filt1.ratio(),
            3 => self.filt2.ratio(),
            4 => self.filt3.ratio(),
            5 => self.lp.ratio(),
            6 => self.bp.ratio(),
            7 => self.hp.ratio(),
            8 => self.v3off.ratio(),
            _ => self.volume.ratio(),
        }
    }
}

/// Options of the oscilloscope screen.
#[derive(Clone)]
pub struct ScopeOptions {
    pub selected: Option<usize>,
    pub timebase: NumOption,
    pub trigger_mode: EnumOption<TriggerMode>,
    pub trigger_lvl: NumOption,
    pub ypos0: NumOption,
    pub ypos1: NumOption,
    pub ypos2: NumOption,
    pub ypos3: NumOption,
    pub yscale: NumOption,
    pub xscale: NumOption,
    pub xpos: NumOption,
}

impl OptionView for ScopeOptions {
    open spec fn view_model(&self) -> ViewModel {
        ViewModel {
            selected: sel_view(self.selected),
            options: seq![
                self.timebase.model(),
                self.trigger_mode.model(),
                self.trigger_lvl.model(),
                self.ypos0.model(),
                self.ypos1.model(),
                self.ypos2.model(),
                self.ypos3.model(),
                self.yscale.model(),
                self.xscale.model(),
                self.xpos.model(),
            ],
        }
    }

    fn selected(&self) -> Option<usize> {
        self.selected
    }

    fn set_selected(&mut self, s: Option<usize>) {
        self.selected = s;
    }

    fn len(&self) -> usize {
        10
    }

    fn tick_up_at(&mut self, i: usize) {
        match i {
            0 => self.timebase.tick_up(),
            1 => self.trigger_mode.tick_up(),
            2 => self.trigger_lvl.tick_up(),
            3 => self.ypos0.tick_up(),
            4 => self.ypos1.tick_up(),
            5 => self.ypos2.tick_up(),
            6 => self.ypos3.tick_up(),
            7 => self.yscale.tick_up(),
            8 => self.xscale.tick_up(),
            _ => self.xpos.tick_up(),
        }
        proof {
            assert(self.view_model() =~= (ViewModel {
                options: old(self).view_model().options.update(
                    i as int,
                    opt_tick_up(old(self).view_model().options[i as int]),
                ),
                ..old(self).view_model()
            }));
        }
    }

    fn tick_down_at(&mut self, i: usize) {
        match i {
            0 => self.timebase.tick_down(),
            1 => self.trigger_mode.tick_down(),
            2 => self.trigger_lvl.tick_down(),
            3 => self.ypos0.tick_down(),
            4 => self.ypos1.tick_down(),
            5 => self.ypos2.tick_down(),
            6 => self.ypos3.tick_down(),
            7 => self.yscale.tick_down(),
            8 => self.xscale.tick_down(),
            _ => self.xpos.tick_down(),
        }
        proof {
            assert(self.view_model() =~= (ViewModel {
                options: old(self).view_model().options.update(
                    i as int,
                    opt_tick_down(old(self).view_model().options[i as int]),
                ),
                ..old(self).view_model()
            }));
        }
    }

    fn name_at(&self, i: usize) -> OptionString {
        match i {
            0 => self.timebase.name().clone(),
            1 => self.trigger_mode.name().clone(),
            2 => self.trigger_lvl.name().clone(),
            3 => self.ypos0.name().clone(),
            4 => self.ypos1.name().clone(),
            5 => self.ypos2.name().clone(),
            6 => self.ypos3.name().clone(),
            7 => self.yscale.name().clone(),
            8 => self.xscale.name().clone(),
            _ => self.xpos.name().clone(),
        }
    }

    fn value_at(&self, i: usize) -> OptionString {
        match i {
            0 => self.timebase.value(),
            1 => self.trigger_mode.value(),
            2 => self.trigger_lvl.value(),
            3 => self.ypos0.value(),
            4 => self.ypos1.value(),
            5 => self.ypos2.value(),
            6 => self.ypos3.value(),
            7 => self.yscale.value(),
            8 => self.xscale.value(),
            _ => self.xpos.value(),
        }
    }

    fn ratio_at(&self, i: usize) -> (i64, i64) {
        match i {
            0 => self.timebase.ratio(),
            1 => self.trigger_mode.ratio(),
            2 => self.trigger_lvl.ratio(),
            3 => self.ypos0.ratio(),
            4 => self.ypos1.ratio(),
            5 => self.ypos2.ratio(),
            6 => self.ypos3.ratio(),
            7 => self.yscale.ratio(),
            8 => self.xscale.ratio(),
            _ => self.xpos.ratio(),
        }
    }
}

/// Options of the modulation screen: one target per control input.
#[derive(Clone)]
pub struct ModulateOptions {
    pub selected: Option<usize>,
    pub in0: EnumOption<ModulationTarget>,
    pub in1: EnumOption<ModulationTarget>,
    pub in2: EnumOption<ModulationTarget>,
    pub in3: EnumOption<ModulationTarget>,
}

impl OptionView for ModulateOptions {
    open spec fn view_model(&self) -> ViewModel {
        ViewModel {
            selected: sel_view(self.selected),
            options: seq![
                self.in0.model(),
                self.in1.model(),
                self.in2.model(),
                self.in3.model(),
            ],
        }
    }

    fn selected(&self) -> Option<usize> {
        self.selected
    }

    fn set_selected(&mut self, s: Option<usize>) {
        self.selected = s;
    }

    fn len(&self) -> usize {
        4
    }

    fn tick_up_at(&mut self, i: usize) {
        match i {
            0 => self.in0.tick_up(),
            1 => self.in1.tick_up(),
            2 => self.in2.tick_up(),
            _ => self.in3.tick_up(),
        }
        proof {
            assert(self.view_model() =~= (ViewModel {
                options: old(self).view_model().options.update(
                    i as int,
                    opt_tick_up(old(self).view_model().options[i as int]),
                ),
                ..old(self).view_model()
            }));
        }
    }

    fn tick_down_at(&mut self, i: usize) {
        match i {
            0 => self.in0.tick_down(),
            1 => self.in1.tick_down(),
            2 => self.in2.tick_down(),
            _ => self.in3.tick_down(),
        }
        proof {
            assert(self.view_model() =~= (ViewModel {
                options: old(self).view_model().options.update(
                    i as int,
                    opt_tick_down(old(self).view_model().options[i as int]),
                ),
                ..old(self).view_model()
            }));
        }
    }

    fn name_at(&self, i: usize) -> OptionString {
        match i {
            0 => self.in0.name().clone(),
            1 => self.in1.name().clone(),
            2 => self.in2.name().clone(),
            _ => self.in3.name().clone(),
        }
    }

    fn value_at(&self, i: usize) -> OptionString {
        match i {
            0 => self.in0.value(),
            1 => self.in1.value(),
            2 => self.in2.value(),
            _ => self.in3.value(),
        }
    }

    fn ratio_at(&self, i: usize) -> (i64, i64) {
        match i {
            0 => self.in0.ratio(),
            1 => self.in1.ratio(),
            2 => self.in2.ratio(),
            _ => self.in3.ratio(),
        }
    }
}

/// The root menu of the SID-voice firmware.
#[derive(Clone)]
pub struct Options {
    pub modify: bool,
    pub draw: bool,
    pub screen: EnumOption<Screen>,
    pub modulate: ModulateOptions,
    pub voice1: VoiceOptions,
    pub voice2: VoiceOptions,
    pub voice3: VoiceOptions,
    pub filter: FilterOptions,
    pub scope: ScopeOptions,
}

impl Options {
    /// The hard-coded menu the firmware starts with.
    pub fn new() -> (r: Options)
        ensures
            page_ok(r.page()),
            r.modify == false,
            r.draw == false,
            r.screen.value == Screen::Voice1,
            r.modulate.selected is None,
            r.filter.selected is None,
            r.scope.selected is None,
            r.modulate.in0.value == ModulationTarget::Nothing,
            r.modulate.in1.value == ModulationTarget::Nothing,
            r.modulate.in2.value == ModulationTarget::Nothing,
            r.modulate.in3.value == ModulationTarget::Nothing,
            r.voice1.freq.value == 1000,
            r.voice2.freq.value == 1000,
            r.voice3.freq.value == 1000,
            r.filter.cutoff.value == 1500,
            r.filter.volume.value == 15,
            r.scope.timebase.value == 32,
            r.scope.trigger_mode.value == TriggerMode::Always,
    {
        Options {
            modify: false,
            draw: false,
            screen: EnumOption::new(String::from_str("screen"), Screen::Voice1),
            modulate: ModulateOptions {
                selected: None,
                in0: EnumOption::new(String::from_str("in0"), ModulationTarget::Nothing),
                in1: EnumOption::new(String::from_str("in1"), ModulationTarget::Nothing),
                in2: EnumOption::new(String::from_str("in2"), ModulationTarget::Nothing),
                in3: EnumOption::new(String::from_str("in3"), ModulationTarget::Nothing),
            },
            voice1: VoiceOptions::new(),
            voice2: VoiceOptions::new(),
            voice3: VoiceOptions::new(),
            filter: FilterOptions {
                selected: None,
                cutoff: NumOption::new(String::from_str("cutoff"), 1500, 100, 0, 2000),
                reso: NumOption::new(String::from_str("reso"), 0, 1, 0, 15),
                filt1: NumOption::new(String::from_str("filt1"), 0, 1, 0, 1),
                filt2: NumOption::new(String::from_str("filt2"), 0, 1, 0, 1),
                filt3: NumOption::new(String::from_str("filt3"), 0, 1, 0, 1),
                lp: NumOption::new(String::from_str("lp"), 0, 1, 0, 1),
                bp: NumOption::new(String::from_str("bp"), 0, 1, 0, 1),
                hp: NumOption::new(String::from_str("hp"), 0, 1, 0, 1),
                v3off: NumOption::new(String::from_str("3off"), 0, 1, 0, 1),
                volume: NumOption::new(String::from_str("volume"), 15, 1, 0, 15),
            },
            scope: ScopeOptions {
                selected: None,
                timebase: NumOption::new(String::from_str("timebase"), 32, 128, 32, 3872),
                trigger_mode: EnumOption::new(String::from_str("trig-mode"), TriggerMode::Always),
                trigger_lvl: NumOption::new(String::from_str("trig-lvl"), 0, 512, -16384, 16384),
                ypos0: NumOption::new(String::from_str("ypos0"), 150, 25, -500, 500),
                ypos1: NumOption::new(String::from_str("ypos1"), -150, 25, -500, 500),
                ypos2: NumOption::new(String::from_str("ypos2"), -50, 25, -500, 500),
                ypos3: NumOption::new(String::from_str("ypos3"), 50, 25, -500, 500),
                yscale: NumOption::new(String::from_str("yscale"), 8, 1, 0, 15),
                xscale: NumOption::new(String::from_str("xscale"), 7, 1, 0, 15),
                xpos: NumOption::new(String::from_str("xpos"), 175, 25, -500, 500),
            },
        }
    }

    /// Apply a signed batch of encoder ticks to the menu.
    pub fn consume_ticks(&mut self, ticks: i8)
        requires
            page_ok(old(self).page()),
        ensures
            final(self).page() == page_consume_ticks(old(self).page(), ticks as int),
    {
        run_ticks(self, ticks);
    }
}

impl OptionPage for Options {
    open spec fn page(&self) -> PageModel {
        PageModel {
            modify: self.modify,
            draw: self.draw,
            screen: self.screen.model(),
            views: seq![
                self.modulate.view_model(),
                self.voice1.view_model(),
                self.voice2.view_model(),
                self.voice3.view_model(),
                self.filter.view_model(),
                self.scope.view_model(),
            ],
        }
    }

    fn modify(&self) -> bool {
        self.modify
    }

    fn toggle_modify(&mut self) {
        self.modify = !self.modify;
        proof {
            assert(self.page() =~= (PageModel {
                modify: !old(self).page().modify,
                ..old(self).page()
            }));
        }
    }

    fn draw(&self) -> bool {
        self.draw
    }

    fn set_draw(&mut self, d: bool) {
        self.draw = d;
        proof {
            assert(self.page() =~= (PageModel { draw: d, ..old(self).page() }));
        }
    }

    fn tick_up(&mut self) {
        let m = self.modify;
        let st = match self.screen.value {
            Screen::Modulate => view_nav_up(&mut self.modulate, m),
            Screen::Voice1 => view_nav_up(&mut self.voice1, m),
            Screen::Voice2 => view_nav_up(&mut self.voice2, m),
            Screen::Voice3 => view_nav_up(&mut self.voice3, m),
            Screen::Filter => view_nav_up(&mut self.filter, m),
            Screen::Scope => view_nav_up(&mut self.scope, m),
        };
        if st {
            self.screen.tick_up();
        }
        proof {
            assert(self.page() =~= page_tick_up(old(self).page()));
        }
    }

    fn tick_down(&mut self) {
        let m = self.modify;
        let st = match self.screen.value {
            Screen::Modulate => view_nav_down(&mut self.modulate, m),
            Screen::Voice1 => view_nav_down(&mut self.voice1, m),
            Screen::Voice2 => view_nav_down(&mut self.voice2, m),
            Screen::Voice3 => view_nav_down(&mut self.voice3, m),
            Screen::Filter => view_nav_down(&mut self.filter, m),
            Screen::Scope => view_nav_down(&mut self.scope, m),
        };
        if st {
            self.screen.tick_down();
        }
        proof {
            assert(self.page() =~= page_tick_down(old(self).page()));
        }
    }

    fn active_selected(&self) -> Option<usize> {
        match self.screen.value {
            Screen::Modulate => self.modulate.selected(),
            Screen::Voice1 => self.voice1.selected(),
            Screen::Voice2 => self.voice2.selected(),
            Screen::Voice3 => self.voice3.selected(),
            Screen::Filter => self.filter.selected(),
            Screen::Scope => self.scope.selected(),
        }
    }

    fn active_len(&self) -> usize {
        match self.screen.value {
            Screen::Modulate => self.modulate.len(),
            Screen::Voice1 => self.voice1.len(),
            Screen::Voice2 => self.voice2.len(),
            Screen::Voice3 => self.voice3.len(),
            Screen::Filter => self.filter.len(),
            Screen::Scope => self.scope.len(),
        }
    }

    fn selected_ratio(&self) -> Option<(i64, i64)> {
        let s = match self.screen.value {
            Screen::Modulate => self.modulate.selected(),
            Screen::Voice1 => self.voice1.selected(),
            Screen::Voice2 => self.voice2.selected(),
            Screen::Voice3 => self.voice3.selected(),
            Screen::Filter => self.filter.selected(),
            Screen::Scope => self.scope.selected(),
        };
        match s {
            Some(i) => Some(
                match self.screen.value {
                    Screen::Modulate => self.modulate.ratio_at(i),
                    Screen::Voice1 => self.voice1.ratio_at(i),
                    Screen::Voice2 => self.voice2.ratio_at(i),
                    Screen::Voice3 => self.voice3.ratio_at(i),
                    Screen::Filter => self.filter.ratio_at(i),
                    Screen::Scope => self.scope.ratio_at(i),
                },
            ),
            None => None,
        }
    }

    fn screen_index(&self) -> usize {
        self.screen.value.index()
    }

    fn screen_count(&self) -> usize {
        Screen::count()
    }
}

} // verus!
