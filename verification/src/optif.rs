//! The periodic update cycle: one call per timer tick polls the encoder,
//! routes the resulting tick and click events into the menu, recomputes
//! the LED feedback and pushes it over the bus, and maintains the blink
//! phase, the time since the last interaction and the redraw hint.
//!
//! The caller (the interrupt handler) reads the encoder's raw delta and
//! button level from its registers, hands them in, and applies the
//! returned front-panel LED commands to its peripheral.

use vstd::prelude::*;

use crate::encoder::EncModel;
use crate::encoder::Encoder;
use crate::encoder::enc_ok;
use crate::encoder::enc_update;
use crate::i2c::BusTransaction;
use crate::i2c::I2cBus;
use crate::i2c::OpModel;
use crate::leds::mobo_pca9635_set_bargraph;
use crate::leds::spec_bargraph;
use crate::opt::OptionPage;
use crate::opt::PageModel;
use crate::opt::lemma_page_tick_down_ok;
use crate::opt::lemma_page_tick_up_ok;
use crate::opt::page_consume_ticks;
use crate::opt::page_ok;
use crate::opt::page_screen_index;
use crate::opt::page_active;
use crate::opt::run_ticks;
use crate::pca9635::PCA9635_ADDR;
use crate::pca9635::Pca9635Driver;
use crate::pca9635::pca9635_frame;

verus! {

/// One command for the front-panel LEDs driven by the audio interface
/// board: either hand all channels back to automatic metering, or drive
/// one channel manually (positive duties show red, negative green).
#[derive(Clone, Copy, PartialEq, Eq, Structural, Debug)]
pub enum PmodLedCmd {
    AllAuto,
    Manual { index: usize, value: i8 },
}

/// Model of the update cycle's state.
#[verifier::ext_equal]
pub struct OptIfModel {
    pub page: PageModel,
    pub enc: EncModel,
    pub leds: Seq<u8>,
    pub uptime_ms: int,
    pub time_since_encoder_touched: int,
    pub toggle_leds: bool,
    pub period_ms: int,
    pub encoder_fade_ms: int,
}

/// Addition on a free-running millisecond counter, which wraps.
pub open spec fn wrap32(v: int) -> int {
    v % 0x1_0000_0000
}

pub open spec fn optif_ok(m: OptIfModel) -> bool {
    &&& enc_ok(m.enc)
    &&& page_ok(m.page)
    &&& 1 <= m.period_ms <= 60000
    &&& 1 <= m.encoder_fade_ms <= 60000
    &&& 0 <= m.uptime_ms < 0x1_0000_0000
    &&& 0 <= m.time_since_encoder_touched < 0x1_0000_0000
    &&& m.leds.len() == 16
}

/// Brightness of the fading selection LED: full scale is 120, reached at
/// the moment of interaction, falling linearly to zero over the fade time.
pub open spec fn spec_fade_value(fade: int, t: int) -> int {
    (fade - t) * 120 / fade
}

/// The front-panel LED commands of one tick. While modifying, the
/// selection blinks with the toggle phase (red on an option, green on the
/// screen selector); otherwise a recent interaction shows as a fading
/// selection LED, and a stale one hands the channels back to metering.
pub open spec fn spec_pmod_cmds(p: PageModel, toggle: bool, t: int, fade: int) -> Seq<
    PmodLedCmd,
> {
    if p.modify {
        if toggle {
            match page_active(p).selected {
                Some(n) => if n < 8 {
                    seq![PmodLedCmd::Manual { index: n as usize, value: i8::MAX }]
                } else {
                    Seq::empty()
                },
                None => {
                    let g = page_screen_index(p);
                    if g < 8 {
                        seq![PmodLedCmd::Manual { index: g as usize, value: i8::MIN }]
                    } else {
                        Seq::empty()
                    }
                },
            }
        } else {
            seq![PmodLedCmd::AllAuto]
        }
    } else {
        if t < fade {
            let f = spec_fade_value(fade, t);
            let zeros = Seq::new(8, |i: int| PmodLedCmd::Manual { index: i as usize, value: 0i8 });
            match page_active(p).selected {
                Some(n) => if n < 8 {
                    zeros.push(PmodLedCmd::Manual { index: n as usize, value: f as i8 })
                } else {
                    zeros
                },
                None => zeros.push(PmodLedCmd::Manual { index: 0usize, value: (-f) as i8 }),
            }
        } else {
            seq![PmodLedCmd::AllAuto]
        }
    }
}

/// The complete effect of one timer tick on the update cycle's state:
/// decode the encoder, apply pending ticks and a pending click to the
/// page, advance the counters and the blink phase, recompute the bar
/// graph, and refresh the redraw hint.
pub open spec fn optif_update_spec(m: OptIfModel, delta: int, btn: bool) -> OptIfModel {
    let e1 = enc_update(m.enc, delta, btn);
    let ticks = e1.pending_ticks;
    let click = e1.pending_press && e1.pending_release;
    let e2 = EncModel {
        pending_ticks: 0,
        pending_press: e1.pending_press && !click,
        pending_release: e1.pending_release && !click,
        ..e1
    };
    let t1 = wrap32(m.time_since_encoder_touched + m.period_ms);
    let t2 = if ticks != 0 || click {
        0
    } else {
        t1
    };
    let up = wrap32(m.uptime_ms + m.period_ms);
    let tog = if up % (10 * m.period_ms) == 0 {
        !m.toggle_leds
    } else {
        m.toggle_leds
    };
    let p1 = if ticks != 0 {
        page_consume_ticks(m.page, ticks)
    } else {
        m.page
    };
    let p2 = if click {
        PageModel { modify: !p1.modify, ..p1 }
    } else {
        p1
    };
    let leds = spec_bargraph(p2, Seq::new(16, |i: int| 0u8), tog);
    let draw = t2 < m.encoder_fade_ms || p2.modify;
    let p3 = PageModel { draw, ..p2 };
    OptIfModel {
        page: p3,
        enc: e2,
        leds,
        uptime_ms: up,
        time_since_encoder_touched: t2,
        toggle_leds: tog,
        period_ms: m.period_ms,
        encoder_fade_ms: m.encoder_fade_ms,
    }
}

/// A batch of ticks keeps the page invariant.
pub proof fn lemma_page_consume_ticks_ok(p: PageModel, t: int)
    requires
        page_ok(p),
    ensures
        page_ok(page_consume_ticks(p, t)),
    decreases (if t >= 0 { t } else { -t }),
{
    if t >= 1 {
        lemma_page_tick_up_ok(p);
        lemma_page_consume_ticks_ok(crate::opt::page_tick_up(p), t - 1);
    } else if t <= -1 {
        lemma_page_tick_down_ok(p);
        lemma_page_consume_ticks_ok(crate::opt::page_tick_down(p), t + 1);
    }
}

fn add_wrap32(a: u32, b: u32) -> (r: u32)
    ensures
        r as int == wrap32(a as int + b as int),
{
    match a.checked_add(b) {
        Some(v) => v,
        None => a - (u32::MAX - b) - 1,
    }
}

/// The interactive control core of one firmware image: the menu, the
/// encoder decoder, the LED expander driver and the timing state of the
/// update cycle.
pub struct OptInterface<P, I2C> {
    pub opts: P,
    pub encoder: Encoder,
    pub pca9635: Pca9635Driver<I2C>,
    pub uptime_ms: u32,
    pub time_since_encoder_touched: u32,
    pub toggle_leds: bool,
    pub period_ms: u32,
    pub encoder_fade_ms: u32,
}

impl<P: OptionPage, I2C: I2cBus> OptInterface<P, I2C> {
    pub open spec fn model(&self) -> OptIfModel {
        OptIfModel {
            page: self.opts.page(),
            enc: self.encoder.model(),
            leds: self.pca9635.leds@,
            uptime_ms: self.uptime_ms as int,
            time_since_encoder_touched: self.time_since_encoder_touched as int,
            toggle_leds: self.toggle_leds,
            period_ms: self.period_ms as int,
            encoder_fade_ms: self.encoder_fade_ms as int,
        }
    }

    pub open spec fn wf(&self) -> bool {
        optif_ok(self.model())
    }

    pub fn new(opts: P, period_ms: u32, encoder: Encoder, pca9635: Pca9635Driver<I2C>) -> (r:
        Self)
        requires
            1 <= period_ms <= 60000,
            page_ok(opts.page()),
            encoder.wf(),
        ensures
            r.opts == opts,
            r.encoder == encoder,
            r.pca9635 == pca9635,
            r.uptime_ms == 0,
            r.time_since_encoder_touched == 0,
            r.toggle_leds == false,
            r.period_ms == period_ms,
            r.encoder_fade_ms == 1000,
            r.wf(),
    {
        OptInterface {
            opts,
            encoder,
            pca9635,
            uptime_ms: 0,
            time_since_encoder_touched: 0,
            toggle_leds: false,
            period_ms,
            encoder_fade_ms: 1000,
        }
    }

    /// One timer tick: consume the encoder's raw delta and button level,
    /// update the menu and the LED feedback, and report the front-panel
    /// LED commands for the caller to apply.
    pub fn update(&mut self, delta: i8, btn: bool) -> (cmds: Vec<PmodLedCmd>)
        requires
            old(self).wf(),
        ensures
            final(self).model() == optif_update_spec(old(self).model(), delta as int, btn),
            final(self).wf(),
            final(self).pca9635.i2c.history() == old(self).pca9635.i2c.history().push(
                BusTransaction {
                    address: PCA9635_ADDR,
                    ops: seq![
                        OpModel::Write(
                            pca9635_frame(
                                optif_update_spec(old(self).model(), delta as int, btn).leds,
                            ),
                        ),
                    ],
                },
            ),
            cmds@ == spec_pmod_cmds(
                optif_update_spec(old(self).model(), delta as int, btn).page,
                optif_update_spec(old(self).model(), delta as int, btn).toggle_leds,
                optif_update_spec(old(self).model(), delta as int, btn).time_since_encoder_touched,
                old(self).model().encoder_fade_ms,
            ),
    {
        let ghost m0: OptIfModel = self.model();
        let ghost m1: OptIfModel = optif_update_spec(m0, delta as int, btn);

        self.encoder.update(delta, btn);

        self.time_since_encoder_touched = add_wrap32(
            self.time_since_encoder_touched,
            self.period_ms,
        );
        self.uptime_ms = add_wrap32(self.uptime_ms, self.period_ms);

        let ticks = self.encoder.poke_ticks();
        if ticks != 0 {
            proof {
                lemma_page_consume_ticks_ok(self.opts.page(), ticks as int);
            }
            run_ticks(&mut self.opts, ticks);
            self.time_since_encoder_touched = 0;
        }
        if self.encoder.poke_btn() {
            self.opts.toggle_modify();
            self.time_since_encoder_touched = 0;
        }
        proof {
            let e1 = enc_update(m0.enc, delta as int, btn);
            let click = e1.pending_press && e1.pending_release;
            let p1 = if e1.pending_ticks != 0 {
                page_consume_ticks(m0.page, e1.pending_ticks)
            } else {
                m0.page
            };
            let p2 = if click {
                PageModel { modify: !p1.modify, ..p1 }
            } else {
                p1
            };
            lemma_page_consume_ticks_ok(m0.page, e1.pending_ticks);
            assert(self.opts.page() =~= p2);
            assert(m1.page =~= (PageModel { draw: m1.page.draw, ..p2 }));
            assert(page_ok(self.opts.page()));
        }

        if self.uptime_ms % (10 * self.period_ms) == 0 {
            self.toggle_leds = !self.toggle_leds;
        }

        let mut leds: [u8; 16] = [0u8; 16];
        proof {
            broadcast use vstd::array::axiom_spec_array_fill_for_copy_type;

            assert(leds@ =~= Seq::new(16, |i: int| 0u8));
        }
        mobo_pca9635_set_bargraph(&self.opts, &mut leds, self.toggle_leds);
        self.pca9635.leds = leds;
        proof {
            assert(self.pca9635.leds@ == m1.leds);
        }

        let mut cmds: Vec<PmodLedCmd> = Vec::new();
        if self.opts.modify() {
            if self.toggle_leds {
                match self.opts.active_selected() {
                    Some(n) => {
                        if n < 8 {
                            cmds.push(PmodLedCmd::Manual { index: n, value: i8::MAX });
                        }
                    },
                    None => {
                        let g = self.opts.screen_index();
                        if g < 8 {
                            cmds.push(PmodLedCmd::Manual { index: g, value: i8::MIN });
                        }
                    },
                }
            } else {
                cmds.push(PmodLedCmd::AllAuto);
            }
        } else {
            if self.time_since_encoder_touched < self.encoder_fade_ms {
                let mut n: usize = 0;
                while n < 8
                    invariant
                        n <= 8,
                        cmds@ =~= Seq::new(
                            n as nat,
                            |i: int| PmodLedCmd::Manual { index: i as usize, value: 0i8 },
                        ),
                    decreases 8 - n,
                {
                    cmds.push(PmodLedCmd::Manual { index: n, value: 0 });
                    proof {
                        assert(cmds@ =~= Seq::new(
                            (n + 1) as nat,
                            |i: int| PmodLedCmd::Manual { index: i as usize, value: 0i8 },
                        ));
                    }
                    n = n + 1;
                }
                let remaining = self.encoder_fade_ms - self.time_since_encoder_touched;
                proof {
                    assert(remaining * 120 / (self.encoder_fade_ms as int) <= 120)
                        by (nonlinear_arith)
                        requires
                            0 < self.encoder_fade_ms,
                            0 < remaining <= self.encoder_fade_ms,
                    ;
                }
                let fade_u: u32 = (remaining * 120) / self.encoder_fade_ms;
                let fade: i8 = fade_u as i8;
                match self.opts.active_selected() {
                    Some(sel) => {
                        if sel < 8 {
                            cmds.push(PmodLedCmd::Manual { index: sel, value: fade });
                        }
                    },
                    None => {
                        cmds.push(PmodLedCmd::Manual { index: 0, value: -fade });
                    },
                }
            } else {
                cmds.push(PmodLedCmd::AllAuto);
            }
        }

        let pushed = self.pca9635.push();
        match pushed {
            _ => {},
        }

        let d = self.time_since_encoder_touched < self.encoder_fade_ms || self.opts.modify();
        self.opts.set_draw(d);

        proof {
            assert(self.model() =~= m1);
            assert(cmds@ =~= spec_pmod_cmds(
                m1.page,
                m1.toggle_leds,
                m1.time_since_encoder_touched,
                m0.encoder_fade_ms,
            ));
        }
        cmds
    }
}

} // verus!
