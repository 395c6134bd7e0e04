//! The quadrature-encoder decoder: turns raw accumulated rotation counts
//! and the button level, polled once per control-loop tick, into discrete
//! tick and click events.
//!
//! The physical detent produces two raw counts per logical click, so the
//! decoder consumes the accumulated delta two counts at a time and carries
//! any odd remainder to the next poll. A click is reported only once both
//! a press and a release edge have been observed.

use vstd::prelude::*;

verus! {

/// Model of the decoder state.
#[verifier::ext_equal]
pub struct EncModel {
    pub rot: int,
    pub lrot: int,
    pub lbtn: bool,
    pub pending_ticks: int,
    pub pending_press: bool,
    pub pending_release: bool,
}

/// Saturation of the rotation accumulator at the ends of its counter.
pub open spec fn i64_sat(v: int) -> int {
    if v > i64::MAX {
        i64::MAX as int
    } else if v < i64::MIN {
        i64::MIN as int
    } else {
        v
    }
}

/// Saturation of the pending-tick counter at the ends of its counter.
pub open spec fn i8_clamp(v: int) -> int {
    if v > i8::MAX {
        i8::MAX as int
    } else if v < i8::MIN {
        i8::MIN as int
    } else {
        v
    }
}

/// Division by two toward zero: how many whole detents a signed delta
/// holds, leaving a remainder of the same sign.
pub open spec fn half_toward_zero(d: int) -> int {
    if d >= 0 {
        d / 2
    } else {
        -((-d) / 2)
    }
}

/// Invariant of the decoder: at rest the sampling boundary trails the
/// accumulator by at most one odd count.
pub open spec fn enc_ok(m: EncModel) -> bool {
    &&& -1 <= m.rot - m.lrot <= 1
    &&& i64::MIN <= m.rot <= i64::MAX
    &&& i64::MIN <= m.lrot <= i64::MAX
    &&& i8::MIN <= m.pending_ticks <= i8::MAX
}

/// The decoder's poll step: add the raw delta into the accumulator,
/// consume the outstanding delta two counts at a time into pending ticks,
/// record press and release edges, and advance the sampling boundary by
/// the consumed (even) portion only.
pub open spec fn enc_update(m: EncModel, delta: int, btn: bool) -> EncModel {
    let rot2 = i64_sat(m.rot + delta);
    let d0 = rot2 - m.lrot;
    let q = half_toward_zero(d0);
    let rem = d0 - 2 * q;
    EncModel {
        rot: rot2,
        lrot: rot2 - rem,
        lbtn: btn,
        pending_ticks: i8_clamp(m.pending_ticks + q),
        pending_press: m.pending_press || (m.lbtn != btn && btn),
        pending_release: m.pending_release || (m.lbtn != btn && !btn),
    }
}

/// The decoder state held by the control loop.
#[derive(Clone, Debug)]
pub struct Encoder {
    pub rot: i64,
    pub lrot: i64,
    pub lbtn: bool,
    pub pending_ticks: i8,
    pub pending_release: bool,
    pub pending_press: bool,
}

impl Encoder {
    pub open spec fn model(&self) -> EncModel {
        EncModel {
            rot: self.rot as int,
            lrot: self.lrot as int,
            lbtn: self.lbtn,
            pending_ticks: self.pending_ticks as int,
            pending_press: self.pending_press,
            pending_release: self.pending_release,
        }
    }

    pub open spec fn wf(&self) -> bool {
        enc_ok(self.model())
    }

    /// A fresh decoder, primed with the button level read at start-up so
    /// that no spurious edge is reported.
    pub fn new(btn: bool) -> (r: Self)
        ensures
            r.model() == (EncModel {
                rot: 0,
                lrot: 0,
                lbtn: btn,
                pending_ticks: 0,
                pending_press: false,
                pending_release: false,
            }),
            r.wf(),
    {
        Encoder {
            rot: 0,
            lrot: 0,
            lbtn: btn,
            pending_ticks: 0,
            pending_release: false,
            pending_press: false,
        }
    }

    /// Report and clear the pending ticks, as a signed batch.
    pub fn poke_ticks(&mut self) -> (ticks: i8)
        ensures
            ticks as int == old(self).model().pending_ticks,
            final(self).model() == (EncModel { pending_ticks: 0, ..old(self).model() }),
    {
        let ticks = self.pending_ticks;
        self.pending_ticks = 0;
        ticks
    }

    /// Report and clear a pending click; a click requires both a press and
    /// a release edge, and the pair is discarded together.
    pub fn poke_btn(&mut self) -> (btn: bool)
        ensures
            btn == (old(self).model().pending_press && old(self).model().pending_release),
            btn ==> final(self).model() == (EncModel {
                pending_press: false,
                pending_release: false,
                ..old(self).model()
            }),
            !btn ==> *final(self) == *old(self),
    {
        let btn = self.pending_press && self.pending_release;
        if btn {
            self.pending_press = false;
            self.pending_release = false;
        }
        btn
    }

    /// One poll: feed the raw per-poll rotation delta and button level in.
    pub fn update(&mut self, delta: i8, btn: bool)
        requires
            old(self).wf(),
        ensures
            final(self).model() == enc_update(old(self).model(), delta as int, btn),
            final(self).wf(),
    {
        self.rot = match self.rot.checked_add(delta as i64) {
            Some(v) => v,
            None => if delta >= 0 {
                i64::MAX
            } else {
                i64::MIN
            },
        };
        let mut delta_ticks: i64 = self.rot - self.lrot;
        let ghost d0: int = delta_ticks as int;
        let ghost p0: int = self.pending_ticks as int;
        let ghost pre: Encoder = *self;

        while delta_ticks > 1
            invariant
                i8::MIN <= p0 <= i8::MAX,
                d0 - delta_ticks >= 0,
                (d0 - delta_ticks) % 2 == 0,
                d0 > 1 ==> delta_ticks >= 0,
                d0 <= 1 ==> delta_ticks == d0,
                self.pending_ticks as int == i8_clamp(p0 + (d0 - delta_ticks) / 2),
                *self == (Encoder { pending_ticks: self.pending_ticks, ..pre }),
            decreases delta_ticks,
        {
            self.pending_ticks = if self.pending_ticks < i8::MAX {
                self.pending_ticks + 1
            } else {
                self.pending_ticks
            };
            delta_ticks = delta_ticks - 2;
        }

        while delta_ticks < -1
            invariant
                i8::MIN <= p0 <= i8::MAX,
                (d0 - delta_ticks) % 2 == 0,
                d0 > 1 ==> 0 <= delta_ticks <= 1,
                -1 <= d0 <= 1 ==> delta_ticks == d0,
                d0 < -1 ==> delta_ticks <= 0 && d0 - delta_ticks <= 0,
                self.pending_ticks as int == i8_clamp(p0 + (d0 - delta_ticks) / 2),
                *self == (Encoder { pending_ticks: self.pending_ticks, ..pre }),
            decreases -delta_ticks,
        {
            self.pending_ticks = if self.pending_ticks > i8::MIN {
                self.pending_ticks - 1
            } else {
                self.pending_ticks
            };
            delta_ticks = delta_ticks + 2;
        }

        if self.lbtn != btn {
            if btn {
                self.pending_press = true;
            } else {
                self.pending_release = true;
            }
        }

        self.lrot = self.rot - delta_ticks;
        self.lbtn = btn;
    }
}

/// Law: raw counts arrive two per detent. From a state with no retained
/// remainder, a delta of `+1` alone yields no tick and retains the odd
/// count; a second `+1` completes the detent, yielding exactly one pending
/// tick and no remainder.
pub proof fn lemma_encoder_two_counts_one_tick(m: EncModel)
    requires
        enc_ok(m),
        m.rot == m.lrot,
        m.pending_ticks < i8::MAX,
        m.rot + 2 <= i64::MAX,
    ensures
        ({
            let m1 = enc_update(m, 1, m.lbtn);
            let m2 = enc_update(m1, 1, m.lbtn);
            &&& m1.pending_ticks == m.pending_ticks
            &&& m1.rot - m1.lrot == 1
            &&& m2.pending_ticks == m.pending_ticks + 1
            &&& m2.rot == m2.lrot
        }),
{
}

} // verus!
