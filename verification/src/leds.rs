//! LED feedback on the front panel: a bar graph of the selected option's
//! normalized value on the motherboard LED expander, and a MIDI activity
//! pair.
//!
//! The expander's bar is wired as six green/red pairs at fixed channels.
//! Pair `k` (from the middle outward) shows red when the value sits above
//! `1/2 + k/12` of its range and green when it sits below `1/2 - k/12`;
//! while an option is being modified the whole bar blinks with the toggle
//! phase.

use vstd::prelude::*;

use crate::opt::OptionPage;
use crate::opt::PageModel;
use crate::opt::opt_ratio;
use crate::opt::opt_wf;
use crate::opt::page_active;
use crate::opt::page_ok;

verus! {

/// Channel of the green LED of bar pair `k`.
pub open spec fn spec_bar_green(k: int) -> int {
    if k == 0 { 0 }
    else if k == 1 { 2 }
    else if k == 2 { 14 }
    else if k == 3 { 12 }
    else if k == 4 { 6 }
    else { 4 }
}

/// Channel of the red LED of bar pair `k`.
pub open spec fn spec_bar_red(k: int) -> int {
    if k == 0 { 1 }
    else if k == 1 { 3 }
    else if k == 2 { 15 }
    else if k == 3 { 13 }
    else if k == 4 { 7 }
    else { 5 }
}

/// Duty of the red LED of pair `k` for a value at `num/den` of its range.
pub open spec fn spec_red_value(k: int, num: int, den: int, modify: bool, toggle: bool) -> u8 {
    if modify && !toggle {
        0u8
    } else if 12 * num > (6 + k) * den {
        0xffu8
    } else {
        0u8
    }
}

/// Duty of the green LED of pair `k` for a value at `num/den` of its range.
pub open spec fn spec_green_value(k: int, num: int, den: int, modify: bool, toggle: bool) -> u8 {
    if modify && !toggle {
        0u8
    } else if 12 * num < (6 - k) * den {
        0xffu8
    } else {
        0u8
    }
}

/// All six pairs written, in bar order.
pub open spec fn spec_bar_set(
    leds: Seq<u8>,
    num: int,
    den: int,
    modify: bool,
    toggle: bool,
) -> Seq<u8> {
    leds.update(1, spec_red_value(0, num, den, modify, toggle)).update(
        0,
        spec_green_value(0, num, den, modify, toggle),
    ).update(3, spec_red_value(1, num, den, modify, toggle)).update(
        2,
        spec_green_value(1, num, den, modify, toggle),
    ).update(15, spec_red_value(2, num, den, modify, toggle)).update(
        14,
        spec_green_value(2, num, den, modify, toggle),
    ).update(13, spec_red_value(3, num, den, modify, toggle)).update(
        12,
        spec_green_value(3, num, den, modify, toggle),
    ).update(7, spec_red_value(4, num, den, modify, toggle)).update(
        6,
        spec_green_value(4, num, den, modify, toggle),
    ).update(5, spec_red_value(5, num, den, modify, toggle)).update(
        4,
        spec_green_value(5, num, den, modify, toggle),
    )
}

/// What the bar graph leaves on the sixteen channels: untouched without a
/// selection or for a selection beyond the first eight options, else the
/// six pairs lit from the selected option's normalized value.
pub open spec fn spec_bargraph(p: PageModel, leds: Seq<u8>, toggle: bool) -> Seq<u8> {
    match page_active(p).selected {
        None => leds,
        Some(n) => if n > 7 {
            leds
        } else {
            let r = opt_ratio(page_active(p).options[n]);
            spec_bar_set(leds, r.0, r.1, p.modify, toggle)
        },
    }
}

fn red_value(k: i64, num: i64, den: i64, modify: bool, toggle: bool) -> (v: u8)
    requires
        0 <= k <= 5,
        0 < den <= 0x4_0000_0000,
        0 <= num <= den,
    ensures
        v == spec_red_value(k as int, num as int, den as int, modify, toggle),
{
    proof {
        assert(0 <= (6 + k) * den <= 12 * 0x4_0000_0000) by (nonlinear_arith)
            requires
                0 <= k <= 5,
                0 < den <= 0x4_0000_0000,
        ;
    }
    if modify && !toggle {
        0
    } else if 12 * num > (6 + k) * den {
        0xff
    } else {
        0
    }
}

fn green_value(k: i64, num: i64, den: i64, modify: bool, toggle: bool) -> (v: u8)
    requires
        0 <= k <= 5,
        0 < den <= 0x4_0000_0000,
        0 <= num <= den,
    ensures
        v == spec_green_value(k as int, num as int, den as int, modify, toggle),
{
    proof {
        assert(0 <= (6 - k) * den <= 12 * 0x4_0000_0000) by (nonlinear_arith)
            requires
                0 <= k <= 5,
                0 < den <= 0x4_0000_0000,
        ;
    }
    if modify && !toggle {
        0
    } else if 12 * num < (6 - k) * den {
        0xff
    } else {
        0
    }
}

/// Recompute the bar graph from the page's current selection.
pub fn mobo_pca9635_set_bargraph<T: OptionPage>(opts: &T, leds: &mut [u8; 16], toggle: bool)
    requires
        page_ok(opts.page()),
    ensures
        final(leds)@ == spec_bargraph(opts.page(), old(leds)@, toggle),
{
    let sel = opts.active_selected();
    if let Some(n) = sel {
        if n > 7 {
            return;
        }
        let r = match opts.selected_ratio() {
            Some(r) => r,
            None => (0, 1),
        };
        let num = r.0;
        let den = r.1;
        proof {
            let o = page_active(opts.page()).options[n as int];
            assert(opt_wf(o));
        }
        let m = opts.modify();
        leds[1] = red_value(0, num, den, m, toggle);
        leds[0] = green_value(0, num, den, m, toggle);
        leds[3] = red_value(1, num, den, m, toggle);
        leds[2] = green_value(1, num, den, m, toggle);
        leds[15] = red_value(2, num, den, m, toggle);
        leds[14] = green_value(2, num, den, m, toggle);
        leds[13] = red_value(3, num, den, m, toggle);
        leds[12] = green_value(3, num, den, m, toggle);
        leds[7] = red_value(4, num, den, m, toggle);
        leds[6] = green_value(4, num, den, m, toggle);
        leds[5] = red_value(5, num, den, m, toggle);
        leds[4] = green_value(5, num, den, m, toggle);
        proof {
            assert(leds@ =~= spec_bargraph(opts.page(), old(leds)@, toggle));
        }
    }
}

/// Show MIDI activity on the dedicated green/red pair.
pub fn mobo_pca9635_set_midi(leds: &mut [u8; 16], red: u8, green: u8)
    ensures
        final(leds)@ == old(leds)@.update(8, green).update(9, red),
{
    leds[8] = green;
    leds[9] = red;
}

} // verus!
