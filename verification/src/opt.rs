//! The option model: typed menu leaves (numeric and enumerated), the view
//! over one screen's options, and the page that routes navigation to the
//! active view.

use vstd::prelude::*;

verus! {

/// Rendered text of an option name or value.
pub type OptionString = String;

/// Mathematical model of a single menu option.
///
/// A `Num` option is an ordered scalar clamped to `[min, max]`; a `Choice`
/// option ranges over a closed, ordered set of labelled variants.
pub enum OptModel {
    Num { name: Seq<char>, value: int, step: int, min: int, max: int },
    Choice { name: Seq<char>, index: int, labels: Seq<Seq<char>> },
}

/// Well-formedness of an option model: the value sits inside its bounds and
/// every quantity fits comfortably below the machine word.
pub open spec fn opt_wf(o: OptModel) -> bool {
    match o {
        OptModel::Num { name, value, step, min, max } =>
            min <= value && value <= max && min < max && 0 <= step
                && -0x1_0000_0000 <= min && max <= 0x1_0000_0000 && step <= 0x1_0000_0000,
        OptModel::Choice { name, index, labels } => 0 <= index && index < labels.len()
            && labels.len() <= 4096,
    }
}

/// One upward tick: a numeric option saturates at `max` instead of
/// overshooting; an enumerated option advances to the next variant and
/// stays put at the last one (no wraparound).
pub open spec fn opt_tick_up(o: OptModel) -> OptModel {
    match o {
        OptModel::Num { name, value, step, min, max } => OptModel::Num {
            name,
            value: if value >= max { max } else if value + step >= max { max } else { value + step },
            step,
            min,
            max,
        },
        OptModel::Choice { name, index, labels } => OptModel::Choice {
            name,
            index: if index + 1 < labels.len() { index + 1 } else { index },
            labels,
        },
    }
}

/// One downward tick: the mirror of [`opt_tick_up`], saturating at `min`,
/// or stepping to the previous variant with no wraparound at the first.
pub open spec fn opt_tick_down(o: OptModel) -> OptModel {
    match o {
        OptModel::Num { name, value, step, min, max } => OptModel::Num {
            name,
            value: if value <= min { min } else if value - step <= min { min } else { value - step },
            step,
            min,
            max,
        },
        OptModel::Choice { name, index, labels } => OptModel::Choice {
            name,
            index: if index > 0 { index - 1 } else { index },
            labels,
        },
    }
}

pub open spec fn opt_name(o: OptModel) -> Seq<char> {
    match o {
        OptModel::Num { name, .. } => name,
        OptModel::Choice { name, .. } => name,
    }
}

/// Rendered value text: decimal for numerics, the variant label otherwise.
pub open spec fn opt_value_text(o: OptModel) -> Seq<char> {
    match o {
        OptModel::Num { value, .. } => spec_dec_int(value),
        OptModel::Choice { index, labels, .. } => labels[index],
    }
}

/// Normalized position of the value inside its range, as a fraction
/// numerator/denominator; used by the LED bar graph.
pub open spec fn opt_ratio(o: OptModel) -> (int, int) {
    match o {
        OptModel::Num { value, min, max, .. } => (value - min, max - min),
        OptModel::Choice { index, labels, .. } => (index, labels.len() as int),
    }
}

// ---------------------------------------------------------------------------
// Decimal rendering
// ---------------------------------------------------------------------------

pub open spec fn spec_digit_char(d: int) -> char {
    if d == 0 { '0' }
    else if d == 1 { '1' }
    else if d == 2 { '2' }
    else if d == 3 { '3' }
    else if d == 4 { '4' }
    else if d == 5 { '5' }
    else if d == 6 { '6' }
    else if d == 7 { '7' }
    else if d == 8 { '8' }
    else { '9' }
}

/// Decimal digit string of a natural number, most significant digit first.
pub open spec fn spec_dec_nat(n: nat) -> Seq<char>
    decreases n,
{
    if n < 10 {
        seq![spec_digit_char(n as int)]
    } else {
        spec_dec_nat(n / 10).push(spec_digit_char((n % 10) as int))
    }
}

/// Decimal rendering of an integer, with a leading minus sign if negative.
pub open spec fn spec_dec_int(v: int) -> Seq<char> {
    if v < 0 {
        seq!['-'].add(spec_dec_nat((-v) as nat))
    } else {
        spec_dec_nat(v as nat)
    }
}

fn digit_str(d: u8) -> (s: &'static str)
    requires
        d < 10,
    ensures
        s@ == seq![spec_digit_char(d as int)],
{
    match d {
        0 => { proof { reveal_strlit("0"); assert("0"@ =~= seq![spec_digit_char(0)]); } "0" },
        1 => { proof { reveal_strlit("1"); assert("1"@ =~= seq![spec_digit_char(1)]); } "1" },
        2 => { proof { reveal_strlit("2"); assert("2"@ =~= seq![spec_digit_char(2)]); } "2" },
        3 => { proof { reveal_strlit("3"); assert("3"@ =~= seq![spec_digit_char(3)]); } "3" },
        4 => { proof { reveal_strlit("4"); assert("4"@ =~= seq![spec_digit_char(4)]); } "4" },
        5 => { proof { reveal_strlit("5"); assert("5"@ =~= seq![spec_digit_char(5)]); } "5" },
        6 => { proof { reveal_strlit("6"); assert("6"@ =~= seq![spec_digit_char(6)]); } "6" },
        7 => { proof { reveal_strlit("7"); assert("7"@ =~= seq![spec_digit_char(7)]); } "7" },
        8 => { proof { reveal_strlit("8"); assert("8"@ =~= seq![spec_digit_char(8)]); } "8" },
        _ => { proof { reveal_strlit("9"); assert("9"@ =~= seq![spec_digit_char(9)]); } "9" },
    }
}

fn u64_dec_string(n: u64) -> (s: String)
    ensures
        s@ == spec_dec_nat(n as nat),
    decreases n,
{
    if n < 10 {
        let s = digit_str(n as u8).to_owned();
        s
    } else {
        let mut s = u64_dec_string(n / 10);
        let d = digit_str((n % 10) as u8);
        s.append(d);
        proof {
            assert(s@ =~= spec_dec_nat((n / 10) as nat).push(spec_digit_char((n % 10) as int)));
        }
        s
    }
}

/// Decimal rendering of a signed value, exactly [`spec_dec_int`].
pub fn i64_dec_string(v: i64) -> (s: String)
    requires
        v > i64::MIN,
    ensures
        s@ == spec_dec_int(v as int),
{
    if v < 0 {
        let mut s = String::from_str("-");
        let rest = u64_dec_string((-v) as u64);
        s.append(rest.as_str());
        proof {
            reveal_strlit("-");
            assert(s@ =~= seq!['-'].add(spec_dec_nat((-(v as int)) as nat)));
        }
        s
    } else {
        u64_dec_string(v as u64)
    }
}

// ---------------------------------------------------------------------------
// Numeric options
// ---------------------------------------------------------------------------

/// A numeric menu option: an ordered scalar with a step size, clamped to
/// `[min, max]` by every mutation.
#[derive(Clone)]
pub struct NumOption {
    pub name: OptionString,
    pub value: i64,
    pub step: i64,
    pub min: i64,
    pub max: i64,
}

impl NumOption {
    pub open spec fn model(&self) -> OptModel {
        OptModel::Num {
            name: self.name@,
            value: self.value as int,
            step: self.step as int,
            min: self.min as int,
            max: self.max as int,
        }
    }

    pub open spec fn wf(&self) -> bool {
        opt_wf(self.model())
    }

    pub fn new(name: OptionString, value: i64, step: i64, min: i64, max: i64) -> (r: Self)
        requires
            min <= value <= max,
            min < max,
            0 <= step,
            -0x1_0000_0000 <= min,
            max <= 0x1_0000_0000,
            step <= 0x1_0000_0000,
        ensures
            r.model() == (OptModel::Num {
                name: name@,
                value: value as int,
                step: step as int,
                min: min as int,
                max: max as int,
            }),
            r.wf(),
    {
        NumOption { name, value, step, min, max }
    }

    pub fn name(&self) -> (s: &OptionString)
        ensures
            s@ == opt_name(self.model()),
    {
        &self.name
    }

    /// Rendered decimal form of the current value.
    pub fn value(&self) -> (s: OptionString)
        requires
            self.wf(),
        ensures
            s@ == opt_value_text(self.model()),
    {
        i64_dec_string(self.value)
    }

    /// Position inside the range as a fraction; the denominator is positive.
    pub fn ratio(&self) -> (r: (i64, i64))
        requires
            self.wf(),
        ensures
            (r.0 as int, r.1 as int) == opt_ratio(self.model()),
            r.1 > 0,
            0 <= r.0 <= r.1,
    {
        (self.value - self.min, self.max - self.min)
    }

    pub fn tick_up(&mut self)
        requires
            old(self).wf(),
        ensures
            final(self).model() == opt_tick_up(old(self).model()),
            final(self).wf(),
    {
        if self.value >= self.max {
            self.value = self.max;
            return;
        }
        if self.value + self.step >= self.max {
            self.value = self.max;
        } else {
            self.value = self.value + self.step;
        }
    }

    pub fn tick_down(&mut self)
        requires
            old(self).wf(),
        ensures
            final(self).model() == opt_tick_down(old(self).model()),
            final(self).wf(),
    {
        if self.value <= self.min {
            self.value = self.min;
            return;
        }
        if self.value - self.step <= self.min {
            self.value = self.min;
        } else {
            self.value = self.value - self.step;
        }
    }
}

// ---------------------------------------------------------------------------
// Enumerated options
// ---------------------------------------------------------------------------

/// A closed, ordered set of variants usable as an enumerated option value.
///
/// `labels()` fixes both the iteration order and the rendered text of each
/// variant; `index_of` places every value inside that order.
pub trait EnumValues: Sized + Copy {
    spec fn labels() -> Seq<Seq<char>>;

    spec fn index_of(self) -> int;

    /// Every value lies inside the variant order, and the order is small.
    proof fn index_in_range(self)
        ensures
            0 <= self.index_of() < Self::labels().len(),
            Self::labels().len() <= 4096,
    ;

    fn count() -> (n: usize)
        ensures
            n as int == Self::labels().len(),
            1 <= n <= 4096,
    ;

    fn index(self) -> (i: usize)
        ensures
            i as int == self.index_of(),
            0 <= self.index_of() < Self::labels().len(),
    ;

    fn from_index(i: usize) -> (v: Self)
        requires
            (i as int) < Self::labels().len(),
        ensures
            v.index_of() == i as int,
    ;

    fn label(self) -> (s: &'static str)
        ensures
            s@ == Self::labels()[self.index_of()],
    ;
}

/// An enumerated menu option: a named value ranging over the variant set of
/// `T`, stepped through in iteration order without wraparound.
#[derive(Clone)]
pub struct EnumOption<T> {
    pub name: OptionString,
    pub value: T,
}

impl<T: EnumValues> EnumOption<T> {
    pub open spec fn model(&self) -> OptModel {
        OptModel::Choice { name: self.name@, index: self.value.index_of(), labels: T::labels() }
    }

    pub open spec fn wf(&self) -> bool {
        opt_wf(self.model())
    }

    pub fn new(name: OptionString, value: T) -> (r: Self)
        ensures
            r.model() == (OptModel::Choice {
                name: name@,
                index: value.index_of(),
                labels: T::labels(),
            }),
            r.wf(),
    {
        proof {
            value.index_in_range();
        }
        EnumOption { name, value }
    }

    pub fn name(&self) -> (s: &OptionString)
        ensures
            s@ == opt_name(self.model()),
    {
        &self.name
    }

    /// Rendered form: the canonical label of the current variant.
    pub fn value(&self) -> (s: OptionString)
        ensures
            s@ == opt_value_text(self.model()),
    {
        let s = self.value.label();
        s.to_owned()
    }

    /// Position inside the variant order as a fraction of the variant count.
    pub fn ratio(&self) -> (r: (i64, i64))
        ensures
            (r.0 as int, r.1 as int) == opt_ratio(self.model()),
            r.1 > 0,
            0 <= r.0 <= r.1,
    {
        let i = self.value.index();
        let n = T::count();
        (i as i64, n as i64)
    }

    pub fn tick_up(&mut self)
        ensures
            final(self).model() == opt_tick_up(old(self).model()),
            final(self).wf(),
    {
        let i = self.value.index();
        let n = T::count();
        if i + 1 < n {
            self.value = T::from_index(i + 1);
        }
    }

    pub fn tick_down(&mut self)
        ensures
            final(self).model() == opt_tick_down(old(self).model()),
            final(self).wf(),
    {
        proof {
            self.value.index_in_range();
        }
        let i = self.value.index();
        if i > 0 {
            self.value = T::from_index(i - 1);
        }
    }
}

// ---------------------------------------------------------------------------
// Views
// ---------------------------------------------------------------------------

/// Model of one screen's contents: an ordered list of options plus the
/// selection cursor.
#[verifier::ext_equal]
pub struct ViewModel {
    pub selected: Option<int>,
    pub options: Seq<OptModel>,
}

/// Invariant of a view: every option is well formed and the cursor, when
/// present, points inside the list.
pub open spec fn view_ok(v: ViewModel) -> bool {
    &&& forall|j: int| 0 <= j < v.options.len() ==> opt_wf(#[trigger] v.options[j])
    &&& match v.selected {
        Some(i) => 0 <= i < v.options.len(),
        None => true,
    }
}

pub open spec fn sel_view(s: Option<usize>) -> Option<int> {
    match s {
        Some(i) => Some(i as int),
        None => None,
    }
}

/// Effect of one upward tick on a view. The second component reports
/// whether the tick must instead be routed to the page's screen selector
/// (selection absent while in modify mode).
pub open spec fn view_tick_up_spec(v: ViewModel, modify: bool) -> (ViewModel, bool) {
    match v.selected {
        Some(i) => if modify {
            (ViewModel { options: v.options.update(i, opt_tick_up(v.options[i])), ..v }, false)
        } else if i + 1 < v.options.len() {
            (ViewModel { selected: Some(i + 1), ..v }, false)
        } else {
            (v, false)
        },
        None => if modify {
            (v, true)
        } else if v.options.len() > 0 {
            (ViewModel { selected: Some(0), ..v }, false)
        } else {
            (v, false)
        },
    }
}

/// Effect of one downward tick on a view; stepping below the first option
/// clears the selection back to the screen level.
pub open spec fn view_tick_down_spec(v: ViewModel, modify: bool) -> (ViewModel, bool) {
    match v.selected {
        Some(i) => if modify {
            (ViewModel { options: v.options.update(i, opt_tick_down(v.options[i])), ..v }, false)
        } else if i != 0 {
            (ViewModel { selected: Some(i - 1), ..v }, false)
        } else {
            (ViewModel { selected: None, ..v }, false)
        },
        None => if modify {
            (v, true)
        } else {
            (v, false)
        },
    }
}

/// One screen's option list: selection cursor plus per-index access to the
/// options, each faithful to the view's model.
pub trait OptionView {
    spec fn view_model(&self) -> ViewModel;

    fn selected(&self) -> (s: Option<usize>)
        ensures
            sel_view(s) == self.view_model().selected,
    ;

    fn set_selected(&mut self, s: Option<usize>)
        requires
            match s {
                Some(i) => (i as int) < old(self).view_model().options.len(),
                None => true,
            },
        ensures
            final(self).view_model() == (ViewModel {
                selected: sel_view(s),
                ..old(self).view_model()
            }),
    ;

    fn len(&self) -> (n: usize)
        ensures
            n as int == self.view_model().options.len(),
    ;

    fn tick_up_at(&mut self, i: usize)
        requires
            view_ok(old(self).view_model()),
            (i as int) < old(self).view_model().options.len(),
        ensures
            final(self).view_model() == (ViewModel {
                options: old(self).view_model().options.update(
                    i as int,
                    opt_tick_up(old(self).view_model().options[i as int]),
                ),
                ..old(self).view_model()
            }),
    ;

    fn tick_down_at(&mut self, i: usize)
        requires
            view_ok(old(self).view_model()),
            (i as int) < old(self).view_model().options.len(),
        ensures
            final(self).view_model() == (ViewModel {
                options: old(self).view_model().options.update(
                    i as int,
                    opt_tick_down(old(self).view_model().options[i as int]),
                ),
                ..old(self).view_model()
            }),
    ;

    fn name_at(&self, i: usize) -> (s: OptionString)
        requires
            (i as int) < self.view_model().options.len(),
        ensures
            s@ == opt_name(self.view_model().options[i as int]),
    ;

    fn value_at(&self, i: usize) -> (s: OptionString)
        requires
            view_ok(self.view_model()),
            (i as int) < self.view_model().options.len(),
        ensures
            s@ == opt_value_text(self.view_model().options[i as int]),
    ;

    fn ratio_at(&self, i: usize) -> (r: (i64, i64))
        requires
            view_ok(self.view_model()),
            (i as int) < self.view_model().options.len(),
        ensures
            (r.0 as int, r.1 as int) == opt_ratio(self.view_model().options[i as int]),
            r.1 > 0,
            0 <= r.0 <= r.1,
    ;
}

/// Apply one upward tick to a view, reporting whether the tick belongs to
/// the page's screen selector instead.
pub fn view_nav_up<V: OptionView>(v: &mut V, modify: bool) -> (screen_tick: bool)
    requires
        view_ok(old(v).view_model()),
    ensures
        final(v).view_model() == view_tick_up_spec(old(v).view_model(), modify).0,
        screen_tick == view_tick_up_spec(old(v).view_model(), modify).1,
{
    let n = v.len();
    match v.selected() {
        Some(i) => {
            if modify {
                v.tick_up_at(i);
            } else if i + 1 < n {
                v.set_selected(Some(i + 1));
            }
            false
        },
        None => {
            if modify {
                true
            } else {
                if n > 0 {
                    v.set_selected(Some(0));
                }
                false
            }
        },
    }
}

/// Apply one downward tick to a view, reporting whether the tick belongs to
/// the page's screen selector instead.
pub fn view_nav_down<V: OptionView>(v: &mut V, modify: bool) -> (screen_tick: bool)
    requires
        view_ok(old(v).view_model()),
    ensures
        final(v).view_model() == view_tick_down_spec(old(v).view_model(), modify).0,
        screen_tick == view_tick_down_spec(old(v).view_model(), modify).1,
{
    match v.selected() {
        Some(i) => {
            if modify {
                v.tick_down_at(i);
            } else if i != 0 {
                v.set_selected(Some(i - 1));
            } else {
                v.set_selected(None);
            }
            false
        },
        None => modify,
    }
}

// ---------------------------------------------------------------------------
// Pages
// ---------------------------------------------------------------------------

/// Model of the root menu state: the edit-mode flag, the screen selector
/// (always a `Choice` whose variants name the views), one view per screen,
/// and the redraw hint maintained by the update cycle.
#[verifier::ext_equal]
pub struct PageModel {
    pub modify: bool,
    pub draw: bool,
    pub screen: OptModel,
    pub views: Seq<ViewModel>,
}

pub open spec fn page_screen_index(p: PageModel) -> int {
    match p.screen {
        OptModel::Choice { index, .. } => index,
        _ => 0,
    }
}

pub open spec fn page_screen_count(p: PageModel) -> int {
    match p.screen {
        OptModel::Choice { labels, .. } => labels.len() as int,
        _ => 0,
    }
}

/// The active view: the one picked by the screen selector.
pub open spec fn page_active(p: PageModel) -> ViewModel {
    p.views[page_screen_index(p)]
}

/// Invariant of a page: the screen selector is a well-formed `Choice` with
/// exactly one view per variant, and every view is well formed.
pub open spec fn page_ok(p: PageModel) -> bool {
    &&& p.screen is Choice
    &&& opt_wf(p.screen)
    &&& page_screen_count(p) == p.views.len()
    &&& forall|k: int| 0 <= k < p.views.len() ==> view_ok(#[trigger] p.views[k])
}

/// The complete four-way navigation dispatch for an upward tick: the tick
/// goes to the active view, or to the screen selector when no option is
/// selected in modify mode.
pub open spec fn page_tick_up(p: PageModel) -> PageModel {
    let k = page_screen_index(p);
    let r = view_tick_up_spec(p.views[k], p.modify);
    if r.1 {
        PageModel { screen: opt_tick_up(p.screen), ..p }
    } else {
        PageModel { views: p.views.update(k, r.0), ..p }
    }
}

/// The downward-tick counterpart of [`page_tick_up`].
pub open spec fn page_tick_down(p: PageModel) -> PageModel {
    let k = page_screen_index(p);
    let r = view_tick_down_spec(p.views[k], p.modify);
    if r.1 {
        PageModel { screen: opt_tick_down(p.screen), ..p }
    } else {
        PageModel { views: p.views.update(k, r.0), ..p }
    }
}

/// A batch of ticks applied in sequence: positive counts tick up, negative
/// counts tick down.
pub open spec fn page_consume_ticks(p: PageModel, t: int) -> PageModel
    decreases (if t >= 0 { t } else { -t }),
{
    if t >= 1 {
        page_consume_ticks(page_tick_up(p), t - 1)
    } else if t <= -1 {
        page_consume_ticks(page_tick_down(p), t + 1)
    } else {
        p
    }
}

/// The root menu container: edit-mode flag, screen selector and views,
/// navigated through encoder events.
pub trait OptionPage {
    spec fn page(&self) -> PageModel;

    fn modify(&self) -> (m: bool)
        ensures
            m == self.page().modify,
    ;

    /// A click: flips edit mode and touches nothing else.
    fn toggle_modify(&mut self)
        ensures
            final(self).page() == (PageModel { modify: !old(self).page().modify, ..old(self).page() }),
    ;

    fn draw(&self) -> (d: bool)
        ensures
            d == self.page().draw,
    ;

    fn set_draw(&mut self, d: bool)
        ensures
            final(self).page() == (PageModel { draw: d, ..old(self).page() }),
    ;

    fn tick_up(&mut self)
        requires
            page_ok(old(self).page()),
        ensures
            final(self).page() == page_tick_up(old(self).page()),
    ;

    fn tick_down(&mut self)
        requires
            page_ok(old(self).page()),
        ensures
            final(self).page() == page_tick_down(old(self).page()),
    ;

    fn active_selected(&self) -> (s: Option<usize>)
        ensures
            sel_view(s) == page_active(self.page()).selected,
    ;

    fn active_len(&self) -> (n: usize)
        ensures
            n as int == page_active(self.page()).options.len(),
    ;

    /// The normalized value of the selected option of the active view, if
    /// any; feeds the LED bar graph.
    fn selected_ratio(&self) -> (r: Option<(i64, i64)>)
        requires
            page_ok(self.page()),
        ensures
            match page_active(self.page()).selected {
                Some(i) => {
                    &&& r is Some
                    &&& (r->Some_0.0 as int, r->Some_0.1 as int) == opt_ratio(
                        page_active(self.page()).options[i],
                    )
                    &&& r->Some_0.1 > 0
                    &&& 0 <= r->Some_0.0 <= r->Some_0.1
                },
                None => r is None,
            },
    ;

    fn screen_index(&self) -> (i: usize)
        ensures
            i as int == page_screen_index(self.page()),
    ;

    fn screen_count(&self) -> (n: usize)
        ensures
            n as int == page_screen_count(self.page()),
    ;
}

/// Apply a signed batch of ticks to a page, one at a time.
pub fn run_ticks<P: OptionPage>(p: &mut P, ticks: i8)
    requires
        page_ok(old(p).page()),
    ensures
        final(p).page() == page_consume_ticks(old(p).page(), ticks as int),
{
    let mut t: i8 = ticks;
    while t > 0
        invariant
            page_ok(p.page()),
            page_consume_ticks(old(p).page(), ticks as int) == page_consume_ticks(
                p.page(),
                t as int,
            ),
            t >= 0 || ticks < 0,
        decreases t,
    {
        proof {
            lemma_page_tick_up_ok(p.page());
        }
        p.tick_up();
        t = t - 1;
    }
    while t < 0
        invariant
            t <= 0,
            page_ok(p.page()),
            page_consume_ticks(old(p).page(), ticks as int) == page_consume_ticks(
                p.page(),
                t as int,
            ),
        decreases -t,
    {
        proof {
            lemma_page_tick_down_ok(p.page());
        }
        p.tick_down();
        t = t + 1;
    }
}

// ---------------------------------------------------------------------------
// Preservation lemmas
// ---------------------------------------------------------------------------

pub proof fn lemma_opt_tick_up_wf(o: OptModel)
    requires
        opt_wf(o),
    ensures
        opt_wf(opt_tick_up(o)),
{
}

pub proof fn lemma_opt_tick_down_wf(o: OptModel)
    requires
        opt_wf(o),
    ensures
        opt_wf(opt_tick_down(o)),
{
}

pub proof fn lemma_view_tick_up_ok(v: ViewModel, modify: bool)
    requires
        view_ok(v),
    ensures
        view_ok(view_tick_up_spec(v, modify).0),
{
    match v.selected {
        Some(i) => {
            if modify {
                lemma_opt_tick_up_wf(v.options[i]);
            }
        },
        None => {},
    }
}

pub proof fn lemma_view_tick_down_ok(v: ViewModel, modify: bool)
    requires
        view_ok(v),
    ensures
        view_ok(view_tick_down_spec(v, modify).0),
{
    match v.selected {
        Some(i) => {
            if modify {
                lemma_opt_tick_down_wf(v.options[i]);
            }
        },
        None => {},
    }
}

/// One upward tick keeps the page invariant.
pub proof fn lemma_page_tick_up_ok(p: PageModel)
    requires
        page_ok(p),
    ensures
        page_ok(page_tick_up(p)),
{
    let k = page_screen_index(p);
    lemma_view_tick_up_ok(p.views[k], p.modify);
    lemma_opt_tick_up_wf(p.screen);
}

/// One downward tick keeps the page invariant.
pub proof fn lemma_page_tick_down_ok(p: PageModel)
    requires
        page_ok(p),
    ensures
        page_ok(page_tick_down(p)),
{
    let k = page_screen_index(p);
    lemma_view_tick_down_ok(p.views[k], p.modify);
    lemma_opt_tick_down_wf(p.screen);
}

// ---------------------------------------------------------------------------
// Laws of the option model and of navigation
// ---------------------------------------------------------------------------

pub open spec fn num_value(o: OptModel) -> int {
    match o {
        OptModel::Num { value, .. } => value,
        _ => 0,
    }
}

pub open spec fn num_step(o: OptModel) -> int {
    match o {
        OptModel::Num { step, .. } => step,
        _ => 0,
    }
}

pub open spec fn num_min(o: OptModel) -> int {
    match o {
        OptModel::Num { min, .. } => min,
        _ => 0,
    }
}

pub open spec fn num_max(o: OptModel) -> int {
    match o {
        OptModel::Num { max, .. } => max,
        _ => 0,
    }
}

pub open spec fn choice_index(o: OptModel) -> int {
    match o {
        OptModel::Choice { index, .. } => index,
        _ => 0,
    }
}

pub open spec fn choice_count(o: OptModel) -> int {
    match o {
        OptModel::Choice { labels, .. } => labels.len() as int,
        _ => 0,
    }
}

/// `k` upward ticks, the last one applied outermost.
pub open spec fn opt_tick_up_n(o: OptModel, k: nat) -> OptModel
    decreases k,
{
    if k == 0 {
        o
    } else {
        opt_tick_up(opt_tick_up_n(o, (k - 1) as nat))
    }
}

/// `k` downward ticks, the first one applied innermost.
pub open spec fn opt_tick_down_n(o: OptModel, k: nat) -> OptModel
    decreases k,
{
    if k == 0 {
        o
    } else {
        opt_tick_down_n(opt_tick_down(o), (k - 1) as nat)
    }
}

/// Law: however many upward ticks are applied to a numeric option, the
/// value never exceeds the maximum, and the bounds themselves never move.
pub proof fn lemma_num_ticks_up_bounded(o: OptModel, k: nat)
    requires
        opt_wf(o),
        o is Num,
    ensures
        opt_wf(opt_tick_up_n(o, k)),
        opt_tick_up_n(o, k) is Num,
        num_value(opt_tick_up_n(o, k)) <= num_max(o),
        num_min(opt_tick_up_n(o, k)) == num_min(o),
        num_max(opt_tick_up_n(o, k)) == num_max(o),
        num_step(opt_tick_up_n(o, k)) == num_step(o),
        opt_name(opt_tick_up_n(o, k)) == opt_name(o),
    decreases k,
{
    if k > 0 {
        lemma_num_ticks_up_bounded(o, (k - 1) as nat);
    }
}

/// Law: the mirror bound for downward ticks, which never undershoot the
/// minimum.
pub proof fn lemma_num_ticks_down_bounded(o: OptModel, k: nat)
    requires
        opt_wf(o),
        o is Num,
    ensures
        opt_wf(opt_tick_down_n(o, k)),
        opt_tick_down_n(o, k) is Num,
        num_value(opt_tick_down_n(o, k)) >= num_min(o),
        num_min(opt_tick_down_n(o, k)) == num_min(o),
        num_max(opt_tick_down_n(o, k)) == num_max(o),
        num_step(opt_tick_down_n(o, k)) == num_step(o),
        opt_name(opt_tick_down_n(o, k)) == opt_name(o),
    decreases k,
{
    if k > 0 {
        lemma_opt_tick_down_wf(o);
        lemma_num_ticks_down_bounded(opt_tick_down(o), (k - 1) as nat);
    }
}

/// While no tick reaches the maximum, `k` upward ticks land exactly on
/// `value + k * step`.
pub proof fn lemma_num_ticks_up_exact(o: OptModel, k: nat)
    requires
        opt_wf(o),
        o is Num,
        num_value(o) + k * num_step(o) < num_max(o),
    ensures
        opt_tick_up_n(o, k) == (OptModel::Num {
            name: opt_name(o),
            value: num_value(o) + k * num_step(o),
            step: num_step(o),
            min: num_min(o),
            max: num_max(o),
        }),
        opt_wf(opt_tick_up_n(o, k)),
    decreases k,
{
    let v = num_value(o);
    let s = num_step(o);
    if k == 0 {
        assert(v + 0 * s == v) by (nonlinear_arith);
        if let OptModel::Num { name, value, step, min, max } = o {
        }
    } else {
        assert((k - 1) * s <= k * s && 0 <= (k - 1) * s && (k - 1) * s + s == k * s)
            by (nonlinear_arith)
            requires 0 <= s && k >= 1;
        lemma_num_ticks_up_exact(o, (k - 1) as nat);
    }
}

/// A single unclamped up tick is undone exactly by a down tick.
pub proof fn lemma_num_round_trip_once(o: OptModel)
    requires
        opt_wf(o),
        o is Num,
        num_value(o) + num_step(o) < num_max(o),
    ensures
        opt_tick_down(opt_tick_up(o)) == o,
{
    if let OptModel::Num { name, value, step, min, max } = o {
    }
}

/// Law: `k` upward ticks followed by `k` downward ticks return a numeric
/// option to its starting state, provided no tick was clamped at the
/// maximum. (With clamping the walk is saturating and not invertible.)
pub proof fn lemma_num_round_trip(o: OptModel, k: nat)
    requires
        opt_wf(o),
        o is Num,
        num_value(o) + k * num_step(o) < num_max(o),
    ensures
        opt_tick_down_n(opt_tick_up_n(o, k), k) == o,
    decreases k,
{
    let v = num_value(o);
    let s = num_step(o);
    if k > 0 {
        assert((k - 1) * s <= k * s && 0 <= (k - 1) * s && (k - 1) * s + s == k * s)
            by (nonlinear_arith)
            requires 0 <= s && k >= 1;
        lemma_num_ticks_up_exact(o, (k - 1) as nat);
        let o1 = opt_tick_up_n(o, (k - 1) as nat);
        lemma_num_round_trip_once(o1);
        lemma_num_round_trip(o, (k - 1) as nat);
    }
}

/// Law: an enumerated option does not wrap around: an upward tick at the
/// last variant and a downward tick at the first are both no-ops.
pub proof fn lemma_choice_no_wraparound(o: OptModel)
    requires
        opt_wf(o),
        o is Choice,
    ensures
        choice_index(o) == choice_count(o) - 1 ==> opt_tick_up(o) == o,
        choice_index(o) == 0 ==> opt_tick_down(o) == o,
{
    if let OptModel::Choice { name, index, labels } = o {
    }
}

/// Law: with no selection and modify off, an upward tick enters the option
/// list at index 0 exactly when the active view is non-empty; on an empty
/// view the page does not change.
pub proof fn lemma_nav_enter_option_list(p: PageModel)
    requires
        page_ok(p),
        !p.modify,
        page_active(p).selected is None,
    ensures
        page_active(p).options.len() > 0 ==> page_active(page_tick_up(p)).selected == Some(0int),
        page_active(p).options.len() > 0 ==> page_tick_up(p) == (PageModel {
            views: p.views.update(
                page_screen_index(p),
                ViewModel { selected: Some(0int), ..page_active(p) },
            ),
            ..p
        }),
        page_active(p).options.len() == 0 ==> page_tick_up(p) == p,
{
    let k = page_screen_index(p);
    if page_active(p).options.len() == 0 {
        assert(p.views.update(k, p.views[k]) =~= p.views);
        assert(page_tick_up(p) =~= p);
    }
}

/// Law: with modify off and the first option selected, a downward tick
/// steps back out of the option list, clearing the selection.
pub proof fn lemma_nav_exit_option_list(p: PageModel)
    requires
        page_ok(p),
        !p.modify,
        page_active(p).selected == Some(0int),
    ensures
        page_active(page_tick_down(p)).selected is None,
        page_tick_down(p) == (PageModel {
            views: p.views.update(
                page_screen_index(p),
                ViewModel { selected: None, ..page_active(p) },
            ),
            ..p
        }),
{
}

} // verus!
