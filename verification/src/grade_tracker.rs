//! The grade tracker: modules with their grades, the three averages of a
//! module, the form that adds a grade, and the way the modules are drawn.

use crate::decimal::Decimal;
use crate::form::{
    form_drawn, FloatField, Form, FormField, FormFieldStyle, FormFieldView, FormState, TextField,
};
use crate::money_tracker::{all_required_filled, field_style, required_filled, text_field};
use crate::styles::{AppStyles, ColorData};
use crate::surface::{draw_text_wide, surface, tint, Rect, Surface};
use crate::text::{decimal, push_char, push_decimal, push_text};
use crate::util::{
    bordered, bounded_step, centered, centered_rect, clear_area, draw_rect_borders,
    generic_increment, BorderType, Borders,
};
use vstd::prelude::*;
use vstd::string::{StrSliceExecFns, StringExecFns};

verus! {

/// A hundred, in millionths: the most that a percentage or a weight can be.
pub const FULL: u64 = 100_000_000;

/// A grade: what was reached, in hundredths of the whole, and how much the
/// grade weighs in its module, in hundredths too.
#[derive(Debug)]
pub struct Grade {
    pub name: String,
    pub percentage: Decimal,
    pub weight: Decimal,
}

/// A module with its grades.
#[derive(Debug)]
pub struct Module {
    pub name: String,
    pub grades: Vec<Grade>,
}

/// The modules, the selected one, and the form that adds a grade to it.
#[derive(Debug)]
pub struct GradeTrackerState {
    pub data: Vec<Module>,
    pub selected: u32,
    pub show_form: bool,
    pub form_state: FormState,
}

impl Grade {
    /// Percentage and weight are a hundred at most.
    pub open spec fn wf(&self) -> bool {
        self.percentage.micros <= FULL && self.weight.micros <= FULL
    }

    /// A copy of the grade.
    pub fn duplicate(&self) -> (r: Grade)
        ensures
            r == *self,
    {
        Grade { name: self.name.clone(), percentage: self.percentage, weight: self.weight }
    }
}

/// The sum of the percentages, in millionths.
pub open spec fn percent_sum(grades: Seq<Grade>) -> nat
    decreases grades.len(),
{
    if grades.len() == 0 {
        0
    } else {
        percent_sum(grades.drop_last()) + grades.last().percentage.micros as nat
    }
}

/// The sum of the weights, in millionths.
pub open spec fn weight_sum(grades: Seq<Grade>) -> nat
    decreases grades.len(),
{
    if grades.len() == 0 {
        0
    } else {
        weight_sum(grades.drop_last()) + grades.last().weight.micros as nat
    }
}

/// The sum of the products of percentage and weight, both in millionths.
pub open spec fn weighted_sum(grades: Seq<Grade>) -> nat
    decreases grades.len(),
{
    if grades.len() == 0 {
        0
    } else {
        weighted_sum(grades.drop_last()) + (grades.last().percentage.micros
            * grades.last().weight.micros) as nat
    }
}

/// The overall result of a module: each percentage times the hundredth of
/// its weight, summed up; rounded down to millionths, and held to the range
/// of the type.
pub open spec fn overall_of(grades: Seq<Grade>) -> Decimal {
    Decimal {
        micros: if weighted_sum(grades) / FULL as nat > u64::MAX {
            u64::MAX
        } else {
            (weighted_sum(grades) / FULL as nat) as u64
        },
    }
}

/// The mean of the percentages, rounded down to millionths; there is none
/// without a grade.
pub open spec fn mean_of(grades: Seq<Grade>) -> Option<Decimal> {
    if grades.len() == 0 {
        None
    } else {
        Some(Decimal { micros: (percent_sum(grades) / grades.len()) as u64 })
    }
}

/// The weighted average: the overall result by the hundredth of the sum of
/// the weights, rounded down to millionths; there is none where the weights
/// sum up to nothing.
pub open spec fn weighted_of(grades: Seq<Grade>) -> Option<Decimal> {
    if weight_sum(grades) == 0 {
        None
    } else {
        Some(Decimal { micros: (weighted_sum(grades) / weight_sum(grades)) as u64 })
    }
}

/// Every grade is well formed.
pub open spec fn grades_wf(grades: Seq<Grade>) -> bool {
    forall|i: int| 0 <= i < grades.len() ==> (#[trigger] grades[i]).wf()
}

/// The sums of well-formed grades are bounded by their number.
pub proof fn lemma_sums_bounded(grades: Seq<Grade>)
    requires
        grades_wf(grades),
    ensures
        percent_sum(grades) <= grades.len() * FULL,
        weight_sum(grades) <= grades.len() * FULL,
        weighted_sum(grades) <= grades.len() * (FULL * FULL),
        weighted_sum(grades) <= weight_sum(grades) * FULL,
    decreases grades.len(),
{
    if grades.len() > 0 {
        let rest = grades.drop_last();
        let last = grades.last();
        assert(grades_wf(rest)) by {
            assert forall|i: int| 0 <= i < rest.len() implies (#[trigger] rest[i]).wf() by {
                assert(rest[i] == grades[i]);
            }
        }
        lemma_sums_bounded(rest);
        assert(last.wf());
        let p = last.percentage.micros as int;
        let w = last.weight.micros as int;
        let full = FULL as int;
        assert(p * w <= full * full && p * w <= w * full && 0 <= p * w) by (nonlinear_arith)
            requires
                0 <= p <= full,
                0 <= w <= full,
        ;
        let n = rest.len() as int;
        assert((n + 1) * full == n * full + full && (n + 1) * (full * full) == n * (full
            * full) + full * full) by (nonlinear_arith);
        assert((weight_sum(rest) + w) * full == weight_sum(rest) * full + w * full)
            by (nonlinear_arith);
    }
}

/// The three sums of the grades.
fn sums(grades: &Vec<Grade>) -> (r: (u128, u128, u128))
    requires
        grades_wf(grades@),
    ensures
        r.0 == percent_sum(grades@),
        r.1 == weight_sum(grades@),
        r.2 == weighted_sum(grades@),
{
    let n = grades.len();
    let mut percents: u128 = 0;
    let mut weights: u128 = 0;
    let mut products: u128 = 0;
    let mut i: usize = 0;
    while i < n
        invariant
            i <= n,
            n == grades@.len(),
            grades_wf(grades@),
            percents == percent_sum(grades@.take(i as int)),
            weights == weight_sum(grades@.take(i as int)),
            products == weighted_sum(grades@.take(i as int)),
            percents <= i * FULL,
            weights <= i * FULL,
            products <= i * (FULL * FULL),
        decreases n - i,
    {
        let grade = &grades[i];
        assert(grade.wf());
        proof {
            assert(grades@.take(i + 1).drop_last() == grades@.take(i as int));
            assert(grades@.take(i + 1).last() == *grade);
            let p = grade.percentage.micros as int;
            let w = grade.weight.micros as int;
            let full = FULL as int;
            assert(p * w <= full * full && 0 <= p * w) by (nonlinear_arith)
                requires
                    0 <= p <= full,
                    0 <= w <= full,
            ;
            let k = i as int;
            assert((k + 1) * full == k * full + full && (k + 1) * (full * full) == k * (full
                * full) + full * full && k * (full * full) <= 0x1_0000_0000_0000_0000 * (full
                * full) && k * full <= 0x1_0000_0000_0000_0000 * full) by (nonlinear_arith)
                requires
                    0 <= k <= 0x1_0000_0000_0000_0000,
                    full == 100_000_000,
            ;
        }
        percents = percents + grade.percentage.micros as u128;
        weights = weights + grade.weight.micros as u128;
        products = products + grade.percentage.micros as u128 * grade.weight.micros as u128;
        i = i + 1;
    }
    assert(grades@.take(n as int) == grades@);
    (percents, weights, products)
}

impl Module {
    /// Every grade is well formed.
    pub open spec fn wf(&self) -> bool {
        grades_wf(self.grades@)
    }

    /// The overall result of the module.
    pub fn overall(&self) -> (r: Decimal)
        requires
            self.wf(),
        ensures
            r == overall_of(self.grades@),
    {
        let (_, _, products) = sums(&self.grades);
        let overall = products / (FULL as u128);
        if overall > u64::MAX as u128 {
            Decimal { micros: u64::MAX }
        } else {
            Decimal { micros: overall as u64 }
        }
    }

    /// The mean of the percentages of the module.
    pub fn mean(&self) -> (r: Option<Decimal>)
        requires
            self.wf(),
        ensures
            r == mean_of(self.grades@),
    {
        let n = self.grades.len();
        if n == 0 {
            return None;
        }
        let (percents, _, _) = sums(&self.grades);
        proof {
            lemma_sums_bounded(self.grades@);
            let k = n as int;
            let full = FULL as int;
            let p = percents as int;
            assert(p / k <= full) by (nonlinear_arith)
                requires
                    0 <= p <= k * full,
                    k > 0,
            ;
        }
        Some(Decimal { micros: (percents / n as u128) as u64 })
    }

    /// The weighted average of the module.
    pub fn weighted(&self) -> (r: Option<Decimal>)
        requires
            self.wf(),
        ensures
            r == weighted_of(self.grades@),
    {
        let (_, weights, products) = sums(&self.grades);
        if weights == 0 {
            return None;
        }
        proof {
            lemma_sums_bounded(self.grades@);
            let full = FULL as int;
            let w = weights as int;
            let p = products as int;
            assert(p / w <= full) by (nonlinear_arith)
                requires
                    0 <= p <= w * full,
                    w > 0,
            ;
        }
        Some(Decimal { micros: (products / weights) as u64 })
    }

    /// A copy of the module.
    pub fn duplicate(&self) -> (r: Module)
        ensures
            r.name == self.name,
            r.grades@ == self.grades@,
    {
        let mut grades: Vec<Grade> = Vec::new();
        let n = self.grades.len();
        let mut i: usize = 0;
        while i < n
            invariant
                i <= n,
                n == self.grades@.len(),
                grades@ == self.grades@.take(i as int),
            decreases n - i,
        {
            grades.push(self.grades[i].duplicate());
            assert(self.grades@.take(i + 1) == self.grades@.take(i as int).push(
                self.grades@[i as int],
            ));
            i = i + 1;
        }
        assert(self.grades@.take(n as int) == self.grades@);
        Module { name: self.name.clone(), grades }
    }
}

/// A percentage field as the form sets it up: from nothing to a hundred.
pub open spec fn percent_field(title: Seq<char>, colors: ColorData) -> FormFieldView {
    FormFieldView::Float(
        crate::form::FloatFieldView {
            value: Decimal::zero(),
            default_value: Decimal::zero(),
            display_value: Seq::empty(),
            min: Decimal::zero(),
            max: Decimal::from_units(100),
            is_required: true,
            style: field_style(title, colors),
        },
    )
}

/// A grade form: a title, a percentage and a weight.
pub open spec fn grade_shape(form: crate::form::FormStateView) -> bool {
    &&& form.fields.len() == 3
    &&& form.fields[0] is Text
    &&& form.fields[1] is Float
    &&& form.fields[2] is Float
}

impl GradeTrackerState {
    /// The form and every module are well formed, and the selected module
    /// is one of the modules, or the first where there is none.
    pub open spec fn wf(&self) -> bool {
        &&& self.form_state.wf()
        &&& forall|i: int| 0 <= i < self.data@.len() ==> (#[trigger] self.data@[i]).wf()
        &&& self.selected == 0 || self.selected < self.data@.len()
    }

    /// The grade that the form holds can be added: the form is a grade form
    /// whose title is filled in and whose numbers are a hundred at most,
    /// and there is a selected module.
    pub open spec fn can_submit(&self) -> bool {
        &&& grade_shape(self.form_state@)
        &&& required_filled(self.form_state@)
        &&& self.form_state@.fields[1]->Float_0.value.micros <= FULL
        &&& self.form_state@.fields[2]->Float_0.value.micros <= FULL
        &&& self.selected < self.data@.len()
    }

    /// The tracker at the start: the modules that were stored, the first of
    /// them selected, and the empty form, hidden.
    pub fn new(colors: ColorData, data: Vec<Module>) -> (r: GradeTrackerState)
        requires
            forall|i: int| 0 <= i < data@.len() ==> (#[trigger] data@[i]).wf(),
        ensures
            r.wf(),
            r.data == data,
            r.selected == 0,
            !r.show_form,
            r.form_state@.selected_field == 0,
            r.form_state@.fields == seq![
                text_field("Title"@, true, colors),
                percent_field("Percentage"@, colors),
                percent_field("Weight"@, colors),
            ],
    {
        let zero = Decimal::zero();
        let hundred = Decimal::from_units(100);
        let mut form_state = FormState::new();
        form_state.add_field(
            FormField::Text(
                TextField::new(
                    String::new(),
                    true,
                    FormFieldStyle::new(String::from_str("Title"), colors),
                ),
            ),
        );
        form_state.add_field(
            FormField::Float(
                FloatField::new(
                    zero,
                    zero,
                    hundred,
                    true,
                    FormFieldStyle::new(String::from_str("Percentage"), colors),
                ),
            ),
        );
        form_state.add_field(
            FormField::Float(
                FloatField::new(
                    zero,
                    zero,
                    hundred,
                    true,
                    FormFieldStyle::new(String::from_str("Weight"), colors),
                ),
            ),
        );
        assert(form_state@.fields =~= seq![
            text_field("Title"@, true, colors),
            percent_field("Percentage"@, colors),
            percent_field("Weight"@, colors),
        ]);
        GradeTrackerState { data, selected: 0, show_form: false, form_state }
    }

    /// The grade `r` is what submitting the form comes to.
    pub open spec fn submitted(&self, r: Option<Grade>) -> bool {
        &&& r is Some <==> self.can_submit()
        &&& r matches Some(g) ==> {
            &&& g.wf()
            &&& g.name@ == self.form_state@.fields[0]->Text_0.value
            &&& g.percentage == self.form_state@.fields[1]->Float_0.value
            &&& g.weight == self.form_state@.fields[2]->Float_0.value
        }
    }

    /// The grade that the form holds, where it can be added. Nothing is
    /// changed: the grade is added once it is stored.
    pub fn submit_form(&self) -> (r: Option<Grade>)
        requires
            self.wf(),
        ensures
            self.submitted(r),
    {
        if self.form_state.fields.len() != 3 || (self.selected as usize) >= self.data.len() {
            return None;
        }
        let name = match self.form_state.fields[0].get_internal_value().try_get_text_value() {
            Some(k) => k.clone(),
            None => {
                return None;
            },
        };
        let percentage =
            match self.form_state.fields[1].get_internal_value().try_get_float_value() {
            Some(d) => *d,
            None => {
                return None;
            },
        };
        let weight = match self.form_state.fields[2].get_internal_value().try_get_float_value() {
            Some(d) => *d,
            None => {
                return None;
            },
        };
        if !all_required_filled(&self.form_state) || percentage.micros > FULL || weight.micros
            > FULL {
            return None;
        }
        Some(Grade { name, percentage, weight })
    }

    /// Adds a grade to the selected module and resets the form, where the
    /// grade was stored. Where it was not, nothing changes.
    pub fn add_grade_to_selected(&mut self, grade: Grade, stored: bool)
        requires
            old(self).wf(),
            grade.wf(),
            old(self).selected < old(self).data@.len(),
        ensures
            final(self).wf(),
            !stored ==> *final(self) == *old(self),
            stored ==> {
                &&& final(self).data@.len() == old(self).data@.len()
                &&& final(self).data@[old(self).selected as int].name == old(self).data@[old(
                    self,
                ).selected as int].name
                &&& final(self).data@[old(self).selected as int].grades@ == old(self).data@[old(
                    self,
                ).selected as int].grades@.push(grade)
                &&& forall|i: int|
                    0 <= i < old(self).data@.len() && i != old(self).selected
                        ==> #[trigger] final(self).data@[i] == old(self).data@[i]
                &&& final(self).form_state@ == old(self).form_state@.reset()
                &&& final(self).selected == old(self).selected
                &&& final(self).show_form == old(self).show_form
            },
    {
        if stored {
            let ghost before = self.data@;
            let index = self.selected as usize;
            let module = &mut self.data[index];
            let ghost grades = module.grades@;
            module.grades.push(grade);
            assert(grades_wf(module.grades@)) by {
                assert forall|i: int| 0 <= i < module.grades@.len() implies (
                #[trigger] module.grades@[i]).wf() by {
                    if i < grades.len() {
                        assert(module.grades@[i] == grades[i]);
                        assert(before[index as int].wf());
                    }
                }
            }
            self.form_state.reset_fields();
        }
    }

    /// The tracker after the selected module was moved by `amount`: it stops
    /// at the first and at the last module, and stays where there is none.
    pub open spec fn selection_stepped(self, amount: i32) -> GradeTrackerState {
        if self.data@.len() == 0 {
            self
        } else {
            GradeTrackerState {
                selected: bounded_step(
                    self.selected as int,
                    0,
                    if self.data@.len() - 1 > u32::MAX {
                        u32::MAX as int
                    } else {
                        self.data@.len() - 1
                    },
                    amount as int,
                ) as u32,
                ..self
            }
        }
    }

    /// Moves the selected module by `amount`, stopping at the first and at
    /// the last module.
    pub fn increment_selected(&mut self, amount: i32)
        requires
            old(self).wf(),
        ensures
            final(self).wf(),
            *final(self) == old(self).selection_stepped(amount),
    {
        let n = self.data.len();
        if n > 0 {
            let upper: u32 = if n - 1 > 0xffff_ffff {
                0xffff_ffff
            } else {
                (n - 1) as u32
            };
            generic_increment(&mut self.selected, 0, upper, amount);
        }
    }

    /// Shows the form where it is hidden and hides it where it is shown.
    pub fn toggle_form(&mut self)
        ensures
            *final(self) == (GradeTrackerState { show_form: !old(self).show_form, ..*old(self) }),
    {
        self.show_form = !self.show_form;
    }
}

// ----------------------------------------------------------------------------
/// The widget that draws the grade tracker.
#[derive(Clone, Copy, Debug)]
pub struct GradeTracker;

/// The title of the form that adds a grade.
pub const FORM_TITLE: &'static str = " Enter New Assessment ";

/// The text of an average: its name, the whole part, a point, the part
/// behind the point in rounded hundredths, and the percent sign. An average
/// that there is none of is written as not a number.
pub open spec fn stat_text(label: Seq<char>, value: Option<Decimal>) -> Seq<char> {
    match value {
        Some(d) => label + decimal(d.trunc() as nat) + seq!['.'] + decimal(d.hundredths() as nat)
            + seq!['%'],
        None => label + "NaN.NaN%"@,
    }
}

/// The text of an average.
fn stat_text_of(label: &str, value: Option<Decimal>) -> (r: String)
    ensures
        r@ == stat_text(label@, value),
{
    let mut out = String::new();
    push_text(&mut out, label);
    assert(out@ == label@) by {
        assert(Seq::<char>::empty() + label@ == label@);
    }
    match value {
        Some(d) => {
            push_decimal(&mut out, d.trunc());
            push_char(&mut out, '.');
            push_decimal(&mut out, d.hundredths());
            push_char(&mut out, '%');
        },
        None => {
            push_text(&mut out, "NaN.NaN%");
        },
    }
    out
}

/// How many cells of a bar that is `inner` cells wide stay empty for a
/// percentage: the share that is missing to a hundred, rounded to the
/// nearest cell and upwards from the half.
pub open spec fn bar_gap(inner: int, percentage: Decimal) -> int {
    (inner * (FULL - percentage.micros) + FULL / 2) / (FULL as int)
}

/// How many cells of a bar stay empty.
fn bar_gap_of(inner: u16, percentage: Decimal) -> (r: u16)
    requires
        percentage.micros <= FULL,
    ensures
        r == bar_gap(inner as int, percentage),
        r <= inner,
{
    let missing: u64 = FULL - percentage.micros;
    assert(inner * missing <= inner * FULL && 0 <= inner * missing) by (nonlinear_arith)
        requires
            0 <= missing <= FULL,
            0 <= inner,
    ;
    assert(inner * FULL <= 0xffff * FULL) by (nonlinear_arith)
        requires
            inner <= 0xffff,
    ;
    let gap: u64 = (inner as u64 * missing + FULL / 2) / FULL;
    assert(gap <= inner) by (nonlinear_arith)
        requires
            gap == (inner * missing + 50_000_000) / 100_000_000,
            0 <= inner * missing <= inner * 100_000_000,
            0 <= inner,
    ;
    gap as u16
}

/// The area holds `modules` modules, the selected one with a row of bars at
/// least, and lies in the coordinate range.
pub open spec fn grade_fits(area: Rect, modules: nat) -> bool {
    &&& area.width >= 10
    &&& area.height >= 4
    &&& modules >= 1 ==> area.height >= 3 * (modules - 1) + 4
    &&& area.x + area.width <= u16::MAX
    &&& area.y + area.height <= u16::MAX
}

/// Where the modules stand.
pub struct GradeLayout {
    /// The height of the selected module.
    pub tall_height: u16,
    /// The width of the bar of a grade.
    pub bar_width: u16,
    /// How many bars stand one below the other.
    pub num_of_rows: u16,
}

/// The layout of `modules` modules in `area`: every module but the selected
/// one is three rows high; bars stand in two columns.
pub open spec fn grade_layout(area: Rect, modules: nat) -> GradeLayout {
    let tall = if modules >= 1 {
        area.height - 3 * (modules - 1)
    } else {
        area.height as int
    };
    GradeLayout {
        tall_height: tall as u16,
        bar_width: ((area.width - 6) / 2) as u16,
        num_of_rows: ((tall - 1) / 3) as u16,
    }
}

/// The grid after the bar of the grade with index `j` was drawn: a bordered
/// box with the name of the grade on the left and its percentage on the
/// right, and the part of the line that the percentage fills in inverted
/// colours. Bars fill a column from the top and go on in the next. A bar
/// beyond the coordinate range is left out.
pub open spec fn grade_drawn(
    s: Surface,
    ox: int,
    ty: int,
    l: GradeLayout,
    j: int,
    grade: Grade,
    colors: ColorData,
) -> Surface {
    let x = ox + l.bar_width * (j / (l.num_of_rows as int));
    let y = ty + 1 + 3 * (j % (l.num_of_rows as int));
    if x + l.bar_width > u16::MAX || y + 3 > u16::MAX {
        s
    } else {
        let bar = Rect { x: x as u16, y: y as u16, width: l.bar_width, height: 3 };
        let main = AppStyles::Main.get(colors);
        let percent = grade.percentage.text() + seq!['%'];
        bordered(s, bar, Borders::all(), BorderType::Plain.line_symbols(), main).with_text(
            x + 1,
            y + 1,
            grade.name@,
            main,
        ).with_text(x - 1 + l.bar_width - percent.len(), y + 1, percent, main).tint(
            Rect {
                x: (x + 1) as u16,
                y: (y + 1) as u16,
                width: (l.bar_width - 2 - bar_gap(l.bar_width - 2, grade.percentage)) as u16,
                height: 1,
            },
            AppStyles::InvertedMain.get(colors),
        )
    }
}

/// The grid after the bars of the first `n` grades were drawn.
pub open spec fn grades_drawn(
    s: Surface,
    ox: int,
    ty: int,
    l: GradeLayout,
    grades: Seq<Grade>,
    colors: ColorData,
    n: nat,
) -> Surface
    decreases n,
{
    if n == 0 {
        s
    } else {
        grade_drawn(
            grades_drawn(s, ox, ty, l, grades, colors, (n - 1) as nat),
            ox,
            ty,
            l,
            n - 1,
            grades[n - 1],
            colors,
        )
    }
}

/// The row at which the module with index `i` begins, counted from the top
/// of the area: modules are three rows high, but for the selected one.
pub open spec fn module_top(l: GradeLayout, i: int, selected: int) -> int {
    if i > selected {
        l.tall_height + (i - 1) * 3
    } else {
        i * 3
    }
}

/// The grid after the module with index `i` was drawn: its border, its name
/// and, from the right, its overall result, its mean and its weighted
/// average on the line whose number is one more than the module's row;
/// the selected module in the main style and with the bars of its grades.
pub open spec fn module_drawn(
    s: Surface,
    area: Rect,
    l: GradeLayout,
    i: int,
    module: Module,
    selected: int,
    colors: ColorData,
) -> Surface {
    let top = module_top(l, i, selected);
    let is_selected = i == selected;
    let rect = Rect {
        x: area.x,
        y: (area.y + top) as u16,
        width: area.width,
        height: if is_selected {
            l.tall_height
        } else {
            3
        },
    };
    let ox = area.x + 1;
    let ty = top + 1;
    let style = if is_selected {
        AppStyles::Main.get(colors)
    } else {
        AppStyles::Accent.get(colors)
    };
    let total = stat_text("Overall: "@, Some(overall_of(module.grades@)));
    let mean = stat_text("Mean: "@, mean_of(module.grades@));
    let weighted = stat_text("Weighted: "@, weighted_of(module.grades@));
    let named = bordered(s, rect, Borders::all(), BorderType::Plain.line_symbols(), style).with_text(
        ox,
        ty,
        module.name@,
        if is_selected {
            AppStyles::TitleText.get(colors)
        } else {
            AppStyles::TitleTextDeactivated.get(colors)
        },
    ).with_text(ox + rect.width - 2 - total.len(), ty, total, style).with_text(
        ox + rect.width - 3 - total.len() - mean.len(),
        ty,
        mean,
        style,
    ).with_text(ox + rect.width - 4 - total.len() - mean.len() - weighted.len(), ty, weighted, style);
    if is_selected {
        grades_drawn(named, ox, ty, l, module.grades@, colors, module.grades@.len())
    } else {
        named
    }
}

/// The grid after the first `n` modules were drawn.
pub open spec fn modules_drawn(
    s: Surface,
    area: Rect,
    l: GradeLayout,
    data: Seq<Module>,
    selected: int,
    colors: ColorData,
    n: nat,
) -> Surface
    decreases n,
{
    if n == 0 {
        s
    } else {
        module_drawn(
            modules_drawn(s, area, l, data, selected, colors, (n - 1) as nat),
            area,
            l,
            n - 1,
            data[n - 1],
            selected,
            colors,
        )
    }
}

/// The grid after the form that adds a grade was drawn over the middle of
/// `area`: the half of the area each way is blanked and gets a thick border
/// with the title of the form, and the form inside.
pub open spec fn grade_form_drawn(
    s: Surface,
    area: Rect,
    form: crate::form::FormStateView,
    colors: ColorData,
) -> Surface {
    let popup = centered(50, 50, area);
    let main = AppStyles::Main.get(colors);
    let inner = Rect {
        x: (popup.x + 1) as u16,
        y: (popup.y + 1) as u16,
        width: (popup.width - 2) as u16,
        height: (popup.height - 2) as u16,
    };
    form_drawn(
        bordered(
            s.cleared(popup),
            popup,
            Borders::all(),
            BorderType::Thick.line_symbols(),
            main,
        ).with_text(
            popup.x + (popup.width - 2) / 2 - FORM_TITLE@.len() / 2,
            popup.y as int,
            FORM_TITLE@,
            main,
        ),
        inner,
        form,
        form.fields.len(),
    )
}

/// The grid after the grade tracker was drawn into `area`: the modules one
/// below the other, and over them the form where it is shown.
pub open spec fn grade_tracker_drawn(
    s: Surface,
    area: Rect,
    state: GradeTrackerState,
    colors: ColorData,
) -> Surface {
    let modules = modules_drawn(
        s,
        area,
        grade_layout(area, state.data@.len()),
        state.data@,
        state.selected as int,
        colors,
        state.data@.len(),
    );
    if state.show_form {
        grade_form_drawn(modules, area, state.form_state@, colors)
    } else {
        modules
    }
}

impl GradeTracker {
    /// The widget.
    pub fn new() -> (r: GradeTracker) {
        GradeTracker {  }
    }

    /// Whether `area` holds `modules` modules.
    pub fn fits(area: Rect, modules: usize) -> (r: bool)
        ensures
            r == grade_fits(area, modules as nat),
    {
        area.width >= 10 && area.height >= 4 && (modules == 0 || (modules <= 0xffff && area.height
            as usize >= 3 * (modules - 1) + 4)) && area.x as u32 + area.width as u32 <= 0xffff
            && area.y as u32 + area.height as u32 <= 0xffff
    }

    /// Draws the bar of a grade.
    fn render_grade(
        buf: &mut tui::buffer::Buffer,
        ox: u16,
        ty: u32,
        l: &GradeLayout,
        j: usize,
        grade: &Grade,
        colors: ColorData,
    )
        requires
            surface(*old(buf)).wf(),
            grade.wf(),
            l.num_of_rows >= 1,
            l.bar_width >= 2,
            ty <= 0x2_0000,
        ensures
            surface(*final(buf)) == grade_drawn(
                surface(*old(buf)),
                ox as int,
                ty as int,
                *l,
                j as int,
                *grade,
                colors,
            ),
            surface(*final(buf)).wf(),
    {
        let column = j / l.num_of_rows as usize;
        let row = j % l.num_of_rows as usize;
        if column > 0xffff {
            assert(l.bar_width * (j as int / (l.num_of_rows as int)) > u16::MAX) by (nonlinear_arith)
                requires
                    j as int / (l.num_of_rows as int) > 0xffff,
                    l.bar_width >= 2,
            ;
            return ;
        }
        assert(l.bar_width * column <= 0xffff * 0xffff) by (nonlinear_arith)
            requires
                column <= 0xffff,
                l.bar_width <= 0xffff,
        ;
        let x: u64 = ox as u64 + l.bar_width as u64 * column as u64;
        let y: u64 = ty as u64 + 1 + 3 * row as u64;
        if x + l.bar_width as u64 > 0xffff || y + 3 > 0xffff {
            return ;
        }
        let bar = Rect { x: x as u16, y: y as u16, width: l.bar_width, height: 3 };
        let main = AppStyles::Main.get(colors);
        draw_rect_borders(buf, bar, Borders::all(), BorderType::Plain, main);
        draw_text_wide(buf, x as u32 + 1, y as u32 + 1, grade.name.as_str(), main);
        let mut percent = String::new();
        grade.percentage.push_text(&mut percent);
        push_char(&mut percent, '%');
        assert(percent@ == grade.percentage.text() + seq!['%']) by {
            assert(Seq::<char>::empty() + grade.percentage.text() == grade.percentage.text());
        }
        let len = percent.as_str().unicode_len();
        let right: u64 = x + l.bar_width as u64 - 1;
        if len as u64 <= right && len <= 0xffff {
            draw_text_wide(buf, (right - len as u64) as u32, y as u32 + 1, percent.as_str(), main);
        }
        let gap = bar_gap_of(l.bar_width - 2, grade.percentage);
        tint(
            buf,
            Rect {
                x: (x + 1) as u16,
                y: (y + 1) as u16,
                width: l.bar_width - 2 - gap,
                height: 1,
            },
            AppStyles::InvertedMain.get(colors),
        );
    }

    /// Draws a module.
    fn render_module(
        buf: &mut tui::buffer::Buffer,
        area: Rect,
        l: &GradeLayout,
        i: usize,
        module: &Module,
        selected: usize,
        colors: ColorData,
    )
        requires
            surface(*old(buf)).wf(),
            module.wf(),
            l.num_of_rows >= 1,
            l.bar_width >= 2,
            l.tall_height >= 4,
            i <= 0xffff,
            area.width >= 1,
            area.x + area.width <= u16::MAX,
            area.y + module_top(*l, i as int, selected as int) + (if i == selected {
                l.tall_height as int
            } else {
                3
            }) <= u16::MAX,
        ensures
            surface(*final(buf)) == module_drawn(
                surface(*old(buf)),
                area,
                *l,
                i as int,
                *module,
                selected as int,
                colors,
            ),
            surface(*final(buf)).wf(),
    {
        let top: u32 = if i > selected {
            l.tall_height as u32 + (i as u32 - 1) * 3
        } else {
            i as u32 * 3
        };
        let is_selected = i == selected;
        let rect = Rect {
            x: area.x,
            y: (area.y as u32 + top) as u16,
            width: area.width,
            height: if is_selected {
                l.tall_height
            } else {
                3
            },
        };
        let ox: u16 = area.x + 1;
        let ty: u32 = top + 1;
        let style = if is_selected {
            AppStyles::Main.get(colors)
        } else {
            AppStyles::Accent.get(colors)
        };
        draw_rect_borders(buf, rect, Borders::all(), BorderType::Plain, style);
        draw_text_wide(
            buf,
            ox as u32,
            ty,
            module.name.as_str(),
            if is_selected {
                AppStyles::TitleText.get(colors)
            } else {
                AppStyles::TitleTextDeactivated.get(colors)
            },
        );
        let total = stat_text_of("Overall: ", Some(module.overall()));
        let mean = stat_text_of("Mean: ", module.mean());
        let weighted = stat_text_of("Weighted: ", module.weighted());
        let total_len = total.as_str().unicode_len();
        let mean_len = mean.as_str().unicode_len();
        let weighted_len = weighted.as_str().unicode_len();
        let right: usize = ox as usize + rect.width as usize;
        if total_len <= right {
            let past_total = right - total_len;
            if past_total >= 2 {
                draw_text_wide(buf, (past_total - 2) as u32, ty, total.as_str(), style);
            }
            if mean_len <= past_total {
                let past_mean = past_total - mean_len;
                if past_mean >= 3 {
                    draw_text_wide(buf, (past_mean - 3) as u32, ty, mean.as_str(), style);
                }
                if weighted_len <= past_mean && past_mean - weighted_len >= 4 {
                    draw_text_wide(
                        buf,
                        (past_mean - weighted_len - 4) as u32,
                        ty,
                        weighted.as_str(),
                        style,
                    );
                }
            }
        }
        if is_selected {
            let ghost named = surface(*buf);
            let n = module.grades.len();
            let mut j: usize = 0;
            while j < n
                invariant
                    j <= n,
                    n == module.grades@.len(),
                    module.wf(),
                    l.num_of_rows >= 1,
                    l.bar_width >= 2,
                    ty <= 0x2_0000,
                    surface(*buf).wf(),
                    surface(*buf) == grades_drawn(
                        named,
                        ox as int,
                        ty as int,
                        *l,
                        module.grades@,
                        colors,
                        j as nat,
                    ),
                decreases n - j,
            {
                assert(module.grades@[j as int].wf());
                Self::render_grade(buf, ox, ty, l, j, &module.grades[j], colors);
                j = j + 1;
            }
        }
    }

    /// Draws the form that adds a grade.
    fn render_form(
        buf: &mut tui::buffer::Buffer,
        area: Rect,
        form: &mut FormState,
        colors: ColorData,
    )
        requires
            surface(*old(buf)).wf(),
            old(form).wf(),
            area.width >= 10,
            area.height >= 4,
            area.x + area.width <= u16::MAX,
            area.y + area.height <= u16::MAX,
        ensures
            surface(*final(buf)) == grade_form_drawn(surface(*old(buf)), area, old(form)@, colors),
            surface(*final(buf)).wf(),
            *final(form) == *old(form),
    {
        let popup = centered_rect(50, 50, area);
        let main = AppStyles::Main.get(colors);
        clear_area(buf, popup);
        draw_rect_borders(buf, popup, Borders::all(), BorderType::Thick, main);
        let half = FORM_TITLE.unicode_len() / 2;
        let middle: usize = popup.x as usize + ((popup.width - 2) / 2) as usize;
        if half <= middle {
            draw_text_wide(buf, (middle - half) as u32, popup.y as u32, FORM_TITLE, main);
        }
        let inner = Rect {
            x: popup.x + 1,
            y: popup.y + 1,
            width: popup.width - 2,
            height: popup.height - 2,
        };
        Form::new().render(inner, buf, form);
    }

    /// Draws the grade tracker into `area`.
    pub fn render(
        self,
        area: Rect,
        buf: &mut tui::buffer::Buffer,
        state: &mut GradeTrackerState,
        colors: ColorData,
    )
        requires
            surface(*old(buf)).wf(),
            old(state).wf(),
            grade_fits(area, old(state).data@.len()),
        ensures
            surface(*final(buf)) == grade_tracker_drawn(
                surface(*old(buf)),
                area,
                *old(state),
                colors,
            ),
            surface(*final(buf)).wf(),
            *final(state) == *old(state),
    {
        let n = state.data.len();
        let tall_height: u16 = if n >= 1 {
            area.height - 3 * (n as u16 - 1)
        } else {
            area.height
        };
        let l = GradeLayout {
            tall_height,
            bar_width: (area.width - 6) / 2,
            num_of_rows: (tall_height - 1) / 3,
        };
        let selected = state.selected as usize;
        let mut i: usize = 0;
        while i < n
            invariant
                i <= n,
                n == state.data@.len(),
                n <= 0xffff,
                *state == *old(state),
                state.wf(),
                selected == state.selected,
                grade_fits(area, n as nat),
                l == grade_layout(area, n as nat),
                n >= 1 ==> l.tall_height == area.height - 3 * (n - 1),
                surface(*buf).wf(),
                surface(*buf) == modules_drawn(
                    surface(*old(buf)),
                    area,
                    l,
                    state.data@,
                    selected as int,
                    colors,
                    i as nat,
                ),
            decreases n - i,
        {
            assert(state.data@[i as int].wf());
            Self::render_module(buf, area, &l, i, &state.data[i], selected, colors);
            i = i + 1;
        }
        if state.show_form {
            Self::render_form(buf, area, &mut state.form_state, colors);
        }
    }
}

/// A grade form whose title must be filled in and is empty is not
/// submitted: there is no grade to store and to add.
pub proof fn law_empty_title_is_not_submitted(state: GradeTrackerState, r: Option<Grade>)
    requires
        state.submitted(r),
        grade_shape(state.form_state@),
        state.form_state@.fields[0]->Text_0.is_required,
        state.form_state@.fields[0]->Text_0.value.len() == 0,
    ensures
        r is None,
{
    assert(!required_filled(state.form_state@)) by {
        let field = state.form_state@.fields[0];
        assert(field is Text);
    }
}

/// The selected module is one of the modules after it was moved by whatever
/// amount.
pub proof fn law_selected_module_bounded(state: GradeTrackerState, amount: i32)
    requires
        state.data@.len() > 0,
    ensures
        state.selection_stepped(amount).selected < state.data@.len(),
        state.selected == 0 && amount < 0 ==> state.selection_stepped(amount).selected == 0,
{
}

/// The selected module is moved by the amount and held between the first and
/// the last module; nothing else changes, and nothing at all where there is
/// no module. This holds of as many modules as the index can number.
pub proof fn law_selected_module_is_sum_held(state: GradeTrackerState, amount: i32)
    requires
        state.data@.len() <= 0x1_0000_0000,
    ensures
        state.data@.len() == 0 ==> state.selection_stepped(amount) == state,
        state.data@.len() >= 1 ==> state.selection_stepped(amount) == (GradeTrackerState {
            selected: crate::util::held(state.selected + amount, 0, state.data@.len() - 1) as u32,
            ..state
        }),
{
}

} // verus!
