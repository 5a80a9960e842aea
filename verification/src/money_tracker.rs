//! The money tracker: a search form, an add form and a list of transactions
//! that is shown page by page under one heading for each day.

use crate::button::{button_drawn, Button};
use crate::date::{date_heading, heading_of, Date};
use crate::db::{MoneyTransaction, TransactionQuery};
use crate::decimal::Decimal;
use crate::form::{form_drawn, DateField, FloatField, Form, FormField, FormFieldStyle, FormFieldView, FormState, TextField};
use crate::styles::{AppStyles, ColorData};
use crate::surface::{draw_text_wide, surface, CellStyle, Rect, Surface};
use crate::text::{
    center, centered_text, decimal, padded_right, push_char, push_decimal, push_padded_right,
    push_text,
};
use crate::util::{
    bordered, bounded_step, draw_rect_borders, generic_increment, BorderType, Borders,
};
use vstd::prelude::*;
use vstd::string::StringExecFns;

verus! {

/// The widget that draws the money tracker.
#[derive(Clone, Copy, Debug)]
pub struct MoneyTracker;

/// The forms, the transactions of the page that is shown, and where in the
/// list of all matching transactions that page lies.
#[derive(Debug)]
pub struct MoneyTrackerState {
    pub search_form: FormState,
    pub add_form: FormState,
    pub transactions: Vec<MoneyTransaction>,
    pub search_form_selected: bool,
    pub add_form_selected: bool,
    pub selected_transaction: u32,
    pub current_page: u32,
    pub num_of_pages: u32,
    pub max_transactions: Option<u32>,
    pub page_offsets: Vec<u32>,
    pub filters: (String, Decimal, Decimal),
}

/// The largest amount that the forms take.
pub const MAX_AMOUNT: u32 = 100_000;

/// The fill of the heading of the selected transaction's day.
pub const HEAVY_FILL: char = '\u{2501}';

/// The number of pages that `count` lines need where a page holds
/// `capacity` of them: the quotient, rounded up. A page that holds nothing
/// makes no pages.
pub open spec fn pages_needed(count: int, capacity: int) -> int {
    if capacity <= 0 {
        0
    } else {
        (count + capacity - 1) / capacity
    }
}

/// The number of pages that `count` lines need.
pub fn num_of_pages(count: u32, capacity: u32) -> (r: u32)
    ensures
        r == pages_needed(count as int, capacity as int),
        capacity > 0 ==> (r as int - 1) * capacity < count <= r * capacity,
{
    if capacity == 0 {
        0
    } else {
        let q: u64 = (count as u64 + capacity as u64 - 1) / capacity as u64;
        assert((q as int - 1) * capacity < count <= q * capacity && q <= count) by (nonlinear_arith)
            requires
                q == (count + capacity - 1) / (capacity as int),
                capacity > 0,
                count >= 0,
        ;
        q as u32
    }
}

/// The transaction with index `i` is the first of its day in the list: it is
/// the first of all, or the one before it has another date.
pub open spec fn is_day_start(transactions: Seq<MoneyTransaction>, i: int) -> bool {
    i == 0 || transactions[i - 1].date != transactions[i].date
}

/// The indices below `n` of the transactions that are the first of their
/// day, in rising order.
pub open spec fn day_starts(transactions: Seq<MoneyTransaction>, n: nat) -> Seq<usize>
    decreases n,
{
    if n == 0 {
        Seq::empty()
    } else if is_day_start(transactions, n - 1) {
        day_starts(transactions, (n - 1) as nat).push((n - 1) as usize)
    } else {
        day_starts(transactions, (n - 1) as nat)
    }
}

/// The indices of the transactions under which a new day begins.
pub fn day_indexes(transactions: &Vec<MoneyTransaction>) -> (r: Vec<usize>)
    ensures
        r@ == day_starts(transactions@, transactions@.len()),
{
    let mut indexes: Vec<usize> = Vec::new();
    let n = transactions.len();
    let mut i: usize = 0;
    while i < n
        invariant
            i <= n,
            n == transactions@.len(),
            indexes@ == day_starts(transactions@, i as nat),
        decreases n - i,
    {
        if i == 0 || !transactions[i - 1].date.same_day(transactions[i].date) {
            indexes.push(i);
        }
        i = i + 1;
    }
    indexes
}

/// The text of an amount in the list: the pound sign and the amount with two
/// places, filled up with blanks to ten characters.
pub open spec fn amount_text(amount: Decimal) -> Seq<char> {
    seq!['\u{a3}'] + padded_right(amount.text_fixed2(), 10, ' ')
}

/// The text of the page count at the foot of the list.
pub open spec fn page_text(current_page: u32, num_of_pages: u32) -> Seq<char> {
    decimal(current_page as nat) + seq!['/'] + decimal(num_of_pages as nat)
}

/// How far the list has been drawn: the grid, the number of headings drawn,
/// and the index of the transaction at which the pane was full, if it was.
pub struct ListPass {
    pub surface: Surface,
    pub headings: nat,
    pub cut: Option<nat>,
}

/// The list after the first `n` transactions were gone through. Each stands
/// on a line of its own, below the lines of those before it and of the
/// headings; a transaction that is the first of its day gets a heading
/// above it, with a heavy fill where it is the day of the selected
/// transaction and dashes where it is not. The last line of the pane is
/// kept free: at the transaction that would stand on it the list is cut.
pub open spec fn list_pass(
    s: Surface,
    pane: Rect,
    transactions: Seq<MoneyTransaction>,
    selected: int,
    colors: ColorData,
    n: nat,
) -> ListPass
    decreases n,
{
    if n == 0 {
        ListPass { surface: s, headings: 0, cut: None }
    } else {
        let before = list_pass(s, pane, transactions, selected, colors, (n - 1) as nat);
        let i = n - 1;
        let y = pane.y + i + before.headings;
        if before.cut is Some {
            before
        } else if y >= pane.y + pane.height - 1 {
            ListPass { cut: Some(i as nat), ..before }
        } else {
            let heading = is_day_start(transactions, i);
            let own_day = transactions[selected].date == transactions[i].date;
            let headed = if heading {
                before.surface.with_text(
                    pane.x as int,
                    y,
                    centered_text(
                        date_heading(transactions[i].date),
                        pane.width as nat,
                        if own_day {
                            HEAVY_FILL
                        } else {
                            '-'
                        },
                    ),
                    if own_day {
                        AppStyles::Main.get(colors)
                    } else {
                        AppStyles::Accent.get(colors)
                    },
                )
            } else {
                before.surface
            };
            let line = if heading {
                y + 1
            } else {
                y
            };
            let style = if i == selected {
                AppStyles::Main.get(colors)
            } else {
                AppStyles::Accent.get(colors)
            };
            ListPass {
                surface: headed.with_text(
                    pane.x as int,
                    line,
                    amount_text(transactions[i].amount),
                    style,
                ).with_text(pane.x + 11, line, transactions[i].title@, style),
                headings: if heading {
                    before.headings + 1
                } else {
                    before.headings
                },
                cut: None,
            }
        }
    }
}

/// The offsets of the pages after a list was drawn. The offset of a page is
/// the number of the matching transactions that come before its first one.
/// Where the list was cut and the page after the one shown is the first
/// without an offset, that offset is found: the offset of the page shown and
/// the index at which the list was cut, held to the range of the type. Else
/// the offsets stay as they are.
pub open spec fn offsets_after(offsets: Seq<u32>, current_page: u32, cut: Option<nat>) -> Seq<
    u32,
> {
    match cut {
        Some(i) => if current_page >= 1 && current_page == offsets.len() {
            offsets.push(
                if offsets[current_page - 1] + i > u32::MAX {
                    u32::MAX
                } else {
                    (offsets[current_page - 1] + i) as u32
                },
            )
        } else {
            offsets
        },
        None => offsets,
    }
}

/// The area is large enough for the money tracker and lies in the
/// coordinate range.
pub open spec fn money_fits(area: Rect) -> bool {
    &&& area.width >= 12
    &&& area.height >= 6
    &&& area.x + area.width <= u16::MAX
    &&& area.y + area.height <= u16::MAX
}

/// Where the parts of the money tracker stand.
pub struct MoneyLayout {
    pub search: Rect,
    pub add: Rect,
    pub right: Rect,
    pub search_inner: Rect,
    pub add_inner: Rect,
    pub add_button: Rect,
    pub other_button: Rect,
    pub pane: Rect,
}

/// The layout of the money tracker in `area`: the forms in the left third,
/// the search form in the upper third of it, and the list in the rest.
pub open spec fn money_layout(area: Rect) -> MoneyLayout {
    let third = area.width / 3;
    let upper = area.height / 3;
    let add_inner = Rect {
        x: (area.x + 1) as u16,
        y: (area.y + upper + 2) as u16,
        width: (third - 2) as u16,
        height: (area.height - upper - 2) as u16,
    };
    MoneyLayout {
        search: Rect { x: area.x, y: area.y, width: third, height: upper },
        add: Rect {
            x: area.x,
            y: (area.y + upper) as u16,
            width: third,
            height: (area.height - upper) as u16,
        },
        right: Rect {
            x: (area.x + third) as u16,
            y: area.y,
            width: (area.width - third) as u16,
            height: area.height,
        },
        search_inner: Rect {
            x: (area.x + 1) as u16,
            y: (area.y + 2) as u16,
            width: (third - 2) as u16,
            height: (upper - 2) as u16,
        },
        add_inner,
        add_button: Rect {
            x: add_inner.x,
            y: (add_inner.y + add_inner.height - 2) as u16,
            width: (add_inner.width / 2 - 1) as u16,
            height: 1,
        },
        other_button: Rect {
            x: (add_inner.x + add_inner.width / 2 + 1) as u16,
            y: (add_inner.y + add_inner.height - 2) as u16,
            width: (add_inner.width / 2 - 1) as u16,
            height: 1,
        },
        pane: Rect {
            x: (area.x + third + 1) as u16,
            y: (area.y + 1) as u16,
            width: (area.width - third - 2) as u16,
            height: (area.height - 2) as u16,
        },
    }
}

/// The style of a part: main where it is the selected part, accent where it
/// is not.
pub open spec fn part_style(selected: bool, colors: ColorData) -> CellStyle {
    if selected {
        AppStyles::Main.get(colors)
    } else {
        AppStyles::Accent.get(colors)
    }
}

/// The grid after the frame of the money tracker was drawn: the borders of
/// the three parts, the titles of the forms, the forms and the two buttons.
pub open spec fn money_frame_drawn(
    s: Surface,
    area: Rect,
    state: MoneyTrackerState,
    colors: ColorData,
) -> Surface {
    let l = money_layout(area);
    let plain = BorderType::Plain.line_symbols();
    let search_style = part_style(state.search_form_selected, colors);
    let add_style = part_style(state.add_form_selected, colors);
    let list_style = part_style(!state.search_form_selected && !state.add_form_selected, colors);
    let boxed = bordered(
        bordered(bordered(s, l.search, Borders::all(), plain, search_style), l.add, Borders::all(), plain, add_style),
        l.right,
        Borders::all(),
        plain,
        list_style,
    );
    let titled = boxed.with_text(
        l.search_inner.x as int,
        l.search_inner.y - 1,
        centered_text("Search"@, l.search_inner.width as nat, ' '),
        search_style.bold(),
    ).with_text(
        l.add_inner.x as int,
        l.add_inner.y - 1,
        centered_text("Add"@, l.add_inner.width as nat, ' '),
        add_style.bold(),
    );
    let search_form = state.search_form@.restyled(search_style);
    let add_form = state.add_form@.restyled(add_style);
    let forms = form_drawn(
        form_drawn(titled, l.search_inner, search_form, search_form.fields.len()),
        l.add_inner,
        add_form,
        add_form.fields.len(),
    );
    button_drawn(
        button_drawn(forms, l.add_button, "add"@, false, colors),
        l.other_button,
        "other"@,
        true,
        colors,
    )
}

/// The grid after the money tracker was drawn into `area`: its frame, the
/// list of transactions, and the page count on the last line of the list.
pub open spec fn money_drawn(
    s: Surface,
    area: Rect,
    state: MoneyTrackerState,
    colors: ColorData,
) -> Surface {
    let l = money_layout(area);
    let pass = list_pass(
        money_frame_drawn(s, area, state, colors),
        l.pane,
        state.transactions@,
        state.selected_transaction as int,
        colors,
        state.transactions@.len(),
    );
    pass.surface.with_text(
        l.pane.x as int,
        l.pane.y + l.pane.height - 1,
        centered_text(
            page_text(state.current_page, state.num_of_pages),
            l.pane.width as nat,
            ' ',
        ),
        AppStyles::Main.get(colors),
    )
}

impl MoneyTracker {
    /// The widget.
    pub fn new() -> (r: MoneyTracker) {
        MoneyTracker {  }
    }

    /// Whether `area` is large enough for the money tracker.
    pub fn fits(area: Rect) -> (r: bool)
        ensures
            r == money_fits(area),
    {
        area.width >= 12 && area.height >= 6 && area.x as u32 + area.width as u32 <= 0xffff
            && area.y as u32 + area.height as u32 <= 0xffff
    }

    /// The layout of the money tracker in `area`.
    fn layout(area: Rect) -> (l: MoneyLayout)
        requires
            money_fits(area),
        ensures
            l == money_layout(area),
            l.search.width >= 4,
            l.search.height >= 2,
            l.add.height >= 4,
            l.right.width >= 8,
            area.covers(l.search),
            area.covers(l.add),
            area.covers(l.right),
    {
        let third = area.width / 3;
        let upper = area.height / 3;
        let add_inner = Rect {
            x: area.x + 1,
            y: area.y + upper + 2,
            width: third - 2,
            height: area.height - upper - 2,
        };
        MoneyLayout {
            search: Rect { x: area.x, y: area.y, width: third, height: upper },
            add: Rect { x: area.x, y: area.y + upper, width: third, height: area.height - upper },
            right: Rect {
                x: area.x + third,
                y: area.y,
                width: area.width - third,
                height: area.height,
            },
            search_inner: Rect {
                x: area.x + 1,
                y: area.y + 2,
                width: third - 2,
                height: upper - 2,
            },
            add_inner,
            add_button: Rect {
                x: add_inner.x,
                y: add_inner.y + add_inner.height - 2,
                width: add_inner.width / 2 - 1,
                height: 1,
            },
            other_button: Rect {
                x: add_inner.x + add_inner.width / 2 + 1,
                y: add_inner.y + add_inner.height - 2,
                width: add_inner.width / 2 - 1,
                height: 1,
            },
            pane: Rect {
                x: area.x + third + 1,
                y: area.y + 1,
                width: area.width - third - 2,
                height: area.height - 2,
            },
        }
    }
}

/// Once the list is cut it stays as it is.
pub proof fn lemma_cut_stays(
    s: Surface,
    pane: Rect,
    transactions: Seq<MoneyTransaction>,
    selected: int,
    colors: ColorData,
    i: nat,
    n: nat,
)
    requires
        i <= n,
        list_pass(s, pane, transactions, selected, colors, i).cut is Some,
    ensures
        list_pass(s, pane, transactions, selected, colors, n) == list_pass(
            s,
            pane,
            transactions,
            selected,
            colors,
            i,
        ),
    decreases n - i,
{
    if i < n {
        lemma_cut_stays(s, pane, transactions, selected, colors, i, (n - 1) as nat);
    }
}

/// The style in which a field of the forms is set up.
pub open spec fn field_style(title: Seq<char>, colors: ColorData) -> crate::form::FormFieldStyleView {
    crate::form::FormFieldStyleView {
        title,
        borders: Borders::all(),
        border_type: BorderType::Plain,
        selected_style: AppStyles::Main.get(colors),
        unselected_style: AppStyles::Accent.get(colors),
    }
}

/// A text field as the forms set it up: empty.
pub open spec fn text_field(title: Seq<char>, is_required: bool, colors: ColorData)
    -> FormFieldView {
    FormFieldView::Text(
        crate::form::TextFieldView {
            value: Seq::empty(),
            default_value: Seq::empty(),
            is_required,
            style: field_style(title, colors),
        },
    )
}

/// An amount field as the forms set it up: from nothing to the largest
/// amount, with nothing shown.
pub open spec fn amount_field(
    title: Seq<char>,
    default_value: Decimal,
    is_required: bool,
    colors: ColorData,
) -> FormFieldView {
    FormFieldView::Float(
        crate::form::FloatFieldView {
            value: default_value,
            default_value,
            display_value: Seq::empty(),
            min: Decimal::zero(),
            max: Decimal::from_units(MAX_AMOUNT),
            is_required,
            style: field_style(title, colors),
        },
    )
}

/// A search form: a keyword and two amounts.
pub open spec fn search_shape(form: crate::form::FormStateView) -> bool {
    &&& form.fields.len() == 3
    &&& form.fields[0] is Text
    &&& form.fields[1] is Float
    &&& form.fields[2] is Float
}

/// An add form: a title, an amount, details and a date.
pub open spec fn add_shape(form: crate::form::FormStateView) -> bool {
    &&& form.fields.len() == 4
    &&& form.fields[0] is Text
    &&& form.fields[1] is Float
    &&& form.fields[2] is Text
    &&& form.fields[3] is Date
}

/// Every field that must be filled in holds a text that is not empty; a
/// field of another kind always holds a value.
pub open spec fn required_filled(form: crate::form::FormStateView) -> bool {
    forall|i: int|
        0 <= i < form.fields.len() ==> match #[trigger] form.fields[i] {
            FormFieldView::Text(f) => !f.is_required || f.value.len() > 0,
            _ => true,
        }
}

/// Whether every required field of a form is filled in.
pub fn all_required_filled(form: &FormState) -> (r: bool)
    requires
        form.wf(),
    ensures
        r == required_filled(form@),
{
    let n = form.fields.len();
    let mut i: usize = 0;
    while i < n
        invariant
            i <= n,
            n == form.fields@.len(),
            form.wf(),
            forall|k: int|
                0 <= k < i ==> match #[trigger] form@.fields[k] {
                    FormFieldView::Text(f) => !f.is_required || f.value.len() > 0,
                    _ => true,
                },
        decreases n - i,
    {
        match &form.fields[i] {
            FormField::Text(f) => {
                if f.is_required {
                    let shown = f.get_display_value();
                    if vstd::string::StrSliceExecFns::unicode_len(shown.as_str()) == 0 {
                        assert(form@.fields[i as int] == FormFieldView::Text(f@));
                        return false;
                    }
                }
            },
            _ => {},
        }
        assert(form@.fields[i as int] == form.fields@[i as int]@);
        i = i + 1;
    }
    true
}

impl MoneyTrackerState {
    /// The forms are well formed, and the selected transaction is one of
    /// those shown, or the first where there is none.
    pub open spec fn wf(&self) -> bool {
        &&& self.search_form.wf()
        &&& self.add_form.wf()
        &&& self.selected_transaction == 0 || self.selected_transaction
            < self.transactions@.len()
    }

    /// The tracker at the start: empty forms, no transactions, the first of
    /// one page, the capacity of a page unknown, and the search for every
    /// transaction up to the largest amount. The date of the add form is
    /// `today`.
    pub fn new(colors: ColorData, today: Date) -> (r: MoneyTrackerState)
        requires
            today.valid(),
            1000 <= today.year <= 9999,
        ensures
            r.wf(),
            r.search_form@.selected_field == 0,
            r.search_form@.fields == seq![
                text_field("Keyword"@, false, colors),
                amount_field("Min"@, Decimal::zero(), false, colors),
                amount_field("Max"@, Decimal::from_units(MAX_AMOUNT), false, colors),
            ],
            r.add_form@.selected_field == 0,
            r.add_form@.fields.len() == 4,
            r.add_form@.fields[0] == text_field("Title"@, true, colors),
            r.add_form@.fields[1] == amount_field("Amount"@, Decimal::zero(), true, colors),
            r.add_form@.fields[2] == text_field("Details"@, false, colors),
            r.add_form@.fields[3] is Date,
            r.add_form@.fields[3]->Date_0.value == today,
            r.add_form@.fields[3]->Date_0.default_value == today,
            !r.add_form@.fields[3]->Date_0.is_required,
            r.add_form@.fields[3]->Date_0.style == field_style("Date"@, colors),
            r.transactions@.len() == 0,
            !r.search_form_selected,
            !r.add_form_selected,
            r.selected_transaction == 0,
            r.current_page == 1,
            r.num_of_pages == 1,
            r.max_transactions is None,
            r.page_offsets@ == seq![0u32],
            r.filters.0@ == Seq::<char>::empty(),
            r.filters.1 == Decimal::zero(),
            r.filters.2 == Decimal::from_units(MAX_AMOUNT),
    {
        let zero = Decimal::zero();
        let most = Decimal::from_units(MAX_AMOUNT);
        let mut search_form = FormState::new();
        search_form.add_field(
            FormField::Text(
                TextField::new(
                    String::new(),
                    false,
                    FormFieldStyle::new(String::from_str("Keyword"), colors),
                ),
            ),
        );
        search_form.add_field(
            FormField::Float(
                FloatField::new(
                    zero,
                    zero,
                    most,
                    false,
                    FormFieldStyle::new(String::from_str("Min"), colors),
                ),
            ),
        );
        search_form.add_field(
            FormField::Float(
                FloatField::new(
                    most,
                    zero,
                    most,
                    false,
                    FormFieldStyle::new(String::from_str("Max"), colors),
                ),
            ),
        );
        assert(search_form@.fields =~= seq![
            text_field("Keyword"@, false, colors),
            amount_field("Min"@, Decimal::zero(), false, colors),
            amount_field("Max"@, Decimal::from_units(MAX_AMOUNT), false, colors),
        ]);

        let mut add_form = FormState::new();
        add_form.add_field(
            FormField::Text(
                TextField::new(
                    String::new(),
                    true,
                    FormFieldStyle::new(String::from_str("Title"), colors),
                ),
            ),
        );
        add_form.add_field(
            FormField::Float(
                FloatField::new(
                    zero,
                    zero,
                    most,
                    true,
                    FormFieldStyle::new(String::from_str("Amount"), colors),
                ),
            ),
        );
        add_form.add_field(
            FormField::Text(
                TextField::new(
                    String::new(),
                    false,
                    FormFieldStyle::new(String::from_str("Details"), colors),
                ),
            ),
        );
        add_form.add_field(
            FormField::Date(
                DateField::new(today, false, FormFieldStyle::new(String::from_str("Date"), colors)),
            ),
        );
        let mut page_offsets: Vec<u32> = Vec::new();
        page_offsets.push(0);
        MoneyTrackerState {
            search_form,
            add_form,
            transactions: Vec::new(),
            search_form_selected: false,
            add_form_selected: false,
            selected_transaction: 0,
            current_page: 1,
            num_of_pages: 1,
            max_transactions: None,
            page_offsets,
            filters: (String::new(), zero, most),
        }
    }

    /// The tracker after the selected transaction was moved by `amount`: it
    /// stops at the first and at the last of those shown, and stays where
    /// none is shown.
    pub open spec fn selection_stepped(self, amount: i32) -> MoneyTrackerState {
        if self.transactions@.len() == 0 {
            self
        } else {
            MoneyTrackerState {
                selected_transaction: bounded_step(
                    self.selected_transaction as int,
                    0,
                    if self.transactions@.len() - 1 > u32::MAX {
                        u32::MAX as int
                    } else {
                        self.transactions@.len() - 1
                    },
                    amount as int,
                ) as u32,
                ..self
            }
        }
    }

    /// Moves the selected transaction by `amount`, stopping at the first and
    /// at the last of those shown.
    pub fn increment_selected(&mut self, amount: i32)
        requires
            old(self).wf(),
        ensures
            final(self).wf(),
            *final(self) == old(self).selection_stepped(amount),
    {
        let n = self.transactions.len();
        if n > 0 {
            let upper: u32 = if n - 1 > 0xffff_ffff {
                0xffff_ffff
            } else {
                (n - 1) as u32
            };
            generic_increment(&mut self.selected_transaction, 0, upper, amount);
        }
    }

    /// The question for the page with number `page`, counted from 1, whose
    /// offset is known.
    fn page_query(&self, limit: u32, page: u32) -> (r: TransactionQuery)
        requires
            1 <= page <= self.page_offsets@.len(),
        ensures
            r.keyword == self.filters.0,
            r.min == self.filters.1,
            r.max == self.filters.2,
            r.limit == limit,
            r.offset == self.page_offsets@[page - 1],
    {
        TransactionQuery {
            keyword: self.filters.0.clone(),
            min: self.filters.1,
            max: self.filters.2,
            limit,
            offset: self.page_offsets[(page - 1) as usize],
        }
    }

    /// The next page can be turned to: there is one, the capacity of a page
    /// is known, and so is the offset of the next page.
    pub open spec fn has_next_page(&self) -> bool {
        &&& self.current_page < self.num_of_pages
        &&& self.max_transactions is Some
        &&& self.current_page < self.page_offsets@.len()
    }

    /// The tracker `post` and the question `r` are what turning to the next
    /// page comes to.
    pub open spec fn next_page_turned(&self, post: MoneyTrackerState, r: Option<TransactionQuery>)
        -> bool {
        &&& r is Some <==> self.has_next_page()
        &&& r matches Some(q) ==> {
            &&& q.keyword == self.filters.0
            &&& q.min == self.filters.1
            &&& q.max == self.filters.2
            &&& q.limit == self.max_transactions->0
            &&& q.offset == self.page_offsets@[self.current_page as int]
            &&& post == (MoneyTrackerState {
                current_page: (self.current_page + 1) as u32,
                selected_transaction: 0,
                ..*self
            })
        }
        &&& r is None ==> post == *self
    }

    /// Turns to the next page, where it can be turned to, and gives the
    /// question for its transactions; the first of them becomes the selected
    /// one. Else nothing changes.
    pub fn get_next_page(&mut self) -> (r: Option<TransactionQuery>)
        requires
            old(self).wf(),
        ensures
            old(self).next_page_turned(*final(self), r),
            final(self).wf(),
    {
        match self.max_transactions {
            Some(limit) => {
                if self.current_page < self.num_of_pages && (self.current_page as usize)
                    < self.page_offsets.len() {
                    self.current_page = self.current_page + 1;
                    self.selected_transaction = 0;
                    Some(self.page_query(limit, self.current_page))
                } else {
                    None
                }
            },
            None => None,
        }
    }

    /// The page before can be turned to: the page shown is not the first,
    /// and the capacity of a page is known, and so is the offset of the page
    /// before.
    pub open spec fn has_prev_page(&self) -> bool {
        &&& self.current_page > 1
        &&& self.max_transactions is Some
        &&& self.current_page - 1 <= self.page_offsets@.len()
    }

    /// The tracker `post` and the question `r` are what turning to the page
    /// before comes to.
    pub open spec fn prev_page_turned(&self, post: MoneyTrackerState, r: Option<TransactionQuery>)
        -> bool {
        &&& r is Some <==> self.has_prev_page()
        &&& r matches Some(q) ==> {
            &&& q.keyword == self.filters.0
            &&& q.min == self.filters.1
            &&& q.max == self.filters.2
            &&& q.limit == self.max_transactions->0
            &&& q.offset == self.page_offsets@[self.current_page - 2]
            &&& post == (MoneyTrackerState {
                current_page: (self.current_page - 1) as u32,
                selected_transaction: 0,
                ..*self
            })
        }
        &&& r is None ==> post == *self
    }

    /// Turns to the page before, where it can be turned to, and gives the
    /// question for its transactions; the first of them becomes the selected
    /// one. Else nothing changes.
    pub fn get_prev_page(&mut self) -> (r: Option<TransactionQuery>)
        requires
            old(self).wf(),
        ensures
            old(self).prev_page_turned(*final(self), r),
            final(self).wf(),
    {
        match self.max_transactions {
            Some(limit) => {
                if self.current_page > 1 && (self.current_page as usize - 1)
                    <= self.page_offsets.len() {
                    self.current_page = self.current_page - 1;
                    self.selected_transaction = 0;
                    Some(self.page_query(limit, self.current_page))
                } else {
                    None
                }
            },
            None => None,
        }
    }

    /// Takes the transactions of the page that was turned to.
    pub fn set_transactions(&mut self, transactions: Vec<MoneyTransaction>)
        requires
            old(self).wf(),
        ensures
            final(self).wf(),
            *final(self) == (MoneyTrackerState {
                transactions,
                selected_transaction: 0,
                ..*old(self)
            }),
    {
        self.transactions = transactions;
        self.selected_transaction = 0;
    }

    /// The tracker `post` and the question `r` are what submitting the search
    /// form comes to.
    pub open spec fn search_submitted(&self, post: MoneyTrackerState, r: Option<TransactionQuery>)
        -> bool {
        &&& r is Some <==> search_shape(self.search_form@) && self.max_transactions is Some
        &&& r matches Some(q) ==> {
            let form = self.search_form@;
            &&& q.keyword@ == form.fields[0]->Text_0.value
            &&& q.min == form.fields[1]->Float_0.value
            &&& q.max == form.fields[2]->Float_0.value
            &&& q.limit == self.max_transactions->0
            &&& q.offset == 0
            &&& post.filters.0@ == q.keyword@
            &&& post.filters.1 == q.min
            &&& post.filters.2 == q.max
            &&& post.search_form@ == form.reset()
            &&& post.page_offsets@ == seq![0u32]
            &&& post == (MoneyTrackerState {
                filters: post.filters,
                search_form: post.search_form,
                page_offsets: post.page_offsets,
                selected_transaction: 0,
                current_page: 1,
                search_form_selected: false,
                add_form_selected: false,
                ..*self
            })
        }
        &&& r is None ==> post == *self
    }

    /// Submits the search form, where it is one and the capacity of a page
    /// is known: what it holds becomes the search, the form is reset, the
    /// list becomes the selected part, on its first page, of which alone the
    /// offset is known; the question for the first page is given. Else
    /// nothing changes.
    pub fn submit_search_form(&mut self) -> (r: Option<TransactionQuery>)
        requires
            old(self).wf(),
        ensures
            final(self).wf(),
            old(self).search_submitted(*final(self), r),
    {
        let limit = match self.max_transactions {
            Some(limit) => limit,
            None => {
                return None;
            },
        };
        if self.search_form.fields.len() != 3 {
            return None;
        }
        let keyword = match self.search_form.fields[0].get_internal_value().try_get_text_value() {
            Some(k) => k.clone(),
            None => {
                return None;
            },
        };
        let min = match self.search_form.fields[1].get_internal_value().try_get_float_value() {
            Some(d) => *d,
            None => {
                return None;
            },
        };
        let max = match self.search_form.fields[2].get_internal_value().try_get_float_value() {
            Some(d) => *d,
            None => {
                return None;
            },
        };
        let query = TransactionQuery { keyword: keyword.clone(), min, max, limit, offset: 0 };
        self.filters = (keyword, min, max);
        self.search_form.reset_fields();
        self.selected_transaction = 0;
        self.current_page = 1;
        let mut page_offsets: Vec<u32> = Vec::new();
        page_offsets.push(0);
        self.page_offsets = page_offsets;
        self.select_transaction_list();
        Some(query)
    }

    /// Takes the answer to a search: the number of transactions that match,
    /// from which the number of pages follows, and the transactions of the
    /// first page.
    pub fn set_search_result(&mut self, matching: u32, transactions: Vec<MoneyTransaction>)
        requires
            old(self).wf(),
        ensures
            final(self).wf(),
            *final(self) == (MoneyTrackerState {
                num_of_pages: pages_needed(
                    matching as int,
                    match old(self).max_transactions {
                        Some(capacity) => capacity as int,
                        None => 0,
                    },
                ) as u32,
                transactions,
                selected_transaction: 0,
                ..*old(self)
            }),
    {
        let capacity = match self.max_transactions {
            Some(capacity) => capacity,
            None => 0,
        };
        self.num_of_pages = num_of_pages(matching, capacity);
        self.transactions = transactions;
        self.selected_transaction = 0;
    }

    /// The transaction `r` is what submitting the add form comes to.
    pub open spec fn add_submitted(&self, r: Option<MoneyTransaction>) -> bool {
        &&& r is Some <==> add_shape(self.add_form@) && required_filled(self.add_form@)
        &&& r matches Some(t) ==> {
            let form = self.add_form@;
            &&& t.id == -1
            &&& t.title@ == form.fields[0]->Text_0.value
            &&& t.amount == form.fields[1]->Float_0.value
            &&& t.details@ == form.fields[2]->Text_0.value
            &&& t.date == form.fields[3]->Date_0.value
        }
    }

    /// The transaction that the add form holds, where it is an add form and
    /// every required field is filled in.
    pub fn submit_add_form(&self) -> (r: Option<MoneyTransaction>)
        requires
            self.wf(),
        ensures
            self.add_submitted(r),
    {
        if self.add_form.fields.len() != 4 {
            return None;
        }
        let title = match self.add_form.fields[0].get_internal_value().try_get_text_value() {
            Some(k) => k.clone(),
            None => {
                return None;
            },
        };
        let amount = match self.add_form.fields[1].get_internal_value().try_get_float_value() {
            Some(d) => *d,
            None => {
                return None;
            },
        };
        let details = match self.add_form.fields[2].get_internal_value().try_get_text_value() {
            Some(k) => k.clone(),
            None => {
                return None;
            },
        };
        let date = match self.add_form.fields[3].get_internal_value().try_get_date_value() {
            Some(d) => *d,
            None => {
                return None;
            },
        };
        if !all_required_filled(&self.add_form) {
            return None;
        }
        Some(MoneyTransaction::new(title, amount, details, date))
    }

    /// The tracker `post` and the question `r` are what follows a stored
    /// transaction: the add form is reset, and the last search is run again
    /// from its first page, of which alone the offset is known. There is no
    /// question while the capacity of a page is unknown.
    pub open spec fn add_followed(&self, post: MoneyTrackerState, r: Option<TransactionQuery>)
        -> bool {
        &&& post.add_form@ == self.add_form@.reset()
        &&& r is Some <==> self.max_transactions is Some
        &&& r matches Some(q) ==> {
            &&& q.keyword == self.filters.0
            &&& q.min == self.filters.1
            &&& q.max == self.filters.2
            &&& q.limit == self.max_transactions->0
            &&& q.offset == 0
            &&& post.page_offsets@ == seq![0u32]
            &&& post == (MoneyTrackerState {
                add_form: post.add_form,
                page_offsets: post.page_offsets,
                selected_transaction: 0,
                current_page: 1,
                ..*self
            })
        }
        &&& r is None ==> post == (MoneyTrackerState { add_form: post.add_form, ..*self })
    }

    /// Resets the add form once its transaction is stored, and gives the
    /// question that runs the last search again.
    pub fn after_add(&mut self) -> (r: Option<TransactionQuery>)
        requires
            old(self).wf(),
        ensures
            final(self).wf(),
            old(self).add_followed(*final(self), r),
    {
        self.add_form.reset_fields();
        match self.max_transactions {
            Some(limit) => {
                self.selected_transaction = 0;
                self.current_page = 1;
                let mut page_offsets: Vec<u32> = Vec::new();
                page_offsets.push(0);
                self.page_offsets = page_offsets;
                Some(
                    TransactionQuery {
                        keyword: self.filters.0.clone(),
                        min: self.filters.1,
                        max: self.filters.2,
                        limit,
                        offset: 0,
                    },
                )
            },
            None => None,
        }
    }

    /// Makes the search form the selected part.
    pub fn select_search_form(&mut self)
        ensures
            *final(self) == (MoneyTrackerState {
                search_form_selected: true,
                add_form_selected: false,
                ..*old(self)
            }),
    {
        self.search_form_selected = true;
        self.add_form_selected = false;
    }

    /// Makes the add form the selected part.
    pub fn select_add_form(&mut self)
        ensures
            *final(self) == (MoneyTrackerState {
                search_form_selected: false,
                add_form_selected: true,
                ..*old(self)
            }),
    {
        self.search_form_selected = false;
        self.add_form_selected = true;
    }

    /// Makes the list the selected part.
    pub fn select_transaction_list(&mut self)
        ensures
            *final(self) == (MoneyTrackerState {
                search_form_selected: false,
                add_form_selected: false,
                ..*old(self)
            }),
    {
        self.search_form_selected = false;
        self.add_form_selected = false;
    }

    /// The selected transaction.
    pub fn get_selected_transaction(&self) -> (r: &MoneyTransaction)
        requires
            self.selected_transaction < self.transactions@.len(),
        ensures
            *r == self.transactions@[self.selected_transaction as int],
    {
        &self.transactions[self.selected_transaction as usize]
    }
}

/// The tracker `post` is the tracker `pre` after it was drawn into `area`:
/// the height of the area is the capacity of a page; where the list did not
/// fit, the offset of the next page is found; the fields of each form have
/// the style of their part as the style of the selected field.
pub open spec fn money_state_drawn(
    pre: MoneyTrackerState,
    post: MoneyTrackerState,
    s: Surface,
    area: Rect,
    colors: ColorData,
) -> bool {
    &&& post.page_offsets@ == offsets_after(
        pre.page_offsets@,
        pre.current_page,
        list_pass(
            money_frame_drawn(s, area, pre, colors),
            money_layout(area).pane,
            pre.transactions@,
            pre.selected_transaction as int,
            colors,
            pre.transactions@.len(),
        ).cut,
    )
    &&& post.search_form@ == pre.search_form@.restyled(
        part_style(pre.search_form_selected, colors),
    )
    &&& post.add_form@ == pre.add_form@.restyled(part_style(pre.add_form_selected, colors))
    &&& post == (MoneyTrackerState {
        max_transactions: Some(area.height as u32),
        page_offsets: post.page_offsets,
        search_form: post.search_form,
        add_form: post.add_form,
        ..pre
    })
}

impl MoneyTracker {
    /// The text of an amount in the list.
    fn amount_text_of(amount: Decimal) -> (r: String)
        ensures
            r@ == amount_text(amount),
    {
        let mut fixed = String::new();
        amount.push_fixed2(&mut fixed);
        assert(fixed@ == amount.text_fixed2()) by {
            assert(Seq::<char>::empty() + amount.text_fixed2() == amount.text_fixed2());
        }
        let mut out = String::new();
        push_char(&mut out, '\u{a3}');
        push_padded_right(&mut out, fixed.as_str(), 10, ' ');
        assert(out@ == amount_text(amount)) by {
            assert(Seq::<char>::empty().push('\u{a3}') == seq!['\u{a3}']);
        }
        out
    }

    /// The text of the page count.
    fn page_text_of(current_page: u32, num_of_pages: u32) -> (r: String)
        ensures
            r@ == page_text(current_page, num_of_pages),
    {
        let mut out = String::new();
        push_decimal(&mut out, current_page as u64);
        push_char(&mut out, '/');
        push_decimal(&mut out, num_of_pages as u64);
        assert(out@ == page_text(current_page, num_of_pages)) by {
            assert(Seq::<char>::empty() + decimal(current_page as nat) == decimal(
                current_page as nat,
            ));
        }
        out
    }

    /// Draws the frame of the money tracker: borders, titles, forms and
    /// buttons. The fields of each form take the style of their part as the
    /// style of the selected field.
    fn render_frame(
        l: &MoneyLayout,
        area: Rect,
        buf: &mut tui::buffer::Buffer,
        state: &mut MoneyTrackerState,
        colors: ColorData,
    )
        requires
            surface(*old(buf)).wf(),
            old(state).wf(),
            money_fits(area),
            *l == money_layout(area),
        ensures
            surface(*final(buf)) == money_frame_drawn(surface(*old(buf)), area, *old(state), colors),
            surface(*final(buf)).wf(),
            final(state).wf(),
            final(state).search_form@ == old(state).search_form@.restyled(
                part_style(old(state).search_form_selected, colors),
            ),
            final(state).add_form@ == old(state).add_form@.restyled(
                part_style(old(state).add_form_selected, colors),
            ),
            final(state).transactions == old(state).transactions,
            final(state).search_form_selected == old(state).search_form_selected,
            final(state).add_form_selected == old(state).add_form_selected,
            final(state).selected_transaction == old(state).selected_transaction,
            final(state).current_page == old(state).current_page,
            final(state).num_of_pages == old(state).num_of_pages,
            final(state).max_transactions == old(state).max_transactions,
            final(state).page_offsets == old(state).page_offsets,
            final(state).filters == old(state).filters,
    {
        let search_style = if state.search_form_selected {
            AppStyles::Main.get(colors)
        } else {
            AppStyles::Accent.get(colors)
        };
        let add_style = if state.add_form_selected {
            AppStyles::Main.get(colors)
        } else {
            AppStyles::Accent.get(colors)
        };
        let list_style = if !state.search_form_selected && !state.add_form_selected {
            AppStyles::Main.get(colors)
        } else {
            AppStyles::Accent.get(colors)
        };
        draw_rect_borders(buf, l.search, Borders::all(), BorderType::Plain, search_style);
        draw_rect_borders(buf, l.add, Borders::all(), BorderType::Plain, add_style);
        draw_rect_borders(buf, l.right, Borders::all(), BorderType::Plain, list_style);
        let search_title = center("Search", l.search_inner.width as usize, ' ');
        draw_text_wide(
            buf,
            l.search_inner.x as u32,
            l.search_inner.y as u32 - 1,
            search_title.as_str(),
            search_style.bold(),
        );
        let add_title = center("Add", l.add_inner.width as usize, ' ');
        draw_text_wide(
            buf,
            l.add_inner.x as u32,
            l.add_inner.y as u32 - 1,
            add_title.as_str(),
            add_style.bold(),
        );
        state.add_form.change_style_selected(add_style);
        state.search_form.change_style_selected(search_style);
        Form::new().render(l.search_inner, buf, &mut state.search_form);
        Form::new().render(l.add_inner, buf, &mut state.add_form);
        let add_button = Button::new(String::from_str("add"), false);
        add_button.render(l.add_button, buf, colors);
        let other_button = Button::new(String::from_str("other"), true);
        other_button.render(l.other_button, buf, colors);
    }

    /// Draws one transaction of the list, under a heading where it is the
    /// first of its day, or cuts the list where the pane is full.
    fn render_row(
        pane: Rect,
        buf: &mut tui::buffer::Buffer,
        transactions: &Vec<MoneyTransaction>,
        selected: usize,
        colors: ColorData,
        i: usize,
        headings: u32,
        start: Ghost<Surface>,
    ) -> (r: (u32, bool))
        requires
            surface(*old(buf)).wf(),
            pane.height >= 1,
            i < transactions@.len(),
            selected < transactions@.len(),
            i + headings <= 0x2_0000,
            list_pass(start@, pane, transactions@, selected as int, colors, i as nat) == (ListPass {
                surface: surface(*old(buf)),
                headings: headings as nat,
                cut: None,
            }),
        ensures
            surface(*final(buf)).wf(),
            r.0 <= headings + 1,
            !r.1 ==> i + 1 + r.0 <= 0x2_0000,
            list_pass(start@, pane, transactions@, selected as int, colors, (i + 1) as nat)
                == (ListPass {
                surface: surface(*final(buf)),
                headings: r.0 as nat,
                cut: if r.1 {
                    Some(i as nat)
                } else {
                    None
                },
            }),
    {
        let limit: u32 = pane.y as u32 + pane.height as u32 - 1;
        let y: u32 = pane.y as u32 + i as u32 + headings;
        if y >= limit {
            return (headings, true);
        }
        let transaction = &transactions[i];
        let mut line = y;
        let mut count = headings;
        if i == 0 || !transactions[i - 1].date.same_day(transaction.date) {
            let own_day = transactions[selected].date.same_day(transaction.date);
            let heading = heading_of(transaction.date);
            let text = center(
                heading.as_str(),
                pane.width as usize,
                if own_day {
                    HEAVY_FILL
                } else {
                    '-'
                },
            );
            draw_text_wide(
                buf,
                pane.x as u32,
                y,
                text.as_str(),
                if own_day {
                    AppStyles::Main.get(colors)
                } else {
                    AppStyles::Accent.get(colors)
                },
            );
            count = headings + 1;
            line = y + 1;
        }
        let style = if i == selected {
            AppStyles::Main.get(colors)
        } else {
            AppStyles::Accent.get(colors)
        };
        let amount = Self::amount_text_of(transaction.amount);
        draw_text_wide(buf, pane.x as u32, line, amount.as_str(), style);
        draw_text_wide(buf, pane.x as u32 + 11, line, transaction.title.as_str(), style);
        (count, false)
    }

    /// Draws the list of transactions into `pane`, and gives the index of
    /// the transaction at which the pane was full, if it was.
    fn render_list(
        pane: Rect,
        buf: &mut tui::buffer::Buffer,
        transactions: &Vec<MoneyTransaction>,
        selected: usize,
        colors: ColorData,
    ) -> (cut: Option<usize>)
        requires
            surface(*old(buf)).wf(),
            pane.height >= 1,
            selected < transactions@.len() || transactions@.len() == 0,
        ensures
            surface(*final(buf)).wf(),
            cut matches Some(c) ==> c <= 0x2_0000,
            list_pass(
                surface(*old(buf)),
                pane,
                transactions@,
                selected as int,
                colors,
                transactions@.len(),
            ) == (ListPass {
                surface: surface(*final(buf)),
                headings: list_pass(
                    surface(*old(buf)),
                    pane,
                    transactions@,
                    selected as int,
                    colors,
                    transactions@.len(),
                ).headings,
                cut: match cut {
                    Some(c) => Some(c as nat),
                    None => None,
                },
            }),
    {
        let ghost start = surface(*buf);
        let n = transactions.len();
        let mut headings: u32 = 0;
        let mut cut: Option<usize> = None;
        let mut i: usize = 0;
        while i < n && cut.is_none()
            invariant
                i <= n,
                n == transactions@.len(),
                selected < n || n == 0,
                pane.height >= 1,
                cut is None ==> i + headings <= 0x2_0000,
                cut matches Some(c) ==> c < i && c <= 0x2_0000,
                surface(*buf).wf(),
                list_pass(start, pane, transactions@, selected as int, colors, i as nat)
                    == (ListPass {
                    surface: surface(*buf),
                    headings: headings as nat,
                    cut: match cut {
                        Some(c) => Some(c as nat),
                        None => None,
                    },
                }),
            decreases n - i + if cut is None { 1nat } else { 0nat },
        {
            let (count, full) = Self::render_row(
                pane,
                buf,
                transactions,
                selected,
                colors,
                i,
                headings,
                Ghost(start),
            );
            headings = count;
            if full {
                cut = Some(i);
            }
            i = i + 1;
        }
        proof {
            if cut is Some {
                lemma_cut_stays(
                    start,
                    pane,
                    transactions@,
                    selected as int,
                    colors,
                    i as nat,
                    n as nat,
                );
            }
        }
        cut
    }

    /// Draws the money tracker into `area`. The height of the area becomes
    /// the capacity of a page, and where the list did not fit, the offset of
    /// the next page is found.
    pub fn render(
        self,
        area: Rect,
        buf: &mut tui::buffer::Buffer,
        state: &mut MoneyTrackerState,
        colors: ColorData,
    )
        requires
            surface(*old(buf)).wf(),
            old(state).wf(),
            money_fits(area),
        ensures
            surface(*final(buf)) == money_drawn(surface(*old(buf)), area, *old(state), colors),
            surface(*final(buf)).wf(),
            final(state).wf(),
            money_state_drawn(*old(state), *final(state), surface(*old(buf)), area, colors),
    {
        let l = Self::layout(area);
        state.max_transactions = Some(l.right.height as u32);
        Self::render_frame(&l, area, buf, state, colors);
        let pane = l.pane;
        let limit: u32 = pane.y as u32 + pane.height as u32 - 1;
        let cut = Self::render_list(
            pane,
            buf,
            &state.transactions,
            state.selected_transaction as usize,
            colors,
        );
        match cut {
            Some(c) => {
                let page = state.current_page as usize;
                if page >= 1 && page == state.page_offsets.len() {
                    let total: u64 = state.page_offsets[page - 1] as u64 + c as u64;
                    state.page_offsets.push(
                        if total > 0xffff_ffff {
                            0xffff_ffff
                        } else {
                            total as u32
                        },
                    );
                }
            },
            None => {},
        }
        let pages = Self::page_text_of(state.current_page, state.num_of_pages);
        let footer = center(pages.as_str(), pane.width as usize, ' ');
        draw_text_wide(
            buf,
            pane.x as u32,
            limit,
            footer.as_str(),
            AppStyles::Main.get(colors),
        );
    }
}

/// The selected transaction is one of those shown after it was moved by
/// whatever amount, and stays the first when it is moved upwards from
/// there.
pub proof fn law_selected_transaction_bounded(state: MoneyTrackerState, amount: i32)
    requires
        state.transactions@.len() > 0,
    ensures
        state.selection_stepped(amount).selected_transaction < state.transactions@.len(),
        state.selected_transaction == 0 && amount < 0 ==> state.selection_stepped(
            amount,
        ).selected_transaction == 0,
{
}

/// The pages that are needed hold every line, and one page fewer would not.
pub proof fn law_pages_hold_all_lines(count: int, capacity: int)
    requires
        count >= 0,
        capacity > 0,
    ensures
        (pages_needed(count, capacity) - 1) * capacity < count <= pages_needed(
            count,
            capacity,
        ) * capacity,
{
    let q = (count + capacity - 1) / capacity;
    assert((q - 1) * capacity < count <= q * capacity) by (nonlinear_arith)
        requires
            q == (count + capacity - 1) / capacity,
            capacity > 0,
            count >= 0,
    ;
}

/// A page can be turned to only once the page before it was drawn: the next
/// page has a question only where its offset is known, and the offsets
/// that are known are one more than the pages that were found so far.
pub proof fn law_pages_are_found_in_turn(
    state: MoneyTrackerState,
    post: MoneyTrackerState,
    r: Option<TransactionQuery>,
)
    requires
        state.next_page_turned(post, r),
        state.page_offsets@.len() <= state.current_page,
    ensures
        r is None,
        post == state,
{
}

/// Drawing a page finds one offset at most, and only the offset of the page
/// after the one shown: it is the offset of the page shown and the index at
/// which the list was cut. Offsets that are known stay as they are.
pub proof fn law_next_offset(offsets: Seq<u32>, current_page: u32, cut: Option<nat>)
    ensures
        offsets_after(offsets, current_page, cut).len() <= offsets.len() + 1,
        forall|k: int|
            0 <= k < offsets.len() ==> #[trigger] offsets_after(offsets, current_page, cut)[k]
                == offsets[k],
        cut is Some && current_page >= 1 && current_page == offsets.len() && offsets[current_page
            - 1] + cut->0 <= u32::MAX ==> offsets_after(offsets, current_page, cut).len()
            == offsets.len() + 1 && offsets_after(offsets, current_page, cut)[current_page as int]
            == offsets[current_page - 1] + cut->0,
        cut is None || current_page != offsets.len() ==> offsets_after(offsets, current_page, cut)
            == offsets,
{
}

/// The selected transaction is moved by the amount and held between the
/// first and the last of those shown; nothing else changes, and nothing at
/// all where none is shown. This holds of lists with as many transactions as
/// the index can number.
pub proof fn law_selected_transaction_is_sum_held(state: MoneyTrackerState, amount: i32)
    requires
        state.transactions@.len() <= 0x1_0000_0000,
    ensures
        state.transactions@.len() == 0 ==> state.selection_stepped(amount) == state,
        state.transactions@.len() >= 1 ==> state.selection_stepped(amount) == (MoneyTrackerState {
            selected_transaction: crate::util::held(
                state.selected_transaction + amount,
                0,
                state.transactions@.len() - 1,
            ) as u32,
            ..state
        }),
{
}

} // verus!
