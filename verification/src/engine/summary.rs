//! The sales summary of a tenant: what was invoiced and collected, and
//! the figures of the latest months.
use crate::decimal::Decimal;
use crate::engine::Engine;
use crate::error::{Error, ErrorView};
use crate::models::accounting::Invoice;
use crate::models::reports::{MonthlySales, SalesSummary};
use crate::reports::{sales_figures, sales_summary};
use vstd::prelude::*;
use vstd::string::*;

verus! {

/// How many months the summary lists at most.
pub const MONTHS_LISTED: usize = 12;

/// The month of an invoice: the year and the month of its date.
pub open spec fn month_of(invoice: Invoice) -> (i32, u32) {
    (invoice.date.year_spec(), invoice.date.month_spec())
}

/// Whether the month `a` is later than the month `b`.
pub open spec fn later(a: (i32, u32), b: (i32, u32)) -> bool {
    a.0 > b.0 || (a.0 == b.0 && a.1 > b.1)
}

/// The months are in order, the latest first, none twice.
pub open spec fn latest_first(months: Seq<(i32, u32)>) -> bool {
    forall|i: int, j: int| 0 <= i < j < months.len() ==> later(months[i], months[j])
}

/// `months`, which are in order, with `month` put in its place, unless it
/// is among them already.
pub open spec fn insert_month(months: Seq<(i32, u32)>, month: (i32, u32)) -> Seq<(i32, u32)>
    decreases months.len(),
{
    if months.len() == 0 {
        seq![month]
    } else if months.last() == month {
        months
    } else if later(months.last(), month) {
        months.push(month)
    } else {
        insert_month(months.drop_last(), month).push(months.last())
    }
}

/// The months in which the tenant has invoices, the latest first.
pub open spec fn months_of(invoices: Seq<Invoice>, tenant_id: u128) -> Seq<(i32, u32)>
    decreases invoices.len(),
{
    if invoices.len() == 0 {
        Seq::empty()
    } else if invoices.last().tenant_id == tenant_id {
        insert_month(months_of(invoices.drop_last(), tenant_id), month_of(invoices.last()))
    } else {
        months_of(invoices.drop_last(), tenant_id)
    }
}

/// Whether the invoice is one of the tenant in the given month.
pub open spec fn in_month(invoice: Invoice, tenant_id: u128, month: (i32, u32)) -> bool {
    invoice.tenant_id == tenant_id && month_of(invoice) == month
}

/// What the tenant invoiced in a month: the totals of the month's
/// invoices, added up from zero in the order of the table.
pub open spec fn month_revenue(invoices: Seq<Invoice>, tenant_id: u128, month: (i32, u32)) -> Option<
    Decimal,
>
    decreases invoices.len(),
{
    if invoices.len() == 0 {
        Some(Decimal::zero_spec())
    } else {
        let before = month_revenue(invoices.drop_last(), tenant_id, month);
        if in_month(invoices.last(), tenant_id, month) {
            match before {
                Some(sum) => sum.add_spec(invoices.last().total_amount),
                None => None,
            }
        } else {
            before
        }
    }
}

/// How many invoices the tenant has in a month.
pub open spec fn month_count(invoices: Seq<Invoice>, tenant_id: u128, month: (i32, u32)) -> nat
    decreases invoices.len(),
{
    if invoices.len() == 0 {
        0
    } else if in_month(invoices.last(), tenant_id, month) {
        month_count(invoices.drop_last(), tenant_id, month) + 1
    } else {
        month_count(invoices.drop_last(), tenant_id, month)
    }
}

/// What the tenant invoiced in all, or, where `paid` holds, what it
/// collected in all: the invoices' totals, or what was paid on them,
/// added up from zero in the order of the table.
pub open spec fn invoice_total(invoices: Seq<Invoice>, tenant_id: u128, paid: bool) -> Option<Decimal>
    decreases invoices.len(),
{
    if invoices.len() == 0 {
        Some(Decimal::zero_spec())
    } else {
        let before = invoice_total(invoices.drop_last(), tenant_id, paid);
        if invoices.last().tenant_id == tenant_id {
            match before {
                Some(sum) => sum.add_spec(
                    if paid {
                        invoices.last().amount_paid
                    } else {
                        invoices.last().total_amount
                    },
                ),
                None => None,
            }
        } else {
            before
        }
    }
}

/// How many invoices the tenant has.
pub open spec fn invoice_count(invoices: Seq<Invoice>, tenant_id: u128) -> nat
    decreases invoices.len(),
{
    if invoices.len() == 0 {
        0
    } else if invoices.last().tenant_id == tenant_id {
        invoice_count(invoices.drop_last(), tenant_id) + 1
    } else {
        invoice_count(invoices.drop_last(), tenant_id)
    }
}

/// Whether the revenue of every month in which the tenant has invoices
/// stays in the range of a decimal.
pub open spec fn months_defined(invoices: Seq<Invoice>, tenant_id: u128) -> bool {
    forall|i: int|
        0 <= i < invoices.len() && (#[trigger] invoices[i]).tenant_id == tenant_id
            ==> month_revenue(invoices, tenant_id, month_of(invoices[i])) is Some
}

/// One decimal digit as text.
pub open spec fn digit_text(digit: int) -> Seq<char> {
    if digit == 0 {
        "0"@
    } else if digit == 1 {
        "1"@
    } else if digit == 2 {
        "2"@
    } else if digit == 3 {
        "3"@
    } else if digit == 4 {
        "4"@
    } else if digit == 5 {
        "5"@
    } else if digit == 6 {
        "6"@
    } else if digit == 7 {
        "7"@
    } else if digit == 8 {
        "8"@
    } else {
        "9"@
    }
}

/// A number in decimal digits, without leading zeros.
pub open spec fn decimal_text(n: nat) -> Seq<char>
    decreases n,
{
    if n < 10 {
        digit_text(n as int)
    } else {
        decimal_text(n / 10) + digit_text((n % 10) as int)
    }
}

/// A number in at least `width` decimal digits, `width` being at most 4:
/// with zeros in front where it has fewer.
pub open spec fn padded_text(n: nat, width: nat) -> Seq<char> {
    if n < 10 && width >= 4 {
        "000"@ + decimal_text(n)
    } else if n < 100 && width >= 4 {
        "00"@ + decimal_text(n)
    } else if n < 1000 && width >= 4 {
        "0"@ + decimal_text(n)
    } else if n < 10 && width >= 2 {
        "0"@ + decimal_text(n)
    } else {
        decimal_text(n)
    }
}

/// The label of a month: the year in four digits, a hyphen, the month in
/// two digits, as in `2024-03`. A year before the year 0 has a minus sign
/// in front.
pub open spec fn month_label_spec(month: (i32, u32)) -> Seq<char> {
    if month.0 < 0 {
        "-"@ + padded_text((-month.0) as nat, 4) + "-"@ + padded_text(month.1 as nat, 2)
    } else {
        padded_text(month.0 as nat, 4) + "-"@ + padded_text(month.1 as nat, 2)
    }
}

/// Whether `rows` are the figures of the tenant's latest months: one row
/// for each of the latest months in which the tenant has invoices, at most
/// `MONTHS_LISTED` of them, the latest first, each with what was invoiced
/// in the month and the number of its invoices.
pub open spec fn is_monthly(rows: Seq<MonthlySales>, invoices: Seq<Invoice>, tenant_id: u128) -> bool {
    let months = months_of(invoices, tenant_id);
    &&& rows.len() == if months.len() <= MONTHS_LISTED {
        months.len()
    } else {
        MONTHS_LISTED as nat
    }
    &&& forall|i: int|
        0 <= i < rows.len() ==> {
            &&& (#[trigger] rows[i]).month@ == month_label_spec(months[i])
            &&& month_revenue(invoices, tenant_id, months[i]) == Some(rows[i].revenue)
            &&& rows[i].count == month_count(invoices, tenant_id, months[i])
        }
}

/// Where, among months in order, `month` stands or belongs: it is put in
/// at that place, unless it stands there already.
pub proof fn lemma_insert_month(months: Seq<(i32, u32)>, month: (i32, u32), place: int)
    requires
        latest_first(months),
        0 <= place <= months.len(),
        forall|i: int| 0 <= i < place ==> later(months[i], month),
        place < months.len() ==> !later(months[place], month),
    ensures
        insert_month(months, month) == if place < months.len() && months[place] == month {
            months
        } else {
            months.insert(place, month)
        },
    decreases months.len(),
{
    if months.len() == 0 {
        assert(seq![month] =~= months.insert(place, month));
    } else if months.last() == month {
        if place < months.len() - 1 {
            assert(later(months[place], months[months.len() - 1]));
        }
    } else if later(months.last(), month) {
        if place < months.len() {
            assert(later(months[place], months[months.len() - 1]) || place == months.len() - 1);
        }
        assert(months.push(month) =~= months.insert(place, month));
    } else {
        let front = months.drop_last();
        assert(place <= front.len()) by {
            if place == months.len() {
                assert(later(months[months.len() - 1], month));
            }
        }
        assert(latest_first(front));
        lemma_insert_month(front, month, place);
        if place < front.len() && front[place] == month {
            assert(front.push(months.last()) =~= months);
        } else {
            assert(front.insert(place, month).push(months.last()) =~= months.insert(
                place,
                month,
            ));
        }
    }
}

/// Once a month's revenue has left the range of a decimal, it stays out.
pub proof fn lemma_month_revenue_none_extends(
    invoices: Seq<Invoice>,
    tenant_id: u128,
    month: (i32, u32),
    n: int,
)
    requires
        0 <= n <= invoices.len(),
        month_revenue(invoices.take(n), tenant_id, month) is None,
    ensures
        month_revenue(invoices, tenant_id, month) is None,
    decreases invoices.len() - n,
{
    if n < invoices.len() {
        assert(invoices.take(n + 1).drop_last() =~= invoices.take(n));
        lemma_month_revenue_none_extends(invoices, tenant_id, month, n + 1);
    } else {
        assert(invoices.take(n) =~= invoices);
    }
}

/// Once a total has left the range of a decimal, it stays out.
pub proof fn lemma_invoice_total_none_extends(
    invoices: Seq<Invoice>,
    tenant_id: u128,
    paid: bool,
    n: int,
)
    requires
        0 <= n <= invoices.len(),
        invoice_total(invoices.take(n), tenant_id, paid) is None,
    ensures
        invoice_total(invoices, tenant_id, paid) is None,
    decreases invoices.len() - n,
{
    if n < invoices.len() {
        assert(invoices.take(n + 1).drop_last() =~= invoices.take(n));
        lemma_invoice_total_none_extends(invoices, tenant_id, paid, n + 1);
    } else {
        assert(invoices.take(n) =~= invoices);
    }
}

/// A month in which the tenant has no invoice has no revenue and no
/// invoices.
pub proof fn lemma_month_without_invoices(invoices: Seq<Invoice>, tenant_id: u128, month: (i32, u32))
    requires
        forall|i: int| 0 <= i < invoices.len() ==> !in_month(invoices[i], tenant_id, month),
    ensures
        month_revenue(invoices, tenant_id, month) == Some(Decimal::zero_spec()),
        month_count(invoices, tenant_id, month) == 0,
    decreases invoices.len(),
{
    if invoices.len() > 0 {
        let front = invoices.drop_last();
        assert forall|i: int| 0 <= i < front.len() implies !in_month(
            front[i],
            tenant_id,
            month,
        ) by {
            assert(front[i] == invoices[i]);
        }
        lemma_month_without_invoices(front, tenant_id, month);
        assert(invoices.last() == invoices[invoices.len() - 1]);
    }
}

/// The tenant has no more invoices in a month, or in all, than the table
/// has rows.
pub proof fn lemma_counts_bounded(invoices: Seq<Invoice>, tenant_id: u128, month: (i32, u32))
    ensures
        month_count(invoices, tenant_id, month) <= invoices.len(),
        invoice_count(invoices, tenant_id) <= invoices.len(),
    decreases invoices.len(),
{
    if invoices.len() > 0 {
        lemma_counts_bounded(invoices.drop_last(), tenant_id, month);
    }
}

/// The figures of one month while they are added up.
struct MonthFigures {
    year: i32,
    month: u32,
    revenue: Decimal,
    count: u64,
}

/// The months of the figures, in order.
spec fn figure_months(figures: Seq<MonthFigures>) -> Seq<(i32, u32)> {
    figures.map_values(|f: MonthFigures| (f.year, f.month))
}

/// Whether the figures are those of the tenant's months over the
/// invoices: one for each month, the latest first.
spec fn are_figures(figures: Seq<MonthFigures>, invoices: Seq<Invoice>, tenant_id: u128) -> bool {
    &&& figure_months(figures) == months_of(invoices, tenant_id)
    &&& latest_first(figure_months(figures))
    &&& forall|i: int|
        0 <= i < figures.len() ==> {
            &&& month_revenue(
                invoices,
                tenant_id,
                ((#[trigger] figures[i]).year, figures[i].month),
            ) == Some(figures[i].revenue)
            &&& month_count(invoices, tenant_id, (figures[i].year, figures[i].month))
                == figures[i].count
        }
    &&& forall|j: int|
        0 <= j < invoices.len() && (#[trigger] invoices[j]).tenant_id == tenant_id
            ==> figure_months(figures).contains(month_of(invoices[j]))
}

/// One decimal digit as text.
fn digit_str(digit: u64) -> (r: &'static str)
    requires
        digit < 10,
    ensures
        r@ == digit_text(digit as int),
{
    if digit == 0 {
        "0"
    } else if digit == 1 {
        "1"
    } else if digit == 2 {
        "2"
    } else if digit == 3 {
        "3"
    } else if digit == 4 {
        "4"
    } else if digit == 5 {
        "5"
    } else if digit == 6 {
        "6"
    } else if digit == 7 {
        "7"
    } else if digit == 8 {
        "8"
    } else {
        "9"
    }
}

/// Writes a number in decimal digits to the end of `text`.
fn push_decimal(text: &mut String, n: u64)
    ensures
        final(text)@ == old(text)@ + decimal_text(n as nat),
    decreases n,
{
    if n >= 10 {
        push_decimal(text, n / 10);
    }
    text.append(digit_str(n % 10));
    assert(text@ =~= old(text)@ + decimal_text(n as nat));
}

/// Writes a number in at least `width` decimal digits to the end of
/// `text`.
fn push_padded(text: &mut String, n: u64, width: u8)
    requires
        width == 2 || width == 4,
    ensures
        final(text)@ == old(text)@ + padded_text(n as nat, width as nat),
{
    if n < 10 && width >= 4 {
        text.append("000");
    } else if n < 100 && width >= 4 {
        text.append("00");
    } else if n < 1000 && width >= 4 {
        text.append("0");
    } else if n < 10 && width >= 2 {
        text.append("0");
    }
    push_decimal(text, n);
    assert(text@ =~= old(text)@ + padded_text(n as nat, width as nat));
}

/// The label of a month, as in `2024-03`.
pub fn month_label(year: i32, month: u32) -> (r: String)
    ensures
        r@ == month_label_spec((year, month)),
{
    let mut text = String::new();
    if year < 0 {
        text.append("-");
        push_padded(&mut text, (-(year as i64)) as u64, 4);
    } else {
        push_padded(&mut text, year as u64, 4);
    }
    text.append("-");
    push_padded(&mut text, month as u64, 2);
    assert(text@ =~= month_label_spec((year, month)));
    text
}

impl Engine {
    /// What the tenant invoiced in all, or, where `paid` holds, what it
    /// collected in all.
    pub fn invoice_total(&self, tenant_id: u128, paid: bool) -> (r: Option<Decimal>)
        ensures
            r == invoice_total(self.accounting.invoices@, tenant_id, paid),
    {
        let invoices = &self.accounting.invoices;
        let mut total = Decimal::zero();
        let mut k: usize = 0;
        while k < invoices.len()
            invariant
                *invoices == self.accounting.invoices,
                k <= invoices.len(),
                invoice_total(invoices@.take(k as int), tenant_id, paid) == Some(total),
            decreases invoices.len() - k,
        {
            assert(invoices@.take(k as int + 1).drop_last() =~= invoices@.take(k as int));
            let invoice = &invoices[k];
            if invoice.tenant_id == tenant_id {
                let amount = if paid {
                    invoice.amount_paid
                } else {
                    invoice.total_amount
                };
                match total.checked_add(amount) {
                    Some(sum) => {
                        total = sum;
                    },
                    None => {
                        proof {
                            lemma_invoice_total_none_extends(
                                invoices@,
                                tenant_id,
                                paid,
                                k as int + 1,
                            );
                        }
                        return None;
                    },
                }
            }
            k += 1;
        }
        assert(invoices@.take(k as int) =~= invoices@);
        Some(total)
    }

    /// How many invoices the tenant has.
    pub fn invoice_count(&self, tenant_id: u128) -> (r: usize)
        ensures
            r == invoice_count(self.accounting.invoices@, tenant_id),
    {
        let invoices = &self.accounting.invoices;
        let mut count: usize = 0;
        let mut k: usize = 0;
        while k < invoices.len()
            invariant
                k <= invoices.len(),
                count <= k,
                count == invoice_count(invoices@.take(k as int), tenant_id),
            decreases invoices.len() - k,
        {
            assert(invoices@.take(k as int + 1).drop_last() =~= invoices@.take(k as int));
            if invoices[k].tenant_id == tenant_id {
                count += 1;
            }
            k += 1;
        }
        assert(invoices@.take(k as int) =~= invoices@);
        count
    }

    /// The figures of the months in which the tenant has invoices, the
    /// latest first; `None` where a month's revenue leaves the range of a
    /// decimal.
    fn month_figures(&self, tenant_id: u128) -> (r: Option<Vec<MonthFigures>>)
        ensures
            match r {
                Some(figures) => months_defined(self.accounting.invoices@, tenant_id)
                    && are_figures(figures@, self.accounting.invoices@, tenant_id),
                None => !months_defined(self.accounting.invoices@, tenant_id),
            },
    {
        let invoices = &self.accounting.invoices;
        let mut figures: Vec<MonthFigures> = Vec::new();
        let mut k: usize = 0;
        proof {
            assert(invoices@.take(0) =~= Seq::<Invoice>::empty());
            assert(figure_months(figures@) =~= Seq::<(i32, u32)>::empty());
        }
        while k < invoices.len()
            invariant
                *invoices == self.accounting.invoices,
                k <= invoices.len(),
                are_figures(figures@, invoices@.take(k as int), tenant_id),
                forall|i: int| 0 <= i < figures.len() ==> (#[trigger] figures[i]).count <= k,
            decreases invoices.len() - k,
        {
            let ghost before = invoices@.take(k as int);
            let ghost after = invoices@.take(k as int + 1);
            let ghost months = figure_months(figures@);
            let invoice = &invoices[k];
            proof {
                assert(after.drop_last() =~= before);
                assert(after.last() == invoices@[k as int]);
                assert forall|j: int| 0 <= j < before.len() implies before[j] == after[j] by {}
            }
            if invoice.tenant_id == tenant_id {
                let year = invoice.date.year();
                let month = invoice.date.month();
                let ghost this = (year, month);
                let mut place: usize = 0;
                while place < figures.len() && (figures[place].year > year || (figures[place].year
                    == year && figures[place].month > month))
                    invariant
                        place <= figures.len(),
                        this == (year, month),
                        months == figure_months(figures@),
                        forall|i: int| 0 <= i < place ==> later(months[i], this),
                    decreases figures.len() - place,
                {
                    assert(months[place as int] == (figures[place as int].year, figures[place as int].month));
                    place += 1;
                }
                proof {
                    if place < figures.len() {
                        assert(months[place as int] == (
                            figures[place as int].year,
                            figures[place as int].month,
                        ));
                    }
                    lemma_insert_month(months, this, place as int);
                }
                if place < figures.len() && figures[place].year == year && figures[place].month
                    == month {
                    let revenue = match figures[place].revenue.checked_add(invoice.total_amount) {
                        Some(sum) => sum,
                        None => {
                            proof {
                                assert(month_revenue(after, tenant_id, this) is None);
                                lemma_month_revenue_none_extends(
                                    invoices@,
                                    tenant_id,
                                    this,
                                    k as int + 1,
                                );
                                assert(invoices@[k as int].tenant_id == tenant_id);
                            }
                            return None;
                        },
                    };
                    let ghost figures_before = figures@;
                    figures[place].revenue = revenue;
                    figures[place].count = figures[place].count + 1;
                    proof {
                        assert(figure_months(figures@) =~= months);
                        assert forall|i: int| 0 <= i < figures.len() implies {
                            &&& month_revenue(
                                after,
                                tenant_id,
                                ((#[trigger] figures[i]).year, figures[i].month),
                            ) == Some(figures[i].revenue)
                            &&& month_count(after, tenant_id, (figures[i].year, figures[i].month))
                                == figures[i].count
                        } by {
                            assert(months[i] == (figures_before[i].year, figures_before[i].month));
                            if i != place {
                                assert(figures[i] == figures_before[i]);
                                assert(months[i] != this) by {
                                    if i < place {
                                        assert(later(months[i], months[place as int]));
                                    } else {
                                        assert(later(months[place as int], months[i]));
                                    }
                                }
                            }
                        }
                        assert forall|j: int|
                            0 <= j < after.len() && (#[trigger] after[j]).tenant_id
                                == tenant_id implies figure_months(figures@).contains(
                            month_of(after[j]),
                        ) by {
                            if j < before.len() {
                                assert(before[j] == after[j]);
                            } else {
                                assert(months[place as int] == this);
                            }
                        }
                    }
                } else {
                    let first = match Decimal::zero().checked_add(invoice.total_amount) {
                        Some(sum) => sum,
                        None => {
                            proof {
                                assert(!months.contains(this)) by {
                                    if months.contains(this) {
                                        let at = choose|at: int|
                                            0 <= at < months.len() && months[at] == this;
                                        if at < place {
                                            assert(later(months[at], this));
                                        } else if at > place {
                                            assert(later(months[place as int], months[at]));
                                        }
                                    }
                                }
                                assert forall|j: int| 0 <= j < before.len() implies !in_month(
                                    before[j],
                                    tenant_id,
                                    this,
                                ) by {
                                    if in_month(before[j], tenant_id, this) {
                                        assert(months.contains(month_of(before[j])));
                                    }
                                }
                                lemma_month_without_invoices(before, tenant_id, this);
                                assert(month_revenue(after, tenant_id, this) is None);
                                lemma_month_revenue_none_extends(
                                    invoices@,
                                    tenant_id,
                                    this,
                                    k as int + 1,
                                );
                                assert(invoices@[k as int].tenant_id == tenant_id);
                            }
                            return None;
                        },
                    };
                    let ghost figures_before = figures@;
                    figures.insert(place, MonthFigures { year, month, revenue: first, count: 1 });
                    proof {
                        assert(!months.contains(this)) by {
                            if months.contains(this) {
                                let at = choose|at: int|
                                    0 <= at < months.len() && months[at] == this;
                                if at < place {
                                    assert(later(months[at], this));
                                } else if at > place {
                                    assert(later(months[place as int], months[at]));
                                }
                            }
                        }
                        assert forall|j: int| 0 <= j < before.len() implies !in_month(
                            before[j],
                            tenant_id,
                            this,
                        ) by {
                            if in_month(before[j], tenant_id, this) {
                                assert(months.contains(month_of(before[j])));
                            }
                        }
                        lemma_month_without_invoices(before, tenant_id, this);
                        let new_months = figure_months(figures@);
                        assert(new_months =~= months.insert(place as int, this));
                        assert forall|i: int, j: int|
                            0 <= i < j < new_months.len() implies later(
                            new_months[i],
                            new_months[j],
                        ) by {
                            if j < place {
                                assert(later(months[i], months[j]));
                            } else if j == place {
                                assert(later(months[i], this));
                            } else if i < place {
                                assert(later(months[i], months[j - 1]));
                            } else if i == place {
                                assert(months[j - 1] != this) by {
                                    assert(months.contains(months[j - 1]));
                                }
                                if j - 1 > place {
                                    assert(later(months[place as int], months[j - 1]));
                                }
                            } else {
                                assert(later(months[i - 1], months[j - 1]));
                            }
                        }
                        assert forall|i: int| 0 <= i < figures.len() implies {
                            &&& month_revenue(
                                after,
                                tenant_id,
                                ((#[trigger] figures[i]).year, figures[i].month),
                            ) == Some(figures[i].revenue)
                            &&& month_count(after, tenant_id, (figures[i].year, figures[i].month))
                                == figures[i].count
                        } by {
                            if i < place {
                                assert(figures[i] == figures_before[i]);
                                assert(months[i] == (figures_before[i].year, figures_before[i].month));
                                assert(months.contains(months[i]));
                            } else if i > place {
                                assert(figures[i] == figures_before[i - 1]);
                                assert(months[i - 1] == (
                                    figures_before[i - 1].year,
                                    figures_before[i - 1].month,
                                ));
                                assert(months.contains(months[i - 1]));
                            }
                        }
                        assert forall|j: int|
                            0 <= j < after.len() && (#[trigger] after[j]).tenant_id
                                == tenant_id implies new_months.contains(month_of(after[j])) by {
                            if j < before.len() {
                                assert(before[j] == after[j]);
                                let at = choose|at: int|
                                    0 <= at < months.len() && months[at] == month_of(before[j]);
                                if at < place {
                                    assert(new_months[at] == months[at]);
                                } else {
                                    assert(new_months[at + 1] == months[at]);
                                }
                            } else {
                                assert(new_months[place as int] == this);
                            }
                        }
                        assert forall|i: int| 0 <= i < figures.len() implies (
                        #[trigger] figures[i]).count <= k + 1 by {
                            if i < place {
                                assert(figures[i] == figures_before[i]);
                            } else if i > place {
                                assert(figures[i] == figures_before[i - 1]);
                            }
                        }
                    }
                }
            }
            k += 1;
        }
        proof {
            assert(invoices@.take(k as int) =~= invoices@);
            assert forall|i: int|
                0 <= i < invoices@.len() && (#[trigger] invoices@[i]).tenant_id
                    == tenant_id implies month_revenue(
                invoices@,
                tenant_id,
                month_of(invoices@[i]),
            ) is Some by {
                let months = figure_months(figures@);
                let at = choose|at: int|
                    0 <= at < months.len() && months[at] == month_of(invoices@[i]);
                assert(months[at] == (figures@[at].year, figures@[at].month));
            }
        }
        Some(figures)
    }

    /// Whether the sales summary of the tenant can be had: every figure
    /// stays in the range of a decimal, and the invoices can be counted.
    pub open spec fn summary_defined(&self, tenant_id: u128) -> bool {
        let invoices = self.accounting.invoices@;
        &&& invoices.len() <= i64::MAX
        &&& months_defined(invoices, tenant_id)
        &&& invoice_total(invoices, tenant_id, false) is Some
        &&& invoice_total(invoices, tenant_id, true) is Some
        &&& sales_figures(
            invoice_total(invoices, tenant_id, false)->Some_0,
            invoice_total(invoices, tenant_id, true)->Some_0,
            invoice_count(invoices, tenant_id) as i64,
        ) is Some
    }

    /// The figures of the tenant's latest months.
    pub fn monthly_sales(&self, tenant_id: u128) -> (r: Result<Vec<MonthlySales>, Error>)
        ensures
            self.accounting.invoices@.len() <= i64::MAX && months_defined(
                self.accounting.invoices@,
                tenant_id,
            ) ==> r is Ok && is_monthly(r->Ok_0@, self.accounting.invoices@, tenant_id),
            !(self.accounting.invoices@.len() <= i64::MAX && months_defined(
                self.accounting.invoices@,
                tenant_id,
            )) ==> r is Err && r->Err_0@ == ErrorView::out_of_range(),
    {
        if self.accounting.invoices.len() as u64 > i64::MAX as u64 {
            return Err(Error::out_of_range());
        }
        let figures = match self.month_figures(tenant_id) {
            Some(figures) => figures,
            None => {
                return Err(Error::out_of_range());
            },
        };
        let ghost invoices = self.accounting.invoices@;
        let ghost months = months_of(invoices, tenant_id);
        let listed = if figures.len() <= MONTHS_LISTED {
            figures.len()
        } else {
            MONTHS_LISTED
        };
        let mut rows: Vec<MonthlySales> = Vec::new();
        let mut i: usize = 0;
        while i < listed
            invariant
                i <= listed,
                listed <= figures.len(),
                invoices == self.accounting.invoices@,
                invoices.len() <= i64::MAX,
                months == months_of(invoices, tenant_id),
                are_figures(figures@, invoices, tenant_id),
                rows@.len() == i,
                forall|j: int|
                    0 <= j < i ==> {
                        &&& (#[trigger] rows@[j]).month@ == month_label_spec(months[j])
                        &&& month_revenue(invoices, tenant_id, months[j]) == Some(rows@[j].revenue)
                        &&& rows@[j].count == month_count(invoices, tenant_id, months[j])
                    },
            decreases listed - i,
        {
            let figure = &figures[i];
            proof {
                assert(months[i as int] == (figures@[i as int].year, figures@[i as int].month));
                lemma_counts_bounded(invoices, tenant_id, months[i as int]);
            }
            rows.push(
                MonthlySales {
                    month: month_label(figure.year, figure.month),
                    revenue: figure.revenue,
                    count: figure.count as i64,
                },
            );
            i += 1;
        }
        assert(figure_months(figures@).len() == figures@.len());
        Ok(rows)
    }

    /// The tenant's sales summary: what was invoiced and what was
    /// collected over all its invoices, what is outstanding, invoiced less
    /// collected, the number of invoices, the average invoice, invoiced
    /// divided by that number and zero where there is no invoice, and the
    /// figures of the latest twelve months in which there are invoices.
    pub fn sales_summary(&self, tenant_id: u128) -> (r: Result<SalesSummary, Error>)
        ensures
            self.summary_defined(tenant_id) ==> {
                let invoices = self.accounting.invoices@;
                let figures = sales_figures(
                    invoice_total(invoices, tenant_id, false)->Some_0,
                    invoice_total(invoices, tenant_id, true)->Some_0,
                    invoice_count(invoices, tenant_id) as i64,
                )->Some_0;
                &&& r is Ok
                &&& Some(r->Ok_0.total_invoiced) == invoice_total(invoices, tenant_id, false)
                &&& Some(r->Ok_0.total_collected) == invoice_total(invoices, tenant_id, true)
                &&& r->Ok_0.outstanding == figures.outstanding
                &&& r->Ok_0.invoice_count == invoice_count(invoices, tenant_id)
                &&& r->Ok_0.avg_invoice == figures.avg_invoice
                &&& is_monthly(r->Ok_0.monthly@, invoices, tenant_id)
            },
            !self.summary_defined(tenant_id) ==> r is Err && r->Err_0@ == ErrorView::out_of_range(),
    {
        let monthly = match self.monthly_sales(tenant_id) {
            Ok(monthly) => monthly,
            Err(e) => {
                return Err(e);
            },
        };
        let total_invoiced = match self.invoice_total(tenant_id, false) {
            Some(total) => total,
            None => {
                return Err(Error::out_of_range());
            },
        };
        let total_collected = match self.invoice_total(tenant_id, true) {
            Some(total) => total,
            None => {
                return Err(Error::out_of_range());
            },
        };
        let count = self.invoice_count(tenant_id);
        proof {
            lemma_counts_bounded(self.accounting.invoices@, tenant_id, (0, 0));
        }
        sales_summary(total_invoiced, total_collected, count as i64, monthly)
    }
}


/// Where a month belongs among months in order: before the first that is
/// not later than it.
pub open spec fn month_place(months: Seq<(i32, u32)>, month: (i32, u32)) -> int
    decreases months.len(),
{
    if months.len() == 0 {
        0
    } else if later(months.last(), month) {
        months.len() as int
    } else {
        month_place(months.drop_last(), month)
    }
}

/// Among months in order, all before the place of a month are later than
/// it, and the one at its place is not.
pub proof fn lemma_month_place(months: Seq<(i32, u32)>, month: (i32, u32))
    requires
        latest_first(months),
    ensures
        0 <= month_place(months, month) <= months.len(),
        forall|i: int| 0 <= i < month_place(months, month) ==> later(months[i], month),
        month_place(months, month) < months.len() ==> !later(
            months[month_place(months, month)],
            month,
        ),
    decreases months.len(),
{
    if months.len() > 0 {
        let last = months.len() - 1;
        if later(months.last(), month) {
            assert forall|i: int| 0 <= i < months.len() implies later(months[i], month) by {
                if i < last {
                    assert(later(months[i], months[last]));
                }
            }
        } else {
            let front = months.drop_last();
            assert(latest_first(front));
            lemma_month_place(front, month);
            let place = month_place(front, month);
            assert forall|i: int| 0 <= i < place implies later(months[i], month) by {
                assert(front[i] == months[i]);
            }
            if place == front.len() {
                assert(!later(months[place], month));
            } else {
                assert(front[place] == months[place]);
            }
        }
    }
}

/// The months in which a tenant has invoices stand in order, the latest
/// first and none twice; each is the month of one of the tenant's
/// invoices, and the month of each of the tenant's invoices is among
/// them.
pub proof fn lemma_months_of(invoices: Seq<Invoice>, tenant_id: u128)
    ensures
        latest_first(months_of(invoices, tenant_id)),
        forall|j: int|
            0 <= j < invoices.len() && (#[trigger] invoices[j]).tenant_id == tenant_id ==> months_of(
                invoices,
                tenant_id,
            ).contains(month_of(invoices[j])),
        forall|a: int|
            0 <= a < months_of(invoices, tenant_id).len() ==> exists|j: int|
                0 <= j < invoices.len() && in_month(
                    invoices[j],
                    tenant_id,
                    #[trigger] months_of(invoices, tenant_id)[a],
                ),
    decreases invoices.len(),
{
    if invoices.len() > 0 {
        let front = invoices.drop_last();
        lemma_months_of(front, tenant_id);
        let months = months_of(front, tenant_id);
        let all = months_of(invoices, tenant_id);
        let last = invoices.last();
        assert forall|j: int| 0 <= j < front.len() implies front[j] == invoices[j] by {}
        if last.tenant_id == tenant_id {
            let month = month_of(last);
            lemma_month_place(months, month);
            let place = month_place(months, month);
            lemma_insert_month(months, month, place);
            if place < months.len() && months[place] == month {
                assert(all == months);
                assert forall|j: int|
                    0 <= j < invoices.len() && (#[trigger] invoices[j]).tenant_id
                        == tenant_id implies all.contains(month_of(invoices[j])) by {
                    if j < front.len() {
                        assert(front[j] == invoices[j]);
                    } else {
                        assert(all[place] == month);
                    }
                }
                assert forall|a: int| 0 <= a < all.len() implies exists|j: int|
                    0 <= j < invoices.len() && in_month(
                        invoices[j],
                        tenant_id,
                        #[trigger] all[a],
                    ) by {
                    let j = choose|j: int|
                        0 <= j < front.len() && in_month(front[j], tenant_id, months[a]);
                    assert(in_month(invoices[j], tenant_id, all[a]));
                }
            } else {
                assert(all == months.insert(place, month));
                assert(!months.contains(month)) by {
                    if months.contains(month) {
                        let at = choose|at: int| 0 <= at < months.len() && months[at] == month;
                        if at < place {
                            assert(later(months[at], month));
                        } else if at > place {
                            assert(later(months[place], months[at]));
                        }
                    }
                }
                assert forall|i: int, j: int| 0 <= i < j < all.len() implies later(
                    all[i],
                    all[j],
                ) by {
                    if j < place {
                        assert(later(months[i], months[j]));
                    } else if j == place {
                        assert(later(months[i], month));
                    } else if i < place {
                        assert(later(months[i], months[j - 1]));
                    } else if i == place {
                        assert(months.contains(months[j - 1]));
                        if j - 1 > place {
                            assert(later(months[place], months[j - 1]));
                        }
                    } else {
                        assert(later(months[i - 1], months[j - 1]));
                    }
                }
                assert forall|j: int|
                    0 <= j < invoices.len() && (#[trigger] invoices[j]).tenant_id
                        == tenant_id implies all.contains(month_of(invoices[j])) by {
                    if j < front.len() {
                        assert(front[j] == invoices[j]);
                        let at = choose|at: int|
                            0 <= at < months.len() && months[at] == month_of(front[j]);
                        if at < place {
                            assert(all[at] == months[at]);
                        } else {
                            assert(all[at + 1] == months[at]);
                        }
                    } else {
                        assert(all[place] == month);
                    }
                }
                assert forall|a: int| 0 <= a < all.len() implies exists|j: int|
                    0 <= j < invoices.len() && in_month(
                        invoices[j],
                        tenant_id,
                        #[trigger] all[a],
                    ) by {
                    if a < place {
                        let j = choose|j: int|
                            0 <= j < front.len() && in_month(front[j], tenant_id, months[a]);
                        assert(in_month(invoices[j], tenant_id, all[a]));
                    } else if a == place {
                        assert(in_month(invoices[invoices.len() - 1], tenant_id, all[a]));
                    } else {
                        let j = choose|j: int|
                            0 <= j < front.len() && in_month(front[j], tenant_id, months[a - 1]);
                        assert(in_month(invoices[j], tenant_id, all[a]));
                    }
                }
            }
        } else {
            assert forall|j: int|
                0 <= j < invoices.len() && (#[trigger] invoices[j]).tenant_id
                    == tenant_id implies all.contains(month_of(invoices[j])) by {
                assert(front[j] == invoices[j]);
            }
            assert forall|a: int| 0 <= a < all.len() implies exists|j: int|
                0 <= j < invoices.len() && in_month(invoices[j], tenant_id, #[trigger] all[a]) by {
                let j = choose|j: int|
                    0 <= j < front.len() && in_month(front[j], tenant_id, months[a]);
                assert(in_month(invoices[j], tenant_id, all[a]));
            }
        }
    }
}

} // verus!
