//! The financial reports, worked out from rows that were read in one
//! snapshot. Nothing here changes anything: a report is a function of its
//! rows.
//!
//! All sums are running sums from zero in the order of the rows. A report
//! whose figures leave the range of a decimal is refused.
use crate::date::Date;
use crate::decimal::{sum_spec, Decimal};
use crate::error::{Error, ErrorView};
use crate::models::chart_of_accounts::{debit_normal, is_debit_normal};
use crate::models::reports::{
    AgingLine, AgingReport, BalanceSheet, GeneralLedger, GeneralLedgerEntry, MonthlySales,
    ProfitAndLoss, ReportLine, ReportLineView, SalesSummary, TrialBalance, TrialBalanceLine,
    TrialBalanceLineView,
};
use crate::order::{
    arrange, key_le, keys_of, lemma_sort_order, lemma_sorted, name_key, sort_order,
    sort_rows, SortKey, SortKeyView, Sortable,
};
use vstd::prelude::*;
use vstd::string::*;
use vstd::utf8::encode_utf8;

verus! {

/// An active account as the trial balance reads it.
#[derive(Debug, PartialEq)]
pub struct AccountBalance {
    pub account_number: String,
    pub name: String,
    pub account_type: String,
    pub balance: Decimal,
}

/// A line of the journal as the general ledger reads it, with the date of
/// its entry and the number and name of its account.
#[derive(Debug, PartialEq)]
pub struct JournalPosting {
    pub date: Date,
    pub account_number: String,
    pub account_name: String,
    pub description: String,
    pub debit: Decimal,
    pub credit: Decimal,
}

/// An [`AccountBalance`] with its texts as characters.
pub struct AccountBalanceView {
    pub account_number: Seq<char>,
    pub name: Seq<char>,
    pub account_type: Seq<char>,
    pub balance: Decimal,
}

impl View for AccountBalance {
    type V = AccountBalanceView;

    open spec fn view(&self) -> AccountBalanceView {
        AccountBalanceView {
            account_number: self.account_number@,
            name: self.name@,
            account_type: self.account_type@,
            balance: self.balance,
        }
    }
}

/// A [`JournalPosting`] with its texts as characters.
pub struct JournalPostingView {
    pub date: Date,
    pub account_number: Seq<char>,
    pub account_name: Seq<char>,
    pub description: Seq<char>,
    pub debit: Decimal,
    pub credit: Decimal,
}

impl View for JournalPosting {
    type V = JournalPostingView;

    open spec fn view(&self) -> JournalPostingView {
        JournalPostingView {
            date: self.date,
            account_number: self.account_number@,
            account_name: self.account_name@,
            description: self.description@,
            debit: self.debit,
            credit: self.credit,
        }
    }
}

/// The views of the rows, in order.
pub open spec fn views<T: View>(rows: Seq<T>) -> Seq<T::V> {
    rows.map_values(|row: T| row@)
}

/// The sum of the balances of the accounts on one side: of the
/// debit-normal accounts where `debit_side` holds, of the others where it
/// does not.
pub open spec fn side_total(rows: Seq<AccountBalanceView>, debit_side: bool) -> Option<Decimal>
    decreases rows.len(),
{
    if rows.len() == 0 {
        Some(Decimal::zero_spec())
    } else {
        let before = side_total(rows.drop_last(), debit_side);
        if debit_normal(rows.last().account_type) == debit_side {
            match before {
                Some(sum) => sum.add_spec(rows.last().balance),
                None => None,
            }
        } else {
            before
        }
    }
}

/// The line of the trial balance for one account: its balance stands in
/// the column of its normal side, and zero in the other.
pub open spec fn trial_line_of(row: AccountBalanceView) -> TrialBalanceLineView {
    TrialBalanceLineView {
        account_number: row.account_number,
        account_name: row.name,
        account_type: row.account_type,
        debit: if debit_normal(row.account_type) {
            row.balance
        } else {
            Decimal::zero_spec()
        },
        credit: if debit_normal(row.account_type) {
            Decimal::zero_spec()
        } else {
            row.balance
        },
    }
}

/// The lines of the trial balance, one for each account, in order.
pub open spec fn trial_lines(rows: Seq<AccountBalanceView>) -> Seq<TrialBalanceLineView> {
    rows.map_values(|row: AccountBalanceView| trial_line_of(row))
}

/// Once a column's sum has left the range of a decimal, it stays out.
pub proof fn lemma_side_total_none_extends(rows: Seq<AccountBalanceView>, debit_side: bool, n: int)
    requires
        0 <= n <= rows.len(),
        side_total(rows.take(n), debit_side) is None,
    ensures
        side_total(rows, debit_side) is None,
    decreases rows.len() - n,
{
    if n < rows.len() {
        assert(rows.take(n + 1).drop_last() =~= rows.take(n));
        lemma_side_total_none_extends(rows, debit_side, n + 1);
    } else {
        assert(rows.take(n) =~= rows);
    }
}

/// The trial balance of the given accounts: each balance in the column of
/// its account's normal side, and the sum of each column.
pub fn trial_balance(rows: &Vec<AccountBalance>) -> (r: Result<TrialBalance, Error>)
    ensures
        match (side_total(views(rows@), true), side_total(views(rows@), false)) {
            (Some(debits), Some(credits)) => {
                &&& r is Ok
                &&& views(r->Ok_0.lines@) == trial_lines(views(rows@))
                &&& r->Ok_0.total_debits == debits
                &&& r->Ok_0.total_credits == credits
            },
            _ => r is Err && r->Err_0@ == ErrorView::out_of_range(),
        },
{
    let mut lines: Vec<TrialBalanceLine> = Vec::new();
    let mut total_debits = Decimal::zero();
    let mut total_credits = Decimal::zero();
    let mut i: usize = 0;
    while i < rows.len()
        invariant
            i <= rows.len(),
            views(lines@) == trial_lines(views(rows@)).take(i as int),
            side_total(views(rows@).take(i as int), true) == Some(total_debits),
            side_total(views(rows@).take(i as int), false) == Some(total_credits),
        decreases rows.len() - i,
    {
        assert(views(rows@).take(i as int + 1).drop_last() =~= views(rows@).take(i as int));
        assert(views(rows@)[i as int] == rows@[i as int]@);
        let row = &rows[i];
        let balance = row.balance;
        let on_debit_side = is_debit_normal(row.account_type.as_str());
        let sum = if on_debit_side {
            total_debits.checked_add(balance)
        } else {
            total_credits.checked_add(balance)
        };
        let sum = match sum {
            Some(sum) => sum,
            None => {
                proof {
                    lemma_side_total_none_extends(views(rows@), on_debit_side, i as int + 1);
                }
                return Err(Error::out_of_range());
            },
        };
        let line = if on_debit_side {
            total_debits = sum;
            TrialBalanceLine {
                account_number: row.account_number.clone(),
                account_name: row.name.clone(),
                account_type: row.account_type.clone(),
                debit: balance,
                credit: Decimal::zero(),
            }
        } else {
            total_credits = sum;
            TrialBalanceLine {
                account_number: row.account_number.clone(),
                account_name: row.name.clone(),
                account_type: row.account_type.clone(),
                debit: Decimal::zero(),
                credit: balance,
            }
        };
        assert(line@ == trial_lines(views(rows@))[i as int]);
        proof {
            let all = trial_lines(views(rows@));
            assert(views(lines@.push(line)) =~= views(lines@).push(line@));
            assert(all.take(i as int).push(all[i as int]) =~= all.take(i as int + 1));
        }
        lines.push(line);
        i += 1;
    }
    assert(views(rows@).take(i as int) =~= views(rows@));
    assert(trial_lines(views(rows@)).take(i as int) =~= trial_lines(views(rows@)));
    Ok(TrialBalance { lines, total_debits, total_credits })
}

/// The amounts of the lines, in order.
pub open spec fn amounts(lines: Seq<ReportLine>) -> Seq<Decimal> {
    lines.map_values(|line: ReportLine| line.amount)
}

/// The amounts of the lines, in order.
pub open spec fn view_amounts(lines: Seq<ReportLineView>) -> Seq<Decimal> {
    lines.map_values(|line: ReportLineView| line.amount)
}

/// The sum of the lines' amounts.
pub fn total_amount(lines: &Vec<ReportLine>) -> (r: Option<Decimal>)
    ensures
        r == sum_spec(amounts(lines@)),
{
    let mut total = Decimal::zero();
    let mut i: usize = 0;
    while i < lines.len()
        invariant
            i <= lines.len(),
            sum_spec(amounts(lines@).take(i as int)) == Some(total),
        decreases lines.len() - i,
    {
        assert(amounts(lines@).take(i as int + 1).drop_last() =~= amounts(lines@).take(i as int));
        match total.checked_add(lines[i].amount) {
            Some(sum) => {
                total = sum;
            },
            None => {
                proof {
                    crate::decimal::lemma_sum_none_extends(amounts(lines@), i as int + 1);
                }
                return None;
            },
        }
        i += 1;
    }
    assert(amounts(lines@).take(i as int) =~= amounts(lines@));
    Some(total)
}

/// The figures of a profit and loss statement.
pub struct ProfitFigures {
    pub total_income: Decimal,
    pub total_cogs: Decimal,
    pub gross_profit: Decimal,
    pub total_expenses: Decimal,
    pub net_income: Decimal,
}

/// The figures of the profit and loss statement over the given amounts
/// of income, of cost of goods sold and of expenses: the three totals,
/// gross profit as total income less total cost of goods sold, and net
/// income as gross profit less total expenses.
pub open spec fn profit_figures(
    income: Seq<Decimal>,
    cogs: Seq<Decimal>,
    expenses: Seq<Decimal>,
) -> Option<ProfitFigures> {
    match (sum_spec(income), sum_spec(cogs), sum_spec(expenses)) {
        (Some(total_income), Some(total_cogs), Some(total_expenses)) => match total_income.sub_spec(
            total_cogs,
        ) {
            Some(gross_profit) => match gross_profit.sub_spec(total_expenses) {
                Some(net_income) => Some(
                    ProfitFigures {
                        total_income,
                        total_cogs,
                        gross_profit,
                        total_expenses,
                        net_income,
                    },
                ),
                None => None,
            },
            None => None,
        },
        _ => None,
    }
}

/// The profit and loss statement over the accounts of income, of cost of
/// goods sold and of expenses.
pub fn profit_and_loss(income: Vec<ReportLine>, cogs: Vec<ReportLine>, expenses: Vec<ReportLine>) -> (r:
    Result<ProfitAndLoss, Error>)
    ensures
        match profit_figures(amounts(income@), amounts(cogs@), amounts(expenses@)) {
            Some(figures) => {
                &&& r is Ok
                &&& r->Ok_0.income == income
                &&& r->Ok_0.cogs == cogs
                &&& r->Ok_0.expenses == expenses
                &&& r->Ok_0.total_income == figures.total_income
                &&& r->Ok_0.total_cogs == figures.total_cogs
                &&& r->Ok_0.gross_profit == figures.gross_profit
                &&& r->Ok_0.total_expenses == figures.total_expenses
                &&& r->Ok_0.net_income == figures.net_income
            },
            None => r is Err && r->Err_0@ == ErrorView::out_of_range(),
        },
{
    let total_income = match total_amount(&income) {
        Some(total) => total,
        None => {
            return Err(Error::out_of_range());
        },
    };
    let total_cogs = match total_amount(&cogs) {
        Some(total) => total,
        None => {
            return Err(Error::out_of_range());
        },
    };
    let total_expenses = match total_amount(&expenses) {
        Some(total) => total,
        None => {
            return Err(Error::out_of_range());
        },
    };
    let gross_profit = match total_income.checked_sub(total_cogs) {
        Some(difference) => difference,
        None => {
            return Err(Error::out_of_range());
        },
    };
    let net_income = match gross_profit.checked_sub(total_expenses) {
        Some(difference) => difference,
        None => {
            return Err(Error::out_of_range());
        },
    };
    Ok(
        ProfitAndLoss {
            income,
            cogs,
            expenses,
            total_income,
            total_cogs,
            gross_profit,
            total_expenses,
            net_income,
        },
    )
}

/// The balance sheet over the accounts of assets, of liabilities and of
/// equity: the three totals, nothing asked of how they relate.
pub fn balance_sheet(assets: Vec<ReportLine>, liabilities: Vec<ReportLine>, equity: Vec<ReportLine>) -> (r:
    Result<BalanceSheet, Error>)
    ensures
        match (
            sum_spec(amounts(assets@)),
            sum_spec(amounts(liabilities@)),
            sum_spec(amounts(equity@)),
        ) {
            (Some(total_assets), Some(total_liabilities), Some(total_equity)) => {
                &&& r is Ok
                &&& r->Ok_0.assets == assets
                &&& r->Ok_0.liabilities == liabilities
                &&& r->Ok_0.equity == equity
                &&& r->Ok_0.total_assets == total_assets
                &&& r->Ok_0.total_liabilities == total_liabilities
                &&& r->Ok_0.total_equity == total_equity
            },
            _ => r is Err && r->Err_0@ == ErrorView::out_of_range(),
        },
{
    let total_assets = match total_amount(&assets) {
        Some(total) => total,
        None => {
            return Err(Error::out_of_range());
        },
    };
    let total_liabilities = match total_amount(&liabilities) {
        Some(total) => total,
        None => {
            return Err(Error::out_of_range());
        },
    };
    let total_equity = match total_amount(&equity) {
        Some(total) => total,
        None => {
            return Err(Error::out_of_range());
        },
    };
    Ok(BalanceSheet { assets, liabilities, equity, total_assets, total_liabilities, total_equity })
}

/// The figures of a sales summary.
pub struct SalesFigures {
    pub outstanding: Decimal,
    pub avg_invoice: Decimal,
}

/// What is outstanding, invoiced less collected, and the average invoice,
/// invoiced divided by the number of invoices, zero where there are none.
pub open spec fn sales_figures(
    total_invoiced: Decimal,
    total_collected: Decimal,
    invoice_count: i64,
) -> Option<SalesFigures> {
    match total_invoiced.sub_spec(total_collected) {
        Some(outstanding) => if invoice_count > 0 {
            match total_invoiced.div_spec(Decimal::of(invoice_count as i128, 0)) {
                Some(avg_invoice) => Some(SalesFigures { outstanding, avg_invoice }),
                None => None,
            }
        } else {
            Some(SalesFigures { outstanding, avg_invoice: Decimal::zero_spec() })
        },
        None => None,
    }
}

/// The sales summary from what was invoiced and collected in all, the
/// number of invoices, and the months' figures.
pub fn sales_summary(
    total_invoiced: Decimal,
    total_collected: Decimal,
    invoice_count: i64,
    monthly: Vec<MonthlySales>,
) -> (r: Result<SalesSummary, Error>)
    ensures
        match sales_figures(total_invoiced, total_collected, invoice_count) {
            Some(figures) => {
                &&& r is Ok
                &&& r->Ok_0.total_invoiced == total_invoiced
                &&& r->Ok_0.total_collected == total_collected
                &&& r->Ok_0.outstanding == figures.outstanding
                &&& r->Ok_0.invoice_count == invoice_count
                &&& r->Ok_0.avg_invoice == figures.avg_invoice
                &&& r->Ok_0.monthly == monthly
            },
            None => r is Err && r->Err_0@ == ErrorView::out_of_range(),
        },
{
    let outstanding = match total_invoiced.checked_sub(total_collected) {
        Some(difference) => difference,
        None => {
            return Err(Error::out_of_range());
        },
    };
    let avg_invoice = if invoice_count > 0 {
        match total_invoiced.checked_div(Decimal::from_i64(invoice_count)) {
            Some(quotient) => quotient,
            None => {
                return Err(Error::out_of_range());
            },
        }
    } else {
        Decimal::zero()
    };
    Ok(
        SalesSummary {
            total_invoiced,
            total_collected,
            outstanding,
            invoice_count,
            avg_invoice,
            monthly,
        },
    )
}

/// The debits of the postings, in order.
pub open spec fn debits(rows: Seq<JournalPostingView>) -> Seq<Decimal> {
    rows.map_values(|row: JournalPostingView| row.debit)
}

/// The credits of the postings, in order.
pub open spec fn credits(rows: Seq<JournalPostingView>) -> Seq<Decimal> {
    rows.map_values(|row: JournalPostingView| row.credit)
}

/// The running value of each posting, debit less credit; `None` where one
/// of them leaves the range of a decimal.
pub open spec fn running_values(rows: Seq<JournalPostingView>) -> Option<Seq<Decimal>>
    decreases rows.len(),
{
    if rows.len() == 0 {
        Some(Seq::empty())
    } else {
        match running_values(rows.drop_last()) {
            Some(front) => match rows.last().debit.sub_spec(rows.last().credit) {
                Some(value) => Some(front.push(value)),
                None => None,
            },
            None => None,
        }
    }
}

/// Where the figures come from that the general ledger lists.
pub open spec fn journal_source() -> Seq<char> {
    "Journal Entry"@
}

/// Whether `entry` is the general ledger's entry for the posting `row`
/// with the running value `value`.
pub open spec fn is_ledger_entry(entry: GeneralLedgerEntry, row: JournalPostingView, value: Decimal) -> bool {
    &&& entry.date == row.date
    &&& entry.account_number@ == row.account_number
    &&& entry.account_name@ == row.account_name
    &&& entry.description@ == row.description
    &&& entry.debit == row.debit
    &&& entry.credit == row.credit
    &&& entry.balance == value
    &&& entry.source@ == journal_source()
}

/// Once a running value has left the range of a decimal, the list of them
/// cannot be had.
pub proof fn lemma_running_values_none_extends(rows: Seq<JournalPostingView>, n: int)
    requires
        0 <= n <= rows.len(),
        running_values(rows.take(n)) is None,
    ensures
        running_values(rows) is None,
    decreases rows.len() - n,
{
    if n < rows.len() {
        assert(rows.take(n + 1).drop_last() =~= rows.take(n));
        lemma_running_values_none_extends(rows, n + 1);
    } else {
        assert(rows.take(n) =~= rows);
    }
}

/// There is one running value for each posting.
pub proof fn lemma_running_values_len(rows: Seq<JournalPostingView>)
    requires
        running_values(rows) is Some,
    ensures
        running_values(rows)->Some_0.len() == rows.len(),
    decreases rows.len(),
{
    if rows.len() > 0 {
        lemma_running_values_len(rows.drop_last());
    }
}

/// The general ledger over the given postings, in their order: each with
/// its running value, and the totals of debits and of credits.
pub fn general_ledger(rows: &Vec<JournalPosting>) -> (r: Result<GeneralLedger, Error>)
    ensures
        match (
            sum_spec(debits(views(rows@))),
            sum_spec(credits(views(rows@))),
            running_values(views(rows@)),
        ) {
            (Some(total_debits), Some(total_credits), Some(values)) => {
                &&& r is Ok
                &&& r->Ok_0.total_debits == total_debits
                &&& r->Ok_0.total_credits == total_credits
                &&& r->Ok_0.entries@.len() == rows@.len()
                &&& values.len() == rows@.len()
                &&& forall|i: int|
                    0 <= i < rows@.len() ==> is_ledger_entry(
                        #[trigger] r->Ok_0.entries@[i],
                        rows@[i]@,
                        values[i],
                    )
            },
            _ => r is Err && r->Err_0@ == ErrorView::out_of_range(),
        },
{
    let mut entries: Vec<GeneralLedgerEntry> = Vec::new();
    let mut total_debits = Decimal::zero();
    let mut total_credits = Decimal::zero();
    let ghost mut values: Seq<Decimal> = Seq::empty();
    let mut i: usize = 0;
    while i < rows.len()
        invariant
            i <= rows.len(),
            sum_spec(debits(views(rows@)).take(i as int)) == Some(total_debits),
            sum_spec(credits(views(rows@)).take(i as int)) == Some(total_credits),
            running_values(views(rows@).take(i as int)) == Some(values),
            values.len() == i,
            entries@.len() == i,
            forall|j: int|
                0 <= j < i ==> is_ledger_entry(#[trigger] entries@[j], rows@[j]@, values[j]),
        decreases rows.len() - i,
    {
        proof {
            let all = views(rows@);
            assert(all[i as int] == rows@[i as int]@);
            assert(all.take(i as int + 1).drop_last() =~= all.take(i as int));
            assert(debits(all).take(i as int + 1).drop_last() =~= debits(all).take(i as int));
            assert(credits(all).take(i as int + 1).drop_last() =~= credits(all).take(i as int));
        }
        let row = &rows[i];
        let new_debits = match total_debits.checked_add(row.debit) {
            Some(sum) => sum,
            None => {
                proof {
                    crate::decimal::lemma_sum_none_extends(debits(views(rows@)), i as int + 1);
                }
                return Err(Error::out_of_range());
            },
        };
        let new_credits = match total_credits.checked_add(row.credit) {
            Some(sum) => sum,
            None => {
                proof {
                    crate::decimal::lemma_sum_none_extends(credits(views(rows@)), i as int + 1);
                }
                return Err(Error::out_of_range());
            },
        };
        let balance = match row.debit.checked_sub(row.credit) {
            Some(difference) => difference,
            None => {
                proof {
                    lemma_running_values_none_extends(views(rows@), i as int + 1);
                }
                return Err(Error::out_of_range());
            },
        };
        total_debits = new_debits;
        total_credits = new_credits;
        entries.push(
            GeneralLedgerEntry {
                date: row.date,
                account_number: row.account_number.clone(),
                account_name: row.account_name.clone(),
                description: row.description.clone(),
                debit: row.debit,
                credit: row.credit,
                balance,
                source: String::from_str("Journal Entry"),
            },
        );
        proof {
            values = values.push(balance);
        }
        i += 1;
    }
    proof {
        let all = views(rows@);
        assert(all.take(i as int) =~= all);
        assert(debits(all).take(i as int) =~= debits(all));
        assert(credits(all).take(i as int) =~= credits(all));
    }
    Ok(GeneralLedger { entries, total_debits, total_credits })
}

/// An invoice or a bill that is still owed, as the aging reports read it:
/// with its customer or supplier and their name, and the days that have
/// passed since it fell due.
#[derive(Debug, PartialEq)]
pub struct OpenItem {
    /// The customer or supplier of the item.
    pub party: u128,
    pub name: String,
    pub number: String,
    pub total_amount: Decimal,
    pub amount_paid: Decimal,
    /// Today less the due date, in days; not positive where the item is
    /// not yet due.
    pub days_past: i64,
}

/// An [`OpenItem`] with its texts as characters.
pub struct OpenItemView {
    pub party: u128,
    pub name: Seq<char>,
    pub number: Seq<char>,
    pub total_amount: Decimal,
    pub amount_paid: Decimal,
    pub days_past: i64,
}

impl View for OpenItem {
    type V = OpenItemView;

    open spec fn view(&self) -> OpenItemView {
        OpenItemView {
            party: self.party,
            name: self.name@,
            number: self.number@,
            total_amount: self.total_amount,
            amount_paid: self.amount_paid,
            days_past: self.days_past,
        }
    }
}

/// How long something has been due.
#[derive(Debug, Clone, Copy, PartialEq, Eq, Structural)]
pub enum AgingBucket {
    /// Not yet due, or due today.
    Current,
    /// Due for 1 to 30 days.
    Days1To30,
    /// Due for 31 to 60 days.
    Days31To60,
    /// Due for 61 to 90 days.
    Days61To90,
    /// Due for more than 90 days.
    Over90,
}

/// The bucket for something that fell due `days_past` days ago: the upper
/// bound of each bucket belongs to it.
pub open spec fn bucket_of(days_past: int) -> AgingBucket {
    if days_past <= 0 {
        AgingBucket::Current
    } else if days_past <= 30 {
        AgingBucket::Days1To30
    } else if days_past <= 60 {
        AgingBucket::Days31To60
    } else if days_past <= 90 {
        AgingBucket::Days61To90
    } else {
        AgingBucket::Over90
    }
}

/// The bucket for something that fell due `days_past` days ago.
pub fn aging_bucket(days_past: i64) -> (r: AgingBucket)
    ensures
        r == bucket_of(days_past as int),
{
    if days_past <= 0 {
        AgingBucket::Current
    } else if days_past <= 30 {
        AgingBucket::Days1To30
    } else if days_past <= 60 {
        AgingBucket::Days31To60
    } else if days_past <= 90 {
        AgingBucket::Days61To90
    } else {
        AgingBucket::Over90
    }
}

/// What is still owed on an item: its total less what was paid.
pub open spec fn outstanding(item: OpenItemView) -> Option<Decimal> {
    item.total_amount.sub_spec(item.amount_paid)
}

/// Whether the item counts for the customer or supplier and the bucket
/// asked for; `None` asks for all of them, or all buckets.
pub open spec fn selected(item: OpenItemView, party: Option<u128>, bucket: Option<AgingBucket>) -> bool {
    &&& party matches Some(p) ==> item.party == p
    &&& bucket matches Some(b) ==> bucket_of(item.days_past as int) == b
}

/// What is still owed on the items of the given customer or supplier and
/// in the given bucket, added up from zero in the order of the items.
pub open spec fn aging_sum(
    items: Seq<OpenItemView>,
    party: Option<u128>,
    bucket: Option<AgingBucket>,
) -> Option<Decimal>
    decreases items.len(),
{
    if items.len() == 0 {
        Some(Decimal::zero_spec())
    } else {
        let before = aging_sum(items.drop_last(), party, bucket);
        if selected(items.last(), party, bucket) {
            match (before, outstanding(items.last())) {
                (Some(sum), Some(owed)) => sum.add_spec(owed),
                _ => None,
            }
        } else {
            before
        }
    }
}

/// The customers or suppliers of the items, each once, in the order in
/// which they first occur.
pub open spec fn parties_of(items: Seq<OpenItemView>) -> Seq<u128>
    decreases items.len(),
{
    if items.len() == 0 {
        Seq::empty()
    } else {
        let front = parties_of(items.drop_last());
        if front.contains(items.last().party) {
            front
        } else {
            front.push(items.last().party)
        }
    }
}

/// The name of a customer or supplier: the one on the first of their
/// items.
pub open spec fn name_of(items: Seq<OpenItemView>, party: u128) -> Seq<char>
    decreases items.len(),
{
    if items.len() == 0 {
        Seq::empty()
    } else if parties_of(items.drop_last()).contains(party) {
        name_of(items.drop_last(), party)
    } else if items.last().party == party {
        items.last().name
    } else {
        Seq::empty()
    }
}

/// Whether the figures of `line` are what the items of `party` still owe,
/// by bucket and in all.
pub open spec fn has_aging_sums(line: AgingLine, items: Seq<OpenItemView>, party: u128) -> bool {
    &&& aging_sum(items, Some(party), Some(AgingBucket::Current)) == Some(line.current)
    &&& aging_sum(items, Some(party), Some(AgingBucket::Days1To30)) == Some(line.days_1_30)
    &&& aging_sum(items, Some(party), Some(AgingBucket::Days31To60)) == Some(line.days_31_60)
    &&& aging_sum(items, Some(party), Some(AgingBucket::Days61To90)) == Some(line.days_61_90)
    &&& aging_sum(items, Some(party), Some(AgingBucket::Over90)) == Some(line.over_90)
    &&& aging_sum(items, Some(party), None) == Some(line.total)
}

/// Whether `line` is the line of the aging report for `party`: under
/// their name, what their items still owe. Two customers of one name have
/// a line each.
pub open spec fn is_aging_line(line: AgingLine, items: Seq<OpenItemView>, party: u128) -> bool {
    &&& line.name@ == name_of(items, party)
    &&& has_aging_sums(line, items, party)
}

/// Whether the sums of the line for `party` all stay in the range of a
/// decimal.
pub open spec fn line_defined(items: Seq<OpenItemView>, party: u128) -> bool {
    &&& aging_sum(items, Some(party), Some(AgingBucket::Current)) is Some
    &&& aging_sum(items, Some(party), Some(AgingBucket::Days1To30)) is Some
    &&& aging_sum(items, Some(party), Some(AgingBucket::Days31To60)) is Some
    &&& aging_sum(items, Some(party), Some(AgingBucket::Days61To90)) is Some
    &&& aging_sum(items, Some(party), Some(AgingBucket::Over90)) is Some
    &&& aging_sum(items, Some(party), None) is Some
}

/// The grand total: the five bucket totals added up, the youngest first.
pub open spec fn grand_total_spec(
    current: Decimal,
    days_1_30: Decimal,
    days_31_60: Decimal,
    days_61_90: Decimal,
    over_90: Decimal,
) -> Option<Decimal> {
    match current.add_spec(days_1_30) {
        Some(a) => match a.add_spec(days_31_60) {
            Some(b) => match b.add_spec(days_61_90) {
                Some(c) => c.add_spec(over_90),
                None => None,
            },
            None => None,
        },
        None => None,
    }
}

/// Whether the totals of the aging report over the items are `report`'s.
pub open spec fn has_aging_totals(report: AgingReport, items: Seq<OpenItemView>) -> bool {
    &&& aging_sum(items, None, Some(AgingBucket::Current)) == Some(report.total_current)
    &&& aging_sum(items, None, Some(AgingBucket::Days1To30)) == Some(report.total_1_30)
    &&& aging_sum(items, None, Some(AgingBucket::Days31To60)) == Some(report.total_31_60)
    &&& aging_sum(items, None, Some(AgingBucket::Days61To90)) == Some(report.total_61_90)
    &&& aging_sum(items, None, Some(AgingBucket::Over90)) == Some(report.total_over_90)
    &&& grand_total_spec(
        report.total_current,
        report.total_1_30,
        report.total_31_60,
        report.total_61_90,
        report.total_over_90,
    ) == Some(report.grand_total)
}

/// Whether the totals of the aging report all stay in the range of a
/// decimal.
pub open spec fn totals_defined(items: Seq<OpenItemView>) -> bool {
    match (
        aging_sum(items, None, Some(AgingBucket::Current)),
        aging_sum(items, None, Some(AgingBucket::Days1To30)),
        aging_sum(items, None, Some(AgingBucket::Days31To60)),
        aging_sum(items, None, Some(AgingBucket::Days61To90)),
        aging_sum(items, None, Some(AgingBucket::Over90)),
    ) {
        (Some(a), Some(b), Some(c), Some(d), Some(e)) => grand_total_spec(a, b, c, d, e) is Some,
        _ => false,
    }
}

/// Whether every figure of the aging report over the items stays in the
/// range of a decimal.
pub open spec fn aging_defined(items: Seq<OpenItemView>) -> bool {
    &&& forall|i: int|
        0 <= i < parties_of(items).len() ==> line_defined(items, #[trigger] parties_of(items)[i])
    &&& totals_defined(items)
}

/// Whether `report` is the aging report over the items: one line for each
/// customer or supplier, in the order in which they first occur, and the
/// totals.
pub open spec fn is_aging_report(report: AgingReport, items: Seq<OpenItemView>) -> bool {
    &&& report.lines@.len() == parties_of(items).len()
    &&& forall|i: int|
        0 <= i < report.lines@.len() ==> is_aging_line(
            #[trigger] report.lines@[i],
            items,
            parties_of(items)[i],
        )
    &&& has_aging_totals(report, items)
}

/// Once a sum has left the range of a decimal, it stays out.
pub proof fn lemma_aging_sum_none_extends(
    items: Seq<OpenItemView>,
    party: Option<u128>,
    bucket: Option<AgingBucket>,
    n: int,
)
    requires
        0 <= n <= items.len(),
        aging_sum(items.take(n), party, bucket) is None,
    ensures
        aging_sum(items, party, bucket) is None,
    decreases items.len() - n,
{
    if n < items.len() {
        assert(items.take(n + 1).drop_last() =~= items.take(n));
        lemma_aging_sum_none_extends(items, party, bucket, n + 1);
    } else {
        assert(items.take(n) =~= items);
    }
}

/// Every item's customer or supplier is among those listed, and none is
/// listed twice.
pub proof fn lemma_parties_of(items: Seq<OpenItemView>)
    ensures
        forall|j: int| 0 <= j < items.len() ==> parties_of(items).contains(#[trigger] items[j].party),
        forall|a: int, b: int|
            0 <= a < b < parties_of(items).len() ==> parties_of(items)[a] != parties_of(items)[b],
        forall|a: int|
            0 <= a < parties_of(items).len() ==> exists|j: int|
                0 <= j < items.len() && items[j].party == #[trigger] parties_of(items)[a],
    decreases items.len(),
{
    if items.len() > 0 {
        let front = items.drop_last();
        lemma_parties_of(front);
        let names = parties_of(front);
        let all = parties_of(items);
        let last = items.last().party;
        assert forall|j: int| 0 <= j < items.len() implies all.contains(
            #[trigger] items[j].party,
        ) by {
            if j < front.len() {
                assert(front[j] == items[j]);
                assert(names.contains(front[j].party));
                let at = choose|at: int| 0 <= at < names.len() && names[at] == front[j].party;
                assert(all[at] == front[j].party);
            } else {
                if names.contains(last) {
                } else {
                    assert(all[names.len() as int] == last);
                }
            }
        }
        assert forall|a: int| 0 <= a < all.len() implies exists|j: int|
            0 <= j < items.len() && items[j].party == #[trigger] all[a] by {
            if a < names.len() {
                let j = choose|j: int| 0 <= j < front.len() && front[j].party == names[a];
                assert(items[j].party == all[a]);
            } else {
                assert(items[items.len() - 1].party == all[a]);
            }
        }
    }
}

/// Nothing is owed by a customer, or to a supplier, that is on no item.
pub proof fn lemma_aging_sum_absent(items: Seq<OpenItemView>, party: u128, bucket: Option<AgingBucket>)
    requires
        forall|j: int| 0 <= j < items.len() ==> items[j].party != party,
    ensures
        aging_sum(items, Some(party), bucket) == Some(Decimal::zero_spec()),
    decreases items.len(),
{
    if items.len() > 0 {
        let front = items.drop_last();
        assert forall|j: int| 0 <= j < front.len() implies front[j].party != party by {
            assert(front[j] == items[j]);
        }
        lemma_aging_sum_absent(front, party, bucket);
        assert(items.last() == items[items.len() - 1]);
    }
}

/// Where the given customer or supplier stands among those listed.
fn line_position(parties: &Vec<u128>, party: u128) -> (r: Option<usize>)
    ensures
        match r {
            Some(j) => j < parties.len() && parties[j as int] == party,
            None => forall|m: int| 0 <= m < parties.len() ==> parties[m] != party,
        },
{
    let mut j: usize = 0;
    while j < parties.len()
        invariant
            j <= parties.len(),
            forall|m: int| 0 <= m < j ==> parties[m] != party,
        decreases parties.len() - j,
    {
        if parties[j] == party {
            return Some(j);
        }
        j += 1;
    }
    None
}

/// The aging report over the given open items: what each customer or
/// supplier still owes or is owed, by the age of the debt, and the totals
/// over all of them.
pub fn aging_report(items: &Vec<OpenItem>) -> (r: Result<AgingReport, Error>)
    ensures
        aging_defined(views(items@)) ==> r is Ok && is_aging_report(r->Ok_0, views(items@)),
        r is Ok && items_by_name(views(items@)) ==> lines_by_name(r->Ok_0.lines@),
        !aging_defined(views(items@)) ==> r is Err && r->Err_0@ == ErrorView::out_of_range(),
{
    let mut lines: Vec<AgingLine> = Vec::new();
    let mut parties: Vec<u128> = Vec::new();
    let mut total_current = Decimal::zero();
    let mut total_1_30 = Decimal::zero();
    let mut total_31_60 = Decimal::zero();
    let mut total_61_90 = Decimal::zero();
    let mut total_over_90 = Decimal::zero();
    let mut k: usize = 0;
    while k < items.len()
        invariant
            k <= items.len(),
            parties@ == parties_of(views(items@).take(k as int)),
            lines@.len() == parties@.len(),
            forall|i: int|
                0 <= i < lines@.len() ==> is_aging_line(
                    #[trigger] lines@[i],
                    views(items@).take(k as int),
                    parties_of(views(items@).take(k as int))[i],
                ),
            aging_sum(views(items@).take(k as int), None, Some(AgingBucket::Current)) == Some(
                total_current,
            ),
            aging_sum(views(items@).take(k as int), None, Some(AgingBucket::Days1To30)) == Some(
                total_1_30,
            ),
            aging_sum(views(items@).take(k as int), None, Some(AgingBucket::Days31To60)) == Some(
                total_31_60,
            ),
            aging_sum(views(items@).take(k as int), None, Some(AgingBucket::Days61To90)) == Some(
                total_61_90,
            ),
            aging_sum(views(items@).take(k as int), None, Some(AgingBucket::Over90)) == Some(
                total_over_90,
            ),
        decreases items.len() - k,
    {
        let ghost before = views(items@).take(k as int);
        let ghost after = views(items@).take(k as int + 1);
        let ghost names = parties_of(before);
        let item = &items[k];
        let ghost party = item.party;
        let bucket = aging_bucket(item.days_past);
        proof {
            assert(after.drop_last() =~= before);
            assert(after.last() == views(items@)[k as int]);
            assert(views(items@)[k as int] == items[k as int]@);
            lemma_parties_of(before);
            lemma_parties_of(views(items@));
        }
        let at = match line_position(&parties, item.party) {
            Some(at) => at,
            None => {
                proof {
                    assert forall|j: int| 0 <= j < before.len() implies before[j].party
                        != party by {
                        if before[j].party == party {
                            let m = choose|m: int| 0 <= m < names.len() && names[m] == party;
                            assert(parties@[m] == party);
                        }
                    }
                    lemma_aging_sum_absent(before, party, Some(AgingBucket::Current));
                    lemma_aging_sum_absent(before, party, Some(AgingBucket::Days1To30));
                    lemma_aging_sum_absent(before, party, Some(AgingBucket::Days31To60));
                    lemma_aging_sum_absent(before, party, Some(AgingBucket::Days61To90));
                    lemma_aging_sum_absent(before, party, Some(AgingBucket::Over90));
                    lemma_aging_sum_absent(before, party, None);
                    assert(!names.contains(party)) by {
                        if names.contains(party) {
                            let m = choose|m: int| 0 <= m < names.len() && names[m] == party;
                            assert(parties@[m] == party);
                        }
                    }
                }
                parties.push(item.party);
                lines.push(
                    AgingLine {
                        name: item.name.clone(),
                        current: Decimal::zero(),
                        days_1_30: Decimal::zero(),
                        days_31_60: Decimal::zero(),
                        days_61_90: Decimal::zero(),
                        over_90: Decimal::zero(),
                        total: Decimal::zero(),
                    },
                );
                lines.len() - 1
            },
        };
        let ghost names_after = parties_of(after);
        proof {
            lemma_parties_of(after);
            assert(names.contains(party) ==> names_after == names);
            assert(parties@ =~= names_after);
            assert(names_after[at as int] == party);
            assert forall|i: int| 0 <= i < lines@.len() implies has_aging_sums(
                #[trigger] lines@[i],
                before,
                names_after[i],
            ) && lines@[i].name@ == name_of(after, names_after[i]) by {
                if i < names.len() {
                    assert(names_after[i] == names[i]);
                    assert(names.contains(names[i]));
                }
            }
        }
        let owed = match item.total_amount.checked_sub(item.amount_paid) {
            Some(owed) => owed,
            None => {
                proof {
                    assert(aging_sum(after, Some(party), None) is None);
                    lemma_aging_sum_none_extends(views(items@), Some(party), None, k as int + 1);
                    assert(parties_of(views(items@)).contains(views(items@)[k as int].party));
                    let m = choose|m: int|
                        0 <= m < parties_of(views(items@)).len() && parties_of(views(items@))[m]
                            == party;
                    assert(!line_defined(views(items@), parties_of(views(items@))[m]));
                }
                return Err(Error::out_of_range());
            },
        };
        let line_total = match lines[at].total.checked_add(owed) {
            Some(sum) => sum,
            None => {
                proof {
                    assert(aging_sum(after, Some(party), None) is None);
                    lemma_aging_sum_none_extends(views(items@), Some(party), None, k as int + 1);
                    assert(parties_of(views(items@)).contains(views(items@)[k as int].party));
                    let m = choose|m: int|
                        0 <= m < parties_of(views(items@)).len() && parties_of(views(items@))[m]
                            == party;
                    assert(!line_defined(views(items@), parties_of(views(items@))[m]));
                }
                return Err(Error::out_of_range());
            },
        };
        let in_bucket = match bucket {
            AgingBucket::Current => lines[at].current,
            AgingBucket::Days1To30 => lines[at].days_1_30,
            AgingBucket::Days31To60 => lines[at].days_31_60,
            AgingBucket::Days61To90 => lines[at].days_61_90,
            AgingBucket::Over90 => lines[at].over_90,
        };
        let line_bucket = match in_bucket.checked_add(owed) {
            Some(sum) => sum,
            None => {
                proof {
                    assert(aging_sum(after, Some(party), Some(bucket)) is None);
                    lemma_aging_sum_none_extends(views(items@), Some(party), Some(bucket), k as int + 1);
                    assert(parties_of(views(items@)).contains(views(items@)[k as int].party));
                    let m = choose|m: int|
                        0 <= m < parties_of(views(items@)).len() && parties_of(views(items@))[m]
                            == party;
                    assert(!line_defined(views(items@), parties_of(views(items@))[m]));
                }
                return Err(Error::out_of_range());
            },
        };
        let all_in_bucket = match bucket {
            AgingBucket::Current => total_current,
            AgingBucket::Days1To30 => total_1_30,
            AgingBucket::Days31To60 => total_31_60,
            AgingBucket::Days61To90 => total_61_90,
            AgingBucket::Over90 => total_over_90,
        };
        let total_bucket = match all_in_bucket.checked_add(owed) {
            Some(sum) => sum,
            None => {
                proof {
                    assert(aging_sum(after, None, Some(bucket)) is None);
                    lemma_aging_sum_none_extends(views(items@), None, Some(bucket), k as int + 1);
                    assert(!totals_defined(views(items@)));
                }
                return Err(Error::out_of_range());
            },
        };
        let ghost lines_before = lines@;
        lines[at].total = line_total;
        match bucket {
            AgingBucket::Current => {
                lines[at].current = line_bucket;
                total_current = total_bucket;
            },
            AgingBucket::Days1To30 => {
                lines[at].days_1_30 = line_bucket;
                total_1_30 = total_bucket;
            },
            AgingBucket::Days31To60 => {
                lines[at].days_31_60 = line_bucket;
                total_31_60 = total_bucket;
            },
            AgingBucket::Days61To90 => {
                lines[at].days_61_90 = line_bucket;
                total_61_90 = total_bucket;
            },
            AgingBucket::Over90 => {
                lines[at].over_90 = line_bucket;
                total_over_90 = total_bucket;
            },
        }
        proof {
            assert forall|i: int| 0 <= i < lines@.len() implies is_aging_line(
                #[trigger] lines@[i],
                after,
                names_after[i],
            ) by {
                assert(has_aging_sums(lines_before[i], before, names_after[i]));
                assert(lines@[i].name@ == lines_before[i].name@);
                if i != at {
                    assert(lines@[i] == lines_before[i]);
                    assert(names_after[i] != party);
                }
            }
        }
        k += 1;
    }
    assert(views(items@).take(k as int) =~= views(items@));
    let figures = match total_current.checked_add(total_1_30) {
        Some(a) => match a.checked_add(total_31_60) {
            Some(b) => match b.checked_add(total_61_90) {
                Some(c) => c.checked_add(total_over_90),
                None => None,
            },
            None => None,
        },
        None => None,
    };
    match figures {
        Some(grand_total) => {
            let report = AgingReport {
                lines,
                total_current,
                total_1_30,
                total_31_60,
                total_61_90,
                total_over_90,
                grand_total,
            };
            assert(is_aging_report(report, views(items@)));
            proof {
                if items_by_name(views(items@)) {
                    lemma_parties_by_name(views(items@));
                    assert forall|p: int, q: int| 0 <= p < q < report.lines@.len() implies key_le(
                        name_key(report.lines@[p].name@),
                        name_key(report.lines@[q].name@),
                    ) by {
                        assert(is_aging_line(report.lines@[p], views(items@), parties_of(views(items@))[p]));
                        assert(is_aging_line(report.lines@[q], views(items@), parties_of(views(items@))[q]));
                    }
                }
            }
            assert forall|i: int| 0 <= i < parties_of(views(items@)).len() implies line_defined(
                views(items@),
                #[trigger] parties_of(views(items@))[i],
            ) by {
                assert(is_aging_line(report.lines@[i], views(items@), parties_of(views(items@))[i]));
            }
            Ok(report)
        },
        None => {
            assert(!totals_defined(views(items@)));
            Err(Error::out_of_range())
        },
    }
}

impl Sortable for OpenItem {
    /// An open item is ordered by the name on it, then by how long it has
    /// been due.
    open spec fn sort_key_spec(&self) -> SortKeyView {
        item_key(self@)
    }

    fn sort_key(&self) -> (r: SortKey) {
        SortKey {
            major: 0,
            minor: 0,
            text: self.name.as_str().as_bytes_vec(),
            tail: Vec::new(),
            last: age_rank_of(self.days_past),
        }
    }

    fn replica(&self) -> (r: OpenItem) {
        OpenItem {
            party: self.party,
            name: self.name.clone(),
            number: self.number.clone(),
            total_amount: self.total_amount,
            amount_paid: self.amount_paid,
            days_past: self.days_past,
        }
    }
}

/// The rank of an item by the days since it fell due: the more days, the
/// lower the rank.
pub open spec fn age_rank(days_past: i64) -> i64 {
    if days_past == i64::MIN {
        i64::MAX
    } else {
        (-days_past) as i64
    }
}

/// The rank of an item by the days since it fell due.
pub fn age_rank_of(days_past: i64) -> (r: i64)
    ensures
        r == age_rank(days_past),
{
    if days_past == i64::MIN {
        i64::MAX
    } else {
        -days_past
    }
}

/// What an open item is ordered by: the name on it, as its bytes, then
/// the days since it fell due, the most first.
pub open spec fn item_key(item: OpenItemView) -> SortKeyView {
    SortKeyView {
        major: 0,
        minor: 0,
        text: encode_utf8(item.name),
        tail: Seq::empty(),
        last: age_rank(item.days_past),
    }
}

/// The open items by name, those of one name the longest due first; items
/// that agree in both keep their order.
pub open spec fn by_name(items: Seq<OpenItemView>) -> Seq<OpenItemView> {
    arrange(items, sort_order(items.map_values(|item: OpenItemView| item_key(item)), items.len()))
}

/// Whether the open items stand by name.
pub open spec fn items_by_name(items: Seq<OpenItemView>) -> bool {
    forall|p: int, q: int|
        0 <= p < q < items.len() ==> key_le(name_key(items[p].name), name_key(items[q].name))
}

/// Whether the lines of an aging report stand by name.
pub open spec fn lines_by_name(lines: Seq<AgingLine>) -> bool {
    forall|p: int, q: int|
        0 <= p < q < lines.len() ==> key_le(name_key(lines[p].name@), name_key(lines[q].name@))
}

/// Whether the name is on one of the items.
pub open spec fn is_name_on(name: Seq<char>, items: Seq<OpenItemView>) -> bool {
    exists|j: int| 0 <= j < items.len() && (#[trigger] items[j]).name == name
}

/// Open items put by name are as many as before, and stand by name.
pub proof fn lemma_by_name(items: Seq<OpenItemView>)
    ensures
        by_name(items).len() == items.len(),
        items_by_name(by_name(items)),
{
    let keys = items.map_values(|item: OpenItemView| item_key(item));
    lemma_sort_order(keys, items.len());
    let order = sort_order(keys, items.len());
    assert forall|p: int, q: int| 0 <= p < q < items.len() implies key_le(
        name_key(by_name(items)[p].name),
        name_key(by_name(items)[q].name),
    ) by {
        assert(key_le(keys[order[p]], keys[order[q]]));
        assert(0 <= order[p] < items.len());
        assert(0 <= order[q] < items.len());
    }
}

/// Where the items stand by name, so do their customers or suppliers in
/// the order in which they first occur: the lines of the aging report
/// over such items stand by name.
pub proof fn lemma_parties_by_name(items: Seq<OpenItemView>)
    requires
        items_by_name(items),
    ensures
        forall|a: int|
            0 <= a < parties_of(items).len() ==> is_name_on(
                name_of(items, #[trigger] parties_of(items)[a]),
                items,
            ),
        forall|p: int, q: int|
            0 <= p < q < parties_of(items).len() ==> key_le(
                name_key(name_of(items, parties_of(items)[p])),
                name_key(name_of(items, parties_of(items)[q])),
            ),
    decreases items.len(),
{
    if items.len() > 0 {
        let front = items.drop_last();
        let last = items.last();
        assert forall|p: int, q: int| 0 <= p < q < front.len() implies key_le(
            name_key(front[p].name),
            name_key(front[q].name),
        ) by {
            assert(front[p] == items[p] && front[q] == items[q]);
        }
        lemma_parties_by_name(front);
        let before = parties_of(front);
        let all = parties_of(items);
        assert forall|a: int| 0 <= a < before.len() implies name_of(items, before[a]) == name_of(
            front,
            before[a],
        ) && is_name_on(name_of(items, before[a]), items) && key_le(
            name_key(name_of(front, before[a])),
            name_key(last.name),
        ) by {
            assert(before.contains(before[a]));
            assert(is_name_on(name_of(front, before[a]), front));
            let j = choose|j: int|
                0 <= j < front.len() && (#[trigger] front[j]).name == name_of(front, before[a]);
            assert(front[j] == items[j]);
            assert(key_le(name_key(items[j].name), name_key(items[items.len() - 1].name)));
        }
        if !before.contains(last.party) {
            assert(items[items.len() - 1].name == name_of(items, last.party));
        }
        assert forall|a: int| 0 <= a < all.len() implies is_name_on(
            name_of(items, #[trigger] all[a]),
            items,
        ) by {
            if a < before.len() {
                assert(all[a] == before[a]);
            }
        }
        assert forall|p: int, q: int| 0 <= p < q < all.len() implies key_le(
            name_key(name_of(items, all[p])),
            name_key(name_of(items, all[q])),
        ) by {
            assert(all[p] == before[p]);
            if q < before.len() {
                assert(all[q] == before[q]);
            }
        }
    }
}

/// Copies of the open items, by name, those of one name the longest due
/// first; items that agree in both keep their order.
pub fn sort_by_name(items: &Vec<OpenItem>) -> (r: Vec<OpenItem>)
    ensures
        views(r@) == by_name(views(items@)),
        r@.len() == items@.len(),
        items_by_name(views(r@)),
{
    let found = sort_rows(items);
    proof {
        lemma_sorted(items@);
        lemma_by_name(views(items@));
        assert(keys_of(items@) =~= views(items@).map_values(|item: OpenItemView| item_key(item)));
        assert(views(found@) =~= by_name(views(items@)));
    }
    found
}

impl Sortable for JournalPosting {
    /// A posting is ordered by the date of its entry, then by the number
    /// of its account.
    open spec fn sort_key_spec(&self) -> SortKeyView {
        posting_key(self@)
    }

    fn sort_key(&self) -> (r: SortKey) {
        let unnumbered = self.account_number.as_str().unicode_len() == 0;
        SortKey {
            major: day_of(&self.date),
            minor: if unnumbered {
                1
            } else {
                0
            },
            text: self.account_number.as_str().as_bytes_vec(),
            tail: Vec::new(),
            last: 0,
        }
    }

    fn replica(&self) -> (r: JournalPosting) {
        JournalPosting {
            date: self.date,
            account_number: self.account_number.clone(),
            account_name: self.account_name.clone(),
            description: self.description.clone(),
            debit: self.debit,
            credit: self.credit,
        }
    }
}

/// The number of the day, as a part of a key.
pub fn day_of(date: &Date) -> (r: i64)
    ensures
        r == date.number_spec(),
{
    date.number() as i64
}

/// What a posting is ordered by in the general ledger: the date of its
/// entry, then the number of its account, as its bytes; on one day, a
/// posting to an account without a number stands behind the others.
pub open spec fn posting_key(row: JournalPostingView) -> SortKeyView {
    SortKeyView {
        major: row.date.number_spec() as i64,
        minor: if row.account_number.len() == 0 {
            1
        } else {
            0
        },
        text: encode_utf8(row.account_number),
        tail: Seq::empty(),
        last: 0,
    }
}

/// The postings oldest first, those of one day by the number of their
/// account; postings of one day and one account keep their order.
pub open spec fn oldest_first(rows: Seq<JournalPostingView>) -> Seq<JournalPostingView> {
    arrange(rows, sort_order(rows.map_values(|row: JournalPostingView| posting_key(row)), rows.len()))
}

/// Whether the postings stand oldest first: none is dated earlier than one
/// before it.
pub open spec fn is_oldest_first(rows: Seq<JournalPostingView>) -> bool {
    forall|i: int, j: int|
        0 <= i < j < rows.len() ==> rows[i].date.number_spec() <= rows[j].date.number_spec()
}

/// Whether the postings stand as the general ledger lists them: by
/// date, those of one day by the number of their account.
pub open spec fn in_ledger_order(rows: Seq<JournalPostingView>) -> bool {
    forall|i: int, j: int|
        0 <= i < j < rows.len() ==> key_le(posting_key(rows[i]), posting_key(rows[j]))
}

/// Postings put oldest first are as many as before, and stand oldest
/// first, those of one day by the number of their account.
pub proof fn lemma_oldest_first(rows: Seq<JournalPostingView>)
    ensures
        oldest_first(rows).len() == rows.len(),
        is_oldest_first(oldest_first(rows)),
        in_ledger_order(oldest_first(rows)),
{
    let keys = rows.map_values(|row: JournalPostingView| posting_key(row));
    lemma_sort_order(keys, rows.len());
    let order = sort_order(keys, rows.len());
    assert forall|i: int, j: int| 0 <= i < j < rows.len() implies oldest_first(
        rows,
    )[i].date.number_spec() <= oldest_first(rows)[j].date.number_spec() by {
        assert(key_le(keys[order[i]], keys[order[j]]));
        assert(0 <= order[i] < rows.len());
        assert(0 <= order[j] < rows.len());
    }
    assert forall|i: int, j: int| 0 <= i < j < rows.len() implies key_le(
        posting_key(oldest_first(rows)[i]),
        posting_key(oldest_first(rows)[j]),
    ) by {
        assert(key_le(keys[order[i]], keys[order[j]]));
        assert(0 <= order[i] < rows.len());
        assert(0 <= order[j] < rows.len());
    }
}

/// Copies of the postings, oldest first; those of one day by the number of
/// their account.
pub fn sort_oldest_first(rows: &Vec<JournalPosting>) -> (r: Vec<JournalPosting>)
    ensures
        views(r@) == oldest_first(views(rows@)),
        r@.len() == rows@.len(),
        is_oldest_first(views(r@)),
        in_ledger_order(views(r@)),
{
    let found = sort_rows(rows);
    proof {
        lemma_sorted(rows@);
        lemma_oldest_first(views(rows@));
        assert(keys_of(rows@) =~= views(rows@).map_values(
            |row: JournalPostingView| posting_key(row),
        ));
        assert(views(found@) =~= oldest_first(views(rows@)));
    }
    found
}

} // verus!
