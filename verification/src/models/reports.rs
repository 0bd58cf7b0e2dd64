//! The records that the financial reports are made of.
use crate::date::Date;
use crate::decimal::Decimal;
use vstd::prelude::*;

verus! {

/// One account in a report, with its balance.
#[derive(Debug, PartialEq)]
pub struct ReportLine {
    pub account_number: String,
    pub name: String,
    pub amount: Decimal,
}

/// Income, cost of goods sold and expenses, and what is left of one after
/// the others.
#[derive(Debug, PartialEq)]
pub struct ProfitAndLoss {
    pub income: Vec<ReportLine>,
    pub cogs: Vec<ReportLine>,
    pub expenses: Vec<ReportLine>,
    pub total_income: Decimal,
    pub total_cogs: Decimal,
    /// Total income less total cost of goods sold.
    pub gross_profit: Decimal,
    pub total_expenses: Decimal,
    /// Gross profit less total expenses.
    pub net_income: Decimal,
}

/// Assets, liabilities and equity with their totals. The report does not
/// ask that assets equal liabilities plus equity.
#[derive(Debug, PartialEq)]
pub struct BalanceSheet {
    pub assets: Vec<ReportLine>,
    pub liabilities: Vec<ReportLine>,
    pub equity: Vec<ReportLine>,
    pub total_assets: Decimal,
    pub total_liabilities: Decimal,
    pub total_equity: Decimal,
}

/// Every account's balance in the column of its normal side, and the sum of
/// each column. The report does not ask that the columns agree.
#[derive(Debug, PartialEq)]
pub struct TrialBalance {
    pub lines: Vec<TrialBalanceLine>,
    pub total_debits: Decimal,
    pub total_credits: Decimal,
}

/// One account in the trial balance.
#[derive(Debug, PartialEq)]
pub struct TrialBalanceLine {
    pub account_number: String,
    pub account_name: String,
    pub account_type: String,
    pub debit: Decimal,
    pub credit: Decimal,
}

/// A [`TrialBalanceLine`] with its texts as characters.
pub struct TrialBalanceLineView {
    pub account_number: Seq<char>,
    pub account_name: Seq<char>,
    pub account_type: Seq<char>,
    pub debit: Decimal,
    pub credit: Decimal,
}

impl View for TrialBalanceLine {
    type V = TrialBalanceLineView;

    open spec fn view(&self) -> TrialBalanceLineView {
        TrialBalanceLineView {
            account_number: self.account_number@,
            account_name: self.account_name@,
            account_type: self.account_type@,
            debit: self.debit,
            credit: self.credit,
        }
    }
}

/// A [`ReportLine`] with its texts as characters.
pub struct ReportLineView {
    pub account_number: Seq<char>,
    pub name: Seq<char>,
    pub amount: Decimal,
}

impl View for ReportLine {
    type V = ReportLineView;

    open spec fn view(&self) -> ReportLineView {
        ReportLineView { account_number: self.account_number@, name: self.name@, amount: self.amount }
    }
}

/// What is owed, by age: one line for each customer or supplier, and the
/// totals over all of them.
#[derive(Debug, PartialEq)]
pub struct AgingReport {
    pub lines: Vec<AgingLine>,
    pub total_current: Decimal,
    pub total_1_30: Decimal,
    pub total_31_60: Decimal,
    pub total_61_90: Decimal,
    pub total_over_90: Decimal,
    pub grand_total: Decimal,
}

/// What one customer or supplier owes or is owed, by age.
#[derive(Debug, PartialEq)]
pub struct AgingLine {
    pub name: String,
    pub current: Decimal,
    pub days_1_30: Decimal,
    pub days_31_60: Decimal,
    pub days_61_90: Decimal,
    pub over_90: Decimal,
    pub total: Decimal,
}

/// What was invoiced and what was collected.
#[derive(Debug, PartialEq)]
pub struct SalesSummary {
    pub total_invoiced: Decimal,
    pub total_collected: Decimal,
    /// Invoiced less collected.
    pub outstanding: Decimal,
    pub invoice_count: i64,
    /// Invoiced divided by the number of invoices; zero where there are
    /// none.
    pub avg_invoice: Decimal,
    pub monthly: Vec<MonthlySales>,
}

/// The invoices of one month.
#[derive(Debug, PartialEq)]
pub struct MonthlySales {
    pub month: String,
    pub revenue: Decimal,
    pub count: i64,
}

/// The days that a report is asked for.
#[derive(Debug, Clone, Copy, PartialEq)]
pub struct ReportDateRange {
    pub from: Option<Date>,
    pub to: Option<Date>,
}

/// The lines of the journal with their accounts, and the totals of both
/// sides.
#[derive(Debug, PartialEq)]
pub struct GeneralLedger {
    pub entries: Vec<GeneralLedgerEntry>,
    pub total_debits: Decimal,
    pub total_credits: Decimal,
}

/// One line of the journal with its account.
#[derive(Debug, PartialEq)]
pub struct GeneralLedgerEntry {
    pub date: Date,
    pub account_number: String,
    pub account_name: String,
    pub description: String,
    pub debit: Decimal,
    pub credit: Decimal,
    /// Debit less credit.
    pub balance: Decimal,
    pub source: String,
}

} // verus!
