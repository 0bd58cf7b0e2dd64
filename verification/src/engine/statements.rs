//! The financial reports of a tenant, read from the engine's tables.
//!
//! A report reads the rows of its tenant and nothing else, and changes
//! nothing. Accounts are read by their number, the journal oldest first,
//! and what is owed by the name of who owes it.
use crate::date::Date;
use crate::decimal::sum_spec;
use crate::engine::Engine;
use crate::error::{Error, ErrorView};
use crate::models::accounting::Invoice;
use crate::models::chart_of_accounts::{
    account_group, group_of, number_key, Account, AccountGroup,
};
use crate::models::reports::{
    AgingReport, BalanceSheet, GeneralLedger, ProfitAndLoss, ReportLine, ReportLineView,
    TrialBalance,
};
use crate::models::purchasing::Supplier;
use crate::models::sales::Customer;
use crate::models::transactions::{Bill, JournalEntry, JournalEntryLine};
use crate::reports::{
    aging_defined, aging_report, balance_sheet, by_name, credits, debits, general_ledger,
    in_ledger_order, is_aging_report, is_ledger_entry, is_oldest_first, lines_by_name,
    oldest_first, profit_and_loss, profit_figures, running_values, side_total, sort_by_name,
    sort_oldest_first, trial_balance, trial_lines, view_amounts, views, AccountBalance,
    AccountBalanceView, JournalPosting, JournalPostingView, OpenItem, OpenItemView,
};
use crate::order::{is_ordered, key_le, lemma_sorted, sorted, Sortable};
use crate::table::{find, lemma_find, of_tenant, position};
use crate::text::{text_or_empty, text_or_empty_spec};
use vstd::prelude::*;

verus! {

/// Whether the account is shown in the tenant's reports: it is the
/// tenant's, and active.
pub open spec fn shown(account: Account, tenant_id: u128) -> bool {
    account.tenant_id == tenant_id && account.is_active
}

/// The account as the trial balance reads it; an account without a number
/// has the empty number.
pub open spec fn balance_row(account: Account) -> AccountBalanceView {
    AccountBalanceView {
        account_number: text_or_empty_spec(account.account_number),
        name: account.name@,
        account_type: account.account_type@,
        balance: account.balance,
    }
}

/// The tenant's accounts by their number, then by their name; accounts
/// without a number come last, and accounts that agree in both keep the
/// order of the table.
pub open spec fn ordered_accounts(accounts: Seq<Account>, tenant_id: u128) -> Seq<Account> {
    sorted(of_tenant(accounts, tenant_id))
}

/// The tenant's active accounts among the given ones as the trial balance
/// reads them, in the order given.
pub open spec fn balance_rows(accounts: Seq<Account>, tenant_id: u128) -> Seq<AccountBalanceView>
    decreases accounts.len(),
{
    if accounts.len() == 0 {
        Seq::empty()
    } else if shown(accounts.last(), tenant_id) {
        balance_rows(accounts.drop_last(), tenant_id).push(balance_row(accounts.last()))
    } else {
        balance_rows(accounts.drop_last(), tenant_id)
    }
}

/// The tenant's active accounts as the trial balance reads them, by
/// account number.
pub open spec fn account_rows(accounts: Seq<Account>, tenant_id: u128) -> Seq<AccountBalanceView> {
    balance_rows(ordered_accounts(accounts, tenant_id), tenant_id)
}

/// The account as a line of a statement.
pub open spec fn report_line(account: Account) -> ReportLineView {
    ReportLineView {
        account_number: text_or_empty_spec(account.account_number),
        name: account.name@,
        amount: account.balance,
    }
}

/// The tenant's active accounts of the given group among the given ones
/// as lines of a statement, in the order given.
pub open spec fn group_lines(accounts: Seq<Account>, tenant_id: u128, group: AccountGroup) -> Seq<
    ReportLineView,
>
    decreases accounts.len(),
{
    if accounts.len() == 0 {
        Seq::empty()
    } else if shown(accounts.last(), tenant_id) && group_of(accounts.last().account_type@) == Some(
        group,
    ) {
        group_lines(accounts.drop_last(), tenant_id, group).push(report_line(accounts.last()))
    } else {
        group_lines(accounts.drop_last(), tenant_id, group)
    }
}

/// The tenant's active accounts of the given group as lines of a
/// statement, by account number.
pub open spec fn statement_lines(accounts: Seq<Account>, tenant_id: u128, group: AccountGroup) -> Seq<
    ReportLineView,
> {
    group_lines(ordered_accounts(accounts, tenant_id), tenant_id, group)
}

/// An open invoice as the aging report reads it, with its customer's name
/// and the days since it fell due.
pub open spec fn invoice_item(invoice: Invoice, customer: Customer, today: Date) -> OpenItemView {
    OpenItemView {
        party: customer.id,
        name: customer.name@,
        number: invoice.invoice_number@,
        total_amount: invoice.total_amount,
        amount_paid: invoice.amount_paid,
        days_past: today.days_since_spec(invoice.due_date) as i64,
    }
}

/// The tenant's invoices that are still owed, each with its customer, in
/// the order of the table. An invoice whose customer the tenant does not
/// have is left out.
pub open spec fn receivable_items(
    invoices: Seq<Invoice>,
    customers: Seq<Customer>,
    tenant_id: u128,
    today: Date,
) -> Seq<OpenItemView>
    decreases invoices.len(),
{
    if invoices.len() == 0 {
        Seq::empty()
    } else {
        let front = receivable_items(invoices.drop_last(), customers, tenant_id, today);
        let invoice = invoices.last();
        if invoice.tenant_id == tenant_id && invoice.is_open() {
            match find(customers, tenant_id, invoice.customer_id) {
                Some(at) => front.push(invoice_item(invoice, customers[at], today)),
                None => front,
            }
        } else {
            front
        }
    }
}

/// An open bill as the aging report reads it, with its supplier's name and
/// the days since it fell due.
pub open spec fn bill_item(bill: Bill, supplier: Supplier, today: Date) -> OpenItemView {
    OpenItemView {
        party: supplier.id,
        name: supplier.name@,
        number: bill.bill_number@,
        total_amount: bill.total_amount,
        amount_paid: bill.amount_paid,
        days_past: today.days_since_spec(bill.due_date) as i64,
    }
}

/// The tenant's bills that are still owed, each with its supplier, in the
/// order of the table. A bill whose supplier the tenant does not have is
/// left out.
pub open spec fn payable_items(
    bills: Seq<Bill>,
    suppliers: Seq<Supplier>,
    tenant_id: u128,
    today: Date,
) -> Seq<OpenItemView>
    decreases bills.len(),
{
    if bills.len() == 0 {
        Seq::empty()
    } else {
        let front = payable_items(bills.drop_last(), suppliers, tenant_id, today);
        let bill = bills.last();
        if bill.tenant_id == tenant_id && bill.is_open() {
            match find(suppliers, tenant_id, bill.supplier_id) {
                Some(at) => front.push(bill_item(bill, suppliers[at], today)),
                None => front,
            }
        } else {
            front
        }
    }
}

/// A line of the journal as the general ledger reads it: with the date of
/// its entry, the number and name of its account, and as its description
/// its own memo, or else its entry's, or else nothing.
pub open spec fn journal_row(line: JournalEntryLine, entry: JournalEntry, account: Account) -> JournalPostingView {
    JournalPostingView {
        date: entry.date,
        account_number: text_or_empty_spec(account.account_number),
        account_name: account.name@,
        description: match line.memo {
            Some(memo) => memo@,
            None => text_or_empty_spec(entry.memo),
        },
        debit: line.debit,
        credit: line.credit,
    }
}

/// The lines of the tenant's journal entries as the general ledger reads
/// them, in the order of the table. A line whose entry or account the
/// tenant does not have is left out.
pub open spec fn journal_rows(
    lines: Seq<JournalEntryLine>,
    entries: Seq<JournalEntry>,
    accounts: Seq<Account>,
    tenant_id: u128,
) -> Seq<JournalPostingView>
    decreases lines.len(),
{
    if lines.len() == 0 {
        Seq::empty()
    } else {
        let front = journal_rows(lines.drop_last(), entries, accounts, tenant_id);
        let line = lines.last();
        match (find(entries, tenant_id, line.entry_id), find(accounts, tenant_id, line.account_id)) {
            (Some(entry_at), Some(account_at)) => front.push(
                journal_row(line, entries[entry_at], accounts[account_at]),
            ),
            _ => front,
        }
    }
}

/// Whether the rows stand by account number, then by name; rows without
/// a number last.
pub open spec fn rows_by_number(rows: Seq<AccountBalanceView>) -> bool {
    forall|p: int, q: int|
        0 <= p < q < rows.len() ==> key_le(
            number_key(rows[p].account_number, rows[p].name),
            number_key(rows[q].account_number, rows[q].name),
        )
}

/// Whether the lines stand by account number, then by name; lines without
/// a number last.
pub open spec fn lines_by_number(lines: Seq<ReportLineView>) -> bool {
    forall|p: int, q: int|
        0 <= p < q < lines.len() ==> key_le(
            number_key(lines[p].account_number, lines[p].name),
            number_key(lines[q].account_number, lines[q].name),
        )
}

/// Whether `row` is the row of one of the accounts, one that is shown.
pub open spec fn is_row_of(row: AccountBalanceView, accounts: Seq<Account>, tenant_id: u128) -> bool {
    exists|j: int|
        0 <= j < accounts.len() && shown(#[trigger] accounts[j], tenant_id) && row == balance_row(
            accounts[j],
        )
}

/// Whether `line` is the line of one of the accounts, one of the group
/// that is shown.
pub open spec fn is_line_of(
    line: ReportLineView,
    accounts: Seq<Account>,
    tenant_id: u128,
    group: AccountGroup,
) -> bool {
    exists|j: int|
        0 <= j < accounts.len() && shown(#[trigger] accounts[j], tenant_id) && group_of(
            accounts[j].account_type@,
        ) == Some(group) && line == report_line(accounts[j])
}

/// Rows read from accounts that stand by number stand by number, and
/// each of them is the row of one of the accounts that are shown.
pub proof fn lemma_balance_rows_ordered(accounts: Seq<Account>, tenant_id: u128)
    requires
        is_ordered(accounts),
    ensures
        rows_by_number(balance_rows(accounts, tenant_id)),
        forall|p: int|
            0 <= p < balance_rows(accounts, tenant_id).len() ==> is_row_of(
                #[trigger] balance_rows(accounts, tenant_id)[p],
                accounts,
                tenant_id,
            ),
    decreases accounts.len(),
{
    if accounts.len() > 0 {
        let front = accounts.drop_last();
        assert forall|p: int, q: int| 0 <= p < q < front.len() implies key_le(
            front[p].sort_key_spec(),
            front[q].sort_key_spec(),
        ) by {
            assert(front[p] == accounts[p] && front[q] == accounts[q]);
        }
        lemma_balance_rows_ordered(front, tenant_id);
        let before = balance_rows(front, tenant_id);
        let rows = balance_rows(accounts, tenant_id);
        assert forall|p: int| 0 <= p < rows.len() implies is_row_of(
            #[trigger] rows[p],
            accounts,
            tenant_id,
        ) by {
            if p < before.len() {
                assert(is_row_of(before[p], front, tenant_id));
                let j = choose|j: int|
                    0 <= j < front.len() && shown(#[trigger] front[j], tenant_id) && before[p]
                        == balance_row(front[j]);
                assert(front[j] == accounts[j]);
            } else {
                assert(rows[p] == balance_row(accounts[accounts.len() - 1]));
            }
        }
        assert forall|p: int, q: int| 0 <= p < q < rows.len() implies key_le(
            number_key(rows[p].account_number, rows[p].name),
            number_key(rows[q].account_number, rows[q].name),
        ) by {
            if q >= before.len() {
                assert(is_row_of(before[p], front, tenant_id));
                let j = choose|j: int|
                    0 <= j < front.len() && shown(#[trigger] front[j], tenant_id) && before[p]
                        == balance_row(front[j]);
                assert(front[j] == accounts[j]);
                assert(key_le(
                    accounts[j].sort_key_spec(),
                    accounts[accounts.len() - 1].sort_key_spec(),
                ));
            }
        }
    }
}

/// Lines read from accounts that stand by number stand by number, and
/// each of them is the line of one of the accounts of the group that are
/// shown.
pub proof fn lemma_group_lines_ordered(accounts: Seq<Account>, tenant_id: u128, group: AccountGroup)
    requires
        is_ordered(accounts),
    ensures
        lines_by_number(group_lines(accounts, tenant_id, group)),
        forall|p: int|
            0 <= p < group_lines(accounts, tenant_id, group).len() ==> is_line_of(
                #[trigger] group_lines(accounts, tenant_id, group)[p],
                accounts,
                tenant_id,
                group,
            ),
    decreases accounts.len(),
{
    if accounts.len() > 0 {
        let front = accounts.drop_last();
        assert forall|p: int, q: int| 0 <= p < q < front.len() implies key_le(
            front[p].sort_key_spec(),
            front[q].sort_key_spec(),
        ) by {
            assert(front[p] == accounts[p] && front[q] == accounts[q]);
        }
        lemma_group_lines_ordered(front, tenant_id, group);
        let before = group_lines(front, tenant_id, group);
        let lines = group_lines(accounts, tenant_id, group);
        assert forall|p: int| 0 <= p < lines.len() implies is_line_of(
            #[trigger] lines[p],
            accounts,
            tenant_id,
            group,
        ) by {
            if p < before.len() {
                assert(is_line_of(before[p], front, tenant_id, group));
                let j = choose|j: int|
                    0 <= j < front.len() && shown(#[trigger] front[j], tenant_id) && group_of(
                        front[j].account_type@,
                    ) == Some(group) && before[p] == report_line(front[j]);
                assert(front[j] == accounts[j]);
            } else {
                assert(lines[p] == report_line(accounts[accounts.len() - 1]));
            }
        }
        assert forall|p: int, q: int| 0 <= p < q < lines.len() implies key_le(
            number_key(lines[p].account_number, lines[p].name),
            number_key(lines[q].account_number, lines[q].name),
        ) by {
            if q >= before.len() {
                assert(is_line_of(before[p], front, tenant_id, group));
                let j = choose|j: int|
                    0 <= j < front.len() && shown(#[trigger] front[j], tenant_id) && group_of(
                        front[j].account_type@,
                    ) == Some(group) && before[p] == report_line(front[j]);
                assert(front[j] == accounts[j]);
                assert(key_le(
                    accounts[j].sort_key_spec(),
                    accounts[accounts.len() - 1].sort_key_spec(),
                ));
            }
        }
    }
}

/// The accounts that the reports read stand by their number, and are as
/// many as the tenant has.
pub proof fn lemma_accounts_ordered(accounts: Seq<Account>, tenant_id: u128)
    ensures
        is_ordered(ordered_accounts(accounts, tenant_id)),
        ordered_accounts(accounts, tenant_id).len() == of_tenant(accounts, tenant_id).len(),
{
    lemma_sorted(of_tenant(accounts, tenant_id));
}

/// Two tables that hold the same accounts for a tenant give the tenant
/// the same rows of the trial balance, and so the same trial balance:
/// nothing leaks from one tenant into the report of another.
pub proof fn lemma_trial_balance_isolated(a: Seq<Account>, b: Seq<Account>, tenant_id: u128)
    requires
        of_tenant(a, tenant_id) == of_tenant(b, tenant_id),
    ensures
        account_rows(a, tenant_id) == account_rows(b, tenant_id),
        trial_lines(account_rows(a, tenant_id)) == trial_lines(account_rows(b, tenant_id)),
        side_total(account_rows(a, tenant_id), true) == side_total(
            account_rows(b, tenant_id),
            true,
        ),
        side_total(account_rows(a, tenant_id), false) == side_total(
            account_rows(b, tenant_id),
            false,
        ),
{
}

impl Engine {
    /// The tenant's active accounts as the trial balance reads them, by
    /// account number.
    pub fn account_balances(&self, tenant_id: u128) -> (r: Vec<AccountBalance>)
        ensures
            views(r@) == account_rows(self.accounting.accounts@, tenant_id),
            rows_by_number(views(r@)),
    {
        let ordered = self.list_accounts(tenant_id);
        let accounts = &ordered;
        proof {
            lemma_balance_rows_ordered(ordered@, tenant_id);
        }
        let mut rows: Vec<AccountBalance> = Vec::new();
        let mut i: usize = 0;
        while i < accounts.len()
            invariant
                i <= accounts.len(),
                views(rows@) == balance_rows(accounts@.take(i as int), tenant_id),
            decreases accounts.len() - i,
        {
            assert(accounts@.take(i as int + 1).drop_last() =~= accounts@.take(i as int));
            let account = &accounts[i];
            if account.tenant_id == tenant_id && account.is_active {
                let row = AccountBalance {
                    account_number: text_or_empty(&account.account_number),
                    name: account.name.clone(),
                    account_type: account.account_type.clone(),
                    balance: account.balance,
                };
                assert(views(rows@.push(row)) =~= views(rows@).push(row@));
                rows.push(row);
            }
            i += 1;
        }
        assert(accounts@.take(i as int) =~= accounts@);
        rows
    }

    /// The tenant's active accounts of the given group, as lines of a
    /// statement, by account number.
    pub fn accounts_by_group(&self, tenant_id: u128, group: AccountGroup) -> (r: Vec<ReportLine>)
        ensures
            views(r@) == statement_lines(self.accounting.accounts@, tenant_id, group),
            lines_by_number(views(r@)),
    {
        let ordered = self.list_accounts(tenant_id);
        let accounts = &ordered;
        proof {
            lemma_group_lines_ordered(ordered@, tenant_id, group);
        }
        let mut lines: Vec<ReportLine> = Vec::new();
        let mut i: usize = 0;
        while i < accounts.len()
            invariant
                i <= accounts.len(),
                views(lines@) == group_lines(accounts@.take(i as int), tenant_id, group),
            decreases accounts.len() - i,
        {
            assert(accounts@.take(i as int + 1).drop_last() =~= accounts@.take(i as int));
            let account = &accounts[i];
            if account.tenant_id == tenant_id && account.is_active {
                let found = account_group(account.account_type.as_str());
                let fits = match found {
                    Some(g) => g == group,
                    None => false,
                };
                if fits {
                    let line = ReportLine {
                        account_number: text_or_empty(&account.account_number),
                        name: account.name.clone(),
                        amount: account.balance,
                    };
                    assert(views(lines@.push(line)) =~= views(lines@).push(line@));
                    lines.push(line);
                }
            }
            i += 1;
        }
        assert(accounts@.take(i as int) =~= accounts@);
        lines
    }

    /// The tenant's trial balance: a line for each active account, by
    /// account number, with its balance in the column of its normal side,
    /// and the sum of each column. Nothing is asked of how the two sums
    /// relate.
    pub fn trial_balance(&self, tenant_id: u128) -> (r: Result<TrialBalance, Error>)
        ensures
            match (
                side_total(account_rows(self.accounting.accounts@, tenant_id), true),
                side_total(account_rows(self.accounting.accounts@, tenant_id), false),
            ) {
                (Some(debits), Some(credits)) => {
                    &&& r is Ok
                    &&& views(r->Ok_0.lines@) == trial_lines(
                        account_rows(self.accounting.accounts@, tenant_id),
                    )
                    &&& rows_by_number(account_rows(self.accounting.accounts@, tenant_id))
                    &&& r->Ok_0.total_debits == debits
                    &&& r->Ok_0.total_credits == credits
                },
                _ => r is Err && r->Err_0@ == ErrorView::out_of_range(),
            },
    {
        let rows = self.account_balances(tenant_id);
        trial_balance(&rows)
    }

    /// The tenant's profit and loss statement over its active accounts of
    /// income, of cost of goods sold and of expenses.
    pub fn profit_and_loss(&self, tenant_id: u128) -> (r: Result<ProfitAndLoss, Error>)
        ensures
            match profit_figures(
                view_amounts(
                    statement_lines(self.accounting.accounts@, tenant_id, AccountGroup::Income),
                ),
                view_amounts(
                    statement_lines(self.accounting.accounts@,
                        tenant_id,
                        AccountGroup::CostOfGoodsSold,
                    ),
                ),
                view_amounts(
                    statement_lines(self.accounting.accounts@, tenant_id, AccountGroup::Expense),
                ),
            ) {
                Some(figures) => {
                    &&& r is Ok
                    &&& lines_by_number(views(r->Ok_0.income@))
                    &&& lines_by_number(views(r->Ok_0.cogs@))
                    &&& lines_by_number(views(r->Ok_0.expenses@))
                    &&& views(r->Ok_0.income@) == statement_lines(self.accounting.accounts@,
                        tenant_id,
                        AccountGroup::Income,
                    )
                    &&& views(r->Ok_0.cogs@) == statement_lines(self.accounting.accounts@,
                        tenant_id,
                        AccountGroup::CostOfGoodsSold,
                    )
                    &&& views(r->Ok_0.expenses@) == statement_lines(self.accounting.accounts@,
                        tenant_id,
                        AccountGroup::Expense,
                    )
                    &&& r->Ok_0.total_income == figures.total_income
                    &&& r->Ok_0.total_cogs == figures.total_cogs
                    &&& r->Ok_0.gross_profit == figures.gross_profit
                    &&& r->Ok_0.total_expenses == figures.total_expenses
                    &&& r->Ok_0.net_income == figures.net_income
                },
                None => r is Err && r->Err_0@ == ErrorView::out_of_range(),
            },
    {
        let income = self.accounts_by_group(tenant_id, AccountGroup::Income);
        let cogs = self.accounts_by_group(tenant_id, AccountGroup::CostOfGoodsSold);
        let expenses = self.accounts_by_group(tenant_id, AccountGroup::Expense);
        proof {
            assert(crate::reports::amounts(income@) =~= view_amounts(views(income@)));
            assert(crate::reports::amounts(cogs@) =~= view_amounts(views(cogs@)));
            assert(crate::reports::amounts(expenses@) =~= view_amounts(views(expenses@)));
        }
        profit_and_loss(income, cogs, expenses)
    }

    /// The tenant's balance sheet over its active accounts of assets, of
    /// liabilities and of equity: the three totals, nothing asked of how
    /// they relate.
    pub fn balance_sheet(&self, tenant_id: u128) -> (r: Result<BalanceSheet, Error>)
        ensures
            match (
                sum_spec(
                    view_amounts(
                        statement_lines(self.accounting.accounts@, tenant_id, AccountGroup::Asset),
                    ),
                ),
                sum_spec(
                    view_amounts(
                        statement_lines(self.accounting.accounts@, tenant_id, AccountGroup::Liability),
                    ),
                ),
                sum_spec(
                    view_amounts(
                        statement_lines(self.accounting.accounts@, tenant_id, AccountGroup::Equity),
                    ),
                ),
            ) {
                (Some(total_assets), Some(total_liabilities), Some(total_equity)) => {
                    &&& r is Ok
                    &&& lines_by_number(views(r->Ok_0.assets@))
                    &&& lines_by_number(views(r->Ok_0.liabilities@))
                    &&& lines_by_number(views(r->Ok_0.equity@))
                    &&& views(r->Ok_0.assets@) == statement_lines(self.accounting.accounts@,
                        tenant_id,
                        AccountGroup::Asset,
                    )
                    &&& views(r->Ok_0.liabilities@) == statement_lines(self.accounting.accounts@,
                        tenant_id,
                        AccountGroup::Liability,
                    )
                    &&& views(r->Ok_0.equity@) == statement_lines(self.accounting.accounts@,
                        tenant_id,
                        AccountGroup::Equity,
                    )
                    &&& r->Ok_0.total_assets == total_assets
                    &&& r->Ok_0.total_liabilities == total_liabilities
                    &&& r->Ok_0.total_equity == total_equity
                },
                _ => r is Err && r->Err_0@ == ErrorView::out_of_range(),
            },
    {
        let assets = self.accounts_by_group(tenant_id, AccountGroup::Asset);
        let liabilities = self.accounts_by_group(tenant_id, AccountGroup::Liability);
        let equity = self.accounts_by_group(tenant_id, AccountGroup::Equity);
        proof {
            assert(crate::reports::amounts(assets@) =~= view_amounts(views(assets@)));
            assert(crate::reports::amounts(liabilities@) =~= view_amounts(views(liabilities@)));
            assert(crate::reports::amounts(equity@) =~= view_amounts(views(equity@)));
        }
        balance_sheet(assets, liabilities, equity)
    }

    /// The tenant's invoices that are still owed, as the aging report
    /// reads them on the day `today`.
    pub fn open_invoices(&self, tenant_id: u128, today: Date) -> (r: Vec<OpenItem>)
        ensures
            views(r@) == receivable_items(
                self.accounting.invoices@,
                self.sales.customers@,
                tenant_id,
                today,
            ),
    {
        let invoices = &self.accounting.invoices;
        let mut items: Vec<OpenItem> = Vec::new();
        let mut i: usize = 0;
        while i < invoices.len()
            invariant
                i <= invoices.len(),
                views(items@) == receivable_items(
                    invoices@.take(i as int),
                    self.sales.customers@,
                    tenant_id,
                    today,
                ),
            decreases invoices.len() - i,
        {
            assert(invoices@.take(i as int + 1).drop_last() =~= invoices@.take(i as int));
            let invoice = &invoices[i];
            if invoice.tenant_id == tenant_id && invoice.open() {
                proof {
                    lemma_find(self.sales.customers@, tenant_id, invoice.customer_id);
                }
                match position(&self.sales.customers, tenant_id, invoice.customer_id) {
                    Some(at) => {
                        let item = OpenItem {
                            party: self.sales.customers[at].id,
                            name: self.sales.customers[at].name.clone(),
                            number: invoice.invoice_number.clone(),
                            total_amount: invoice.total_amount,
                            amount_paid: invoice.amount_paid,
                            days_past: today.days_since(&invoice.due_date),
                        };
                        assert(views(items@.push(item)) =~= views(items@).push(item@));
                        items.push(item);
                    },
                    None => {},
                }
            }
            i += 1;
        }
        assert(invoices@.take(i as int) =~= invoices@);
        items
    }

    /// The tenant's bills that are still owed, as the aging report reads
    /// them on the day `today`.
    pub fn open_bills(&self, tenant_id: u128, today: Date) -> (r: Vec<OpenItem>)
        ensures
            views(r@) == payable_items(
                self.accounting.bills@,
                self.purchasing.suppliers@,
                tenant_id,
                today,
            ),
    {
        let bills = &self.accounting.bills;
        let mut items: Vec<OpenItem> = Vec::new();
        let mut i: usize = 0;
        while i < bills.len()
            invariant
                i <= bills.len(),
                views(items@) == payable_items(
                    bills@.take(i as int),
                    self.purchasing.suppliers@,
                    tenant_id,
                    today,
                ),
            decreases bills.len() - i,
        {
            assert(bills@.take(i as int + 1).drop_last() =~= bills@.take(i as int));
            let bill = &bills[i];
            if bill.tenant_id == tenant_id && bill.open() {
                proof {
                    lemma_find(self.purchasing.suppliers@, tenant_id, bill.supplier_id);
                }
                match position(&self.purchasing.suppliers, tenant_id, bill.supplier_id) {
                    Some(at) => {
                        let item = OpenItem {
                            party: self.purchasing.suppliers[at].id,
                            name: self.purchasing.suppliers[at].name.clone(),
                            number: bill.bill_number.clone(),
                            total_amount: bill.total_amount,
                            amount_paid: bill.amount_paid,
                            days_past: today.days_since(&bill.due_date),
                        };
                        assert(views(items@.push(item)) =~= views(items@).push(item@));
                        items.push(item);
                    },
                    None => {},
                }
            }
            i += 1;
        }
        assert(bills@.take(i as int) =~= bills@);
        items
    }

    /// What the tenant's customers still owe on the day `today`, by the
    /// age of the debt: for each invoice that is neither paid nor
    /// cancelled, its total less what was paid goes into the bucket of the
    /// days since it fell due, into its customer's line and into the
    /// totals. Each customer has one line, and the lines stand by the
    /// customers' names.
    pub fn ar_aging(&self, tenant_id: u128, today: Date) -> (r: Result<AgingReport, Error>)
        ensures
            ({
                let items = by_name(
                    receivable_items(
                        self.accounting.invoices@,
                        self.sales.customers@,
                        tenant_id,
                        today,
                    ),
                );
                &&& aging_defined(items) ==> r is Ok && is_aging_report(r->Ok_0, items)
                &&& r is Ok ==> lines_by_name(r->Ok_0.lines@)
                &&& !aging_defined(items) ==> r is Err && r->Err_0@ == ErrorView::out_of_range()
            }),
    {
        let items = sort_by_name(&self.open_invoices(tenant_id, today));
        aging_report(&items)
    }

    /// What the tenant still owes its suppliers on the day `today`, by the
    /// age of the debt: for each bill that is not paid, its total less
    /// what was paid goes into the bucket of the days since it fell due,
    /// into its supplier's line and into the totals. Each supplier has one
    /// line, and the lines stand by the suppliers' names.
    pub fn ap_aging(&self, tenant_id: u128, today: Date) -> (r: Result<AgingReport, Error>)
        ensures
            ({
                let items = by_name(
                    payable_items(
                        self.accounting.bills@,
                        self.purchasing.suppliers@,
                        tenant_id,
                        today,
                    ),
                );
                &&& aging_defined(items) ==> r is Ok && is_aging_report(r->Ok_0, items)
                &&& r is Ok ==> lines_by_name(r->Ok_0.lines@)
                &&& !aging_defined(items) ==> r is Err && r->Err_0@ == ErrorView::out_of_range()
            }),
    {
        let items = sort_by_name(&self.open_bills(tenant_id, today));
        aging_report(&items)
    }

    /// The lines of the tenant's journal entries as the general ledger
    /// reads them.
    pub fn journal_postings(&self, tenant_id: u128) -> (r: Vec<JournalPosting>)
        ensures
            views(r@) == journal_rows(
                self.accounting.journal_lines@,
                self.accounting.journal_entries@,
                self.accounting.accounts@,
                tenant_id,
            ),
    {
        let lines = &self.accounting.journal_lines;
        let mut rows: Vec<JournalPosting> = Vec::new();
        let mut i: usize = 0;
        while i < lines.len()
            invariant
                i <= lines.len(),
                views(rows@) == journal_rows(
                    lines@.take(i as int),
                    self.accounting.journal_entries@,
                    self.accounting.accounts@,
                    tenant_id,
                ),
            decreases lines.len() - i,
        {
            assert(lines@.take(i as int + 1).drop_last() =~= lines@.take(i as int));
            let line = &lines[i];
            proof {
                lemma_find(self.accounting.journal_entries@, tenant_id, line.entry_id);
                lemma_find(self.accounting.accounts@, tenant_id, line.account_id);
            }
            let entry_at = position(&self.accounting.journal_entries, tenant_id, line.entry_id);
            let account_at = position(&self.accounting.accounts, tenant_id, line.account_id);
            match (entry_at, account_at) {
                (Some(entry_at), Some(account_at)) => {
                    let entry = &self.accounting.journal_entries[entry_at];
                    let account = &self.accounting.accounts[account_at];
                    let row = JournalPosting {
                        date: entry.date,
                        account_number: text_or_empty(&account.account_number),
                        account_name: account.name.clone(),
                        description: match &line.memo {
                            Some(memo) => memo.clone(),
                            None => text_or_empty(&entry.memo),
                        },
                        debit: line.debit,
                        credit: line.credit,
                    };
                    assert(views(rows@.push(row)) =~= views(rows@).push(row@));
                    rows.push(row);
                },
                _ => {},
            }
            i += 1;
        }
        assert(lines@.take(i as int) =~= lines@);
        rows
    }

    /// The tenant's general ledger: the lines of its journal entries with
    /// their accounts, the oldest entries first and the lines of one day
    /// by the number of their account, each with its running value, debit
    /// less credit, and the totals of debits and of credits.
    pub fn general_ledger(&self, tenant_id: u128) -> (r: Result<GeneralLedger, Error>)
        ensures
            ({
                let rows = oldest_first(
                    journal_rows(
                        self.accounting.journal_lines@,
                        self.accounting.journal_entries@,
                        self.accounting.accounts@,
                        tenant_id,
                    ),
                );
                match (sum_spec(debits(rows)), sum_spec(credits(rows)), running_values(rows)) {
                    (Some(total_debits), Some(total_credits), Some(values)) => {
                        &&& r is Ok
                        &&& is_oldest_first(rows)
                        &&& in_ledger_order(rows)
                        &&& r->Ok_0.total_debits == total_debits
                        &&& r->Ok_0.total_credits == total_credits
                        &&& r->Ok_0.entries@.len() == rows.len()
                        &&& values.len() == rows.len()
                        &&& forall|i: int|
                            0 <= i < rows.len() ==> is_ledger_entry(
                                #[trigger] r->Ok_0.entries@[i],
                                rows[i],
                                values[i],
                            )
                    },
                    _ => r is Err && r->Err_0@ == ErrorView::out_of_range(),
                }
            }),
    {
        let rows = sort_oldest_first(&self.journal_postings(tenant_id));
        let ledger = general_ledger(&rows);
        proof {
            assert forall|i: int| 0 <= i < rows@.len() implies views(rows@)[i] == rows@[i]@ by {}
        }
        ledger
    }
}


/// An invoice of another tenant changes nothing about what a tenant's
/// customers are found to owe.
pub proof fn lemma_receivables_isolated(
    invoices: Seq<Invoice>,
    other: Invoice,
    customers: Seq<Customer>,
    tenant_id: u128,
    today: Date,
)
    requires
        other.tenant_id != tenant_id,
    ensures
        receivable_items(invoices.push(other), customers, tenant_id, today) == receivable_items(
            invoices,
            customers,
            tenant_id,
            today,
        ),
{
    assert(invoices.push(other).drop_last() =~= invoices);
}

/// A bill of another tenant changes nothing about what a tenant is found
/// to owe its suppliers.
pub proof fn lemma_payables_isolated(
    bills: Seq<Bill>,
    other: Bill,
    suppliers: Seq<Supplier>,
    tenant_id: u128,
    today: Date,
)
    requires
        other.tenant_id != tenant_id,
    ensures
        payable_items(bills.push(other), suppliers, tenant_id, today) == payable_items(
            bills,
            suppliers,
            tenant_id,
            today,
        ),
{
    assert(bills.push(other).drop_last() =~= bills);
}

/// An account of another tenant changes nothing about the lines of a
/// tenant's statements.
pub proof fn lemma_group_lines_isolated(
    accounts: Seq<Account>,
    other: Account,
    tenant_id: u128,
    group: AccountGroup,
)
    requires
        other.tenant_id != tenant_id,
    ensures
        statement_lines(accounts.push(other), tenant_id, group) == statement_lines(
            accounts,
            tenant_id,
            group,
        ),
{
    assert(accounts.push(other).drop_last() =~= accounts);
}

} // verus!
