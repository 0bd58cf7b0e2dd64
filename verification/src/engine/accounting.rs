//! Invoices, payments, accounts, bills and the journal in the engine.
use crate::date::Date;
use crate::engine::Engine;
use crate::error::{Error, ErrorView};
use crate::models::accounting::{
    invoice_not_found, CreateInvoice, CreatePayment, Invoice, Payment,
};
use crate::models::chart_of_accounts::{Account, CreateAccount};
use crate::models::transactions::{
    Bill, CreateBill, CreateJournalEntry, CreateJournalEntryLine, JournalEntry, JournalEntryLine,
};
use crate::order::{is_ordered, sorted};
use crate::table::{find, lemma_find, list_newest, list_sorted, of_tenant, position};
use crate::text::clone_optional;
use vstd::prelude::*;
use vstd::string::*;

verus! {

/// What is reported for an account that the tenant does not have, or that
/// is a system account and so cannot be deleted.
pub open spec fn account_not_deletable() -> ErrorView {
    ErrorView::NotFound("Account not found or is a system account"@)
}

/// What is reported for an account that the tenant does not have.
pub open spec fn account_not_found() -> ErrorView {
    ErrorView::NotFound("Account not found"@)
}

/// What is reported for a journal entry with more lines than can be
/// numbered.
pub open spec fn too_many_lines() -> ErrorView {
    ErrorView::Validation("too many lines"@)
}

/// The lines that are stored for a new journal entry: one for each given,
/// in order, numbered from 0, with identifiers counted up from `first_id`.
pub open spec fn stored_journal_lines(
    entry_id: u128,
    first_id: u128,
    lines: Seq<CreateJournalEntryLine>,
) -> Seq<JournalEntryLine> {
    Seq::new(
        lines.len(),
        |k: int|
            JournalEntryLine {
                id: (first_id + k) as u128,
                entry_id,
                account_id: lines[k].account_id,
                debit: lines[k].debit,
                credit: lines[k].credit,
                memo: lines[k].memo,
                sort_order: k as i32,
            },
    )
}

/// The journal entry that creating `input` for the tenant on the day
/// `today` gives.
pub open spec fn created_journal_entry(
    id: u128,
    tenant_id: u128,
    input: CreateJournalEntry,
    today: Date,
) -> JournalEntry {
    JournalEntry {
        id,
        tenant_id,
        entry_number: input.entry_number,
        date: match input.date {
            Some(date) => date,
            None => today,
        },
        memo: input.memo,
        is_adjusting: input.is_adjusting,
    }
}

impl Engine {
    /// Creates an invoice of the tenant: a draft, with nothing paid.
    pub fn create_invoice(&mut self, tenant_id: u128, input: CreateInvoice) -> (r: Result<
        Invoice,
        Error,
    >)
        requires
            old(self).wf(),
        ensures
            final(self).wf(),
            match old(self).reserve_spec(1) {
                Ok(id) => {
                    &&& r == Ok::<Invoice, Error>(Invoice::created(id, tenant_id, input))
                    &&& final(self).accounting.invoices@ == old(self).accounting.invoices@.push(
                        r->Ok_0,
                    )
                    &&& final(self).accounting.payments == old(self).accounting.payments
                    &&& final(self).accounting.accounts == old(self).accounting.accounts
                    &&& final(self).accounting.bills == old(self).accounting.bills
                    &&& final(self).accounting.journal_entries
                        == old(self).accounting.journal_entries
                    &&& final(self).accounting.journal_lines == old(self).accounting.journal_lines
                    &&& final(self).next_id == old(self).next_id + 1
                    &&& final(self).ledger == old(self).ledger
                    &&& final(self).purchasing == old(self).purchasing
                    &&& final(self).sales == old(self).sales
                    &&& final(self).manufacturing == old(self).manufacturing
                },
                Err(e) => r is Err && r->Err_0@ == e && *final(self) == *old(self),
            },
    {
        let id = match self.reserve(1) {
            Ok(id) => id,
            Err(e) => {
                return Err(e);
            },
        };
        let invoice = Invoice::create(id, tenant_id, input);
        let copy = invoice.clone();
        self.accounting.invoices.push(invoice);
        self.next_id = self.next_id + 1;
        Ok(copy)
    }

    /// The tenant's invoices, the one created last first.
    pub fn list_invoices(&self, tenant_id: u128) -> (r: Vec<Invoice>)
        ensures
            r@ == of_tenant(self.accounting.invoices@, tenant_id).reverse(),
    {
        list_newest(&self.accounting.invoices, tenant_id)
    }

    /// The tenant's payments, the one created last first.
    pub fn list_payments(&self, tenant_id: u128) -> (r: Vec<Payment>)
        ensures
            r@ == of_tenant(self.accounting.payments@, tenant_id).reverse(),
    {
        list_newest(&self.accounting.payments, tenant_id)
    }

    /// What recording a payment of `amount` against the tenant's invoice
    /// `invoice_id` leads to: the invoice as it stands afterwards and the
    /// payment's identifier, or why the payment is refused. The tenant
    /// must have the invoice. The amount is not capped: what is paid may
    /// exceed the total.
    pub open spec fn payment_outcome(
        &self,
        tenant_id: u128,
        invoice_id: u128,
        amount: crate::decimal::Decimal,
    ) -> Result<(Invoice, u128), ErrorView> {
        match find(self.accounting.invoices@, tenant_id, invoice_id) {
            None => Err(invoice_not_found()),
            Some(at) => match self.accounting.invoices[at].after_payment(amount) {
                None => Err(ErrorView::out_of_range()),
                Some(invoice) => match self.reserve_spec(1) {
                    Err(e) => Err(e),
                    Ok(id) => Ok((invoice, id)),
                },
            },
        }
    }

    /// Records a payment against an invoice of the tenant: the payment is
    /// written, its amount is added to what the invoice has been paid, and
    /// the invoice goes to `Paid` where that is now at least its total,
    /// else to `PartiallyPaid`. All of this happens, or, where an error is
    /// reported, none of it: no payment is written without its invoice
    /// being brought up to date.
    pub fn record_payment(&mut self, tenant_id: u128, input: CreatePayment) -> (r: Result<
        Payment,
        Error,
    >)
        requires
            old(self).wf(),
        ensures
            final(self).wf(),
            match old(self).payment_outcome(tenant_id, input.invoice_id, input.amount) {
                Ok((invoice, id)) => {
                    let at = find(
                        old(self).accounting.invoices@,
                        tenant_id,
                        input.invoice_id,
                    )->Some_0;
                    &&& r == Ok::<Payment, Error>(Payment::created(id, tenant_id, input))
                    &&& final(self).accounting.payments@ == old(self).accounting.payments@.push(
                        r->Ok_0,
                    )
                    &&& final(self).accounting.invoices@ == old(self).accounting.invoices@.update(
                        at,
                        invoice,
                    )
                    &&& final(self).accounting.accounts == old(self).accounting.accounts
                    &&& final(self).accounting.bills == old(self).accounting.bills
                    &&& final(self).accounting.journal_entries
                        == old(self).accounting.journal_entries
                    &&& final(self).accounting.journal_lines == old(self).accounting.journal_lines
                    &&& final(self).next_id == old(self).next_id + 1
                    &&& final(self).ledger == old(self).ledger
                    &&& final(self).purchasing == old(self).purchasing
                    &&& final(self).sales == old(self).sales
                    &&& final(self).manufacturing == old(self).manufacturing
                },
                Err(e) => r is Err && r->Err_0@ == e && *final(self) == *old(self),
            },
    {
        proof {
            lemma_find(self.accounting.invoices@, tenant_id, input.invoice_id);
        }
        let at = match position(&self.accounting.invoices, tenant_id, input.invoice_id) {
            Some(at) => at,
            None => {
                return Err(Error::not_found("Invoice not found"));
            },
        };
        let invoice = match self.accounting.invoices[at].apply_payment(input.amount) {
            Ok(invoice) => invoice,
            Err(e) => {
                return Err(e);
            },
        };
        let id = match self.reserve(1) {
            Ok(id) => id,
            Err(e) => {
                return Err(e);
            },
        };
        let payment = Payment::create(id, tenant_id, input);
        let copy = payment.clone();
        self.accounting.payments.push(payment);
        self.accounting.invoices.set(at, invoice);
        self.next_id = self.next_id + 1;
        Ok(copy)
    }

    /// Creates an account of the tenant: active, with a balance of zero.
    pub fn create_account(&mut self, tenant_id: u128, input: CreateAccount) -> (r: Result<
        Account,
        Error,
    >)
        requires
            old(self).wf(),
        ensures
            final(self).wf(),
            match old(self).reserve_spec(1) {
                Ok(id) => {
                    &&& r == Ok::<Account, Error>(Account::created(id, tenant_id, input))
                    &&& final(self).accounting.accounts@ == old(self).accounting.accounts@.push(
                        r->Ok_0,
                    )
                    &&& final(self).accounting.invoices == old(self).accounting.invoices
                    &&& final(self).accounting.payments == old(self).accounting.payments
                    &&& final(self).accounting.bills == old(self).accounting.bills
                    &&& final(self).accounting.journal_entries
                        == old(self).accounting.journal_entries
                    &&& final(self).accounting.journal_lines == old(self).accounting.journal_lines
                    &&& final(self).next_id == old(self).next_id + 1
                    &&& final(self).ledger == old(self).ledger
                    &&& final(self).purchasing == old(self).purchasing
                    &&& final(self).sales == old(self).sales
                    &&& final(self).manufacturing == old(self).manufacturing
                },
                Err(e) => r is Err && r->Err_0@ == e && *final(self) == *old(self),
            },
    {
        let id = match self.reserve(1) {
            Ok(id) => id,
            Err(e) => {
                return Err(e);
            },
        };
        let account = Account::create(id, tenant_id, input);
        let copy = account.clone();
        self.accounting.accounts.push(account);
        self.next_id = self.next_id + 1;
        Ok(copy)
    }

    /// The tenant's accounts by number, then by name; those that agree in it in the order in
    /// which they were created.
    pub fn list_accounts(&self, tenant_id: u128) -> (r: Vec<Account>)
        ensures
            r@ == sorted(of_tenant(self.accounting.accounts@, tenant_id)),
            is_ordered(r@),
    {
        list_sorted(&self.accounting.accounts, tenant_id)
    }

    /// The tenant's account `id`.
    pub fn get_account(&self, tenant_id: u128, id: u128) -> (r: Result<Account, Error>)
        ensures
            match find(self.accounting.accounts@, tenant_id, id) {
                Some(at) => r == Ok::<Account, Error>(self.accounting.accounts[at]),
                None => r is Err && r->Err_0@ == account_not_found(),
            },
    {
        proof {
            lemma_find(self.accounting.accounts@, tenant_id, id);
        }
        match position(&self.accounting.accounts, tenant_id, id) {
            Some(at) => Ok(self.accounting.accounts[at].clone()),
            None => Err(Error::not_found("Account not found")),
        }
    }

    /// Whether the tenant has the account `id` and may delete it: system
    /// accounts stay.
    pub open spec fn deletable_account(&self, tenant_id: u128, id: u128) -> Option<int> {
        match find(self.accounting.accounts@, tenant_id, id) {
            Some(at) => if self.accounting.accounts[at].is_system {
                None
            } else {
                Some(at)
            },
            None => None,
        }
    }

    /// Deletes the tenant's account `id`, unless it is a system account.
    pub fn delete_account(&mut self, tenant_id: u128, id: u128) -> (r: Result<(), Error>)
        requires
            old(self).wf(),
        ensures
            final(self).wf(),
            match old(self).deletable_account(tenant_id, id) {
                Some(at) => {
                    &&& r is Ok
                    &&& final(self).accounting.accounts@ == old(self).accounting.accounts@.remove(
                        at,
                    )
                    &&& final(self).accounting.invoices == old(self).accounting.invoices
                    &&& final(self).accounting.payments == old(self).accounting.payments
                    &&& final(self).accounting.bills == old(self).accounting.bills
                    &&& final(self).accounting.journal_entries
                        == old(self).accounting.journal_entries
                    &&& final(self).accounting.journal_lines == old(self).accounting.journal_lines
                    &&& final(self).next_id == old(self).next_id
                    &&& final(self).ledger == old(self).ledger
                    &&& final(self).purchasing == old(self).purchasing
                    &&& final(self).sales == old(self).sales
                    &&& final(self).manufacturing == old(self).manufacturing
                },
                None => r is Err && r->Err_0@ == account_not_deletable() && *final(self) == *old(
                    self,
                ),
            },
    {
        proof {
            lemma_find(self.accounting.accounts@, tenant_id, id);
        }
        match position(&self.accounting.accounts, tenant_id, id) {
            Some(at) => {
                if self.accounting.accounts[at].is_system {
                    return Err(Error::not_found("Account not found or is a system account"));
                }
                let _ = self.accounting.accounts.remove(at);
                Ok(())
            },
            None => Err(Error::not_found("Account not found or is a system account")),
        }
    }

    /// Creates a bill of the tenant: open, with nothing paid, dated today
    /// where no date is given.
    pub fn create_bill(&mut self, tenant_id: u128, input: CreateBill, today: Date) -> (r: Result<
        Bill,
        Error,
    >)
        requires
            old(self).wf(),
        ensures
            final(self).wf(),
            match old(self).reserve_spec(1) {
                Ok(id) => {
                    &&& r is Ok
                    &&& Bill::is_created(r->Ok_0, id, tenant_id, input, today)
                    &&& final(self).accounting.bills@ == old(self).accounting.bills@.push(r->Ok_0)
                    &&& final(self).accounting.invoices == old(self).accounting.invoices
                    &&& final(self).accounting.payments == old(self).accounting.payments
                    &&& final(self).accounting.accounts == old(self).accounting.accounts
                    &&& final(self).accounting.journal_entries
                        == old(self).accounting.journal_entries
                    &&& final(self).accounting.journal_lines == old(self).accounting.journal_lines
                    &&& final(self).next_id == old(self).next_id + 1
                    &&& final(self).ledger == old(self).ledger
                    &&& final(self).purchasing == old(self).purchasing
                    &&& final(self).sales == old(self).sales
                    &&& final(self).manufacturing == old(self).manufacturing
                },
                Err(e) => r is Err && r->Err_0@ == e && *final(self) == *old(self),
            },
    {
        let id = match self.reserve(1) {
            Ok(id) => id,
            Err(e) => {
                return Err(e);
            },
        };
        let bill = Bill::create(id, tenant_id, input, today);
        let copy = bill.clone();
        self.accounting.bills.push(bill);
        self.next_id = self.next_id + 1;
        Ok(copy)
    }

    /// The tenant's bills by date, the latest first; those that agree in it in the order in
    /// which they were created.
    pub fn list_bills(&self, tenant_id: u128) -> (r: Vec<Bill>)
        ensures
            r@ == sorted(of_tenant(self.accounting.bills@, tenant_id)),
            is_ordered(r@),
    {
        list_sorted(&self.accounting.bills, tenant_id)
    }

    /// What creating a journal entry with the given lines leads to: its
    /// identifier, or why it is refused.
    pub open spec fn journal_entry_outcome(&self, lines: Seq<CreateJournalEntryLine>) -> Result<
        u128,
        ErrorView,
    > {
        if lines.len() > i32::MAX {
            Err(too_many_lines())
        } else {
            self.reserve_spec(1 + lines.len() as int)
        }
    }

    /// Creates a journal entry of the tenant with its lines, dated today
    /// where no date is given. That debits equal credits is not asked.
    pub fn create_journal_entry(&mut self, tenant_id: u128, input: CreateJournalEntry, today: Date) -> (r:
        Result<JournalEntry, Error>)
        requires
            old(self).wf(),
        ensures
            final(self).wf(),
            match old(self).journal_entry_outcome(input.lines@) {
                Ok(id) => {
                    &&& r == Ok::<JournalEntry, Error>(
                        created_journal_entry(id, tenant_id, input, today),
                    )
                    &&& final(self).accounting.journal_entries@
                        == old(self).accounting.journal_entries@.push(r->Ok_0)
                    &&& final(self).accounting.journal_lines@
                        == old(self).accounting.journal_lines@ + stored_journal_lines(
                        id,
                        (id + 1) as u128,
                        input.lines@,
                    )
                    &&& final(self).accounting.invoices == old(self).accounting.invoices
                    &&& final(self).accounting.payments == old(self).accounting.payments
                    &&& final(self).accounting.accounts == old(self).accounting.accounts
                    &&& final(self).accounting.bills == old(self).accounting.bills
                    &&& final(self).next_id == old(self).next_id + 1 + input.lines@.len()
                    &&& final(self).ledger == old(self).ledger
                    &&& final(self).purchasing == old(self).purchasing
                    &&& final(self).sales == old(self).sales
                    &&& final(self).manufacturing == old(self).manufacturing
                },
                Err(e) => r is Err && r->Err_0@ == e && *final(self) == *old(self),
            },
    {
        let count = input.lines.len();
        if count > i32::MAX as usize {
            return Err(Error::Validation(String::from_str("too many lines")));
        }
        let id = match self.reserve(1 + count as u128) {
            Ok(id) => id,
            Err(e) => {
                return Err(e);
            },
        };
        let ghost before = self.accounting.journal_lines@;
        let ghost added = stored_journal_lines(id, (id + 1) as u128, input.lines@);
        let mut k: usize = 0;
        while k < count
            invariant
                k <= count,
                count == input.lines@.len(),
                count <= i32::MAX,
                id + 1 + count <= u128::MAX,
                added == stored_journal_lines(id, (id + 1) as u128, input.lines@),
                self.accounting.journal_lines@ == before + added.take(k as int),
                self.accounting.invoices == old(self).accounting.invoices,
                self.accounting.payments == old(self).accounting.payments,
                self.accounting.accounts == old(self).accounting.accounts,
                self.accounting.bills == old(self).accounting.bills,
                self.accounting.journal_entries == old(self).accounting.journal_entries,
                self.next_id == old(self).next_id,
                self.ledger == old(self).ledger,
                self.purchasing == old(self).purchasing,
                self.sales == old(self).sales,
                self.manufacturing == old(self).manufacturing,
            decreases count - k,
        {
            let line = &input.lines[k];
            let stored = JournalEntryLine {
                id: id + 1 + k as u128,
                entry_id: id,
                account_id: line.account_id,
                debit: line.debit,
                credit: line.credit,
                memo: clone_optional(&line.memo),
                sort_order: k as i32,
            };
            proof {
                assert(stored == added[k as int]);
                assert((before + added.take(k as int)).push(stored) =~= before + added.take(
                    k as int + 1,
                ));
            }
            self.accounting.journal_lines.push(stored);
            k += 1;
        }
        assert(added.take(k as int) =~= added);
        let entry = JournalEntry {
            id,
            tenant_id,
            entry_number: input.entry_number,
            date: match input.date {
                Some(date) => date,
                None => today,
            },
            memo: input.memo,
            is_adjusting: input.is_adjusting,
        };
        let copy = entry.clone();
        self.accounting.journal_entries.push(entry);
        self.next_id = self.next_id + 1 + count as u128;
        Ok(copy)
    }

    /// The tenant's journal entries by date, the latest first; those that agree in it in the order in
    /// which they were created.
    pub fn list_journal_entries(&self, tenant_id: u128) -> (r: Vec<JournalEntry>)
        ensures
            r@ == sorted(of_tenant(self.accounting.journal_entries@, tenant_id)),
            is_ordered(r@),
    {
        list_sorted(&self.accounting.journal_entries, tenant_id)
    }
}

} // verus!
