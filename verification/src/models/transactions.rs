//! Bills and the journal.
use crate::date::Date;
use crate::decimal::Decimal;
use crate::order::{key_of_latest_day, latest_day_key, SortKey, SortKeyView, Sortable};
use crate::table::Row;
use crate::text::clone_optional;
use vstd::prelude::*;
use vstd::string::*;

verus! {

/// A claim of a supplier on the tenant.
#[derive(Debug, PartialEq)]
pub struct Bill {
    pub id: u128,
    pub tenant_id: u128,
    pub supplier_id: u128,
    pub bill_number: String,
    pub date: Date,
    pub due_date: Date,
    pub status: String,
    pub total_amount: Decimal,
    pub amount_paid: Decimal,
    pub terms: Option<String>,
    pub notes: Option<String>,
}

/// What is given to create a bill.
#[derive(Debug, PartialEq)]
pub struct CreateBill {
    pub supplier_id: u128,
    pub bill_number: String,
    /// The bill's date; today where none is given.
    pub date: Option<Date>,
    pub due_date: Date,
    pub total_amount: Decimal,
    pub terms: Option<String>,
    pub notes: Option<String>,
}

/// An entry of the journal: a set of debit and credit lines against
/// accounts. That the lines balance is not asked.
#[derive(Debug, PartialEq)]
pub struct JournalEntry {
    pub id: u128,
    pub tenant_id: u128,
    pub entry_number: String,
    pub date: Date,
    pub memo: Option<String>,
    pub is_adjusting: bool,
}

/// One line of a journal entry.
#[derive(Debug, PartialEq)]
pub struct JournalEntryLine {
    pub id: u128,
    pub entry_id: u128,
    pub account_id: u128,
    pub debit: Decimal,
    pub credit: Decimal,
    pub memo: Option<String>,
    /// The line's place in its entry, counted from 0.
    pub sort_order: i32,
}

/// A line of a journal entry that is to be created.
#[derive(Debug, PartialEq)]
pub struct CreateJournalEntryLine {
    pub account_id: u128,
    pub debit: Decimal,
    pub credit: Decimal,
    pub memo: Option<String>,
}

/// What is given to create a journal entry.
#[derive(Debug, PartialEq)]
pub struct CreateJournalEntry {
    pub entry_number: String,
    /// The entry's date; today where none is given.
    pub date: Option<Date>,
    pub memo: Option<String>,
    pub is_adjusting: bool,
    pub lines: Vec<CreateJournalEntryLine>,
}

impl Clone for Bill {
    fn clone(&self) -> (r: Bill)
        ensures
            r == *self,
    {
        Bill {
            id: self.id,
            tenant_id: self.tenant_id,
            supplier_id: self.supplier_id,
            bill_number: self.bill_number.clone(),
            date: self.date,
            due_date: self.due_date,
            status: self.status.clone(),
            total_amount: self.total_amount,
            amount_paid: self.amount_paid,
            terms: clone_optional(&self.terms),
            notes: clone_optional(&self.notes),
        }
    }
}

impl Clone for JournalEntry {
    fn clone(&self) -> (r: JournalEntry)
        ensures
            r == *self,
    {
        JournalEntry {
            id: self.id,
            tenant_id: self.tenant_id,
            entry_number: self.entry_number.clone(),
            date: self.date,
            memo: clone_optional(&self.memo),
            is_adjusting: self.is_adjusting,
        }
    }
}

impl Clone for JournalEntryLine {
    fn clone(&self) -> (r: JournalEntryLine)
        ensures
            r == *self,
    {
        JournalEntryLine {
            id: self.id,
            entry_id: self.entry_id,
            account_id: self.account_id,
            debit: self.debit,
            credit: self.credit,
            memo: clone_optional(&self.memo),
            sort_order: self.sort_order,
        }
    }
}

/// The status in which a bill is created.
pub open spec fn open_status() -> Seq<char> {
    "OPEN"@
}

/// The status of a bill that is paid.
pub open spec fn paid_status() -> Seq<char> {
    "PAID"@
}

impl Bill {
    /// Whether `bill` is the bill that creating `input` for the tenant on
    /// the day `today` gives: open, with nothing paid.
    pub open spec fn is_created(bill: Bill, id: u128, tenant_id: u128, input: CreateBill, today: Date) -> bool {
        &&& bill.id == id
        &&& bill.tenant_id == tenant_id
        &&& bill.supplier_id == input.supplier_id
        &&& bill.bill_number == input.bill_number
        &&& bill.date == match input.date {
            Some(date) => date,
            None => today,
        }
        &&& bill.due_date == input.due_date
        &&& bill.status@ == open_status()
        &&& bill.total_amount == input.total_amount
        &&& bill.amount_paid == Decimal::zero_spec()
        &&& bill.terms == input.terms
        &&& bill.notes == input.notes
    }

    /// Whether the bill is still owed: it is not paid.
    pub open spec fn is_open(self) -> bool {
        self.status@ != paid_status()
    }

    /// Makes the bill that `input` describes.
    pub fn create(id: u128, tenant_id: u128, input: CreateBill, today: Date) -> (r: Bill)
        ensures
            Bill::is_created(r, id, tenant_id, input, today),
    {
        Bill {
            id,
            tenant_id,
            supplier_id: input.supplier_id,
            bill_number: input.bill_number,
            date: match input.date {
                Some(date) => date,
                None => today,
            },
            due_date: input.due_date,
            status: String::from_str("OPEN"),
            total_amount: input.total_amount,
            amount_paid: Decimal::zero(),
            terms: input.terms,
            notes: input.notes,
        }
    }

    /// Whether the bill is still owed.
    pub fn open(&self) -> (r: bool)
        ensures
            r == self.is_open(),
    {
        !crate::text::same_text(self.status.as_str(), "PAID")
    }
}

impl Row for Bill {
    open spec fn tenant_spec(&self) -> u128 {
        self.tenant_id
    }

    open spec fn id_spec(&self) -> u128 {
        self.id
    }

    fn tenant(&self) -> (r: u128) {
        self.tenant_id
    }

    fn id(&self) -> (r: u128) {
        self.id
    }

    fn duplicate(&self) -> (r: Bill) {
        self.clone()
    }
}

impl Row for JournalEntry {
    open spec fn tenant_spec(&self) -> u128 {
        self.tenant_id
    }

    open spec fn id_spec(&self) -> u128 {
        self.id
    }

    fn tenant(&self) -> (r: u128) {
        self.tenant_id
    }

    fn id(&self) -> (r: u128) {
        self.id
    }

    fn duplicate(&self) -> (r: JournalEntry) {
        self.clone()
    }
}

impl Sortable for Bill {
    /// Bills are listed by date, the latest first.
    open spec fn sort_key_spec(&self) -> SortKeyView {
        latest_day_key(self.date.number_spec())
    }

    fn sort_key(&self) -> (r: SortKey) {
        key_of_latest_day(self.date.number())
    }

    fn replica(&self) -> (r: Bill) {
        self.duplicate()
    }
}

impl Sortable for JournalEntry {
    /// Journal entries are listed by date, the latest first.
    open spec fn sort_key_spec(&self) -> SortKeyView {
        latest_day_key(self.date.number_spec())
    }

    fn sort_key(&self) -> (r: SortKey) {
        key_of_latest_day(self.date.number())
    }

    fn replica(&self) -> (r: JournalEntry) {
        self.duplicate()
    }
}

} // verus!
