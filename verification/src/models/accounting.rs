//! Invoices and the payments made against them.
//!
//! Once payments begin, an invoice's status follows from what has been
//! paid: `Paid` where that is at least the invoice's total, otherwise
//! `PartiallyPaid`. A payment is never capped: paying more than the total
//! is accepted.
use crate::date::Date;
use crate::decimal::Decimal;
use crate::error::{Error, ErrorView};
use crate::text::{clone_optional, same_text};
use crate::table::Row;
use vstd::prelude::*;
use vstd::string::*;

verus! {

/// Where an invoice stands.
#[derive(Debug, Clone, Copy, PartialEq, Eq, Structural)]
pub enum InvoiceStatus {
    Draft,
    Sent,
    Paid,
    PartiallyPaid,
    Overdue,
    Cancelled,
}

impl InvoiceStatus {
    /// The status as it is stored and sent.
    pub open spec fn code(self) -> Seq<char> {
        match self {
            InvoiceStatus::Draft => "DRAFT"@,
            InvoiceStatus::Sent => "SENT"@,
            InvoiceStatus::Paid => "PAID"@,
            InvoiceStatus::PartiallyPaid => "PARTIALLY_PAID"@,
            InvoiceStatus::Overdue => "OVERDUE"@,
            InvoiceStatus::Cancelled => "CANCELLED"@,
        }
    }

    /// The status as it is stored and sent.
    pub fn as_str(&self) -> (r: &'static str)
        ensures
            r@ == self.code(),
    {
        match self {
            InvoiceStatus::Draft => "DRAFT",
            InvoiceStatus::Sent => "SENT",
            InvoiceStatus::Paid => "PAID",
            InvoiceStatus::PartiallyPaid => "PARTIALLY_PAID",
            InvoiceStatus::Overdue => "OVERDUE",
            InvoiceStatus::Cancelled => "CANCELLED",
        }
    }

    /// The status that `text` is the stored form of, if it is one.
    pub fn parse(text: &str) -> (r: Option<InvoiceStatus>)
        ensures
            match r {
                Some(status) => status.code() == text@,
                None => forall|status: InvoiceStatus| status.code() != text@,
            },
    {
        if same_text(text, "DRAFT") {
            Some(InvoiceStatus::Draft)
        } else if same_text(text, "SENT") {
            Some(InvoiceStatus::Sent)
        } else if same_text(text, "PAID") {
            Some(InvoiceStatus::Paid)
        } else if same_text(text, "PARTIALLY_PAID") {
            Some(InvoiceStatus::PartiallyPaid)
        } else if same_text(text, "OVERDUE") {
            Some(InvoiceStatus::Overdue)
        } else if same_text(text, "CANCELLED") {
            Some(InvoiceStatus::Cancelled)
        } else {
            None
        }
    }

    /// No two statuses are stored alike.
    pub proof fn lemma_code_injective(a: InvoiceStatus, b: InvoiceStatus)
        requires
            a.code() == b.code(),
        ensures
            a == b,
    {
        reveal_strlit("DRAFT");
        reveal_strlit("SENT");
        reveal_strlit("PAID");
        reveal_strlit("PARTIALLY_PAID");
        reveal_strlit("OVERDUE");
        reveal_strlit("CANCELLED");
        assert("DRAFT"@.len() == 5);
        assert("SENT"@.len() == 4 && "SENT"@[0] == 'S');
        assert("PAID"@.len() == 4 && "PAID"@[0] == 'P');
        assert("PARTIALLY_PAID"@.len() == 14);
        assert("OVERDUE"@.len() == 7);
        assert("CANCELLED"@.len() == 9);
    }
}

/// How a payment was made.
#[derive(Debug, Clone, Copy, PartialEq, Eq, Structural)]
pub enum PaymentMethod {
    Cash,
    BankTransfer,
    CreditCard,
    Other,
}

impl PaymentMethod {
    /// The method as it is stored and sent.
    pub open spec fn code(self) -> Seq<char> {
        match self {
            PaymentMethod::Cash => "CASH"@,
            PaymentMethod::BankTransfer => "BANK_TRANSFER"@,
            PaymentMethod::CreditCard => "CREDIT_CARD"@,
            PaymentMethod::Other => "OTHER"@,
        }
    }

    /// The method as it is stored and sent.
    pub fn as_str(&self) -> (r: &'static str)
        ensures
            r@ == self.code(),
    {
        match self {
            PaymentMethod::Cash => "CASH",
            PaymentMethod::BankTransfer => "BANK_TRANSFER",
            PaymentMethod::CreditCard => "CREDIT_CARD",
            PaymentMethod::Other => "OTHER",
        }
    }

    /// The method that `text` is the stored form of, if it is one.
    pub fn parse(text: &str) -> (r: Option<PaymentMethod>)
        ensures
            match r {
                Some(method) => method.code() == text@,
                None => forall|method: PaymentMethod| method.code() != text@,
            },
    {
        if same_text(text, "CASH") {
            Some(PaymentMethod::Cash)
        } else if same_text(text, "BANK_TRANSFER") {
            Some(PaymentMethod::BankTransfer)
        } else if same_text(text, "CREDIT_CARD") {
            Some(PaymentMethod::CreditCard)
        } else if same_text(text, "OTHER") {
            Some(PaymentMethod::Other)
        } else {
            None
        }
    }

    /// No two methods are stored alike.
    pub proof fn lemma_code_injective(a: PaymentMethod, b: PaymentMethod)
        requires
            a.code() == b.code(),
        ensures
            a == b,
    {
        reveal_strlit("CASH");
        reveal_strlit("BANK_TRANSFER");
        reveal_strlit("CREDIT_CARD");
        reveal_strlit("OTHER");
        assert("CASH"@.len() == 4);
        assert("BANK_TRANSFER"@.len() == 13);
        assert("CREDIT_CARD"@.len() == 11);
        assert("OTHER"@.len() == 5);
    }
}

/// A claim on a customer.
#[derive(Debug, PartialEq)]
pub struct Invoice {
    pub id: u128,
    pub tenant_id: u128,
    pub customer_id: u128,
    pub sales_order_id: Option<u128>,
    pub invoice_number: String,
    pub date: Date,
    pub due_date: Date,
    pub status: InvoiceStatus,
    pub total_amount: Decimal,
    /// What has been paid so far; it only grows by the payments recorded.
    pub amount_paid: Decimal,
}

/// A payment made against an invoice. A payment is written once and never
/// changed.
#[derive(Debug, PartialEq)]
pub struct Payment {
    pub id: u128,
    pub tenant_id: u128,
    pub invoice_id: u128,
    pub amount: Decimal,
    pub date: Date,
    pub method: PaymentMethod,
    pub reference: Option<String>,
}

/// What is given to create an invoice.
#[derive(Debug, PartialEq)]
pub struct CreateInvoice {
    pub customer_id: u128,
    pub sales_order_id: Option<u128>,
    pub invoice_number: String,
    pub date: Date,
    pub due_date: Date,
    pub total_amount: Decimal,
}

/// What is given to record a payment.
#[derive(Debug, PartialEq)]
pub struct CreatePayment {
    pub invoice_id: u128,
    pub amount: Decimal,
    pub date: Date,
    pub method: PaymentMethod,
    pub reference: Option<String>,
}

impl Clone for Invoice {
    fn clone(&self) -> (r: Invoice)
        ensures
            r == *self,
    {
        Invoice {
            id: self.id,
            tenant_id: self.tenant_id,
            customer_id: self.customer_id,
            sales_order_id: self.sales_order_id,
            invoice_number: self.invoice_number.clone(),
            date: self.date,
            due_date: self.due_date,
            status: self.status,
            total_amount: self.total_amount,
            amount_paid: self.amount_paid,
        }
    }
}

impl Clone for Payment {
    fn clone(&self) -> (r: Payment)
        ensures
            r == *self,
    {
        Payment {
            id: self.id,
            tenant_id: self.tenant_id,
            invoice_id: self.invoice_id,
            amount: self.amount,
            date: self.date,
            method: self.method,
            reference: clone_optional(&self.reference),
        }
    }
}

/// What is reported for an invoice that the tenant does not have.
pub open spec fn invoice_not_found() -> ErrorView {
    ErrorView::NotFound("Invoice not found"@)
}

/// The status of an invoice on which `paid` has been paid of `total`.
pub open spec fn status_after_payment(paid: Decimal, total: Decimal) -> InvoiceStatus {
    if paid.ge_spec(total) {
        InvoiceStatus::Paid
    } else {
        InvoiceStatus::PartiallyPaid
    }
}

impl Invoice {
    /// The new invoice that `input` describes: a draft, with nothing paid.
    pub open spec fn created(id: u128, tenant_id: u128, input: CreateInvoice) -> Invoice {
        Invoice {
            id,
            tenant_id,
            customer_id: input.customer_id,
            sales_order_id: input.sales_order_id,
            invoice_number: input.invoice_number,
            date: input.date,
            due_date: input.due_date,
            status: InvoiceStatus::Draft,
            total_amount: input.total_amount,
            amount_paid: Decimal::zero_spec(),
        }
    }

    /// This invoice with another amount paid and another status.
    pub open spec fn with_paid(self, paid: Decimal, status: InvoiceStatus) -> Invoice {
        Invoice {
            id: self.id,
            tenant_id: self.tenant_id,
            customer_id: self.customer_id,
            sales_order_id: self.sales_order_id,
            invoice_number: self.invoice_number,
            date: self.date,
            due_date: self.due_date,
            status,
            total_amount: self.total_amount,
            amount_paid: paid,
        }
    }

    /// The invoice after a payment of `amount`: the amount is added to
    /// what has been paid, and the status follows from the new sum. `None`
    /// where that sum leaves the range of a decimal.
    pub open spec fn after_payment(self, amount: Decimal) -> Option<Invoice> {
        match self.amount_paid.add_spec(amount) {
            Some(paid) => Some(self.with_paid(paid, status_after_payment(paid, self.total_amount))),
            None => None,
        }
    }

    /// Whether the invoice is still owed: neither paid nor cancelled.
    pub open spec fn is_open(self) -> bool {
        self.status != InvoiceStatus::Paid && self.status != InvoiceStatus::Cancelled
    }

    /// Makes the invoice that `input` describes.
    pub fn create(id: u128, tenant_id: u128, input: CreateInvoice) -> (r: Invoice)
        ensures
            r == Invoice::created(id, tenant_id, input),
    {
        Invoice {
            id,
            tenant_id,
            customer_id: input.customer_id,
            sales_order_id: input.sales_order_id,
            invoice_number: input.invoice_number,
            date: input.date,
            due_date: input.due_date,
            status: InvoiceStatus::Draft,
            total_amount: input.total_amount,
            amount_paid: Decimal::zero(),
        }
    }

    /// The invoice once `paid` has been paid on it in all: `Paid` where
    /// that is at least the total, else `PartiallyPaid`.
    pub fn paid_up(&self, paid: Decimal) -> (r: Invoice)
        ensures
            r == self.with_paid(paid, status_after_payment(paid, self.total_amount)),
    {
        let status = if paid.at_least(self.total_amount) {
            InvoiceStatus::Paid
        } else {
            InvoiceStatus::PartiallyPaid
        };
        Invoice {
            id: self.id,
            tenant_id: self.tenant_id,
            customer_id: self.customer_id,
            sales_order_id: self.sales_order_id,
            invoice_number: self.invoice_number.clone(),
            date: self.date,
            due_date: self.due_date,
            status,
            total_amount: self.total_amount,
            amount_paid: paid,
        }
    }

    /// Applies a payment of `amount` to the invoice.
    pub fn apply_payment(&self, amount: Decimal) -> (r: Result<Invoice, Error>)
        ensures
            match self.after_payment(amount) {
                Some(invoice) => r == Ok::<Invoice, Error>(invoice),
                None => r is Err && r->Err_0@ == ErrorView::out_of_range(),
            },
    {
        match self.amount_paid.checked_add(amount) {
            Some(paid) => Ok(self.paid_up(paid)),
            None => Err(Error::out_of_range()),
        }
    }

    /// Whether the invoice is still owed.
    pub fn open(&self) -> (r: bool)
        ensures
            r == self.is_open(),
    {
        match self.status {
            InvoiceStatus::Paid => false,
            InvoiceStatus::Cancelled => false,
            _ => true,
        }
    }
}

impl Payment {
    /// The payment that recording `input` for the tenant gives.
    pub open spec fn created(id: u128, tenant_id: u128, input: CreatePayment) -> Payment {
        Payment {
            id,
            tenant_id,
            invoice_id: input.invoice_id,
            amount: input.amount,
            date: input.date,
            method: input.method,
            reference: input.reference,
        }
    }

    /// Makes the payment that `input` describes.
    pub fn create(id: u128, tenant_id: u128, input: CreatePayment) -> (r: Payment)
        ensures
            r == Payment::created(id, tenant_id, input),
    {
        Payment {
            id,
            tenant_id,
            invoice_id: input.invoice_id,
            amount: input.amount,
            date: input.date,
            method: input.method,
            reference: input.reference,
        }
    }
}

impl Row for Invoice {
    open spec fn tenant_spec(&self) -> u128 {
        self.tenant_id
    }

    open spec fn id_spec(&self) -> u128 {
        self.id
    }

    fn tenant(&self) -> (r: u128) {
        self.tenant_id
    }

    fn id(&self) -> (r: u128) {
        self.id
    }

    fn duplicate(&self) -> (r: Invoice) {
        self.clone()
    }
}

impl Row for Payment {
    open spec fn tenant_spec(&self) -> u128 {
        self.tenant_id
    }

    open spec fn id_spec(&self) -> u128 {
        self.id
    }

    fn tenant(&self) -> (r: u128) {
        self.tenant_id
    }

    fn id(&self) -> (r: u128) {
        self.id
    }

    fn duplicate(&self) -> (r: Payment) {
        self.clone()
    }
}


} // verus!
