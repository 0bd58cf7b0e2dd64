//! Suppliers and purchase orders.
//!
//! A purchase order is created as a draft and is received once, when it
//! stands at `Ordered`: receiving it moves each line's quantity into stock.
use crate::date::Date;
use crate::decimal::{sum_of_products, sum_of_products_spec, Decimal};
use crate::error::{Error, ErrorView};
use crate::models::inventory::{
    posting_views, CreateInventoryTransaction, PostingView, TransactionType,
};
use crate::text::{clone_optional, same_text};
use crate::order::{key_of_name, name_key, SortKey, SortKeyView, Sortable};
use crate::table::{Child, Row};
use vstd::prelude::*;
use vstd::string::*;

verus! {

/// Someone the tenant buys from.
#[derive(Debug, PartialEq)]
pub struct Supplier {
    pub id: u128,
    pub tenant_id: u128,
    pub name: String,
    pub email: Option<String>,
    pub phone: Option<String>,
    pub address: Option<String>,
    pub contact_person: Option<String>,
}

/// What is given to create a supplier.
#[derive(Debug, PartialEq)]
pub struct CreateSupplier {
    pub name: String,
    pub email: Option<String>,
    pub phone: Option<String>,
    pub address: Option<String>,
    pub contact_person: Option<String>,
}

impl Clone for Supplier {
    fn clone(&self) -> (r: Supplier)
        ensures
            r == *self,
    {
        Supplier {
            id: self.id,
            tenant_id: self.tenant_id,
            name: self.name.clone(),
            email: clone_optional(&self.email),
            phone: clone_optional(&self.phone),
            address: clone_optional(&self.address),
            contact_person: clone_optional(&self.contact_person),
        }
    }
}

impl Clone for CreateSupplier {
    fn clone(&self) -> (r: CreateSupplier)
        ensures
            r == *self,
    {
        CreateSupplier {
            name: self.name.clone(),
            email: clone_optional(&self.email),
            phone: clone_optional(&self.phone),
            address: clone_optional(&self.address),
            contact_person: clone_optional(&self.contact_person),
        }
    }
}

impl Supplier {
    /// The supplier that creating `input` for the tenant gives.
    pub open spec fn created(id: u128, tenant_id: u128, input: CreateSupplier) -> Supplier {
        Supplier {
            id,
            tenant_id,
            name: input.name,
            email: input.email,
            phone: input.phone,
            address: input.address,
            contact_person: input.contact_person,
        }
    }

    /// Makes the supplier that `input` describes.
    pub fn create(id: u128, tenant_id: u128, input: CreateSupplier) -> (r: Supplier)
        ensures
            r == Supplier::created(id, tenant_id, input),
    {
        Supplier {
            id,
            tenant_id,
            name: input.name,
            email: input.email,
            phone: input.phone,
            address: input.address,
            contact_person: input.contact_person,
        }
    }
}

/// Where a purchase order stands. `Received` and `Cancelled` are final.
#[derive(Debug, Clone, Copy, PartialEq, Eq, Structural)]
pub enum PurchaseOrderStatus {
    Draft,
    Ordered,
    Received,
    Cancelled,
}

impl PurchaseOrderStatus {
    /// The status as it is stored and sent.
    pub open spec fn code(self) -> Seq<char> {
        match self {
            PurchaseOrderStatus::Draft => "DRAFT"@,
            PurchaseOrderStatus::Ordered => "ORDERED"@,
            PurchaseOrderStatus::Received => "RECEIVED"@,
            PurchaseOrderStatus::Cancelled => "CANCELLED"@,
        }
    }

    /// The status as it is named in messages.
    pub open spec fn name(self) -> Seq<char> {
        match self {
            PurchaseOrderStatus::Draft => "Draft"@,
            PurchaseOrderStatus::Ordered => "Ordered"@,
            PurchaseOrderStatus::Received => "Received"@,
            PurchaseOrderStatus::Cancelled => "Cancelled"@,
        }
    }

    /// Whether no transition leaves this status.
    pub open spec fn is_terminal(self) -> bool {
        self == PurchaseOrderStatus::Received || self == PurchaseOrderStatus::Cancelled
    }

    /// The status as it is stored and sent.
    pub fn as_str(&self) -> (r: &'static str)
        ensures
            r@ == self.code(),
    {
        match self {
            PurchaseOrderStatus::Draft => "DRAFT",
            PurchaseOrderStatus::Ordered => "ORDERED",
            PurchaseOrderStatus::Received => "RECEIVED",
            PurchaseOrderStatus::Cancelled => "CANCELLED",
        }
    }

    /// The status as it is named in messages.
    pub fn debug_name(&self) -> (r: &'static str)
        ensures
            r@ == self.name(),
    {
        match self {
            PurchaseOrderStatus::Draft => "Draft",
            PurchaseOrderStatus::Ordered => "Ordered",
            PurchaseOrderStatus::Received => "Received",
            PurchaseOrderStatus::Cancelled => "Cancelled",
        }
    }

    /// The status that `text` is the stored form of, if it is one.
    pub fn parse(text: &str) -> (r: Option<PurchaseOrderStatus>)
        ensures
            match r {
                Some(status) => status.code() == text@,
                None => forall|status: PurchaseOrderStatus| status.code() != text@,
            },
    {
        if same_text(text, "DRAFT") {
            Some(PurchaseOrderStatus::Draft)
        } else if same_text(text, "ORDERED") {
            Some(PurchaseOrderStatus::Ordered)
        } else if same_text(text, "RECEIVED") {
            Some(PurchaseOrderStatus::Received)
        } else if same_text(text, "CANCELLED") {
            Some(PurchaseOrderStatus::Cancelled)
        } else {
            None
        }
    }

    /// No two statuses are stored alike.
    pub proof fn lemma_code_injective(a: PurchaseOrderStatus, b: PurchaseOrderStatus)
        requires
            a.code() == b.code(),
        ensures
            a == b,
    {
        reveal_strlit("DRAFT");
        reveal_strlit("ORDERED");
        reveal_strlit("RECEIVED");
        reveal_strlit("CANCELLED");
        assert("DRAFT"@.len() == 5);
        assert("ORDERED"@.len() == 7);
        assert("RECEIVED"@.len() == 8);
        assert("CANCELLED"@.len() == 9);
    }
}

/// An order placed with a supplier.
#[derive(Debug, PartialEq)]
pub struct PurchaseOrder {
    pub id: u128,
    pub tenant_id: u128,
    pub supplier_id: u128,
    pub order_number: String,
    pub date: Date,
    pub status: PurchaseOrderStatus,
    /// The sum of the lines' quantities times their unit prices.
    pub total_amount: Decimal,
}

/// One line of a purchase order.
#[derive(Debug, Clone, Copy, PartialEq)]
pub struct PurchaseOrderLine {
    pub id: u128,
    pub order_id: u128,
    pub product_id: u128,
    pub quantity: Decimal,
    pub unit_price: Decimal,
    /// Quantity times unit price.
    pub total_price: Decimal,
}

/// A line of a purchase order that is to be created.
#[derive(Debug, Clone, Copy, PartialEq)]
pub struct CreatePurchaseOrderLine {
    pub product_id: u128,
    pub quantity: Decimal,
    pub unit_price: Decimal,
}

/// What is given to create a purchase order.
#[derive(Debug, PartialEq)]
pub struct CreatePurchaseOrder {
    pub supplier_id: u128,
    pub order_number: String,
    pub date: Date,
    pub lines: Vec<CreatePurchaseOrderLine>,
}

impl Clone for PurchaseOrder {
    fn clone(&self) -> (r: PurchaseOrder)
        ensures
            r == *self,
    {
        PurchaseOrder {
            id: self.id,
            tenant_id: self.tenant_id,
            supplier_id: self.supplier_id,
            order_number: self.order_number.clone(),
            date: self.date,
            status: self.status,
            total_amount: self.total_amount,
        }
    }
}

/// Quantity and unit price of each line, in order.
pub open spec fn priced(lines: Seq<CreatePurchaseOrderLine>) -> Seq<(Decimal, Decimal)> {
    lines.map_values(|line: CreatePurchaseOrderLine| (line.quantity, line.unit_price))
}

/// The total of an order with the given lines: the sum of quantity times
/// unit price over the lines. `None` where it leaves the range of a decimal.
pub open spec fn order_total_spec(lines: Seq<CreatePurchaseOrderLine>) -> Option<Decimal> {
    sum_of_products_spec(priced(lines))
}

/// The total of an order with the given lines.
pub fn order_total(lines: &Vec<CreatePurchaseOrderLine>) -> (r: Result<Decimal, Error>)
    ensures
        match order_total_spec(lines@) {
            Some(total) => r == Ok::<Decimal, Error>(total),
            None => r is Err && r->Err_0@ == ErrorView::out_of_range(),
        },
{
    let mut pairs: Vec<(Decimal, Decimal)> = Vec::new();
    let mut i: usize = 0;
    while i < lines.len()
        invariant
            i <= lines.len(),
            pairs@ == priced(lines@).take(i as int),
        decreases lines.len() - i,
    {
        pairs.push((lines[i].quantity, lines[i].unit_price));
        assert(pairs@ =~= priced(lines@).take(i as int + 1));
        i += 1;
    }
    assert(pairs@ =~= priced(lines@));
    match sum_of_products(&pairs) {
        Some(total) => Ok(total),
        None => Err(Error::out_of_range()),
    }
}

/// What is reported for receiving an order that does not stand at
/// `Ordered`.
pub open spec fn cannot_receive(status: PurchaseOrderStatus) -> ErrorView {
    ErrorView::BusinessRule(
        "Cannot receive order with status "@ + status.name() + ". Must be ORDERED."@,
    )
}

/// What is reported for an order that the tenant does not have.
pub open spec fn purchase_order_not_found() -> ErrorView {
    ErrorView::NotFound("Purchase Order not found"@)
}

/// The note on the ledger entries of a received order.
pub open spec fn receipt_note(order_number: Seq<char>) -> Seq<char> {
    "Received PO "@ + order_number
}

/// The movement that receiving one line causes: its quantity comes into
/// stock.
pub open spec fn receipt_posting(order: PurchaseOrder, line: PurchaseOrderLine) -> PostingView {
    PostingView {
        product_id: line.product_id,
        quantity: line.quantity,
        transaction_type: TransactionType::Purchase,
        reference_id: Some(order.id),
        notes: Some(receipt_note(order.order_number@)),
    }
}

/// The movements that receiving the order causes: one for each line, in
/// the order of the lines.
pub open spec fn receipt_postings_spec(order: PurchaseOrder, lines: Seq<PurchaseOrderLine>) -> Seq<
    PostingView,
> {
    Seq::new(lines.len(), |i: int| receipt_posting(order, lines[i]))
}

impl PurchaseOrder {
    /// The new order that `input` describes: a draft, with its total.
    pub open spec fn created(
        id: u128,
        tenant_id: u128,
        input: CreatePurchaseOrder,
        total: Decimal,
    ) -> PurchaseOrder {
        PurchaseOrder {
            id,
            tenant_id,
            supplier_id: input.supplier_id,
            order_number: input.order_number,
            date: input.date,
            status: PurchaseOrderStatus::Draft,
            total_amount: total,
        }
    }

    /// This order with another status.
    pub open spec fn with_status(self, status: PurchaseOrderStatus) -> PurchaseOrder {
        PurchaseOrder {
            id: self.id,
            tenant_id: self.tenant_id,
            supplier_id: self.supplier_id,
            order_number: self.order_number,
            date: self.date,
            status,
            total_amount: self.total_amount,
        }
    }

    /// Whether the order can be received: only from `Ordered`.
    pub open spec fn receivable(self) -> bool {
        self.status == PurchaseOrderStatus::Ordered
    }

    /// Accepts the order for receiving, or says why it cannot be received.
    pub fn check_receivable(&self) -> (r: Result<(), Error>)
        ensures
            self.receivable() ==> r is Ok,
            !self.receivable() ==> r is Err && r->Err_0@ == cannot_receive(self.status),
    {
        match self.status {
            PurchaseOrderStatus::Ordered => Ok(()),
            _ => {
                let mut text = String::from_str("Cannot receive order with status ");
                text.append(self.status.debug_name());
                text.append(". Must be ORDERED.");
                Err(Error::BusinessRule(text))
            },
        }
    }

    /// The order as it stands once received.
    pub fn received(&self) -> (r: PurchaseOrder)
        ensures
            r == self.with_status(PurchaseOrderStatus::Received),
    {
        PurchaseOrder {
            id: self.id,
            tenant_id: self.tenant_id,
            supplier_id: self.supplier_id,
            order_number: self.order_number.clone(),
            date: self.date,
            status: PurchaseOrderStatus::Received,
            total_amount: self.total_amount,
        }
    }

    /// The movements of stock that receiving the order causes.
    pub fn receipt_postings(&self, lines: &Vec<PurchaseOrderLine>) -> (r: Vec<
        CreateInventoryTransaction,
    >)
        ensures
            posting_views(r@) == receipt_postings_spec(*self, lines@),
    {
        let mut postings: Vec<CreateInventoryTransaction> = Vec::new();
        let mut i: usize = 0;
        while i < lines.len()
            invariant
                i <= lines.len(),
                posting_views(postings@) == receipt_postings_spec(*self, lines@).take(i as int),
            decreases lines.len() - i,
        {
            let note = String::from_str("Received PO ").concat(self.order_number.as_str());
            let posting = CreateInventoryTransaction {
                product_id: lines[i].product_id,
                quantity: lines[i].quantity,
                transaction_type: TransactionType::Purchase,
                reference_id: Some(self.id),
                notes: Some(note),
            };
            proof {
                let all = receipt_postings_spec(*self, lines@);
                assert(posting@ == all[i as int]);
                assert(posting_views(postings@.push(posting)) =~= posting_views(postings@).push(
                    posting@,
                ));
                assert(all.take(i as int).push(all[i as int]) =~= all.take(i as int + 1));
            }
            postings.push(posting);
            i += 1;
        }
        assert(receipt_postings_spec(*self, lines@).take(i as int) =~= receipt_postings_spec(
            *self,
            lines@,
        ));
        postings
    }
}

impl Row for Supplier {
    open spec fn tenant_spec(&self) -> u128 {
        self.tenant_id
    }

    open spec fn id_spec(&self) -> u128 {
        self.id
    }

    fn tenant(&self) -> (r: u128) {
        self.tenant_id
    }

    fn id(&self) -> (r: u128) {
        self.id
    }

    fn duplicate(&self) -> (r: Supplier) {
        self.clone()
    }
}

impl Row for PurchaseOrder {
    open spec fn tenant_spec(&self) -> u128 {
        self.tenant_id
    }

    open spec fn id_spec(&self) -> u128 {
        self.id
    }

    fn tenant(&self) -> (r: u128) {
        self.tenant_id
    }

    fn id(&self) -> (r: u128) {
        self.id
    }

    fn duplicate(&self) -> (r: PurchaseOrder) {
        self.clone()
    }
}

impl Child for PurchaseOrderLine {
    open spec fn parent_spec(&self) -> u128 {
        self.order_id
    }

    fn parent(&self) -> (r: u128) {
        self.order_id
    }
}

impl Sortable for Supplier {
    /// Suppliers are listed by name.
    open spec fn sort_key_spec(&self) -> SortKeyView {
        name_key(self.name@)
    }

    fn sort_key(&self) -> (r: SortKey) {
        key_of_name(&self.name)
    }

    fn replica(&self) -> (r: Supplier) {
        self.duplicate()
    }
}

} // verus!
