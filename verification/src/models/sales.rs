//! Customers and sales orders.
//!
//! A sales order is created as a draft and is shipped once, when it stands
//! at `Confirmed`: shipping it takes each line's quantity out of stock.
use crate::date::Date;
use crate::decimal::{sum_of_products, sum_of_products_spec, Decimal};
use crate::error::{Error, ErrorView};
use crate::models::inventory::{
    posting_views, CreateInventoryTransaction, PostingView, TransactionType,
};
use crate::text::{clone_optional, same_text};
use crate::order::{key_of_name, name_key, SortKey, SortKeyView, Sortable};
use crate::table::{Child, Row};
use vstd::prelude::*;
use vstd::string::*;

verus! {

/// Someone the tenant sells to.
#[derive(Debug, PartialEq)]
pub struct Customer {
    pub id: u128,
    pub tenant_id: u128,
    pub name: String,
    pub email: Option<String>,
    pub phone: Option<String>,
    pub address: Option<String>,
}

/// What is given to create a customer.
#[derive(Debug, PartialEq)]
pub struct CreateCustomer {
    pub name: String,
    pub email: Option<String>,
    pub phone: Option<String>,
    pub address: Option<String>,
}

impl Clone for Customer {
    fn clone(&self) -> (r: Customer)
        ensures
            r == *self,
    {
        Customer {
            id: self.id,
            tenant_id: self.tenant_id,
            name: self.name.clone(),
            email: clone_optional(&self.email),
            phone: clone_optional(&self.phone),
            address: clone_optional(&self.address),
        }
    }
}

impl Clone for CreateCustomer {
    fn clone(&self) -> (r: CreateCustomer)
        ensures
            r == *self,
    {
        CreateCustomer {
            name: self.name.clone(),
            email: clone_optional(&self.email),
            phone: clone_optional(&self.phone),
            address: clone_optional(&self.address),
        }
    }
}

impl Customer {
    /// The customer that creating `input` for the tenant gives.
    pub open spec fn created(id: u128, tenant_id: u128, input: CreateCustomer) -> Customer {
        Customer {
            id,
            tenant_id,
            name: input.name,
            email: input.email,
            phone: input.phone,
            address: input.address,
        }
    }

    /// Makes the customer that `input` describes.
    pub fn create(id: u128, tenant_id: u128, input: CreateCustomer) -> (r: Customer)
        ensures
            r == Customer::created(id, tenant_id, input),
    {
        Customer {
            id,
            tenant_id,
            name: input.name,
            email: input.email,
            phone: input.phone,
            address: input.address,
        }
    }
}

/// Where a sales order stands. `Shipped` and `Cancelled` are final.
#[derive(Debug, Clone, Copy, PartialEq, Eq, Structural)]
pub enum SalesOrderStatus {
    Draft,
    Confirmed,
    Shipped,
    Cancelled,
}

impl SalesOrderStatus {
    /// The status as it is stored and sent.
    pub open spec fn code(self) -> Seq<char> {
        match self {
            SalesOrderStatus::Draft => "DRAFT"@,
            SalesOrderStatus::Confirmed => "CONFIRMED"@,
            SalesOrderStatus::Shipped => "SHIPPED"@,
            SalesOrderStatus::Cancelled => "CANCELLED"@,
        }
    }

    /// The status as it is named in messages.
    pub open spec fn name(self) -> Seq<char> {
        match self {
            SalesOrderStatus::Draft => "Draft"@,
            SalesOrderStatus::Confirmed => "Confirmed"@,
            SalesOrderStatus::Shipped => "Shipped"@,
            SalesOrderStatus::Cancelled => "Cancelled"@,
        }
    }

    /// Whether no transition leaves this status.
    pub open spec fn is_terminal(self) -> bool {
        self == SalesOrderStatus::Shipped || self == SalesOrderStatus::Cancelled
    }

    /// The status as it is stored and sent.
    pub fn as_str(&self) -> (r: &'static str)
        ensures
            r@ == self.code(),
    {
        match self {
            SalesOrderStatus::Draft => "DRAFT",
            SalesOrderStatus::Confirmed => "CONFIRMED",
            SalesOrderStatus::Shipped => "SHIPPED",
            SalesOrderStatus::Cancelled => "CANCELLED",
        }
    }

    /// The status as it is named in messages.
    pub fn debug_name(&self) -> (r: &'static str)
        ensures
            r@ == self.name(),
    {
        match self {
            SalesOrderStatus::Draft => "Draft",
            SalesOrderStatus::Confirmed => "Confirmed",
            SalesOrderStatus::Shipped => "Shipped",
            SalesOrderStatus::Cancelled => "Cancelled",
        }
    }

    /// The status that `text` is the stored form of, if it is one.
    pub fn parse(text: &str) -> (r: Option<SalesOrderStatus>)
        ensures
            match r {
                Some(status) => status.code() == text@,
                None => forall|status: SalesOrderStatus| status.code() != text@,
            },
    {
        if same_text(text, "DRAFT") {
            Some(SalesOrderStatus::Draft)
        } else if same_text(text, "CONFIRMED") {
            Some(SalesOrderStatus::Confirmed)
        } else if same_text(text, "SHIPPED") {
            Some(SalesOrderStatus::Shipped)
        } else if same_text(text, "CANCELLED") {
            Some(SalesOrderStatus::Cancelled)
        } else {
            None
        }
    }

    /// No two statuses are stored alike.
    pub proof fn lemma_code_injective(a: SalesOrderStatus, b: SalesOrderStatus)
        requires
            a.code() == b.code(),
        ensures
            a == b,
    {
        reveal_strlit("DRAFT");
        reveal_strlit("CONFIRMED");
        reveal_strlit("SHIPPED");
        reveal_strlit("CANCELLED");
        assert("DRAFT"@.len() == 5);
        assert("SHIPPED"@.len() == 7);
        assert("CONFIRMED"@.len() == 9 && "CONFIRMED"@[1] == 'O');
        assert("CANCELLED"@.len() == 9 && "CANCELLED"@[1] == 'A');
    }
}

/// An order placed by a customer.
#[derive(Debug, PartialEq)]
pub struct SalesOrder {
    pub id: u128,
    pub tenant_id: u128,
    pub customer_id: u128,
    pub order_number: String,
    pub date: Date,
    pub status: SalesOrderStatus,
    /// The sum of the lines' quantities times their unit prices.
    pub total_amount: Decimal,
}

/// One line of a sales order.
#[derive(Debug, Clone, Copy, PartialEq)]
pub struct SalesOrderLine {
    pub id: u128,
    pub order_id: u128,
    pub product_id: u128,
    pub quantity: Decimal,
    pub unit_price: Decimal,
    /// Quantity times unit price.
    pub total_price: Decimal,
}

/// A line of a sales order that is to be created.
#[derive(Debug, Clone, Copy, PartialEq)]
pub struct CreateSalesOrderLine {
    pub product_id: u128,
    pub quantity: Decimal,
    pub unit_price: Decimal,
}

/// What is given to create a sales order.
#[derive(Debug, PartialEq)]
pub struct CreateSalesOrder {
    pub customer_id: u128,
    pub order_number: String,
    pub date: Date,
    pub lines: Vec<CreateSalesOrderLine>,
}

/// The revenue of one month.
#[derive(Debug, PartialEq)]
pub struct SalesTrend {
    pub month: String,
    pub amount: Decimal,
}

impl Clone for SalesOrder {
    fn clone(&self) -> (r: SalesOrder)
        ensures
            r == *self,
    {
        SalesOrder {
            id: self.id,
            tenant_id: self.tenant_id,
            customer_id: self.customer_id,
            order_number: self.order_number.clone(),
            date: self.date,
            status: self.status,
            total_amount: self.total_amount,
        }
    }
}

/// Quantity and unit price of each line, in order.
pub open spec fn priced(lines: Seq<CreateSalesOrderLine>) -> Seq<(Decimal, Decimal)> {
    lines.map_values(|line: CreateSalesOrderLine| (line.quantity, line.unit_price))
}

/// The total of an order with the given lines: the sum of quantity times
/// unit price over the lines. `None` where it leaves the range of a decimal.
pub open spec fn order_total_spec(lines: Seq<CreateSalesOrderLine>) -> Option<Decimal> {
    sum_of_products_spec(priced(lines))
}

/// The total of an order with the given lines.
pub fn order_total(lines: &Vec<CreateSalesOrderLine>) -> (r: Result<Decimal, Error>)
    ensures
        match order_total_spec(lines@) {
            Some(total) => r == Ok::<Decimal, Error>(total),
            None => r is Err && r->Err_0@ == ErrorView::out_of_range(),
        },
{
    let mut pairs: Vec<(Decimal, Decimal)> = Vec::new();
    let mut i: usize = 0;
    while i < lines.len()
        invariant
            i <= lines.len(),
            pairs@ == priced(lines@).take(i as int),
        decreases lines.len() - i,
    {
        pairs.push((lines[i].quantity, lines[i].unit_price));
        assert(pairs@ =~= priced(lines@).take(i as int + 1));
        i += 1;
    }
    assert(pairs@ =~= priced(lines@));
    match sum_of_products(&pairs) {
        Some(total) => Ok(total),
        None => Err(Error::out_of_range()),
    }
}

/// What is reported for shipping an order that does not stand at
/// `Confirmed`.
pub open spec fn cannot_ship(status: SalesOrderStatus) -> ErrorView {
    ErrorView::BusinessRule(
        "Cannot ship order with status "@ + status.name() + ". Must be CONFIRMED."@,
    )
}

/// What is reported for an order that the tenant does not have.
pub open spec fn sales_order_not_found() -> ErrorView {
    ErrorView::NotFound("Sales Order not found"@)
}

/// The note on the ledger entries of a shipped order.
pub open spec fn shipment_note(order_number: Seq<char>) -> Seq<char> {
    "Shipped SO "@ + order_number
}

/// The movement that shipping one line causes: its quantity leaves stock.
pub open spec fn shipment_posting(order: SalesOrder, line: SalesOrderLine) -> PostingView {
    PostingView {
        product_id: line.product_id,
        quantity: line.quantity.neg_spec(),
        transaction_type: TransactionType::Sale,
        reference_id: Some(order.id),
        notes: Some(shipment_note(order.order_number@)),
    }
}

/// The movements that shipping the order causes: one for each line, in
/// the order of the lines.
pub open spec fn shipment_postings_spec(order: SalesOrder, lines: Seq<SalesOrderLine>) -> Seq<
    PostingView,
> {
    Seq::new(lines.len(), |i: int| shipment_posting(order, lines[i]))
}

impl SalesOrder {
    /// The new order that `input` describes: a draft, with its total.
    pub open spec fn created(
        id: u128,
        tenant_id: u128,
        input: CreateSalesOrder,
        total: Decimal,
    ) -> SalesOrder {
        SalesOrder {
            id,
            tenant_id,
            customer_id: input.customer_id,
            order_number: input.order_number,
            date: input.date,
            status: SalesOrderStatus::Draft,
            total_amount: total,
        }
    }

    /// This order with another status.
    pub open spec fn with_status(self, status: SalesOrderStatus) -> SalesOrder {
        SalesOrder {
            id: self.id,
            tenant_id: self.tenant_id,
            customer_id: self.customer_id,
            order_number: self.order_number,
            date: self.date,
            status,
            total_amount: self.total_amount,
        }
    }

    /// Whether the order can be shipped: only from `Confirmed`.
    pub open spec fn shippable(self) -> bool {
        self.status == SalesOrderStatus::Confirmed
    }

    /// Accepts the order for shipping, or says why it cannot be shipped.
    pub fn check_shippable(&self) -> (r: Result<(), Error>)
        ensures
            self.shippable() ==> r is Ok,
            !self.shippable() ==> r is Err && r->Err_0@ == cannot_ship(self.status),
    {
        match self.status {
            SalesOrderStatus::Confirmed => Ok(()),
            _ => {
                let mut text = String::from_str("Cannot ship order with status ");
                text.append(self.status.debug_name());
                text.append(". Must be CONFIRMED.");
                Err(Error::BusinessRule(text))
            },
        }
    }

    /// The order as it stands once shipped.
    pub fn shipped(&self) -> (r: SalesOrder)
        ensures
            r == self.with_status(SalesOrderStatus::Shipped),
    {
        SalesOrder {
            id: self.id,
            tenant_id: self.tenant_id,
            customer_id: self.customer_id,
            order_number: self.order_number.clone(),
            date: self.date,
            status: SalesOrderStatus::Shipped,
            total_amount: self.total_amount,
        }
    }

    /// The movements of stock that shipping the order causes.
    pub fn shipment_postings(&self, lines: &Vec<SalesOrderLine>) -> (r: Vec<
        CreateInventoryTransaction,
    >)
        ensures
            posting_views(r@) == shipment_postings_spec(*self, lines@),
    {
        let mut postings: Vec<CreateInventoryTransaction> = Vec::new();
        let mut i: usize = 0;
        while i < lines.len()
            invariant
                i <= lines.len(),
                posting_views(postings@) == shipment_postings_spec(*self, lines@).take(i as int),
            decreases lines.len() - i,
        {
            let note = String::from_str("Shipped SO ").concat(self.order_number.as_str());
            let posting = CreateInventoryTransaction {
                product_id: lines[i].product_id,
                quantity: lines[i].quantity.negate(),
                transaction_type: TransactionType::Sale,
                reference_id: Some(self.id),
                notes: Some(note),
            };
            proof {
                let all = shipment_postings_spec(*self, lines@);
                assert(posting@ == all[i as int]);
                assert(posting_views(postings@.push(posting)) =~= posting_views(postings@).push(
                    posting@,
                ));
                assert(all.take(i as int).push(all[i as int]) =~= all.take(i as int + 1));
            }
            postings.push(posting);
            i += 1;
        }
        assert(shipment_postings_spec(*self, lines@).take(i as int) =~= shipment_postings_spec(
            *self,
            lines@,
        ));
        postings
    }
}

impl Row for Customer {
    open spec fn tenant_spec(&self) -> u128 {
        self.tenant_id
    }

    open spec fn id_spec(&self) -> u128 {
        self.id
    }

    fn tenant(&self) -> (r: u128) {
        self.tenant_id
    }

    fn id(&self) -> (r: u128) {
        self.id
    }

    fn duplicate(&self) -> (r: Customer) {
        self.clone()
    }
}

impl Row for SalesOrder {
    open spec fn tenant_spec(&self) -> u128 {
        self.tenant_id
    }

    open spec fn id_spec(&self) -> u128 {
        self.id
    }

    fn tenant(&self) -> (r: u128) {
        self.tenant_id
    }

    fn id(&self) -> (r: u128) {
        self.id
    }

    fn duplicate(&self) -> (r: SalesOrder) {
        self.clone()
    }
}

impl Child for SalesOrderLine {
    open spec fn parent_spec(&self) -> u128 {
        self.order_id
    }

    fn parent(&self) -> (r: u128) {
        self.order_id
    }
}

impl Sortable for Customer {
    /// Customers are listed by name.
    open spec fn sort_key_spec(&self) -> SortKeyView {
        name_key(self.name@)
    }

    fn sort_key(&self) -> (r: SortKey) {
        key_of_name(&self.name)
    }

    fn replica(&self) -> (r: Customer) {
        self.duplicate()
    }
}

} // verus!
