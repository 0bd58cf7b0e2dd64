//! Customers and sales orders in the engine.
use crate::date::Timestamp;
use crate::decimal::{lemma_sum_of_products_each, Decimal};
use crate::engine::Engine;
use crate::error::{Error, ErrorView};
use crate::ledger::{lemma_post_all_keys, new_entries, post_all_spec};
use crate::models::inventory::PostingView;
use crate::models::product::Product;
use crate::models::sales::{
    cannot_ship, order_total, order_total_spec, priced, sales_order_not_found,
    shipment_postings_spec, CreateSalesOrder, CreateSalesOrderLine, CreateCustomer,
    SalesOrder, SalesOrderLine, SalesOrderStatus, Customer,
};
use crate::order::{is_ordered, sorted};
use crate::table::{children, children_of, find, lemma_find, lemma_find_update, list_newest, list_sorted, of_tenant, position};
use vstd::prelude::*;

verus! {

/// The line that is stored for the `k`-th line of a new order.
pub open spec fn stored_line(
    order_id: u128,
    first_id: u128,
    k: int,
    line: CreateSalesOrderLine,
    total_price: Decimal,
) -> SalesOrderLine {
    SalesOrderLine {
        id: (first_id + k) as u128,
        order_id,
        product_id: line.product_id,
        quantity: line.quantity,
        unit_price: line.unit_price,
        total_price,
    }
}

/// The lines that are stored for the lines `lines` of a new order: one
/// each, in order, with identifiers counted up from `first_id`, and each
/// with quantity times unit price as its total.
pub open spec fn stored_lines(
    order_id: u128,
    first_id: u128,
    lines: Seq<CreateSalesOrderLine>,
) -> Seq<SalesOrderLine> {
    Seq::new(
        lines.len(),
        |k: int|
            stored_line(
                order_id,
                first_id,
                k,
                lines[k],
                lines[k].quantity.mul_spec(lines[k].unit_price)->Some_0,
            ),
    )
}

impl Engine {
    /// Creates a customer of the tenant.
    pub fn create_customer(&mut self, tenant_id: u128, input: CreateCustomer) -> (r: Result<
        Customer,
        Error,
    >)
        requires
            old(self).wf(),
        ensures
            final(self).wf(),
            match old(self).reserve_spec(1) {
                Ok(id) => {
                    &&& r == Ok::<Customer, Error>(Customer::created(id, tenant_id, input))
                    &&& final(self).sales.customers@ == old(self).sales.customers@.push(
                        r->Ok_0,
                    )
                    &&& final(self).sales.orders == old(self).sales.orders
                    &&& final(self).sales.lines == old(self).sales.lines
                    &&& final(self).next_id == old(self).next_id + 1
                    &&& final(self).ledger == old(self).ledger
                    &&& final(self).purchasing == old(self).purchasing
                    &&& final(self).manufacturing == old(self).manufacturing
                    &&& final(self).accounting == old(self).accounting
                },
                Err(e) => r is Err && r->Err_0@ == e && *final(self) == *old(self),
            },
    {
        let id = match self.reserve(1) {
            Ok(id) => id,
            Err(e) => {
                return Err(e);
            },
        };
        let customer = Customer::create(id, tenant_id, input);
        let copy = customer.clone();
        self.sales.customers.push(customer);
        self.next_id = self.next_id + 1;
        Ok(copy)
    }

    /// The tenant's customers by name; those that agree in it in the order in
    /// which they were created.
    pub fn list_customers(&self, tenant_id: u128) -> (r: Vec<Customer>)
        ensures
            r@ == sorted(of_tenant(self.sales.customers@, tenant_id)),
            is_ordered(r@),
    {
        list_sorted(&self.sales.customers, tenant_id)
    }

    /// The tenant's sales orders, the one created last first.
    pub fn list_sales_orders(&self, tenant_id: u128) -> (r: Vec<SalesOrder>)
        ensures
            r@ == of_tenant(self.sales.orders@, tenant_id).reverse(),
    {
        list_newest(&self.sales.orders, tenant_id)
    }

    /// What creating an order with the given lines leads to: its total and
    /// its identifier, or why it is refused.
    pub open spec fn sales_order_outcome(&self, lines: Seq<CreateSalesOrderLine>) -> Result<
        (Decimal, u128),
        ErrorView,
    > {
        match order_total_spec(lines) {
            None => Err(ErrorView::out_of_range()),
            Some(total) => match self.reserve_spec(1 + lines.len() as int) {
                Err(e) => Err(e),
                Ok(id) => Ok((total, id)),
            },
        }
    }

    /// Creates a sales order of the tenant with its lines: a draft, whose
    /// total is the sum of the lines' quantities times their unit prices.
    pub fn create_sales_order(&mut self, tenant_id: u128, input: CreateSalesOrder) -> (r:
        Result<SalesOrder, Error>)
        requires
            old(self).wf(),
        ensures
            final(self).wf(),
            match old(self).sales_order_outcome(input.lines@) {
                Ok((total, id)) => {
                    &&& r == Ok::<SalesOrder, Error>(
                        SalesOrder::created(id, tenant_id, input, total),
                    )
                    &&& final(self).sales.orders@ == old(self).sales.orders@.push(r->Ok_0)
                    &&& final(self).sales.lines@ == old(self).sales.lines@ + stored_lines(
                        id,
                        (id + 1) as u128,
                        input.lines@,
                    )
                    &&& final(self).sales.customers == old(self).sales.customers
                    &&& final(self).next_id == old(self).next_id + 1 + input.lines@.len()
                    &&& final(self).ledger == old(self).ledger
                    &&& final(self).purchasing == old(self).purchasing
                    &&& final(self).manufacturing == old(self).manufacturing
                    &&& final(self).accounting == old(self).accounting
                },
                Err(e) => r is Err && r->Err_0@ == e && *final(self) == *old(self),
            },
    {
        let total = match order_total(&input.lines) {
            Ok(total) => total,
            Err(e) => {
                return Err(e);
            },
        };
        let count = input.lines.len();
        let id = match self.reserve(1 + count as u128) {
            Ok(id) => id,
            Err(e) => {
                return Err(e);
            },
        };
        proof {
            lemma_sum_of_products_each(priced(input.lines@));
        }
        let ghost before = self.sales.lines@;
        let ghost added = stored_lines(id, (id + 1) as u128, input.lines@);
        let mut k: usize = 0;
        while k < count
            invariant
                k <= count,
                count == input.lines@.len(),
                id + 1 + count <= u128::MAX,
                forall|i: int|
                    0 <= i < count ==> (#[trigger] priced(input.lines@)[i]).0.mul_spec(
                        priced(input.lines@)[i].1,
                    ) is Some,
                added == stored_lines(id, (id + 1) as u128, input.lines@),
                self.sales.lines@ == before + added.take(k as int),
                self.sales.customers == old(self).sales.customers,
                self.sales.orders == old(self).sales.orders,
                self.next_id == old(self).next_id,
                self.ledger == old(self).ledger,
                self.purchasing == old(self).purchasing,
                self.manufacturing == old(self).manufacturing,
                self.accounting == old(self).accounting,
            decreases count - k,
        {
            let line = input.lines[k];
            assert(priced(input.lines@)[k as int] == (line.quantity, line.unit_price));
            let total_price = match line.quantity.checked_mul(line.unit_price) {
                Some(product) => product,
                None => vstd::pervasive::unreached(),
            };
            let stored = SalesOrderLine {
                id: id + 1 + k as u128,
                order_id: id,
                product_id: line.product_id,
                quantity: line.quantity,
                unit_price: line.unit_price,
                total_price,
            };
            proof {
                assert(stored == added[k as int]);
                assert((before + added.take(k as int)).push(stored) =~= before + added.take(
                    k as int + 1,
                ));
            }
            self.sales.lines.push(stored);
            k += 1;
        }
        assert(added.take(k as int) =~= added);
        let order = SalesOrder {
            id,
            tenant_id,
            customer_id: input.customer_id,
            order_number: input.order_number,
            date: input.date,
            status: SalesOrderStatus::Draft,
            total_amount: total,
        };
        let copy = order.clone();
        self.sales.orders.push(order);
        self.next_id = self.next_id + 1 + count as u128;
        Ok(copy)
    }

    /// The movements of stock that shipping the order at the place `at`
    /// causes: one for each of its lines.
    pub open spec fn shipment_postings(&self, at: int) -> Seq<PostingView> {
        shipment_postings_spec(
            self.sales.orders[at],
            children_of(self.sales.lines@, self.sales.orders[at].id),
        )
    }

    /// What shipping the tenant's order `order_id` leads to: the products
    /// with their new stock, or why the order cannot be shipped. The
    /// tenant must have the order, and the order must stand at
    /// `Confirmed`. Stock is not asked to suffice: it may go below zero.
    pub open spec fn ship_outcome(&self, tenant_id: u128, order_id: u128) -> Result<
        Seq<Product>,
        ErrorView,
    > {
        match find(self.sales.orders@, tenant_id, order_id) {
            None => Err(sales_order_not_found()),
            Some(at) => if !self.sales.orders[at].shippable() {
                Err(cannot_ship(self.sales.orders[at].status))
            } else {
                match self.reserve_spec(self.shipment_postings(at).len() as int) {
                    Err(e) => Err(e),
                    Ok(_) => post_all_spec(
                        self.ledger.products@,
                        tenant_id,
                        self.shipment_postings(at),
                    ),
                }
            },
        }
    }

    /// Ships the tenant's sales order `order_id`: the order goes to
    /// `Shipped`, and each line's quantity leaves stock, with one ledger
    /// entry of kind `Sale` for each line. All of this happens, or, where
    /// an error is reported, none of it.
    pub fn ship_sales_order(&mut self, tenant_id: u128, order_id: u128, now: Timestamp) -> (r:
        Result<SalesOrder, Error>)
        requires
            old(self).wf(),
        ensures
            final(self).wf(),
            match old(self).ship_outcome(tenant_id, order_id) {
                Ok(products) => {
                    let at = find(old(self).sales.orders@, tenant_id, order_id)->Some_0;
                    &&& r == Ok::<SalesOrder, Error>(
                        old(self).sales.orders[at].with_status(SalesOrderStatus::Shipped),
                    )
                    &&& final(self).sales.orders@ == old(self).sales.orders@.update(
                        at,
                        r->Ok_0,
                    )
                    &&& final(self).sales.customers == old(self).sales.customers
                    &&& final(self).sales.lines == old(self).sales.lines
                    &&& final(self).ledger.products@ == products
                    &&& final(self).ledger.log() == old(self).ledger.log() + new_entries(
                        old(self).shipment_postings(at),
                        tenant_id,
                        old(self).next_id,
                        now,
                    )
                    &&& final(self).next_id == old(self).next_id + old(self).shipment_postings(
                        at,
                    ).len()
                    &&& final(self).purchasing == old(self).purchasing
                    &&& final(self).manufacturing == old(self).manufacturing
                    &&& final(self).accounting == old(self).accounting
                },
                Err(e) => r is Err && r->Err_0@ == e && *final(self) == *old(self),
            },
    {
        proof {
            lemma_find(self.sales.orders@, tenant_id, order_id);
        }
        let at = match position(&self.sales.orders, tenant_id, order_id) {
            Some(at) => at,
            None => {
                return Err(Error::not_found("Sales Order not found"));
            },
        };
        match self.sales.orders[at].check_shippable() {
            Ok(()) => {},
            Err(e) => {
                return Err(e);
            },
        }
        let lines = children(&self.sales.lines, order_id);
        let postings = self.sales.orders[at].shipment_postings(&lines);
        let ghost views = crate::models::inventory::posting_views(postings@);
        assert(views.len() == postings@.len());
        let first_id = match self.reserve(postings.len() as u128) {
            Ok(id) => id,
            Err(e) => {
                return Err(e);
            },
        };
        proof {
            if post_all_spec(self.ledger.products@, tenant_id, views) is Ok {
                lemma_post_all_keys(self.ledger.products@, tenant_id, views);
            }
        }
        match self.ledger.post_all(tenant_id, first_id, &postings, now) {
            Ok(()) => {},
            Err(e) => {
                return Err(e);
            },
        }
        self.sales.orders[at].status = SalesOrderStatus::Shipped;
        self.next_id = self.next_id + postings.len() as u128;
        let order = self.sales.orders[at].clone();
        proof {
            assert(self.sales.orders@ =~= old(self).sales.orders@.update(
                at as int,
                order,
            ));
        }
        Ok(order)
    }

    /// An order that does not stand at `Confirmed` is not shipped: the
    /// attempt is refused as against the rules of business, and nothing
    /// changes.
    pub proof fn lemma_ship_needs_confirmed(&self, tenant_id: u128, order_id: u128)
        requires
            find(self.sales.orders@, tenant_id, order_id) is Some,
            !self.sales.orders[find(
                self.sales.orders@,
                tenant_id,
                order_id,
            )->Some_0].shippable(),
        ensures
            self.ship_outcome(tenant_id, order_id) is Err,
            self.ship_outcome(tenant_id, order_id)->Err_0 is BusinessRule,
    {
    }

    /// An order is shipped at most once: in any engine in which the order
    /// stands as a successful shipment left it, shipping it again is
    /// refused as against the rules of business. Of two callers that try
    /// to ship the same order one after the other, only the first moves
    /// stock.
    pub proof fn lemma_ship_at_most_once(&self, after: &Engine, tenant_id: u128, order_id: u128)
        requires
            self.ship_outcome(tenant_id, order_id) is Ok,
            after.sales.orders@ == self.sales.orders@.update(
                find(self.sales.orders@, tenant_id, order_id)->Some_0,
                self.sales.orders[find(
                    self.sales.orders@,
                    tenant_id,
                    order_id,
                )->Some_0].with_status(SalesOrderStatus::Shipped),
            ),
        ensures
            after.ship_outcome(tenant_id, order_id) == Err::<Seq<Product>, ErrorView>(
                cannot_ship(SalesOrderStatus::Shipped),
            ),
    {
        let at = find(self.sales.orders@, tenant_id, order_id)->Some_0;
        lemma_find(self.sales.orders@, tenant_id, order_id);
        lemma_find_update(
            self.sales.orders@,
            at,
            self.sales.orders[at].with_status(SalesOrderStatus::Shipped),
            tenant_id,
            order_id,
        );
    }

    /// Of two callers that try to ship the same order one after the
    /// other, the second never ships it, whatever became of the first:
    /// where the first shipped it, the second is refused as against the
    /// rules of business, and where the first was refused and so changed
    /// nothing, the second is refused for the same reason. No order is
    /// shipped twice.
    pub proof fn lemma_ship_two_callers(&self, after: &Engine, tenant_id: u128, order_id: u128)
        requires
            self.ship_outcome(tenant_id, order_id) is Ok ==> after.sales.orders@
                == self.sales.orders@.update(
                find(self.sales.orders@, tenant_id, order_id)->Some_0,
                self.sales.orders[find(
                    self.sales.orders@,
                    tenant_id,
                    order_id,
                )->Some_0].with_status(SalesOrderStatus::Shipped),
            ),
            self.ship_outcome(tenant_id, order_id) is Err ==> *after == *self,
        ensures
            after.ship_outcome(tenant_id, order_id) is Err,
            self.ship_outcome(tenant_id, order_id) is Ok ==> after.ship_outcome(tenant_id, order_id)
                == Err::<Seq<Product>, ErrorView>(cannot_ship(SalesOrderStatus::Shipped)),
            self.ship_outcome(tenant_id, order_id) is Err ==> after.ship_outcome(tenant_id, order_id)
                == self.ship_outcome(tenant_id, order_id),
    {
        if self.ship_outcome(tenant_id, order_id) is Ok {
            self.lemma_ship_at_most_once(after, tenant_id, order_id);
        }
    }

    /// When an order is shipped: the tenant has it, it stands at
    /// `Confirmed`, an identifier is left for each of its lines, and the
    /// stock of each line's product, less the quantity of the line, is a
    /// product of the tenant's and stays in the range of a decimal. On
    /// nothing else does it depend, and not on what stock there is.
    pub proof fn lemma_ship_succeeds(&self, tenant_id: u128, order_id: u128)
        ensures
            self.ship_outcome(tenant_id, order_id) is Ok <==> {
                &&& find(self.sales.orders@, tenant_id, order_id) is Some
                &&& self.sales.orders[find(
                    self.sales.orders@,
                    tenant_id,
                    order_id,
                )->Some_0].shippable()
                &&& self.next_id + self.shipment_postings(
                    find(self.sales.orders@, tenant_id, order_id)->Some_0,
                ).len() <= u128::MAX
                &&& post_all_spec(
                    self.ledger.products@,
                    tenant_id,
                    self.shipment_postings(find(self.sales.orders@, tenant_id, order_id)->Some_0),
                ) is Ok
            },
    {
    }
}

} // verus!
