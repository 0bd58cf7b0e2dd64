//! Suppliers and purchase orders in the engine.
use crate::date::Timestamp;
use crate::decimal::{lemma_sum_of_products_each, Decimal};
use crate::engine::Engine;
use crate::error::{Error, ErrorView};
use crate::ledger::{lemma_post_all_keys, new_entries, post_all_spec};
use crate::models::inventory::PostingView;
use crate::models::product::Product;
use crate::models::purchasing::{
    cannot_receive, order_total, order_total_spec, priced, purchase_order_not_found,
    receipt_postings_spec, CreatePurchaseOrder, CreatePurchaseOrderLine, CreateSupplier,
    PurchaseOrder, PurchaseOrderLine, PurchaseOrderStatus, Supplier,
};
use crate::order::{is_ordered, sorted};
use crate::table::{children, children_of, find, lemma_find, lemma_find_update, list_newest, list_sorted, of_tenant, position};
use vstd::prelude::*;

verus! {

/// The line that is stored for the `k`-th line of a new order.
pub open spec fn stored_line(
    order_id: u128,
    first_id: u128,
    k: int,
    line: CreatePurchaseOrderLine,
    total_price: Decimal,
) -> PurchaseOrderLine {
    PurchaseOrderLine {
        id: (first_id + k) as u128,
        order_id,
        product_id: line.product_id,
        quantity: line.quantity,
        unit_price: line.unit_price,
        total_price,
    }
}

/// The lines that are stored for the lines `lines` of a new order: one
/// each, in order, with identifiers counted up from `first_id`, and each
/// with quantity times unit price as its total.
pub open spec fn stored_lines(
    order_id: u128,
    first_id: u128,
    lines: Seq<CreatePurchaseOrderLine>,
) -> Seq<PurchaseOrderLine> {
    Seq::new(
        lines.len(),
        |k: int|
            stored_line(
                order_id,
                first_id,
                k,
                lines[k],
                lines[k].quantity.mul_spec(lines[k].unit_price)->Some_0,
            ),
    )
}

impl Engine {
    /// Creates a supplier of the tenant.
    pub fn create_supplier(&mut self, tenant_id: u128, input: CreateSupplier) -> (r: Result<
        Supplier,
        Error,
    >)
        requires
            old(self).wf(),
        ensures
            final(self).wf(),
            match old(self).reserve_spec(1) {
                Ok(id) => {
                    &&& r == Ok::<Supplier, Error>(Supplier::created(id, tenant_id, input))
                    &&& final(self).purchasing.suppliers@ == old(self).purchasing.suppliers@.push(
                        r->Ok_0,
                    )
                    &&& final(self).purchasing.orders == old(self).purchasing.orders
                    &&& final(self).purchasing.lines == old(self).purchasing.lines
                    &&& final(self).next_id == old(self).next_id + 1
                    &&& final(self).ledger == old(self).ledger
                    &&& final(self).sales == old(self).sales
                    &&& final(self).manufacturing == old(self).manufacturing
                    &&& final(self).accounting == old(self).accounting
                },
                Err(e) => r is Err && r->Err_0@ == e && *final(self) == *old(self),
            },
    {
        let id = match self.reserve(1) {
            Ok(id) => id,
            Err(e) => {
                return Err(e);
            },
        };
        let supplier = Supplier::create(id, tenant_id, input);
        let copy = supplier.clone();
        self.purchasing.suppliers.push(supplier);
        self.next_id = self.next_id + 1;
        Ok(copy)
    }

    /// The tenant's suppliers by name; those that agree in it in the order in
    /// which they were created.
    pub fn list_suppliers(&self, tenant_id: u128) -> (r: Vec<Supplier>)
        ensures
            r@ == sorted(of_tenant(self.purchasing.suppliers@, tenant_id)),
            is_ordered(r@),
    {
        list_sorted(&self.purchasing.suppliers, tenant_id)
    }

    /// The tenant's purchase orders, the one created last first.
    pub fn list_purchase_orders(&self, tenant_id: u128) -> (r: Vec<PurchaseOrder>)
        ensures
            r@ == of_tenant(self.purchasing.orders@, tenant_id).reverse(),
    {
        list_newest(&self.purchasing.orders, tenant_id)
    }

    /// What creating an order with the given lines leads to: its total and
    /// its identifier, or why it is refused.
    pub open spec fn purchase_order_outcome(&self, lines: Seq<CreatePurchaseOrderLine>) -> Result<
        (Decimal, u128),
        ErrorView,
    > {
        match order_total_spec(lines) {
            None => Err(ErrorView::out_of_range()),
            Some(total) => match self.reserve_spec(1 + lines.len() as int) {
                Err(e) => Err(e),
                Ok(id) => Ok((total, id)),
            },
        }
    }

    /// Creates a purchase order of the tenant with its lines: a draft,
    /// whose total is the sum of the lines' quantities times their unit
    /// prices.
    pub fn create_purchase_order(&mut self, tenant_id: u128, input: CreatePurchaseOrder) -> (r:
        Result<PurchaseOrder, Error>)
        requires
            old(self).wf(),
        ensures
            final(self).wf(),
            match old(self).purchase_order_outcome(input.lines@) {
                Ok((total, id)) => {
                    &&& r == Ok::<PurchaseOrder, Error>(
                        PurchaseOrder::created(id, tenant_id, input, total),
                    )
                    &&& final(self).purchasing.orders@ == old(self).purchasing.orders@.push(r->Ok_0)
                    &&& final(self).purchasing.lines@ == old(self).purchasing.lines@ + stored_lines(
                        id,
                        (id + 1) as u128,
                        input.lines@,
                    )
                    &&& final(self).purchasing.suppliers == old(self).purchasing.suppliers
                    &&& final(self).next_id == old(self).next_id + 1 + input.lines@.len()
                    &&& final(self).ledger == old(self).ledger
                    &&& final(self).sales == old(self).sales
                    &&& final(self).manufacturing == old(self).manufacturing
                    &&& final(self).accounting == old(self).accounting
                },
                Err(e) => r is Err && r->Err_0@ == e && *final(self) == *old(self),
            },
    {
        let total = match order_total(&input.lines) {
            Ok(total) => total,
            Err(e) => {
                return Err(e);
            },
        };
        let count = input.lines.len();
        let id = match self.reserve(1 + count as u128) {
            Ok(id) => id,
            Err(e) => {
                return Err(e);
            },
        };
        proof {
            lemma_sum_of_products_each(priced(input.lines@));
        }
        let ghost before = self.purchasing.lines@;
        let ghost added = stored_lines(id, (id + 1) as u128, input.lines@);
        let mut k: usize = 0;
        while k < count
            invariant
                k <= count,
                count == input.lines@.len(),
                id + 1 + count <= u128::MAX,
                forall|i: int|
                    0 <= i < count ==> (#[trigger] priced(input.lines@)[i]).0.mul_spec(
                        priced(input.lines@)[i].1,
                    ) is Some,
                added == stored_lines(id, (id + 1) as u128, input.lines@),
                self.purchasing.lines@ == before + added.take(k as int),
                self.purchasing.suppliers == old(self).purchasing.suppliers,
                self.purchasing.orders == old(self).purchasing.orders,
                self.next_id == old(self).next_id,
                self.ledger == old(self).ledger,
                self.sales == old(self).sales,
                self.manufacturing == old(self).manufacturing,
                self.accounting == old(self).accounting,
            decreases count - k,
        {
            let line = input.lines[k];
            assert(priced(input.lines@)[k as int] == (line.quantity, line.unit_price));
            let total_price = match line.quantity.checked_mul(line.unit_price) {
                Some(product) => product,
                None => vstd::pervasive::unreached(),
            };
            let stored = PurchaseOrderLine {
                id: id + 1 + k as u128,
                order_id: id,
                product_id: line.product_id,
                quantity: line.quantity,
                unit_price: line.unit_price,
                total_price,
            };
            proof {
                assert(stored == added[k as int]);
                assert((before + added.take(k as int)).push(stored) =~= before + added.take(
                    k as int + 1,
                ));
            }
            self.purchasing.lines.push(stored);
            k += 1;
        }
        assert(added.take(k as int) =~= added);
        let order = PurchaseOrder {
            id,
            tenant_id,
            supplier_id: input.supplier_id,
            order_number: input.order_number,
            date: input.date,
            status: PurchaseOrderStatus::Draft,
            total_amount: total,
        };
        let copy = order.clone();
        self.purchasing.orders.push(order);
        self.next_id = self.next_id + 1 + count as u128;
        Ok(copy)
    }

    /// The movements of stock that receiving the order at the place `at`
    /// causes: one for each of its lines.
    pub open spec fn receipt_postings(&self, at: int) -> Seq<PostingView> {
        receipt_postings_spec(
            self.purchasing.orders[at],
            children_of(self.purchasing.lines@, self.purchasing.orders[at].id),
        )
    }

    /// What receiving the tenant's order `order_id` leads to: the products
    /// with their new stock, or why the order cannot be received. The
    /// tenant must have the order, and the order must stand at `Ordered`.
    pub open spec fn receive_outcome(&self, tenant_id: u128, order_id: u128) -> Result<
        Seq<Product>,
        ErrorView,
    > {
        match find(self.purchasing.orders@, tenant_id, order_id) {
            None => Err(purchase_order_not_found()),
            Some(at) => if !self.purchasing.orders[at].receivable() {
                Err(cannot_receive(self.purchasing.orders[at].status))
            } else {
                match self.reserve_spec(self.receipt_postings(at).len() as int) {
                    Err(e) => Err(e),
                    Ok(_) => post_all_spec(
                        self.ledger.products@,
                        tenant_id,
                        self.receipt_postings(at),
                    ),
                }
            },
        }
    }

    /// Receives the tenant's purchase order `order_id`: the order goes to
    /// `Received`, and each line's quantity comes into stock, with one
    /// ledger entry of kind `Purchase` for each line. All of this happens,
    /// or, where an error is reported, none of it.
    pub fn receive_purchase_order(&mut self, tenant_id: u128, order_id: u128, now: Timestamp) -> (r:
        Result<PurchaseOrder, Error>)
        requires
            old(self).wf(),
        ensures
            final(self).wf(),
            match old(self).receive_outcome(tenant_id, order_id) {
                Ok(products) => {
                    let at = find(old(self).purchasing.orders@, tenant_id, order_id)->Some_0;
                    &&& r == Ok::<PurchaseOrder, Error>(
                        old(self).purchasing.orders[at].with_status(PurchaseOrderStatus::Received),
                    )
                    &&& final(self).purchasing.orders@ == old(self).purchasing.orders@.update(
                        at,
                        r->Ok_0,
                    )
                    &&& final(self).purchasing.suppliers == old(self).purchasing.suppliers
                    &&& final(self).purchasing.lines == old(self).purchasing.lines
                    &&& final(self).ledger.products@ == products
                    &&& final(self).ledger.log() == old(self).ledger.log() + new_entries(
                        old(self).receipt_postings(at),
                        tenant_id,
                        old(self).next_id,
                        now,
                    )
                    &&& final(self).next_id == old(self).next_id + old(self).receipt_postings(
                        at,
                    ).len()
                    &&& final(self).sales == old(self).sales
                    &&& final(self).manufacturing == old(self).manufacturing
                    &&& final(self).accounting == old(self).accounting
                },
                Err(e) => r is Err && r->Err_0@ == e && *final(self) == *old(self),
            },
    {
        proof {
            lemma_find(self.purchasing.orders@, tenant_id, order_id);
        }
        let at = match position(&self.purchasing.orders, tenant_id, order_id) {
            Some(at) => at,
            None => {
                return Err(Error::not_found("Purchase Order not found"));
            },
        };
        match self.purchasing.orders[at].check_receivable() {
            Ok(()) => {},
            Err(e) => {
                return Err(e);
            },
        }
        let lines = children(&self.purchasing.lines, order_id);
        let postings = self.purchasing.orders[at].receipt_postings(&lines);
        let ghost views = crate::models::inventory::posting_views(postings@);
        assert(views.len() == postings@.len());
        let first_id = match self.reserve(postings.len() as u128) {
            Ok(id) => id,
            Err(e) => {
                return Err(e);
            },
        };
        proof {
            if post_all_spec(self.ledger.products@, tenant_id, views) is Ok {
                lemma_post_all_keys(self.ledger.products@, tenant_id, views);
            }
        }
        match self.ledger.post_all(tenant_id, first_id, &postings, now) {
            Ok(()) => {},
            Err(e) => {
                return Err(e);
            },
        }
        self.purchasing.orders[at].status = PurchaseOrderStatus::Received;
        self.next_id = self.next_id + postings.len() as u128;
        let order = self.purchasing.orders[at].clone();
        proof {
            assert(self.purchasing.orders@ =~= old(self).purchasing.orders@.update(
                at as int,
                order,
            ));
        }
        Ok(order)
    }

    /// An order that does not stand at `Ordered` is not received: the
    /// attempt is refused as against the rules of business, and nothing
    /// changes.
    pub proof fn lemma_receive_needs_ordered(&self, tenant_id: u128, order_id: u128)
        requires
            find(self.purchasing.orders@, tenant_id, order_id) is Some,
            !self.purchasing.orders[find(
                self.purchasing.orders@,
                tenant_id,
                order_id,
            )->Some_0].receivable(),
        ensures
            self.receive_outcome(tenant_id, order_id) is Err,
            self.receive_outcome(tenant_id, order_id)->Err_0 is BusinessRule,
    {
    }

    /// An order is received at most once: in any engine in which the
    /// order stands as a successful receipt left it, receiving it again is
    /// refused as against the rules of business.
    pub proof fn lemma_receive_at_most_once(&self, after: &Engine, tenant_id: u128, order_id: u128)
        requires
            self.receive_outcome(tenant_id, order_id) is Ok,
            after.purchasing.orders@ == self.purchasing.orders@.update(
                find(self.purchasing.orders@, tenant_id, order_id)->Some_0,
                self.purchasing.orders[find(
                    self.purchasing.orders@,
                    tenant_id,
                    order_id,
                )->Some_0].with_status(PurchaseOrderStatus::Received),
            ),
        ensures
            after.receive_outcome(tenant_id, order_id) == Err::<Seq<Product>, ErrorView>(
                cannot_receive(PurchaseOrderStatus::Received),
            ),
    {
        let at = find(self.purchasing.orders@, tenant_id, order_id)->Some_0;
        lemma_find(self.purchasing.orders@, tenant_id, order_id);
        lemma_find_update(
            self.purchasing.orders@,
            at,
            self.purchasing.orders[at].with_status(PurchaseOrderStatus::Received),
            tenant_id,
            order_id,
        );
    }
}

} // verus!
