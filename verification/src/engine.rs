//! The engine: all tables of all tenants in memory, and the operations on
//! them.
//!
//! Every operation names its tenant and sees and changes rows of that
//! tenant only. An operation that writes does so as a whole: where it
//! reports an error, the engine is as it was before the call.
pub mod accounting;
pub mod manufacturing;
pub mod purchasing;
pub mod sales;
pub mod statements;
pub mod summary;

use crate::date::Timestamp;
use crate::decimal::Decimal;
use crate::error::{Error, ErrorView};
use crate::ledger::{
    entry_of, find_product, post_all_spec, post_step, product_not_found, project_stock, Ledger,
};
use crate::models::accounting::{Invoice, Payment};
use crate::models::chart_of_accounts::Account;
use crate::models::inventory::{CreateInventoryTransaction, InventoryTransaction, PostingView};
use crate::models::manufacturing::{Recipe, RecipeIngredient, WorkOrder};
use crate::models::product::{CreateProduct, Product};
use crate::models::purchasing::{PurchaseOrder, PurchaseOrderLine, Supplier};
use crate::models::sales::{Customer, SalesOrder, SalesOrderLine};
use crate::models::transactions::{Bill, JournalEntry, JournalEntryLine};
use crate::order::{is_ordered, sorted};
use crate::table::{distinct, ids_below, list_sorted, of_tenant};
use vstd::prelude::*;
use vstd::string::*;

verus! {

/// The tables of purchasing.
pub struct Purchasing {
    pub suppliers: Vec<Supplier>,
    pub orders: Vec<PurchaseOrder>,
    pub lines: Vec<PurchaseOrderLine>,
}

/// The tables of sales.
pub struct Sales {
    pub customers: Vec<Customer>,
    pub orders: Vec<SalesOrder>,
    pub lines: Vec<SalesOrderLine>,
}

/// The tables of manufacturing.
pub struct Manufacturing {
    pub recipes: Vec<Recipe>,
    pub ingredients: Vec<RecipeIngredient>,
    pub work_orders: Vec<WorkOrder>,
}

/// The tables of accounting.
pub struct Accounting {
    pub invoices: Vec<Invoice>,
    pub payments: Vec<Payment>,
    pub accounts: Vec<Account>,
    pub bills: Vec<Bill>,
    pub journal_entries: Vec<JournalEntry>,
    pub journal_lines: Vec<JournalEntryLine>,
}

/// All tables of all tenants, and the next identifier to give out.
pub struct Engine {
    /// Every identifier given out so far is below this one.
    pub next_id: u128,
    pub ledger: Ledger,
    pub purchasing: Purchasing,
    pub sales: Sales,
    pub manufacturing: Manufacturing,
    pub accounting: Accounting,
}

/// What is reported where no identifier is left to give out.
pub open spec fn exhausted() -> ErrorView {
    ErrorView::Database("identifier space exhausted"@)
}

impl Engine {
    /// The engine is sound: the ledger is, so that each product's stock is
    /// the sum of the ledger's entries for it, every identifier in use was
    /// given out by the engine, and no two rows of a table share one: the
    /// lines of an order, found by the order's identifier, are those of
    /// one order.
    pub open spec fn wf(&self) -> bool {
        &&& self.ledger.wf()
        &&& ids_below(self.ledger.products@, self.next_id)
        &&& ids_below(self.purchasing.suppliers@, self.next_id)
        &&& ids_below(self.purchasing.orders@, self.next_id)
        &&& ids_below(self.sales.customers@, self.next_id)
        &&& ids_below(self.sales.orders@, self.next_id)
        &&& ids_below(self.manufacturing.recipes@, self.next_id)
        &&& ids_below(self.manufacturing.work_orders@, self.next_id)
        &&& ids_below(self.accounting.invoices@, self.next_id)
        &&& ids_below(self.accounting.payments@, self.next_id)
        &&& ids_below(self.accounting.accounts@, self.next_id)
        &&& ids_below(self.accounting.bills@, self.next_id)
        &&& ids_below(self.accounting.journal_entries@, self.next_id)
        &&& distinct(self.purchasing.suppliers@)
        &&& distinct(self.purchasing.orders@)
        &&& distinct(self.sales.customers@)
        &&& distinct(self.sales.orders@)
        &&& distinct(self.manufacturing.recipes@)
        &&& distinct(self.manufacturing.work_orders@)
        &&& distinct(self.accounting.invoices@)
        &&& distinct(self.accounting.payments@)
        &&& distinct(self.accounting.accounts@)
        &&& distinct(self.accounting.bills@)
        &&& distinct(self.accounting.journal_entries@)
    }

    /// Whether the documents of `other` are those of `self`: everything
    /// but the ledger and the next identifier.
    pub open spec fn same_documents(&self, other: &Engine) -> bool {
        &&& self.purchasing == other.purchasing
        &&& self.sales == other.sales
        &&& self.manufacturing == other.manufacturing
        &&& self.accounting == other.accounting
    }

    /// The first of `count` identifiers to give out next, or the error
    /// where not that many are left.
    pub open spec fn reserve_spec(&self, count: int) -> Result<u128, ErrorView> {
        if self.next_id + count <= u128::MAX {
            Ok(self.next_id)
        } else {
            Err(exhausted())
        }
    }

    /// An engine without any rows.
    pub fn new() -> (r: Engine)
        ensures
            r.wf(),
            r.next_id == 1,
            r.ledger.products@.len() == 0,
            r.ledger.entries@.len() == 0,
            r.purchasing.suppliers@.len() == 0,
            r.purchasing.orders@.len() == 0,
            r.purchasing.lines@.len() == 0,
            r.sales.customers@.len() == 0,
            r.sales.orders@.len() == 0,
            r.sales.lines@.len() == 0,
            r.manufacturing.recipes@.len() == 0,
            r.manufacturing.ingredients@.len() == 0,
            r.manufacturing.work_orders@.len() == 0,
            r.accounting.invoices@.len() == 0,
            r.accounting.payments@.len() == 0,
            r.accounting.accounts@.len() == 0,
            r.accounting.bills@.len() == 0,
            r.accounting.journal_entries@.len() == 0,
            r.accounting.journal_lines@.len() == 0,
    {
        Engine {
            next_id: 1,
            ledger: Ledger::new(),
            purchasing: Purchasing { suppliers: Vec::new(), orders: Vec::new(), lines: Vec::new() },
            sales: Sales { customers: Vec::new(), orders: Vec::new(), lines: Vec::new() },
            manufacturing: Manufacturing {
                recipes: Vec::new(),
                ingredients: Vec::new(),
                work_orders: Vec::new(),
            },
            accounting: Accounting {
                invoices: Vec::new(),
                payments: Vec::new(),
                accounts: Vec::new(),
                bills: Vec::new(),
                journal_entries: Vec::new(),
                journal_lines: Vec::new(),
            },
        }
    }

    /// The first of `count` identifiers to give out next. Nothing is given
    /// out yet: the caller moves `next_id` on once all else has succeeded.
    pub fn reserve(&self, count: u128) -> (r: Result<u128, Error>)
        ensures
            match self.reserve_spec(count as int) {
                Ok(first) => r == Ok::<u128, Error>(first),
                Err(e) => r is Err && r->Err_0@ == e,
            },
    {
        if count <= u128::MAX - self.next_id {
            Ok(self.next_id)
        } else {
            Err(Error::Database(String::from_str("identifier space exhausted")))
        }
    }

    /// Creates a product of the tenant, with nothing in stock.
    pub fn create_product(&mut self, tenant_id: u128, input: CreateProduct) -> (r: Result<
        Product,
        Error,
    >)
        requires
            old(self).wf(),
        ensures
            final(self).wf(),
            final(self).same_documents(old(self)),
            final(self).ledger.entries == old(self).ledger.entries,
            match old(self).reserve_spec(1) {
                Ok(id) => {
                    &&& r == Ok::<Product, Error>(Product::created(id, tenant_id, input))
                    &&& final(self).ledger.products@ == old(self).ledger.products@.push(r->Ok_0)
                    &&& final(self).next_id == old(self).next_id + 1
                },
                Err(e) => r is Err && r->Err_0@ == e && *final(self) == *old(self),
            },
    {
        let id = match self.reserve(1) {
            Ok(id) => id,
            Err(e) => {
                return Err(e);
            },
        };
        proof {
            assert(!self.ledger.has_id(id));
        }
        match self.ledger.add_product(id, tenant_id, input) {
            Ok(product) => {
                self.next_id = self.next_id + 1;
                Ok(product)
            },
            Err(e) => Err(e),
        }
    }

    /// The tenant's products by name; those that agree in it in the order in
    /// which they were created.
    pub fn list_products(&self, tenant_id: u128) -> (r: Vec<Product>)
        ensures
            r@ == sorted(of_tenant(self.ledger.products@, tenant_id)),
            is_ordered(r@),
    {
        list_sorted(&self.ledger.products, tenant_id)
    }

    /// The tenant's product `product_id`.
    pub fn get_product(&self, tenant_id: u128, product_id: u128) -> (r: Result<Product, Error>)
        ensures
            match find_product(self.ledger.products@, tenant_id, product_id) {
                Some(i) => r == Ok::<Product, Error>(self.ledger.products[i]),
                None => r is Err && r->Err_0@ == product_not_found(),
            },
    {
        proof {
            crate::ledger::lemma_find_product(self.ledger.products@, tenant_id, product_id);
        }
        match self.ledger.position(tenant_id, product_id) {
            Some(i) => Ok(self.ledger.products[i].clone()),
            None => Err(Error::not_found("Product not found")),
        }
    }

    /// What writing one movement of the tenant's stock leads to: the
    /// products after it, or why it is refused.
    pub open spec fn record_outcome(&self, tenant_id: u128, posting: PostingView) -> Result<
        Seq<Product>,
        ErrorView,
    > {
        match self.reserve_spec(1) {
            Ok(_) => post_step(self.ledger.products@, tenant_id, posting),
            Err(e) => Err(e),
        }
    }

    /// A movement of the stock of a product that the tenant has is
    /// written, whatever its sign and whatever stock there is, as long as
    /// an identifier is left and the new stock stays in the range of a
    /// decimal; the product then has the old stock and the quantity, added
    /// up, and every other product is as it was. It is refused in no other
    /// case.
    pub proof fn lemma_record_succeeds(&self, tenant_id: u128, posting: PostingView)
        ensures
            self.record_outcome(tenant_id, posting) is Ok <==> {
                &&& self.next_id < u128::MAX
                &&& find_product(self.ledger.products@, tenant_id, posting.product_id) is Some
                &&& self.ledger.products[find_product(
                    self.ledger.products@,
                    tenant_id,
                    posting.product_id,
                )->Some_0].stock_quantity.add_spec(posting.quantity) is Some
            },
            self.record_outcome(tenant_id, posting) is Ok ==> {
                let at = find_product(self.ledger.products@, tenant_id, posting.product_id)->Some_0;
                let products = self.record_outcome(tenant_id, posting)->Ok_0;
                &&& products.len() == self.ledger.products@.len()
                &&& Some(products[at].stock_quantity) == self.ledger.products[at].stock_quantity.add_spec(
                    posting.quantity,
                )
                &&& forall|i: int|
                    0 <= i < products.len() && i != at ==> products[i] == self.ledger.products[i]
            },
    {
        crate::ledger::lemma_find_product(self.ledger.products@, tenant_id, posting.product_id);
    }

    /// Writes one movement of the tenant's stock to the ledger and changes
    /// the product's stock by the movement's signed quantity, both or
    /// neither. Stock may go below zero.
    pub fn record_transaction(
        &mut self,
        tenant_id: u128,
        input: CreateInventoryTransaction,
        now: Timestamp,
    ) -> (r: Result<InventoryTransaction, Error>)
        requires
            old(self).wf(),
        ensures
            final(self).wf(),
            match old(self).record_outcome(tenant_id, input@) {
                Ok(products) => {
                    &&& r is Ok
                    &&& r->Ok_0@ == entry_of(old(self).next_id, tenant_id, input@, now)
                    &&& final(self).ledger.products@ == products
                    &&& final(self).ledger.log() == old(self).ledger.log().push(r->Ok_0@)
                    &&& final(self).next_id == old(self).next_id + 1
                    &&& final(self).same_documents(old(self))
                },
                Err(e) => r is Err && r->Err_0@ == e && *final(self) == *old(self),
            },
    {
        let first_id = match self.reserve(1) {
            Ok(id) => id,
            Err(e) => {
                return Err(e);
            },
        };
        let mut postings: Vec<CreateInventoryTransaction> = Vec::new();
        postings.push(input);
        proof {
            reveal_with_fuel(post_all_spec, 2);
            let views = crate::models::inventory::posting_views(postings@);
            assert(views =~= seq![input@]);
            assert(views.drop_last() =~= Seq::<PostingView>::empty());
            assert(crate::ledger::new_entries(views, tenant_id, first_id, now) =~= seq![
                entry_of(first_id, tenant_id, input@, now),
            ]);
            if post_all_spec(self.ledger.products@, tenant_id, views) is Ok {
                crate::ledger::lemma_post_all_keys(self.ledger.products@, tenant_id, views);
            }
        }
        match self.ledger.post_all(tenant_id, first_id, &postings, now) {
            Ok(()) => {
                self.next_id = self.next_id + 1;
                assert(self.ledger.log().len() == self.ledger.entries@.len());
                let last = self.ledger.entries.len() - 1;
                let entry = self.ledger.entries[last].clone();
                proof {
                    assert(self.ledger.log()[last as int] == self.ledger.entries@[last as int]@);
                    assert(self.ledger.log() =~= old(self).ledger.log().push(entry@));
                }
                Ok(entry)
            },
            Err(e) => Err(e),
        }
    }

    /// The stock of the tenant's product: the quantity kept with the
    /// product, which is the sum of the ledger's entries for it.
    pub fn get_stock_level(&self, tenant_id: u128, product_id: u128) -> (r: Result<Decimal, Error>)
        requires
            self.wf(),
        ensures
            match find_product(self.ledger.products@, tenant_id, product_id) {
                Some(i) => r == Ok::<Decimal, Error>(self.ledger.products[i].stock_quantity)
                    && project_stock(self.ledger.log(), tenant_id, product_id) == Some(
                    self.ledger.products[i].stock_quantity,
                ),
                None => r is Err && r->Err_0@ == product_not_found(),
            },
    {
        self.ledger.stock_level(tenant_id, product_id)
    }

    /// The stock of the tenant's product, added up anew from the ledger's
    /// entries. It is what `get_stock_level` gives.
    pub fn project_stock(&self, tenant_id: u128, product_id: u128) -> (r: Result<Decimal, Error>)
        requires
            self.wf(),
        ensures
            match find_product(self.ledger.products@, tenant_id, product_id) {
                Some(i) => r == Ok::<Decimal, Error>(self.ledger.products[i].stock_quantity)
                    && project_stock(self.ledger.log(), tenant_id, product_id) == Some(
                    self.ledger.products[i].stock_quantity,
                ),
                None => r is Err && r->Err_0@ == product_not_found(),
            },
    {
        proof {
            crate::ledger::lemma_find_product(self.ledger.products@, tenant_id, product_id);
        }
        match self.ledger.position(tenant_id, product_id) {
            Some(_) => match self.ledger.sum_of_entries(tenant_id, product_id) {
                Some(stock) => Ok(stock),
                None => Err(Error::out_of_range()),
            },
            None => Err(Error::not_found("Product not found")),
        }
    }
}

} // verus!
