//! The ledger store: the products of all tenants with their stock, and the
//! log of the movements that led to it.
//!
//! The log only grows, and it is the truth about stock: the quantity kept
//! with each product is the sum of the log's entries for that product, at
//! all times. A batch of movements is written as a whole or not at all.
use crate::date::Timestamp;
use crate::decimal::Decimal;
use crate::error::{Error, ErrorView};
use crate::models::inventory::{
    entry_views, posting_views, CreateInventoryTransaction, EntryView, InventoryTransaction,
    PostingView,
};
use crate::models::product::{CreateProduct, Product};
use crate::table::{find, is_row, lemma_find, position};
use crate::text::clone_optional;
use vstd::prelude::*;
use vstd::string::*;

verus! {

/// The products and the log of stock movements.
pub struct Ledger {
    pub products: Vec<Product>,
    pub entries: Vec<InventoryTransaction>,
}

/// Whether `product` is the product `product_id` of the tenant.
pub open spec fn is_product(product: Product, tenant_id: u128, product_id: u128) -> bool {
    is_row(product, tenant_id, product_id)
}

/// Where the tenant's product `product_id` stands in `products`: the first
/// place that holds it.
pub open spec fn find_product(products: Seq<Product>, tenant_id: u128, product_id: u128) -> Option<
    int,
> {
    find(products, tenant_id, product_id)
}

/// Whether the entry moves the tenant's product `product_id`.
pub open spec fn concerns(entry: EntryView, tenant_id: u128, product_id: u128) -> bool {
    entry.tenant_id == tenant_id && entry.posting.product_id == product_id
}

/// The stock that the log gives for a product: its movements added up in
/// the order in which they were written, from zero. `None` where that sum
/// leaves the range of a decimal.
pub open spec fn project_stock(entries: Seq<EntryView>, tenant_id: u128, product_id: u128) -> Option<
    Decimal,
>
    decreases entries.len(),
{
    if entries.len() == 0 {
        Some(Decimal::zero_spec())
    } else {
        let before = project_stock(entries.drop_last(), tenant_id, product_id);
        if concerns(entries.last(), tenant_id, product_id) {
            match before {
                Some(stock) => stock.add_spec(entries.last().posting.quantity),
                None => None,
            }
        } else {
            before
        }
    }
}

/// `product` with another quantity in stock.
pub open spec fn with_stock(product: Product, stock: Decimal) -> Product {
    Product {
        id: product.id,
        tenant_id: product.tenant_id,
        name: product.name,
        sku: product.sku,
        description: product.description,
        unit_of_measure: product.unit_of_measure,
        price: product.price,
        cost_price: product.cost_price,
        stock_quantity: stock,
    }
}

/// `products`, each with the quantity that `stocks` holds at its place.
pub open spec fn with_stocks(products: Seq<Product>, stocks: Seq<Decimal>) -> Seq<Product> {
    Seq::new(products.len(), |i: int| with_stock(products[i], stocks[i]))
}

/// No two products share an identifier.
pub open spec fn distinct_ids(products: Seq<Product>) -> bool {
    forall|i: int, j: int|
        0 <= i < j < products.len() ==> (#[trigger] products[i]).id != (#[trigger] products[j]).id
}

/// Each product's stock is what the log gives for it.
pub open spec fn stock_matches(products: Seq<Product>, entries: Seq<EntryView>) -> bool {
    forall|i: int|
        0 <= i < products.len() ==> project_stock(
            entries,
            (#[trigger] products[i]).tenant_id,
            products[i].id,
        ) == Some(products[i].stock_quantity)
}

/// Each entry moves a product that exists.
pub open spec fn entries_refer(products: Seq<Product>, entries: Seq<EntryView>) -> bool {
    forall|k: int|
        0 <= k < entries.len() ==> find_product(
            products,
            (#[trigger] entries[k]).tenant_id,
            entries[k].posting.product_id,
        ) is Some
}

/// What is reported for a movement of a product that the tenant does not
/// have.
pub open spec fn product_not_found() -> ErrorView {
    ErrorView::NotFound("Product not found"@)
}

/// What is reported where a product's identifier is taken.
pub open spec fn product_exists() -> ErrorView {
    ErrorView::Database("duplicate product identifier"@)
}

/// The products after one movement of the tenant's stock: the product's
/// quantity grows by the movement's signed quantity. Stock may go below
/// zero. The movement is refused where the tenant has no such product, or
/// where the new quantity leaves the range of a decimal.
pub open spec fn post_step(products: Seq<Product>, tenant_id: u128, posting: PostingView) -> Result<
    Seq<Product>,
    ErrorView,
> {
    match find_product(products, tenant_id, posting.product_id) {
        None => Err(product_not_found()),
        Some(i) => match products[i].stock_quantity.add_spec(posting.quantity) {
            None => Err(ErrorView::out_of_range()),
            Some(stock) => Ok(products.update(i, with_stock(products[i], stock))),
        },
    }
}

/// The products after the movements `postings`, one after the other; the
/// error of the first that is refused.
pub open spec fn post_all_spec(
    products: Seq<Product>,
    tenant_id: u128,
    postings: Seq<PostingView>,
) -> Result<Seq<Product>, ErrorView>
    decreases postings.len(),
{
    if postings.len() == 0 {
        Ok(products)
    } else {
        match post_all_spec(products, tenant_id, postings.drop_last()) {
            Ok(before) => post_step(before, tenant_id, postings.last()),
            Err(e) => Err(e),
        }
    }
}

/// The entry that is written for a movement.
pub open spec fn entry_of(id: u128, tenant_id: u128, posting: PostingView, now: Timestamp) -> EntryView {
    EntryView { id, tenant_id, posting, created_at: now }
}

/// The entries that are written for `postings`: one each, in order, with
/// identifiers counted up from `first_id`.
pub open spec fn new_entries(
    postings: Seq<PostingView>,
    tenant_id: u128,
    first_id: u128,
    now: Timestamp,
) -> Seq<EntryView> {
    Seq::new(
        postings.len(),
        |k: int| entry_of((first_id + k) as u128, tenant_id, postings[k], now),
    )
}

/// What `find_product` finds is the first product that fits, and it
/// finds nothing only where none fits.
pub proof fn lemma_find_product(products: Seq<Product>, tenant_id: u128, product_id: u128)
    ensures
        match find_product(products, tenant_id, product_id) {
            Some(i) => {
                &&& 0 <= i < products.len()
                &&& is_product(products[i], tenant_id, product_id)
                &&& forall|j: int| 0 <= j < i ==> !is_product(products[j], tenant_id, product_id)
            },
            None => forall|j: int|
                0 <= j < products.len() ==> !is_product(products[j], tenant_id, product_id),
        },
{
    lemma_find(products, tenant_id, product_id);
}

/// Finding a product depends on the products' identifiers and tenants
/// alone.
pub proof fn lemma_find_same_keys(a: Seq<Product>, b: Seq<Product>, tenant_id: u128, product_id: u128)
    requires
        a.len() == b.len(),
        forall|i: int|
            0 <= i < a.len() ==> a[i].id == b[i].id && a[i].tenant_id == b[i].tenant_id,
    ensures
        find_product(a, tenant_id, product_id) == find_product(b, tenant_id, product_id),
{
    lemma_find_product(a, tenant_id, product_id);
    lemma_find_product(b, tenant_id, product_id);
}

/// A movement leaves the products' number, identifiers and tenants as they
/// were.
pub proof fn lemma_post_step_keys(products: Seq<Product>, tenant_id: u128, posting: PostingView)
    requires
        post_step(products, tenant_id, posting) is Ok,
    ensures
        ({
            let after = post_step(products, tenant_id, posting)->Ok_0;
            &&& after.len() == products.len()
            &&& forall|i: int|
                0 <= i < products.len() ==> with_stock(
                    #[trigger] after[i],
                    products[i].stock_quantity,
                ) == products[i]
        }),
{
    lemma_find_product(products, tenant_id, posting.product_id);
}

/// Movements leave the products' number, identifiers and tenants as they
/// were: each product keeps all but its stock.
pub proof fn lemma_post_all_keys(products: Seq<Product>, tenant_id: u128, postings: Seq<PostingView>)
    requires
        post_all_spec(products, tenant_id, postings) is Ok,
    ensures
        ({
            let after = post_all_spec(products, tenant_id, postings)->Ok_0;
            &&& after.len() == products.len()
            &&& forall|i: int|
                0 <= i < products.len() ==> with_stock(
                    #[trigger] after[i],
                    products[i].stock_quantity,
                ) == products[i]
        }),
    decreases postings.len(),
{
    if postings.len() > 0 {
        lemma_post_all_keys(products, tenant_id, postings.drop_last());
        let before = post_all_spec(products, tenant_id, postings.drop_last())->Ok_0;
        lemma_post_step_keys(before, tenant_id, postings.last());
    }
}

/// One movement, written to the log together with the change of stock,
/// keeps each product's stock equal to what the log gives for it.
pub proof fn lemma_post_step_consistent(
    products: Seq<Product>,
    entries: Seq<EntryView>,
    tenant_id: u128,
    posting: PostingView,
    entry: EntryView,
)
    requires
        distinct_ids(products),
        stock_matches(products, entries),
        entries_refer(products, entries),
        post_step(products, tenant_id, posting) is Ok,
        entry.tenant_id == tenant_id,
        entry.posting == posting,
    ensures
        distinct_ids(post_step(products, tenant_id, posting)->Ok_0),
        stock_matches(post_step(products, tenant_id, posting)->Ok_0, entries.push(entry)),
        entries_refer(post_step(products, tenant_id, posting)->Ok_0, entries.push(entry)),
{
    let after = post_step(products, tenant_id, posting)->Ok_0;
    let log = entries.push(entry);
    lemma_find_product(products, tenant_id, posting.product_id);
    let at = find_product(products, tenant_id, posting.product_id)->Some_0;
    assert(log.drop_last() =~= entries);
    assert forall|i: int| 0 <= i < after.len() implies project_stock(
        log,
        (#[trigger] after[i]).tenant_id,
        after[i].id,
    ) == Some(after[i].stock_quantity) by {
        assert(products[i].id == after[i].id);
        if i != at {
            assert(products[i].id != products[at].id);
        }
    }
    assert forall|k: int| 0 <= k < log.len() implies find_product(
        after,
        (#[trigger] log[k]).tenant_id,
        log[k].posting.product_id,
    ) is Some by {
        lemma_find_same_keys(products, after, log[k].tenant_id, log[k].posting.product_id);
        if k < entries.len() {
            assert(log[k] == entries[k]);
        }
    }
}

/// A batch of movements, written to the log together with the changes of
/// stock, keeps each product's stock equal to what the log gives for it.
pub proof fn lemma_post_all_consistent(
    products: Seq<Product>,
    entries: Seq<EntryView>,
    tenant_id: u128,
    postings: Seq<PostingView>,
    first_id: u128,
    now: Timestamp,
)
    requires
        distinct_ids(products),
        stock_matches(products, entries),
        entries_refer(products, entries),
        post_all_spec(products, tenant_id, postings) is Ok,
    ensures
        distinct_ids(post_all_spec(products, tenant_id, postings)->Ok_0),
        stock_matches(
            post_all_spec(products, tenant_id, postings)->Ok_0,
            entries + new_entries(postings, tenant_id, first_id, now),
        ),
        entries_refer(
            post_all_spec(products, tenant_id, postings)->Ok_0,
            entries + new_entries(postings, tenant_id, first_id, now),
        ),
    decreases postings.len(),
{
    if postings.len() == 0 {
        assert(entries + new_entries(postings, tenant_id, first_id, now) =~= entries);
    } else {
        let front = postings.drop_last();
        lemma_post_all_consistent(products, entries, tenant_id, front, first_id, now);
        let before = post_all_spec(products, tenant_id, front)->Ok_0;
        let log = entries + new_entries(front, tenant_id, first_id, now);
        let entry = entry_of(
            (first_id + postings.len() - 1) as u128,
            tenant_id,
            postings.last(),
            now,
        );
        lemma_post_step_consistent(before, log, tenant_id, postings.last(), entry);
        assert(log.push(entry) =~= entries + new_entries(postings, tenant_id, first_id, now));
    }
}

/// Once a movement of a batch is refused, the batch is refused with that
/// error, however it goes on.
pub proof fn lemma_post_all_error_extends(
    products: Seq<Product>,
    tenant_id: u128,
    postings: Seq<PostingView>,
    n: int,
)
    requires
        0 <= n <= postings.len(),
        post_all_spec(products, tenant_id, postings.take(n)) is Err,
    ensures
        post_all_spec(products, tenant_id, postings) == post_all_spec(
            products,
            tenant_id,
            postings.take(n),
        ),
    decreases postings.len() - n,
{
    if n < postings.len() {
        assert(postings.take(n + 1).drop_last() =~= postings.take(n));
        lemma_post_all_error_extends(products, tenant_id, postings, n + 1);
    } else {
        assert(postings.take(n) =~= postings);
    }
}

impl Ledger {
    /// The log, each entry with its note as characters.
    pub open spec fn log(&self) -> Seq<EntryView> {
        entry_views(self.entries@)
    }

    /// The ledger is sound: no two products share an identifier, every entry
    /// moves a product that exists, and each product's stock is the sum of
    /// the log's entries for it.
    pub open spec fn wf(&self) -> bool {
        &&& distinct_ids(self.products@)
        &&& stock_matches(self.products@, self.log())
        &&& entries_refer(self.products@, self.log())
    }

    /// At every moment, the stock kept with a product is the sum of the
    /// movements that the log holds for it, whatever movements were
    /// written and in whatever order.
    pub proof fn lemma_stock_is_sum_of_entries(&self, tenant_id: u128, product_id: u128)
        requires
            self.wf(),
            find_product(self.products@, tenant_id, product_id) is Some,
        ensures
            project_stock(self.log(), tenant_id, product_id) == Some(
                self.products[find_product(
                    self.products@,
                    tenant_id,
                    product_id,
                )->Some_0].stock_quantity,
            ),
    {
        lemma_find_product(self.products@, tenant_id, product_id);
    }

    /// Whether some product has the identifier `id`, whatever its tenant.
    pub open spec fn has_id(&self, id: u128) -> bool {
        exists|i: int| 0 <= i < self.products.len() && (#[trigger] self.products[i]).id == id
    }

    /// An empty ledger.
    pub fn new() -> (r: Ledger)
        ensures
            r.wf(),
            r.products@.len() == 0,
            r.entries@.len() == 0,
    {
        Ledger { products: Vec::new(), entries: Vec::new() }
    }

    /// Where the tenant's product stands among the products.
    pub fn position(&self, tenant_id: u128, product_id: u128) -> (r: Option<usize>)
        ensures
            match r {
                Some(i) => find_product(self.products@, tenant_id, product_id) == Some(i as int),
                None => find_product(self.products@, tenant_id, product_id) is None,
            },
    {
        position(&self.products, tenant_id, product_id)
    }

    /// Takes up a new product of the tenant, with nothing in stock. Refused
    /// where the identifier is already that of a product.
    pub fn add_product(&mut self, id: u128, tenant_id: u128, input: CreateProduct) -> (r: Result<
        Product,
        Error,
    >)
        requires
            old(self).wf(),
        ensures
            final(self).wf(),
            final(self).entries == old(self).entries,
            match r {
                Ok(product) => {
                    &&& !old(self).has_id(id)
                    &&& product == Product::created(id, tenant_id, input)
                    &&& final(self).products@ == old(self).products@.push(product)
                },
                Err(e) => {
                    &&& old(self).has_id(id)
                    &&& e@ == product_exists()
                    &&& final(self).products == old(self).products
                },
            },
    {
        let mut i: usize = 0;
        while i < self.products.len()
            invariant
                *self == *old(self),
                old(self).wf(),
                i <= self.products.len(),
                forall|j: int| 0 <= j < i ==> self.products[j].id != id,
            decreases self.products.len() - i,
        {
            if self.products[i].id == id {
                assert(old(self).has_id(id));
                return Err(Error::Database(String::from_str("duplicate product identifier")));
            }
            i += 1;
        }
        let product = Product::create(id, tenant_id, input);
        let copy = product.clone();
        proof {
            let before = self.products@;
            let after = before.push(product);
            let log = self.log();
            assert(after.drop_last() =~= before);
            assert forall|j: int| 0 <= j < after.len() implies project_stock(
                log,
                (#[trigger] after[j]).tenant_id,
                after[j].id,
            ) == Some(after[j].stock_quantity) by {
                if j == before.len() {
                    lemma_project_unmoved(before, log, tenant_id, id);
                }
            }
            assert forall|k: int| 0 <= k < log.len() implies find_product(
                after,
                (#[trigger] log[k]).tenant_id,
                log[k].posting.product_id,
            ) is Some by {
                assert(find_product(before, log[k].tenant_id, log[k].posting.product_id) is Some);
            }
        }
        self.products.push(product);
        Ok(copy)
    }

    /// The stock that is kept with the tenant's product.
    pub fn stock_level(&self, tenant_id: u128, product_id: u128) -> (r: Result<Decimal, Error>)
        requires
            self.wf(),
        ensures
            match find_product(self.products@, tenant_id, product_id) {
                Some(i) => r == Ok::<Decimal, Error>(self.products[i].stock_quantity)
                    && project_stock(self.log(), tenant_id, product_id) == Some(
                    self.products[i].stock_quantity,
                ),
                None => r is Err && r->Err_0@ == product_not_found(),
            },
    {
        proof {
            lemma_find_product(self.products@, tenant_id, product_id);
        }
        match self.position(tenant_id, product_id) {
            Some(i) => Ok(self.products[i].stock_quantity),
            None => Err(Error::not_found("Product not found")),
        }
    }

    /// The stock of the tenant's product, added up from the log.
    pub fn sum_of_entries(&self, tenant_id: u128, product_id: u128) -> (r: Option<Decimal>)
        ensures
            r == project_stock(self.log(), tenant_id, product_id),
    {
        let mut stock = Decimal::zero();
        let mut k: usize = 0;
        while k < self.entries.len()
            invariant
                k <= self.entries.len(),
                project_stock(self.log().take(k as int), tenant_id, product_id) == Some(stock),
            decreases self.entries.len() - k,
        {
            assert(self.log().take(k as int + 1).drop_last() =~= self.log().take(k as int));
            assert(self.log()[k as int] == self.entries[k as int]@);
            let entry = &self.entries[k];
            if entry.tenant_id == tenant_id && entry.product_id == product_id {
                match stock.checked_add(entry.quantity) {
                    Some(next) => {
                        stock = next;
                    },
                    None => {
                        proof {
                            lemma_project_none_extends(
                                self.log(),
                                tenant_id,
                                product_id,
                                k as int + 1,
                            );
                        }
                        return None;
                    },
                }
            }
            k += 1;
        }
        assert(self.log().take(k as int) =~= self.log());
        Some(stock)
    }

    /// Writes a batch of movements of the tenant's stock: every movement
    /// is entered in the log and changes its product's stock by its signed
    /// quantity, or, where one of them is refused, nothing changes at all.
    pub fn post_all(
        &mut self,
        tenant_id: u128,
        first_id: u128,
        postings: &Vec<CreateInventoryTransaction>,
        now: Timestamp,
    ) -> (r: Result<(), Error>)
        requires
            old(self).wf(),
            first_id + postings.len() <= u128::MAX,
        ensures
            final(self).wf(),
            match post_all_spec(old(self).products@, tenant_id, posting_views(postings@)) {
                Ok(products) => {
                    &&& r is Ok
                    &&& final(self).products@ == products
                    &&& final(self).log() == old(self).log() + new_entries(
                        posting_views(postings@),
                        tenant_id,
                        first_id,
                        now,
                    )
                },
                Err(e) => {
                    &&& r is Err
                    &&& r->Err_0@ == e
                    &&& *final(self) == *old(self)
                },
            },
    {
        let ghost views = posting_views(postings@);
        let ghost before = self.products@;
        let mut stocks: Vec<Decimal> = Vec::new();
        let mut i: usize = 0;
        while i < self.products.len()
            invariant
                *self == *old(self),
                i <= self.products.len(),
                stocks@.len() == i,
                forall|j: int| 0 <= j < i ==> stocks[j] == self.products[j].stock_quantity,
            decreases self.products.len() - i,
        {
            stocks.push(self.products[i].stock_quantity);
            i += 1;
        }
        assert(with_stocks(before, stocks@) =~= before);
        let mut k: usize = 0;
        while k < postings.len()
            invariant
                *self == *old(self),
                old(self).wf(),
                k <= postings.len(),
                views == posting_views(postings@),
                before == self.products@,
                stocks@.len() == before.len(),
                post_all_spec(before, tenant_id, views.take(k as int)) == Ok::<
                    Seq<Product>,
                    ErrorView,
                >(with_stocks(before, stocks@)),
            decreases postings.len() - k,
        {
            let ghost current = with_stocks(before, stocks@);
            let posting = &postings[k];
            proof {
                assert(views.take(k as int + 1).drop_last() =~= views.take(k as int));
                assert(views[k as int] == postings[k as int]@);
                lemma_find_same_keys(before, current, tenant_id, posting.product_id);
                lemma_find_product(before, tenant_id, posting.product_id);
            }
            match self.position(tenant_id, posting.product_id) {
                None => {
                    proof {
                        lemma_post_all_error_extends(before, tenant_id, views, k as int + 1);
                    }
                    return Err(Error::not_found("Product not found"));
                },
                Some(at) => match stocks[at].checked_add(posting.quantity) {
                    None => {
                        proof {
                            lemma_post_all_error_extends(before, tenant_id, views, k as int + 1);
                        }
                        return Err(Error::out_of_range());
                    },
                    Some(stock) => {
                        stocks.set(at, stock);
                        assert(with_stocks(before, stocks@) =~= current.update(
                            at as int,
                            with_stock(current[at as int], stock),
                        ));
                    },
                },
            }
            k += 1;
        }
        assert(views.take(k as int) =~= views);
        let ghost after = with_stocks(before, stocks@);
        let mut i: usize = 0;
        while i < self.products.len()
            invariant
                i <= self.products.len(),
                self.products@.len() == before.len(),
                stocks@.len() == before.len(),
                self.entries == old(self).entries,
                forall|j: int| 0 <= j < i ==> self.products[j] == with_stock(before[j], stocks[j]),
                forall|j: int| i <= j < before.len() ==> self.products[j] == before[j],
            decreases self.products.len() - i,
        {
            self.products[i].stock_quantity = stocks[i];
            i += 1;
        }
        assert(self.products@ =~= after);
        let ghost log = old(self).log();
        let ghost added = new_entries(views, tenant_id, first_id, now);
        let mut k: usize = 0;
        while k < postings.len()
            invariant
                k <= postings.len(),
                first_id + postings.len() <= u128::MAX,
                views == posting_views(postings@),
                added == new_entries(views, tenant_id, first_id, now),
                self.products@ == after,
                self.log() == log + added.take(k as int),
            decreases postings.len() - k,
        {
            let posting = &postings[k];
            let entry = InventoryTransaction {
                id: first_id + k as u128,
                tenant_id,
                product_id: posting.product_id,
                quantity: posting.quantity,
                transaction_type: posting.transaction_type,
                reference_id: posting.reference_id,
                notes: clone_optional(&posting.notes),
                created_at: now,
            };
            proof {
                assert(views[k as int] == postings[k as int]@);
                assert(entry@ == added[k as int]);
                assert(entry_views(self.entries@.push(entry)) =~= entry_views(self.entries@).push(
                    entry@,
                ));
                assert((log + added.take(k as int)).push(added[k as int]) =~= log + added.take(
                    k as int + 1,
                ));
            }
            self.entries.push(entry);
            k += 1;
        }
        proof {
            assert(added.take(k as int) =~= added);
            lemma_post_all_consistent(before, log, tenant_id, views, first_id, now);
        }
        Ok(())
    }
}

/// A product that is not among the products has no entry in the log, so
/// the log gives zero for it.
pub proof fn lemma_project_unmoved(
    products: Seq<Product>,
    entries: Seq<EntryView>,
    tenant_id: u128,
    product_id: u128,
)
    requires
        entries_refer(products, entries),
        forall|i: int| 0 <= i < products.len() ==> products[i].id != product_id,
    ensures
        project_stock(entries, tenant_id, product_id) == Some(Decimal::zero_spec()),
    decreases entries.len(),
{
    if entries.len() > 0 {
        let front = entries.drop_last();
        assert forall|k: int| 0 <= k < front.len() implies find_product(
            products,
            (#[trigger] front[k]).tenant_id,
            front[k].posting.product_id,
        ) is Some by {
            assert(front[k] == entries[k]);
        }
        lemma_project_unmoved(products, front, tenant_id, product_id);
        let last = entries.last();
        assert(last == entries[entries.len() - 1]);
        lemma_find_product(products, last.tenant_id, last.posting.product_id);
    }
}

/// Once the sum of a product's movements has left the range of a decimal,
/// it stays out of it.
pub proof fn lemma_project_none_extends(
    entries: Seq<EntryView>,
    tenant_id: u128,
    product_id: u128,
    n: int,
)
    requires
        0 <= n <= entries.len(),
        project_stock(entries.take(n), tenant_id, product_id) is None,
    ensures
        project_stock(entries, tenant_id, product_id) is None,
    decreases entries.len() - n,
{
    if n < entries.len() {
        assert(entries.take(n + 1).drop_last() =~= entries.take(n));
        lemma_project_none_extends(entries, tenant_id, product_id, n + 1);
    } else {
        assert(entries.take(n) =~= entries);
    }
}


/// Movements of one tenant's stock leave the products of every other
/// tenant as they were.
pub proof fn lemma_post_all_isolated(products: Seq<Product>, tenant_id: u128, postings: Seq<PostingView>)
    requires
        post_all_spec(products, tenant_id, postings) is Ok,
    ensures
        ({
            let after = post_all_spec(products, tenant_id, postings)->Ok_0;
            &&& after.len() == products.len()
            &&& forall|i: int|
                0 <= i < products.len() && products[i].tenant_id != tenant_id ==> #[trigger] after[i]
                    == products[i]
        }),
    decreases postings.len(),
{
    if postings.len() > 0 {
        let front = postings.drop_last();
        lemma_post_all_isolated(products, tenant_id, front);
        lemma_post_all_keys(products, tenant_id, front);
        let before = post_all_spec(products, tenant_id, front)->Ok_0;
        lemma_find_product(before, tenant_id, postings.last().product_id);
        let after = post_all_spec(products, tenant_id, postings)->Ok_0;
        assert forall|i: int|
            0 <= i < products.len() && products[i].tenant_id != tenant_id implies #[trigger] after[i]
            == products[i] by {
            assert(before[i] == products[i]);
        }
    }
}

} // verus!
