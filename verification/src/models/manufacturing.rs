//! Recipes and work orders.
//!
//! A recipe says what one batch unit consumes and what it yields. A work
//! order runs a recipe for a batch quantity; completing it takes the
//! ingredients out of stock and brings the output in.
use crate::date::Date;
use crate::decimal::Decimal;
use crate::error::{Error, ErrorView};
use crate::ident::{format_id, uuid_text};
use crate::models::inventory::{
    posting_views, CreateInventoryTransaction, PostingView, TransactionType,
};
use crate::text::{clone_optional, same_text};
use crate::order::{key_of_name, name_key, SortKey, SortKeyView, Sortable};
use crate::table::{Child, Row};
use vstd::prelude::*;
use vstd::string::*;

verus! {

/// How a product is made: what one batch unit yields.
#[derive(Debug, PartialEq)]
pub struct Recipe {
    pub id: u128,
    pub tenant_id: u128,
    pub name: String,
    pub output_product_id: u128,
    /// The quantity of the output product that one batch unit yields.
    pub output_quantity: Decimal,
    pub description: Option<String>,
}

/// What one batch unit of a recipe consumes of one product.
#[derive(Debug, Clone, Copy, PartialEq)]
pub struct RecipeIngredient {
    pub id: u128,
    pub recipe_id: u128,
    pub input_product_id: u128,
    /// The quantity that one batch unit consumes.
    pub quantity: Decimal,
}

/// Where a work order stands. `Completed` and `Cancelled` are final.
#[derive(Debug, Clone, Copy, PartialEq, Eq, Structural)]
pub enum WorkOrderStatus {
    Planned,
    InProgress,
    Completed,
    Cancelled,
}

impl WorkOrderStatus {
    /// The status as it is stored and sent.
    pub open spec fn code(self) -> Seq<char> {
        match self {
            WorkOrderStatus::Planned => "PLANNED"@,
            WorkOrderStatus::InProgress => "IN_PROGRESS"@,
            WorkOrderStatus::Completed => "COMPLETED"@,
            WorkOrderStatus::Cancelled => "CANCELLED"@,
        }
    }

    /// The status as it is named in messages.
    pub open spec fn name(self) -> Seq<char> {
        match self {
            WorkOrderStatus::Planned => "Planned"@,
            WorkOrderStatus::InProgress => "InProgress"@,
            WorkOrderStatus::Completed => "Completed"@,
            WorkOrderStatus::Cancelled => "Cancelled"@,
        }
    }

    /// Whether no transition leaves this status.
    pub open spec fn is_terminal(self) -> bool {
        self == WorkOrderStatus::Completed || self == WorkOrderStatus::Cancelled
    }

    /// The status as it is stored and sent.
    pub fn as_str(&self) -> (r: &'static str)
        ensures
            r@ == self.code(),
    {
        match self {
            WorkOrderStatus::Planned => "PLANNED",
            WorkOrderStatus::InProgress => "IN_PROGRESS",
            WorkOrderStatus::Completed => "COMPLETED",
            WorkOrderStatus::Cancelled => "CANCELLED",
        }
    }

    /// The status as it is named in messages.
    pub fn debug_name(&self) -> (r: &'static str)
        ensures
            r@ == self.name(),
    {
        match self {
            WorkOrderStatus::Planned => "Planned",
            WorkOrderStatus::InProgress => "InProgress",
            WorkOrderStatus::Completed => "Completed",
            WorkOrderStatus::Cancelled => "Cancelled",
        }
    }

    /// The status that `text` is the stored form of, if it is one.
    pub fn parse(text: &str) -> (r: Option<WorkOrderStatus>)
        ensures
            match r {
                Some(status) => status.code() == text@,
                None => forall|status: WorkOrderStatus| status.code() != text@,
            },
    {
        if same_text(text, "PLANNED") {
            Some(WorkOrderStatus::Planned)
        } else if same_text(text, "IN_PROGRESS") {
            Some(WorkOrderStatus::InProgress)
        } else if same_text(text, "COMPLETED") {
            Some(WorkOrderStatus::Completed)
        } else if same_text(text, "CANCELLED") {
            Some(WorkOrderStatus::Cancelled)
        } else {
            None
        }
    }

    /// No two statuses are stored alike.
    pub proof fn lemma_code_injective(a: WorkOrderStatus, b: WorkOrderStatus)
        requires
            a.code() == b.code(),
        ensures
            a == b,
    {
        reveal_strlit("PLANNED");
        reveal_strlit("IN_PROGRESS");
        reveal_strlit("COMPLETED");
        reveal_strlit("CANCELLED");
        assert("PLANNED"@.len() == 7);
        assert("IN_PROGRESS"@.len() == 11);
        assert("COMPLETED"@.len() == 9 && "COMPLETED"@[1] == 'O');
        assert("CANCELLED"@.len() == 9 && "CANCELLED"@[1] == 'A');
    }
}

/// An order to run a recipe for a batch quantity.
#[derive(Debug, Clone, Copy, PartialEq)]
pub struct WorkOrder {
    pub id: u128,
    pub tenant_id: u128,
    pub recipe_id: u128,
    /// The batch quantity: how many batch units of the recipe are made.
    pub quantity: Decimal,
    pub status: WorkOrderStatus,
    pub start_date: Option<Date>,
    pub end_date: Option<Date>,
}

/// An ingredient of a recipe that is to be created.
#[derive(Debug, Clone, Copy, PartialEq)]
pub struct CreateRecipeIngredient {
    pub input_product_id: u128,
    pub quantity: Decimal,
}

/// What is given to create a recipe.
#[derive(Debug, PartialEq)]
pub struct CreateRecipe {
    pub name: String,
    pub output_product_id: u128,
    pub output_quantity: Decimal,
    pub description: Option<String>,
    pub ingredients: Vec<CreateRecipeIngredient>,
}

/// What is given to create a work order.
#[derive(Debug, Clone, Copy, PartialEq)]
pub struct CreateWorkOrder {
    pub recipe_id: u128,
    pub quantity: Decimal,
    pub start_date: Option<Date>,
}

impl Clone for Recipe {
    fn clone(&self) -> (r: Recipe)
        ensures
            r == *self,
    {
        Recipe {
            id: self.id,
            tenant_id: self.tenant_id,
            name: self.name.clone(),
            output_product_id: self.output_product_id,
            output_quantity: self.output_quantity,
            description: clone_optional(&self.description),
        }
    }
}

/// A recipe worked out for a batch quantity: what is consumed of each
/// ingredient, in the order of the ingredients, and what is yielded. All
/// quantities are amounts, without sign.
#[derive(Debug, PartialEq)]
pub struct ResolvedRecipe {
    pub ingredient_deltas: Vec<(u128, Decimal)>,
    pub output_delta: (u128, Decimal),
}

/// What a batch of `batch_quantity` consumes of each ingredient: the
/// ingredient's quantity per batch unit times the batch quantity. `None`
/// where a product leaves the range of a decimal.
pub open spec fn ingredient_amounts(
    ingredients: Seq<RecipeIngredient>,
    batch_quantity: Decimal,
) -> Option<Seq<(u128, Decimal)>>
    decreases ingredients.len(),
{
    if ingredients.len() == 0 {
        Some(Seq::empty())
    } else {
        match ingredient_amounts(ingredients.drop_last(), batch_quantity) {
            Some(front) => match ingredients.last().quantity.mul_spec(batch_quantity) {
                Some(amount) => Some(front.push((ingredients.last().input_product_id, amount))),
                None => None,
            },
            None => None,
        }
    }
}

/// A recipe worked out for a batch quantity: each quantity per batch unit
/// times the batch quantity, nothing rounded beyond what a decimal holds.
/// `None` where a product leaves the range of a decimal.
pub open spec fn resolve_spec(
    recipe: Recipe,
    ingredients: Seq<RecipeIngredient>,
    batch_quantity: Decimal,
) -> Option<(Seq<(u128, Decimal)>, (u128, Decimal))> {
    match ingredient_amounts(ingredients, batch_quantity) {
        Some(consumed) => match recipe.output_quantity.mul_spec(batch_quantity) {
            Some(produced) => Some((consumed, (recipe.output_product_id, produced))),
            None => None,
        },
        None => None,
    }
}

/// There is one amount for each ingredient, for the ingredient's product.
pub proof fn lemma_ingredient_amounts(ingredients: Seq<RecipeIngredient>, batch_quantity: Decimal)
    requires
        ingredient_amounts(ingredients, batch_quantity) is Some,
    ensures
        ({
            let amounts = ingredient_amounts(ingredients, batch_quantity)->Some_0;
            &&& amounts.len() == ingredients.len()
            &&& forall|i: int|
                0 <= i < ingredients.len() ==> (#[trigger] amounts[i]).0
                    == ingredients[i].input_product_id && ingredients[i].quantity.mul_spec(
                    batch_quantity,
                ) == Some(amounts[i].1)
        }),
    decreases ingredients.len(),
{
    if ingredients.len() > 0 {
        lemma_ingredient_amounts(ingredients.drop_last(), batch_quantity);
    }
}

/// Once an ingredient's amount leaves the range of a decimal, the recipe
/// cannot be worked out.
pub proof fn lemma_ingredient_amounts_none_extends(
    ingredients: Seq<RecipeIngredient>,
    batch_quantity: Decimal,
    n: int,
)
    requires
        0 <= n <= ingredients.len(),
        ingredient_amounts(ingredients.take(n), batch_quantity) is None,
    ensures
        ingredient_amounts(ingredients, batch_quantity) is None,
    decreases ingredients.len() - n,
{
    if n < ingredients.len() {
        assert(ingredients.take(n + 1).drop_last() =~= ingredients.take(n));
        lemma_ingredient_amounts_none_extends(ingredients, batch_quantity, n + 1);
    } else {
        assert(ingredients.take(n) =~= ingredients);
    }
}

/// Works a recipe out for a batch quantity.
pub fn resolve(recipe: &Recipe, ingredients: &Vec<RecipeIngredient>, batch_quantity: Decimal) -> (r:
    Result<ResolvedRecipe, Error>)
    ensures
        match resolve_spec(*recipe, ingredients@, batch_quantity) {
            Some(resolved) => r is Ok && r->Ok_0.ingredient_deltas@ == resolved.0
                && r->Ok_0.output_delta == resolved.1,
            None => r is Err && r->Err_0@ == ErrorView::out_of_range(),
        },
{
    let mut consumed: Vec<(u128, Decimal)> = Vec::new();
    let mut i: usize = 0;
    while i < ingredients.len()
        invariant
            i <= ingredients.len(),
            ingredient_amounts(ingredients@.take(i as int), batch_quantity) == Some(consumed@),
        decreases ingredients.len() - i,
    {
        assert(ingredients@.take(i as int + 1).drop_last() =~= ingredients@.take(i as int));
        match ingredients[i].quantity.checked_mul(batch_quantity) {
            Some(amount) => {
                consumed.push((ingredients[i].input_product_id, amount));
            },
            None => {
                proof {
                    lemma_ingredient_amounts_none_extends(
                        ingredients@,
                        batch_quantity,
                        i as int + 1,
                    );
                }
                return Err(Error::out_of_range());
            },
        }
        i += 1;
    }
    assert(ingredients@.take(i as int) =~= ingredients@);
    match recipe.output_quantity.checked_mul(batch_quantity) {
        Some(produced) => Ok(
            ResolvedRecipe {
                ingredient_deltas: consumed,
                output_delta: (recipe.output_product_id, produced),
            },
        ),
        None => Err(Error::out_of_range()),
    }
}

/// What is reported for completing a work order that is completed or
/// cancelled.
pub open spec fn cannot_complete(status: WorkOrderStatus) -> ErrorView {
    ErrorView::BusinessRule(
        "Cannot complete work order with status "@ + status.name()
            + ". Must be PLANNED or IN_PROGRESS."@,
    )
}

/// What is reported for a work order that the tenant does not have.
pub open spec fn work_order_not_found() -> ErrorView {
    ErrorView::NotFound("Work Order not found"@)
}

/// What is reported for a work order whose recipe is missing.
pub open spec fn recipe_not_found() -> ErrorView {
    ErrorView::NotFound("Recipe not found"@)
}

/// The note on the ledger entry of an ingredient that a work order used.
pub open spec fn consumption_note(work_order_id: u128) -> Seq<char> {
    "Used for WO "@ + uuid_text(work_order_id)
}

/// The note on the ledger entry of what a work order produced.
pub open spec fn production_note(work_order_id: u128) -> Seq<char> {
    "Produced from WO "@ + uuid_text(work_order_id)
}

/// The movement for one ingredient: the amount consumed leaves stock.
pub open spec fn consumption_posting(work_order_id: u128, consumed: (u128, Decimal)) -> PostingView {
    PostingView {
        product_id: consumed.0,
        quantity: consumed.1.neg_spec(),
        transaction_type: TransactionType::ProductionOut,
        reference_id: Some(work_order_id),
        notes: Some(consumption_note(work_order_id)),
    }
}

/// The movement for the output: the amount produced comes into stock.
pub open spec fn production_posting(work_order_id: u128, produced: (u128, Decimal)) -> PostingView {
    PostingView {
        product_id: produced.0,
        quantity: produced.1,
        transaction_type: TransactionType::ProductionIn,
        reference_id: Some(work_order_id),
        notes: Some(production_note(work_order_id)),
    }
}

/// The movements that completing a work order causes: one out of stock
/// for each ingredient, in the order of the ingredients, and then one into
/// stock for the output.
pub open spec fn completion_postings_spec(
    work_order_id: u128,
    consumed: Seq<(u128, Decimal)>,
    produced: (u128, Decimal),
) -> Seq<PostingView> {
    Seq::new(consumed.len(), |i: int| consumption_posting(work_order_id, consumed[i])).push(
        production_posting(work_order_id, produced),
    )
}

impl ResolvedRecipe {
    /// The movements of stock that completing the work order
    /// `work_order_id` with this recipe causes.
    pub fn completion_postings(&self, work_order_id: u128) -> (r: Vec<CreateInventoryTransaction>)
        ensures
            posting_views(r@) == completion_postings_spec(
                work_order_id,
                self.ingredient_deltas@,
                self.output_delta,
            ),
    {
        let ghost out = Seq::new(
            self.ingredient_deltas@.len(),
            |i: int| consumption_posting(work_order_id, self.ingredient_deltas@[i]),
        );
        let mut postings: Vec<CreateInventoryTransaction> = Vec::new();
        let mut i: usize = 0;
        while i < self.ingredient_deltas.len()
            invariant
                i <= self.ingredient_deltas.len(),
                out == Seq::new(
                    self.ingredient_deltas@.len(),
                    |i: int| consumption_posting(work_order_id, self.ingredient_deltas@[i]),
                ),
                posting_views(postings@) == out.take(i as int),
            decreases self.ingredient_deltas.len() - i,
        {
            let note = String::from_str("Used for WO ").concat(format_id(work_order_id).as_str());
            let posting = CreateInventoryTransaction {
                product_id: self.ingredient_deltas[i].0,
                quantity: self.ingredient_deltas[i].1.negate(),
                transaction_type: TransactionType::ProductionOut,
                reference_id: Some(work_order_id),
                notes: Some(note),
            };
            proof {
                assert(posting@ == out[i as int]);
                assert(posting_views(postings@.push(posting)) =~= posting_views(postings@).push(
                    posting@,
                ));
                assert(out.take(i as int).push(out[i as int]) =~= out.take(i as int + 1));
            }
            postings.push(posting);
            i += 1;
        }
        let note = String::from_str("Produced from WO ").concat(format_id(work_order_id).as_str());
        let posting = CreateInventoryTransaction {
            product_id: self.output_delta.0,
            quantity: self.output_delta.1,
            transaction_type: TransactionType::ProductionIn,
            reference_id: Some(work_order_id),
            notes: Some(note),
        };
        proof {
            assert(out.take(i as int) =~= out);
            assert(posting_views(postings@.push(posting)) =~= posting_views(postings@).push(
                posting@,
            ));
        }
        postings.push(posting);
        postings
    }
}

impl Recipe {
    /// The recipe that creating `input` for the tenant gives.
    pub open spec fn created(id: u128, tenant_id: u128, input: CreateRecipe) -> Recipe {
        Recipe {
            id,
            tenant_id,
            name: input.name,
            output_product_id: input.output_product_id,
            output_quantity: input.output_quantity,
            description: input.description,
        }
    }
}

impl WorkOrder {
    /// The new work order that `input` describes: planned.
    pub open spec fn created(id: u128, tenant_id: u128, input: CreateWorkOrder) -> WorkOrder {
        WorkOrder {
            id,
            tenant_id,
            recipe_id: input.recipe_id,
            quantity: input.quantity,
            status: WorkOrderStatus::Planned,
            start_date: input.start_date,
            end_date: None,
        }
    }

    /// The work order once completed on the day `today`.
    pub open spec fn completed_spec(self, today: Date) -> WorkOrder {
        WorkOrder {
            id: self.id,
            tenant_id: self.tenant_id,
            recipe_id: self.recipe_id,
            quantity: self.quantity,
            status: WorkOrderStatus::Completed,
            start_date: self.start_date,
            end_date: Some(today),
        }
    }

    /// Whether the work order can be completed: from `Planned` or
    /// `InProgress`.
    pub open spec fn completable(self) -> bool {
        !self.status.is_terminal()
    }

    /// Makes the work order that `input` describes.
    pub fn create(id: u128, tenant_id: u128, input: CreateWorkOrder) -> (r: WorkOrder)
        ensures
            r == WorkOrder::created(id, tenant_id, input),
    {
        WorkOrder {
            id,
            tenant_id,
            recipe_id: input.recipe_id,
            quantity: input.quantity,
            status: WorkOrderStatus::Planned,
            start_date: input.start_date,
            end_date: None,
        }
    }

    /// Accepts the work order for completion, or says why it cannot be
    /// completed.
    pub fn check_completable(&self) -> (r: Result<(), Error>)
        ensures
            self.completable() ==> r is Ok,
            !self.completable() ==> r is Err && r->Err_0@ == cannot_complete(self.status),
    {
        match self.status {
            WorkOrderStatus::Completed | WorkOrderStatus::Cancelled => {
                let mut text = String::from_str("Cannot complete work order with status ");
                text.append(self.status.debug_name());
                text.append(". Must be PLANNED or IN_PROGRESS.");
                Err(Error::BusinessRule(text))
            },
            _ => Ok(()),
        }
    }

    /// The work order as it stands once completed on the day `today`.
    pub fn completed(&self, today: Date) -> (r: WorkOrder)
        ensures
            r == self.completed_spec(today),
    {
        WorkOrder {
            id: self.id,
            tenant_id: self.tenant_id,
            recipe_id: self.recipe_id,
            quantity: self.quantity,
            status: WorkOrderStatus::Completed,
            start_date: self.start_date,
            end_date: Some(today),
        }
    }
}

impl Row for Recipe {
    open spec fn tenant_spec(&self) -> u128 {
        self.tenant_id
    }

    open spec fn id_spec(&self) -> u128 {
        self.id
    }

    fn tenant(&self) -> (r: u128) {
        self.tenant_id
    }

    fn id(&self) -> (r: u128) {
        self.id
    }

    fn duplicate(&self) -> (r: Recipe) {
        self.clone()
    }
}

impl Row for WorkOrder {
    open spec fn tenant_spec(&self) -> u128 {
        self.tenant_id
    }

    open spec fn id_spec(&self) -> u128 {
        self.id
    }

    fn tenant(&self) -> (r: u128) {
        self.tenant_id
    }

    fn id(&self) -> (r: u128) {
        self.id
    }

    fn duplicate(&self) -> (r: WorkOrder) {
        *self
    }
}

impl Child for RecipeIngredient {
    open spec fn parent_spec(&self) -> u128 {
        self.recipe_id
    }

    fn parent(&self) -> (r: u128) {
        self.recipe_id
    }
}

impl Sortable for Recipe {
    /// Recipes are listed by name.
    open spec fn sort_key_spec(&self) -> SortKeyView {
        name_key(self.name@)
    }

    fn sort_key(&self) -> (r: SortKey) {
        key_of_name(&self.name)
    }

    fn replica(&self) -> (r: Recipe) {
        self.duplicate()
    }
}

} // verus!
