//! Recipes and work orders in the engine.
use crate::date::Timestamp;
use crate::engine::Engine;
use crate::error::{Error, ErrorView};
use crate::ledger::{lemma_post_all_keys, new_entries, post_all_spec};
use crate::models::inventory::PostingView;
use crate::models::manufacturing::{
    cannot_complete, completion_postings_spec, recipe_not_found, resolve, resolve_spec,
    work_order_not_found, CreateRecipe, CreateRecipeIngredient, CreateWorkOrder, Recipe,
    RecipeIngredient, WorkOrder, WorkOrderStatus,
};
use crate::models::product::Product;
use crate::order::{is_ordered, sorted};
use crate::table::{children, children_of, find, lemma_find, lemma_find_update, list_newest, list_sorted, of_tenant, position};
use vstd::prelude::*;

verus! {

/// The ingredients that are stored for a new recipe: one for each given,
/// in order, with identifiers counted up from `first_id`.
pub open spec fn stored_ingredients(
    recipe_id: u128,
    first_id: u128,
    ingredients: Seq<CreateRecipeIngredient>,
) -> Seq<RecipeIngredient> {
    Seq::new(
        ingredients.len(),
        |k: int|
            RecipeIngredient {
                id: (first_id + k) as u128,
                recipe_id,
                input_product_id: ingredients[k].input_product_id,
                quantity: ingredients[k].quantity,
            },
    )
}

impl Engine {
    /// Creates a recipe of the tenant with its ingredients.
    pub fn create_recipe(&mut self, tenant_id: u128, input: CreateRecipe) -> (r: Result<
        Recipe,
        Error,
    >)
        requires
            old(self).wf(),
        ensures
            final(self).wf(),
            match old(self).reserve_spec(1 + input.ingredients@.len() as int) {
                Ok(id) => {
                    &&& r == Ok::<Recipe, Error>(Recipe::created(id, tenant_id, input))
                    &&& final(self).manufacturing.recipes@
                        == old(self).manufacturing.recipes@.push(r->Ok_0)
                    &&& final(self).manufacturing.ingredients@
                        == old(self).manufacturing.ingredients@ + stored_ingredients(
                        id,
                        (id + 1) as u128,
                        input.ingredients@,
                    )
                    &&& final(self).manufacturing.work_orders == old(self).manufacturing.work_orders
                    &&& final(self).next_id == old(self).next_id + 1 + input.ingredients@.len()
                    &&& final(self).ledger == old(self).ledger
                    &&& final(self).purchasing == old(self).purchasing
                    &&& final(self).sales == old(self).sales
                    &&& final(self).accounting == old(self).accounting
                },
                Err(e) => r is Err && r->Err_0@ == e && *final(self) == *old(self),
            },
    {
        let count = input.ingredients.len();
        let id = match self.reserve(1 + count as u128) {
            Ok(id) => id,
            Err(e) => {
                return Err(e);
            },
        };
        let ghost before = self.manufacturing.ingredients@;
        let ghost added = stored_ingredients(id, (id + 1) as u128, input.ingredients@);
        let mut k: usize = 0;
        while k < count
            invariant
                k <= count,
                count == input.ingredients@.len(),
                id + 1 + count <= u128::MAX,
                added == stored_ingredients(id, (id + 1) as u128, input.ingredients@),
                self.manufacturing.ingredients@ == before + added.take(k as int),
                self.manufacturing.recipes == old(self).manufacturing.recipes,
                self.manufacturing.work_orders == old(self).manufacturing.work_orders,
                self.next_id == old(self).next_id,
                self.ledger == old(self).ledger,
                self.purchasing == old(self).purchasing,
                self.sales == old(self).sales,
                self.accounting == old(self).accounting,
            decreases count - k,
        {
            let ingredient = input.ingredients[k];
            let stored = RecipeIngredient {
                id: id + 1 + k as u128,
                recipe_id: id,
                input_product_id: ingredient.input_product_id,
                quantity: ingredient.quantity,
            };
            proof {
                assert(stored == added[k as int]);
                assert((before + added.take(k as int)).push(stored) =~= before + added.take(
                    k as int + 1,
                ));
            }
            self.manufacturing.ingredients.push(stored);
            k += 1;
        }
        assert(added.take(k as int) =~= added);
        let recipe = Recipe {
            id,
            tenant_id,
            name: input.name,
            output_product_id: input.output_product_id,
            output_quantity: input.output_quantity,
            description: input.description,
        };
        let copy = recipe.clone();
        self.manufacturing.recipes.push(recipe);
        self.next_id = self.next_id + 1 + count as u128;
        Ok(copy)
    }

    /// The tenant's recipes by name; those that agree in it in the order in
    /// which they were created.
    pub fn list_recipes(&self, tenant_id: u128) -> (r: Vec<Recipe>)
        ensures
            r@ == sorted(of_tenant(self.manufacturing.recipes@, tenant_id)),
            is_ordered(r@),
    {
        list_sorted(&self.manufacturing.recipes, tenant_id)
    }

    /// Creates a work order of the tenant: planned.
    pub fn create_work_order(&mut self, tenant_id: u128, input: CreateWorkOrder) -> (r: Result<
        WorkOrder,
        Error,
    >)
        requires
            old(self).wf(),
        ensures
            final(self).wf(),
            match old(self).reserve_spec(1) {
                Ok(id) => {
                    &&& r == Ok::<WorkOrder, Error>(WorkOrder::created(id, tenant_id, input))
                    &&& final(self).manufacturing.work_orders@
                        == old(self).manufacturing.work_orders@.push(r->Ok_0)
                    &&& final(self).manufacturing.recipes == old(self).manufacturing.recipes
                    &&& final(self).manufacturing.ingredients == old(self).manufacturing.ingredients
                    &&& final(self).next_id == old(self).next_id + 1
                    &&& final(self).ledger == old(self).ledger
                    &&& final(self).purchasing == old(self).purchasing
                    &&& final(self).sales == old(self).sales
                    &&& final(self).accounting == old(self).accounting
                },
                Err(e) => r is Err && r->Err_0@ == e && *final(self) == *old(self),
            },
    {
        let id = match self.reserve(1) {
            Ok(id) => id,
            Err(e) => {
                return Err(e);
            },
        };
        let work_order = WorkOrder::create(id, tenant_id, input);
        self.manufacturing.work_orders.push(work_order);
        self.next_id = self.next_id + 1;
        Ok(work_order)
    }

    /// The tenant's work orders, the one created last first.
    pub fn list_work_orders(&self, tenant_id: u128) -> (r: Vec<WorkOrder>)
        ensures
            r@ == of_tenant(self.manufacturing.work_orders@, tenant_id).reverse(),
    {
        list_newest(&self.manufacturing.work_orders, tenant_id)
    }

    /// The movements of stock that completing the tenant's work order at
    /// the place `at` causes: its recipe worked out for its batch quantity,
    /// one movement out of stock for each ingredient, then one into stock
    /// for the output. An error where the tenant has no such recipe, or
    /// where an amount leaves the range of a decimal.
    pub open spec fn completion_postings(&self, tenant_id: u128, at: int) -> Result<
        Seq<PostingView>,
        ErrorView,
    > {
        let work_order = self.manufacturing.work_orders[at];
        match find(self.manufacturing.recipes@, tenant_id, work_order.recipe_id) {
            None => Err(recipe_not_found()),
            Some(recipe_at) => match resolve_spec(
                self.manufacturing.recipes[recipe_at],
                children_of(self.manufacturing.ingredients@, work_order.recipe_id),
                work_order.quantity,
            ) {
                None => Err(ErrorView::out_of_range()),
                Some(resolved) => Ok(
                    completion_postings_spec(work_order.id, resolved.0, resolved.1),
                ),
            },
        }
    }

    /// What completing the tenant's work order `work_order_id` leads to:
    /// the products with their new stock, or why the work order cannot be
    /// completed. The tenant must have the work order, and it must be
    /// neither completed nor cancelled. Stock is not asked to suffice.
    pub open spec fn complete_outcome(&self, tenant_id: u128, work_order_id: u128) -> Result<
        Seq<Product>,
        ErrorView,
    > {
        match find(self.manufacturing.work_orders@, tenant_id, work_order_id) {
            None => Err(work_order_not_found()),
            Some(at) => if !self.manufacturing.work_orders[at].completable() {
                Err(cannot_complete(self.manufacturing.work_orders[at].status))
            } else {
                match self.completion_postings(tenant_id, at) {
                    Err(e) => Err(e),
                    Ok(postings) => match self.reserve_spec(postings.len() as int) {
                        Err(e) => Err(e),
                        Ok(_) => post_all_spec(self.ledger.products@, tenant_id, postings),
                    },
                }
            },
        }
    }

    /// Completes the tenant's work order `work_order_id`: the work order
    /// goes to `Completed` and ends on the day of `now`; each ingredient
    /// leaves stock by its quantity per batch unit times the batch
    /// quantity, with a ledger entry of kind `ProductionOut`; then the
    /// output comes into stock by its quantity per batch unit times the
    /// batch quantity, with a ledger entry of kind `ProductionIn`. All of
    /// this happens, or, where an error is reported, none of it.
    pub fn complete_work_order(&mut self, tenant_id: u128, work_order_id: u128, now: Timestamp) -> (r:
        Result<WorkOrder, Error>)
        requires
            old(self).wf(),
        ensures
            final(self).wf(),
            match old(self).complete_outcome(tenant_id, work_order_id) {
                Ok(products) => {
                    let at = find(
                        old(self).manufacturing.work_orders@,
                        tenant_id,
                        work_order_id,
                    )->Some_0;
                    let postings = old(self).completion_postings(tenant_id, at)->Ok_0;
                    &&& r == Ok::<WorkOrder, Error>(
                        old(self).manufacturing.work_orders[at].completed_spec(now.date),
                    )
                    &&& final(self).manufacturing.work_orders@
                        == old(self).manufacturing.work_orders@.update(at, r->Ok_0)
                    &&& final(self).manufacturing.recipes == old(self).manufacturing.recipes
                    &&& final(self).manufacturing.ingredients == old(self).manufacturing.ingredients
                    &&& final(self).ledger.products@ == products
                    &&& final(self).ledger.log() == old(self).ledger.log() + new_entries(
                        postings,
                        tenant_id,
                        old(self).next_id,
                        now,
                    )
                    &&& final(self).next_id == old(self).next_id + postings.len()
                    &&& final(self).purchasing == old(self).purchasing
                    &&& final(self).sales == old(self).sales
                    &&& final(self).accounting == old(self).accounting
                },
                Err(e) => r is Err && r->Err_0@ == e && *final(self) == *old(self),
            },
    {
        proof {
            lemma_find(self.manufacturing.work_orders@, tenant_id, work_order_id);
        }
        let at = match position(&self.manufacturing.work_orders, tenant_id, work_order_id) {
            Some(at) => at,
            None => {
                return Err(Error::not_found("Work Order not found"));
            },
        };
        let work_order = self.manufacturing.work_orders[at];
        match work_order.check_completable() {
            Ok(()) => {},
            Err(e) => {
                return Err(e);
            },
        }
        proof {
            lemma_find(self.manufacturing.recipes@, tenant_id, work_order.recipe_id);
        }
        let recipe_at = match position(&self.manufacturing.recipes, tenant_id, work_order.recipe_id) {
            Some(recipe_at) => recipe_at,
            None => {
                return Err(Error::not_found("Recipe not found"));
            },
        };
        let ingredients = children(&self.manufacturing.ingredients, work_order.recipe_id);
        let resolved = match resolve(
            &self.manufacturing.recipes[recipe_at],
            &ingredients,
            work_order.quantity,
        ) {
            Ok(resolved) => resolved,
            Err(e) => {
                return Err(e);
            },
        };
        let postings = resolved.completion_postings(work_order.id);
        let ghost views = crate::models::inventory::posting_views(postings@);
        assert(views.len() == postings@.len());
        let first_id = match self.reserve(postings.len() as u128) {
            Ok(id) => id,
            Err(e) => {
                return Err(e);
            },
        };
        proof {
            if post_all_spec(self.ledger.products@, tenant_id, views) is Ok {
                lemma_post_all_keys(self.ledger.products@, tenant_id, views);
            }
        }
        match self.ledger.post_all(tenant_id, first_id, &postings, now) {
            Ok(()) => {},
            Err(e) => {
                return Err(e);
            },
        }
        let completed = work_order.completed(now.date);
        self.manufacturing.work_orders.set(at, completed);
        self.next_id = self.next_id + postings.len() as u128;
        Ok(completed)
    }

    /// A work order is completed at most once: in any engine in which the
    /// work order stands as a successful completion left it, completing it
    /// again is refused as against the rules of business, so that no
    /// further entries are written.
    pub proof fn lemma_complete_at_most_once(
        &self,
        after: &Engine,
        tenant_id: u128,
        work_order_id: u128,
        now: Timestamp,
    )
        requires
            self.complete_outcome(tenant_id, work_order_id) is Ok,
            after.manufacturing.work_orders@ == self.manufacturing.work_orders@.update(
                find(self.manufacturing.work_orders@, tenant_id, work_order_id)->Some_0,
                self.manufacturing.work_orders[find(
                    self.manufacturing.work_orders@,
                    tenant_id,
                    work_order_id,
                )->Some_0].completed_spec(now.date),
            ),
        ensures
            after.complete_outcome(tenant_id, work_order_id) == Err::<Seq<Product>, ErrorView>(
                cannot_complete(WorkOrderStatus::Completed),
            ),
    {
        let at = find(self.manufacturing.work_orders@, tenant_id, work_order_id)->Some_0;
        lemma_find(self.manufacturing.work_orders@, tenant_id, work_order_id);
        lemma_find_update(
            self.manufacturing.work_orders@,
            at,
            self.manufacturing.work_orders[at].completed_spec(now.date),
            tenant_id,
            work_order_id,
        );
    }

    /// A work order that is completed or cancelled is not completed: the
    /// attempt is refused as against the rules of business.
    pub proof fn lemma_complete_needs_open(&self, tenant_id: u128, work_order_id: u128)
        requires
            find(self.manufacturing.work_orders@, tenant_id, work_order_id) is Some,
            self.manufacturing.work_orders[find(
                self.manufacturing.work_orders@,
                tenant_id,
                work_order_id,
            )->Some_0].status.is_terminal(),
        ensures
            self.complete_outcome(tenant_id, work_order_id) is Err,
            self.complete_outcome(tenant_id, work_order_id)->Err_0 is BusinessRule,
    {
    }
}

} // verus!
