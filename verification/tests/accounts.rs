use smart_erp::date::{Date, Timestamp};
use smart_erp::decimal::{Decimal, MAX_MANTISSA};
use smart_erp::engine::summary::month_label;
use smart_erp::engine::Engine;
use smart_erp::error::Error;
use smart_erp::models::chart_of_accounts::CreateAccount;
use smart_erp::models::manufacturing::{
    resolve, CreateRecipe, CreateRecipeIngredient, CreateWorkOrder, Recipe, RecipeIngredient,
    WorkOrderStatus,
};
use smart_erp::models::product::{CreateProduct, UnitOfMeasure};
use smart_erp::models::transactions::{CreateJournalEntry, CreateJournalEntryLine};

const TENANT: u128 = 1;
const OTHER: u128 = 2;

fn named(name: &str) -> CreateAccount {
    CreateAccount {
        parent_id: None,
        account_number: Some("1000".to_string()),
        name: name.to_string(),
        account_type: "BANK".to_string(),
        detail_type: Some("Checking".to_string()),
        description: None,
    }
}

fn at() -> Timestamp {
    Timestamp { date: Date::from_ymd(2024, 8, 8).unwrap(), micros: 0 }
}

#[test]
fn an_account_is_created_active_with_no_balance() {
    let mut engine = Engine::new();
    let account = engine.create_account(TENANT, named("Cash")).unwrap();
    assert!(account.is_active);
    assert!(!account.is_system);
    assert_eq!(account.balance, Decimal::zero());
    assert_eq!(account.detail_type, Some("Checking".to_string()));
    assert_eq!(engine.get_account(TENANT, account.id), Ok(account.clone()));
    assert_eq!(engine.get_account(OTHER, account.id), Err(Error::NotFound("Account not found".to_string())));
    assert_eq!(engine.list_accounts(TENANT), vec![account]);
    assert!(engine.list_accounts(OTHER).is_empty());
}

#[test]
fn an_account_is_deleted_unless_it_is_a_system_account() {
    let mut engine = Engine::new();
    let cash = engine.create_account(TENANT, named("Cash")).unwrap();
    let system = engine.create_account(TENANT, named("Retained earnings")).unwrap();
    engine.accounting.accounts[1].is_system = true;
    let refused = Err(Error::NotFound("Account not found or is a system account".to_string()));

    assert_eq!(engine.delete_account(TENANT, system.id), refused);
    assert_eq!(engine.delete_account(OTHER, cash.id), refused);
    assert_eq!(engine.delete_account(TENANT, 4711), refused);
    assert_eq!(engine.accounting.accounts.len(), 2);

    assert_eq!(engine.delete_account(TENANT, cash.id), Ok(()));
    assert_eq!(engine.accounting.accounts.len(), 1);
    assert_eq!(engine.accounting.accounts[0].id, system.id);
    assert_eq!(engine.delete_account(TENANT, cash.id), refused);
}

#[test]
fn a_journal_entry_numbers_its_lines() {
    let mut engine = Engine::new();
    let line = |debit: i64, credit: i64| CreateJournalEntryLine {
        account_id: 5,
        debit: Decimal::from_i64(debit),
        credit: Decimal::from_i64(credit),
        memo: Some("m".to_string()),
    };
    let entry = engine
        .create_journal_entry(
            TENANT,
            CreateJournalEntry {
                entry_number: "JE-1".to_string(),
                date: None,
                memo: None,
                is_adjusting: false,
                lines: vec![line(10, 0), line(0, 7), line(0, 2)],
            },
            at().date,
        )
        .unwrap();
    assert_eq!(entry.date, at().date);
    let lines = &engine.accounting.journal_lines;
    assert_eq!(lines.len(), 3);
    for (k, stored) in lines.iter().enumerate() {
        assert_eq!(stored.sort_order, k as i32);
        assert_eq!(stored.entry_id, entry.id);
        assert_eq!(stored.id, entry.id + 1 + k as u128);
        assert_eq!(stored.memo, Some("m".to_string()));
    }
    assert_eq!(engine.next_id, entry.id + 4);
}

#[test]
fn a_recipe_is_worked_out_for_a_batch() {
    let recipe = Recipe {
        id: 1,
        tenant_id: TENANT,
        name: "dough".to_string(),
        output_product_id: 30,
        output_quantity: Decimal::try_from_parts(25, 1).unwrap(),
        description: None,
    };
    let ingredients = vec![
        RecipeIngredient { id: 2, recipe_id: 1, input_product_id: 10, quantity: Decimal::try_from_parts(5, 1).unwrap() },
        RecipeIngredient { id: 3, recipe_id: 1, input_product_id: 11, quantity: Decimal::from_i64(3) },
    ];
    let resolved = resolve(&recipe, &ingredients, Decimal::from_i64(4)).unwrap();
    assert_eq!(
        resolved.ingredient_deltas,
        vec![(10, Decimal::from_i64(2)), (11, Decimal::from_i64(12))]
    );
    assert_eq!(resolved.output_delta, (30, Decimal::from_i64(10)));
    let none = resolve(&recipe, &vec![], Decimal::zero()).unwrap();
    assert!(none.ingredient_deltas.is_empty());
    assert_eq!(none.output_delta, (30, Decimal::zero()));
    let huge = Decimal::try_from_parts(MAX_MANTISSA, 0).unwrap();
    assert_eq!(
        resolve(&recipe, &ingredients, huge).unwrap_err(),
        Error::Database("numeric value out of range".to_string())
    );
}

#[test]
fn a_work_order_without_its_recipe_or_products_is_not_completed() {
    let mut engine = Engine::new();
    let flour = engine
        .create_product(
            TENANT,
            CreateProduct {
                name: "flour".to_string(),
                sku: "F".to_string(),
                description: None,
                unit_of_measure: UnitOfMeasure::Kilogram,
                price: Decimal::from_i64(1),
                cost_price: Decimal::from_i64(1),
            },
        )
        .unwrap();
    let orphan = engine
        .create_work_order(TENANT, CreateWorkOrder { recipe_id: 999, quantity: Decimal::from_i64(1), start_date: None })
        .unwrap();
    assert_eq!(
        engine.complete_work_order(TENANT, orphan.id, at()),
        Err(Error::NotFound("Recipe not found".to_string()))
    );
    let recipe = engine
        .create_recipe(
            TENANT,
            CreateRecipe {
                name: "bread".to_string(),
                output_product_id: 31337,
                output_quantity: Decimal::from_i64(1),
                description: None,
                ingredients: vec![CreateRecipeIngredient { input_product_id: flour.id, quantity: Decimal::from_i64(2) }],
            },
        )
        .unwrap();
    assert_eq!(engine.list_recipes(TENANT), vec![recipe.clone()]);
    assert_eq!(engine.manufacturing.ingredients[0].recipe_id, recipe.id);
    let work_order = engine
        .create_work_order(
            TENANT,
            CreateWorkOrder { recipe_id: recipe.id, quantity: Decimal::from_i64(3), start_date: Some(at().date) },
        )
        .unwrap();
    assert_eq!(work_order.start_date, Some(at().date));
    // The output product does not exist: the ingredient's posting is undone too.
    assert_eq!(
        engine.complete_work_order(TENANT, work_order.id, at()),
        Err(Error::NotFound("Product not found".to_string()))
    );
    assert_eq!(engine.get_stock_level(TENANT, flour.id), Ok(Decimal::zero()));
    assert!(engine.ledger.entries.is_empty());
    assert_eq!(engine.list_work_orders(TENANT)[0].id, work_order.id);
    assert_eq!(engine.list_work_orders(TENANT)[0].status, WorkOrderStatus::Planned);
    assert_eq!(
        engine.complete_work_order(OTHER, work_order.id, at()),
        Err(Error::NotFound("Work Order not found".to_string()))
    );
    engine.manufacturing.work_orders[1].status = WorkOrderStatus::Cancelled;
    assert_eq!(
        engine.complete_work_order(TENANT, work_order.id, at()),
        Err(Error::BusinessRule("Cannot complete work order with status Cancelled. Must be PLANNED or IN_PROGRESS.".to_string()))
    );
    engine.manufacturing.work_orders[1].status = WorkOrderStatus::InProgress;
    engine.manufacturing.recipes[0].output_product_id = flour.id;
    let done = engine.complete_work_order(TENANT, work_order.id, at()).unwrap();
    assert_eq!(done.status, WorkOrderStatus::Completed);
    assert_eq!(engine.get_stock_level(TENANT, flour.id), Ok(Decimal::from_i64(-3)));
    assert_eq!(
        engine.ledger.entries[0].notes,
        Some(format!("Used for WO {}", smart_erp::ident::format_id(work_order.id)))
    );
    assert_eq!(
        engine.ledger.entries[1].notes,
        Some("Produced from WO 00000000-0000-0000-0000-000000000005".to_string())
    );
}

#[test]
fn months_are_labelled_by_year_and_month() {
    assert_eq!(month_label(2024, 3), "2024-03");
    assert_eq!(month_label(2024, 12), "2024-12");
    assert_eq!(month_label(987, 1), "0987-01");
    assert_eq!(month_label(0, 10), "0000-10");
    assert_eq!(month_label(12345, 6), "12345-06");
    assert_eq!(month_label(-44, 3), "-0044-03");
    assert_eq!(month_label(i32::MIN, 1), "-2147483648-01");
}
