use smart_erp::date::{Date, Timestamp};
use smart_erp::decimal::Decimal;
use smart_erp::engine::Engine;
use smart_erp::error::Error;
use smart_erp::models::inventory::TransactionType;
use smart_erp::models::manufacturing::{
    CreateRecipe, CreateRecipeIngredient, CreateWorkOrder, WorkOrderStatus,
};
use smart_erp::models::product::{CreateProduct, UnitOfMeasure};

const TENANT: u128 = 7;

fn now() -> Timestamp {
    Timestamp { date: Date::from_ymd(2024, 3, 15).unwrap(), micros: 0 }
}

fn product(name: &str) -> CreateProduct {
    CreateProduct {
        name: name.to_string(),
        sku: format!("SKU-{}", name),
        description: None,
        unit_of_measure: UnitOfMeasure::Unit,
        price: Decimal::from_i64(10),
        cost_price: Decimal::from_i64(4),
    }
}

#[test]
fn completing_a_work_order_posts_consumption_and_production() {
    let mut engine = Engine::new();
    let input = engine.create_product(TENANT, product("flour")).unwrap();
    let output = engine.create_product(TENANT, product("bread")).unwrap();
    let recipe = engine
        .create_recipe(
            TENANT,
            CreateRecipe {
                name: "bread".to_string(),
                output_product_id: output.id,
                output_quantity: Decimal::from_i64(2),
                description: None,
                ingredients: vec![CreateRecipeIngredient {
                    input_product_id: input.id,
                    quantity: Decimal::from_i64(3),
                }],
            },
        )
        .unwrap();
    let work_order = engine
        .create_work_order(
            TENANT,
            CreateWorkOrder { recipe_id: recipe.id, quantity: Decimal::from_i64(5), start_date: None },
        )
        .unwrap();
    assert_eq!(work_order.status, WorkOrderStatus::Planned);

    let done = engine.complete_work_order(TENANT, work_order.id, now()).unwrap();
    assert_eq!(done.status, WorkOrderStatus::Completed);
    assert_eq!(done.end_date, Some(now().date));

    let entries = &engine.ledger.entries;
    assert_eq!(entries.len(), 2);
    assert_eq!(entries[0].product_id, input.id);
    assert_eq!(entries[0].transaction_type, TransactionType::ProductionOut);
    assert_eq!(entries[0].quantity, Decimal::from_i64(-15));
    assert_eq!(entries[0].quantity.mantissa(), -15);
    assert_eq!(entries[0].reference_id, Some(work_order.id));
    assert_eq!(entries[1].product_id, output.id);
    assert_eq!(entries[1].transaction_type, TransactionType::ProductionIn);
    assert_eq!(entries[1].quantity, Decimal::from_i64(10));
    assert_eq!(engine.get_stock_level(TENANT, input.id).unwrap(), Decimal::from_i64(-15));
    assert_eq!(engine.get_stock_level(TENANT, output.id).unwrap(), Decimal::from_i64(10));
    assert_eq!(engine.project_stock(TENANT, input.id).unwrap(), Decimal::from_i64(-15));

    let again = engine.complete_work_order(TENANT, work_order.id, now());
    assert!(matches!(again, Err(Error::BusinessRule(_))));
    assert_eq!(
        again.unwrap_err().to_string(),
        "Business rule violation: Cannot complete work order with status Completed. Must be PLANNED or IN_PROGRESS."
    );
    assert_eq!(engine.ledger.entries.len(), 2);
    assert_eq!(engine.manufacturing.work_orders[0].status, WorkOrderStatus::Completed);
}
