use smart_erp::date::{Date, Timestamp};
use smart_erp::decimal::Decimal;
use smart_erp::engine::Engine;
use smart_erp::models::inventory::{CreateInventoryTransaction, TransactionType};
use smart_erp::models::manufacturing::{CreateRecipe, CreateRecipeIngredient, CreateWorkOrder};
use smart_erp::models::product::{CreateProduct, UnitOfMeasure};
use smart_erp::models::purchasing::{CreatePurchaseOrder, CreatePurchaseOrderLine, PurchaseOrderStatus};
use smart_erp::models::sales::{CreateSalesOrder, CreateSalesOrderLine, SalesOrderStatus};

const TENANT: u128 = 11;

fn dec(mantissa: i128, scale: u32) -> Decimal {
    Decimal::try_from_parts(mantissa, scale).unwrap()
}

fn now() -> Timestamp {
    Timestamp { date: Date::from_ymd(2024, 9, 9).unwrap(), micros: 99 }
}

/// The stock kept with every product is what the ledger gives for it.
fn assert_stock_matches_ledger(engine: &Engine) {
    for product in engine.ledger.products.iter() {
        let mut sum = Decimal::zero();
        for entry in engine.ledger.entries.iter() {
            if entry.tenant_id == product.tenant_id && entry.product_id == product.id {
                sum = sum.checked_add(entry.quantity).unwrap();
            }
        }
        assert_eq!(product.stock_quantity, sum);
        assert_eq!(engine.get_stock_level(product.tenant_id, product.id), Ok(sum));
        assert_eq!(engine.project_stock(product.tenant_id, product.id), Ok(sum));
    }
}

#[test]
fn stock_matches_the_ledger_through_every_kind_of_movement() {
    let mut engine = Engine::new();
    let item = |name: &str| CreateProduct {
        name: name.to_string(),
        sku: name.to_string(),
        description: None,
        unit_of_measure: UnitOfMeasure::Kilogram,
        price: dec(1999, 2),
        cost_price: dec(1250, 2),
    };
    let flour = engine.create_product(TENANT, item("flour")).unwrap();
    let yeast = engine.create_product(TENANT, item("yeast")).unwrap();
    let bread = engine.create_product(TENANT, item("bread")).unwrap();
    assert_stock_matches_ledger(&engine);

    let purchase = engine
        .create_purchase_order(
            TENANT,
            CreatePurchaseOrder {
                supplier_id: 1,
                order_number: "PO-1".to_string(),
                date: now().date,
                lines: vec![
                    CreatePurchaseOrderLine { product_id: flour.id, quantity: dec(2505, 2), unit_price: dec(80, 2) },
                    CreatePurchaseOrderLine { product_id: yeast.id, quantity: dec(15, 1), unit_price: dec(300, 2) },
                ],
            },
        )
        .unwrap();
    engine.purchasing.orders[0].status = PurchaseOrderStatus::Ordered;
    engine.receive_purchase_order(TENANT, purchase.id, now()).unwrap();
    assert_stock_matches_ledger(&engine);
    assert_eq!(engine.get_stock_level(TENANT, flour.id), Ok(dec(2505, 2)));

    let recipe = engine
        .create_recipe(
            TENANT,
            CreateRecipe {
                name: "loaf".to_string(),
                output_product_id: bread.id,
                output_quantity: Decimal::from_i64(2),
                description: None,
                ingredients: vec![
                    CreateRecipeIngredient { input_product_id: flour.id, quantity: dec(75, 2) },
                    CreateRecipeIngredient { input_product_id: yeast.id, quantity: dec(1, 2) },
                ],
            },
        )
        .unwrap();
    let work_order = engine
        .create_work_order(TENANT, CreateWorkOrder { recipe_id: recipe.id, quantity: Decimal::from_i64(10), start_date: None })
        .unwrap();
    engine.complete_work_order(TENANT, work_order.id, now()).unwrap();
    assert_stock_matches_ledger(&engine);
    assert_eq!(engine.get_stock_level(TENANT, flour.id), Ok(dec(1755, 2)));
    assert_eq!(engine.get_stock_level(TENANT, yeast.id), Ok(dec(14, 1)));
    assert_eq!(engine.get_stock_level(TENANT, bread.id), Ok(Decimal::from_i64(20)));

    let sale = engine
        .create_sales_order(
            TENANT,
            CreateSalesOrder {
                customer_id: 2,
                order_number: "SO-1".to_string(),
                date: now().date,
                lines: vec![CreateSalesOrderLine { product_id: bread.id, quantity: Decimal::from_i64(25), unit_price: dec(450, 2) }],
            },
        )
        .unwrap();
    engine.sales.orders[0].status = SalesOrderStatus::Confirmed;
    engine.ship_sales_order(TENANT, sale.id, now()).unwrap();
    assert_stock_matches_ledger(&engine);
    assert_eq!(engine.get_stock_level(TENANT, bread.id), Ok(Decimal::from_i64(-5)));

    engine
        .record_transaction(
            TENANT,
            CreateInventoryTransaction {
                product_id: bread.id,
                quantity: Decimal::from_i64(5),
                transaction_type: TransactionType::Adjustment,
                reference_id: None,
                notes: Some("stock take".to_string()),
            },
            now(),
        )
        .unwrap();
    assert_stock_matches_ledger(&engine);
    assert_eq!(engine.get_stock_level(TENANT, bread.id), Ok(Decimal::zero()));

    // Failed attempts leave the ledger and the stock as they were.
    let entries = engine.ledger.entries.len();
    assert!(engine.ship_sales_order(TENANT, sale.id, now()).is_err());
    assert!(engine.receive_purchase_order(TENANT, purchase.id, now()).is_err());
    assert!(engine.complete_work_order(TENANT, work_order.id, now()).is_err());
    assert_eq!(engine.ledger.entries.len(), entries);
    assert_stock_matches_ledger(&engine);
}
