use smart_erp::date::{Date, Timestamp};
use smart_erp::decimal::{Decimal, MAX_MANTISSA};
use smart_erp::engine::Engine;
use smart_erp::error::Error;
use smart_erp::models::inventory::TransactionType;
use smart_erp::models::product::{CreateProduct, UnitOfMeasure};
use smart_erp::models::purchasing::{
    order_total, CreatePurchaseOrder, CreatePurchaseOrderLine, CreateSupplier, PurchaseOrderStatus,
};
use smart_erp::models::sales::{
    CreateCustomer, CreateSalesOrder, CreateSalesOrderLine, SalesOrderStatus,
};

const TENANT: u128 = 1;
const OTHER: u128 = 2;

fn day() -> Date {
    Date::from_ymd(2024, 6, 30).unwrap()
}

fn at() -> Timestamp {
    Timestamp { date: day(), micros: 7 }
}

fn dec(mantissa: i128, scale: u32) -> Decimal {
    Decimal::try_from_parts(mantissa, scale).unwrap()
}

fn item(name: &str) -> CreateProduct {
    CreateProduct {
        name: name.to_string(),
        sku: name.to_string(),
        description: None,
        unit_of_measure: UnitOfMeasure::Unit,
        price: Decimal::from_i64(3),
        cost_price: Decimal::from_i64(2),
    }
}

fn purchase(engine: &mut Engine, lines: Vec<(u128, i64, Decimal)>) -> u128 {
    let supplier = engine
        .create_supplier(
            TENANT,
            CreateSupplier {
                name: "Acme".to_string(),
                email: None,
                phone: None,
                address: None,
                contact_person: Some("Wile".to_string()),
            },
        )
        .unwrap();
    let order = engine
        .create_purchase_order(
            TENANT,
            CreatePurchaseOrder {
                supplier_id: supplier.id,
                order_number: "PO-17".to_string(),
                date: day(),
                lines: lines
                    .into_iter()
                    .map(|(product_id, quantity, unit_price)| CreatePurchaseOrderLine {
                        product_id,
                        quantity: Decimal::from_i64(quantity),
                        unit_price,
                    })
                    .collect(),
            },
        )
        .unwrap();
    order.id
}

fn sale(engine: &mut Engine, lines: Vec<(u128, i64, Decimal)>) -> u128 {
    let customer = engine
        .create_customer(
            TENANT,
            CreateCustomer { name: "Road Runner".to_string(), email: None, phone: None, address: None },
        )
        .unwrap();
    let order = engine
        .create_sales_order(
            TENANT,
            CreateSalesOrder {
                customer_id: customer.id,
                order_number: "SO-4".to_string(),
                date: day(),
                lines: lines
                    .into_iter()
                    .map(|(product_id, quantity, unit_price)| CreateSalesOrderLine {
                        product_id,
                        quantity: Decimal::from_i64(quantity),
                        unit_price,
                    })
                    .collect(),
            },
        )
        .unwrap();
    order.id
}

#[test]
fn the_total_of_an_order_is_the_sum_of_its_lines() {
    let lines = vec![
        CreatePurchaseOrderLine { product_id: 1, quantity: Decimal::from_i64(3), unit_price: dec(250, 2) },
        CreatePurchaseOrderLine { product_id: 2, quantity: dec(15, 1), unit_price: Decimal::from_i64(4) },
    ];
    assert_eq!(order_total(&lines), Ok(dec(1350, 2)));
    assert_eq!(order_total(&vec![]), Ok(Decimal::zero()));
    let too_much = vec![CreatePurchaseOrderLine {
        product_id: 1,
        quantity: dec(MAX_MANTISSA, 0),
        unit_price: Decimal::from_i64(10),
    }];
    assert_eq!(order_total(&too_much), Err(Error::Database("numeric value out of range".to_string())));
}

#[test]
fn a_purchase_order_is_created_as_a_draft_with_its_lines() {
    let mut engine = Engine::new();
    let bolt = engine.create_product(TENANT, item("bolt")).unwrap();
    let nut = engine.create_product(TENANT, item("nut")).unwrap();
    let id = purchase(&mut engine, vec![(bolt.id, 3, dec(250, 2)), (nut.id, 2, Decimal::from_i64(4))]);
    let order = &engine.purchasing.orders[0];
    assert_eq!(order.id, id);
    assert_eq!(order.status, PurchaseOrderStatus::Draft);
    assert_eq!(order.total_amount, dec(1550, 2));
    assert_eq!(order.order_number, "PO-17");
    let lines = &engine.purchasing.lines;
    assert_eq!(lines.len(), 2);
    assert_eq!(lines[0].order_id, id);
    assert_eq!(lines[0].id, id + 1);
    assert_eq!(lines[1].id, id + 2);
    assert_eq!(lines[0].total_price, dec(750, 2));
    assert_eq!(lines[1].total_price, Decimal::from_i64(8));
    assert_eq!(engine.next_id, id + 3);
    assert_eq!(engine.list_purchase_orders(TENANT).len(), 1);
    assert!(engine.list_purchase_orders(OTHER).is_empty());
    assert_eq!(engine.list_suppliers(TENANT)[0].name, "Acme");
}

#[test]
fn receiving_an_ordered_purchase_order_moves_stock_in() {
    let mut engine = Engine::new();
    let bolt = engine.create_product(TENANT, item("bolt")).unwrap();
    let nut = engine.create_product(TENANT, item("nut")).unwrap();
    let id = purchase(&mut engine, vec![(bolt.id, 3, dec(250, 2)), (nut.id, 2, Decimal::from_i64(4)), (bolt.id, 1, Decimal::from_i64(1))]);
    engine.purchasing.orders[0].status = PurchaseOrderStatus::Ordered;

    let received = engine.receive_purchase_order(TENANT, id, at()).unwrap();
    assert_eq!(received.status, PurchaseOrderStatus::Received);
    assert_eq!(received.id, id);
    assert_eq!(engine.purchasing.orders[0].status, PurchaseOrderStatus::Received);
    assert_eq!(engine.get_stock_level(TENANT, bolt.id), Ok(Decimal::from_i64(4)));
    assert_eq!(engine.get_stock_level(TENANT, nut.id), Ok(Decimal::from_i64(2)));
    let entries = &engine.ledger.entries;
    assert_eq!(entries.len(), 3);
    for entry in entries.iter() {
        assert_eq!(entry.transaction_type, TransactionType::Purchase);
        assert_eq!(entry.reference_id, Some(id));
        assert_eq!(entry.notes, Some("Received PO PO-17".to_string()));
        assert_eq!(entry.tenant_id, TENANT);
    }
    assert_eq!(entries[0].quantity, Decimal::from_i64(3));
    assert_eq!(entries[1].quantity, Decimal::from_i64(2));
    assert_eq!(entries[2].quantity, Decimal::from_i64(1));
}

#[test]
fn receiving_an_order_that_is_not_ordered_changes_nothing() {
    let mut engine = Engine::new();
    let bolt = engine.create_product(TENANT, item("bolt")).unwrap();
    let id = purchase(&mut engine, vec![(bolt.id, 3, Decimal::from_i64(1))]);

    let draft = engine.receive_purchase_order(TENANT, id, at());
    assert_eq!(
        draft,
        Err(Error::BusinessRule("Cannot receive order with status Draft. Must be ORDERED.".to_string()))
    );
    assert_eq!(engine.purchasing.orders[0].status, PurchaseOrderStatus::Draft);
    assert_eq!(engine.get_stock_level(TENANT, bolt.id), Ok(Decimal::zero()));
    assert!(engine.ledger.entries.is_empty());

    engine.purchasing.orders[0].status = PurchaseOrderStatus::Cancelled;
    let cancelled = engine.receive_purchase_order(TENANT, id, at());
    assert_eq!(
        cancelled,
        Err(Error::BusinessRule("Cannot receive order with status Cancelled. Must be ORDERED.".to_string()))
    );

    engine.purchasing.orders[0].status = PurchaseOrderStatus::Ordered;
    engine.receive_purchase_order(TENANT, id, at()).unwrap();
    let again = engine.receive_purchase_order(TENANT, id, at());
    assert_eq!(
        again,
        Err(Error::BusinessRule("Cannot receive order with status Received. Must be ORDERED.".to_string()))
    );
    assert_eq!(engine.get_stock_level(TENANT, bolt.id), Ok(Decimal::from_i64(3)));
    assert_eq!(engine.ledger.entries.len(), 1);
}

#[test]
fn an_order_of_another_tenant_is_not_found() {
    let mut engine = Engine::new();
    let bolt = engine.create_product(TENANT, item("bolt")).unwrap();
    let id = purchase(&mut engine, vec![(bolt.id, 3, Decimal::from_i64(1))]);
    engine.purchasing.orders[0].status = PurchaseOrderStatus::Ordered;
    assert_eq!(
        engine.receive_purchase_order(OTHER, id, at()),
        Err(Error::NotFound("Purchase Order not found".to_string()))
    );
    assert_eq!(
        engine.receive_purchase_order(TENANT, id + 1000, at()),
        Err(Error::NotFound("Purchase Order not found".to_string()))
    );
    assert_eq!(engine.purchasing.orders[0].status, PurchaseOrderStatus::Ordered);
    assert!(engine.ledger.entries.is_empty());
}

#[test]
fn a_receipt_that_cannot_be_posted_is_rolled_back() {
    let mut engine = Engine::new();
    let bolt = engine.create_product(TENANT, item("bolt")).unwrap();
    let id = purchase(&mut engine, vec![(bolt.id, 3, Decimal::from_i64(1)), (4711, 1, Decimal::from_i64(1))]);
    engine.purchasing.orders[0].status = PurchaseOrderStatus::Ordered;
    let next_id = engine.next_id;
    assert_eq!(
        engine.receive_purchase_order(TENANT, id, at()),
        Err(Error::NotFound("Product not found".to_string()))
    );
    assert_eq!(engine.purchasing.orders[0].status, PurchaseOrderStatus::Ordered);
    assert_eq!(engine.get_stock_level(TENANT, bolt.id), Ok(Decimal::zero()));
    assert!(engine.ledger.entries.is_empty());
    assert_eq!(engine.next_id, next_id);
}

#[test]
fn shipping_a_confirmed_sales_order_moves_stock_out() {
    let mut engine = Engine::new();
    let bolt = engine.create_product(TENANT, item("bolt")).unwrap();
    let id = sale(&mut engine, vec![(bolt.id, 4, dec(199, 2))]);
    assert_eq!(engine.sales.orders[0].status, SalesOrderStatus::Draft);
    assert_eq!(engine.sales.orders[0].total_amount, dec(796, 2));
    assert_eq!(engine.sales.lines[0].total_price, dec(796, 2));
    engine.sales.orders[0].status = SalesOrderStatus::Confirmed;

    let shipped = engine.ship_sales_order(TENANT, id, at()).unwrap();
    assert_eq!(shipped.status, SalesOrderStatus::Shipped);
    assert_eq!(engine.get_stock_level(TENANT, bolt.id), Ok(Decimal::from_i64(-4)));
    let entries = &engine.ledger.entries;
    assert_eq!(entries.len(), 1);
    assert_eq!(entries[0].transaction_type, TransactionType::Sale);
    assert_eq!(entries[0].quantity, Decimal::from_i64(-4));
    assert_eq!(entries[0].reference_id, Some(id));
    assert_eq!(entries[0].notes, Some("Shipped SO SO-4".to_string()));
    assert_eq!(engine.list_sales_orders(TENANT)[0].status, SalesOrderStatus::Shipped);
    assert_eq!(engine.list_customers(TENANT)[0].name, "Road Runner");
}

#[test]
fn of_two_shipments_of_one_order_only_the_first_succeeds() {
    let mut engine = Engine::new();
    let bolt = engine.create_product(TENANT, item("bolt")).unwrap();
    let id = sale(&mut engine, vec![(bolt.id, 4, Decimal::from_i64(2)), (bolt.id, 1, Decimal::from_i64(2))]);
    engine.sales.orders[0].status = SalesOrderStatus::Confirmed;

    let first = engine.ship_sales_order(TENANT, id, at());
    let second = engine.ship_sales_order(TENANT, id, at());
    assert!(first.is_ok());
    assert_eq!(
        second,
        Err(Error::BusinessRule("Cannot ship order with status Shipped. Must be CONFIRMED.".to_string()))
    );
    assert_eq!(engine.ledger.entries.len(), 2);
    assert_eq!(engine.get_stock_level(TENANT, bolt.id), Ok(Decimal::from_i64(-5)));
}

#[test]
fn shipping_an_order_that_is_not_confirmed_changes_nothing() {
    let mut engine = Engine::new();
    let bolt = engine.create_product(TENANT, item("bolt")).unwrap();
    let id = sale(&mut engine, vec![(bolt.id, 4, Decimal::from_i64(2))]);
    assert_eq!(
        engine.ship_sales_order(TENANT, id, at()),
        Err(Error::BusinessRule("Cannot ship order with status Draft. Must be CONFIRMED.".to_string()))
    );
    assert_eq!(
        engine.ship_sales_order(OTHER, id, at()),
        Err(Error::NotFound("Sales Order not found".to_string()))
    );
    assert_eq!(engine.sales.orders[0].status, SalesOrderStatus::Draft);
    assert!(engine.ledger.entries.is_empty());
}
