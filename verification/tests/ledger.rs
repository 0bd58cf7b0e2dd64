use smart_erp::date::{Date, Timestamp};
use smart_erp::decimal::{Decimal, MAX_MANTISSA};
use smart_erp::engine::Engine;
use smart_erp::error::Error;
use smart_erp::ledger::Ledger;
use smart_erp::models::inventory::{CreateInventoryTransaction, TransactionType};
use smart_erp::models::product::{CreateProduct, UnitOfMeasure};

const TENANT: u128 = 1;
const OTHER: u128 = 2;

fn at() -> Timestamp {
    Timestamp { date: Date::from_ymd(2024, 5, 1).unwrap(), micros: 42 }
}

fn widget(name: &str) -> CreateProduct {
    CreateProduct {
        name: name.to_string(),
        sku: name.to_uppercase(),
        description: Some("a thing".to_string()),
        unit_of_measure: UnitOfMeasure::Piece,
        price: Decimal::from_i64(20),
        cost_price: Decimal::from_i64(12),
    }
}

fn movement(product_id: u128, quantity: i64, kind: TransactionType) -> CreateInventoryTransaction {
    CreateInventoryTransaction {
        product_id,
        quantity: Decimal::from_i64(quantity),
        transaction_type: kind,
        reference_id: None,
        notes: Some("counted".to_string()),
    }
}

#[test]
fn a_new_product_has_nothing_in_stock() {
    let mut engine = Engine::new();
    let product = engine.create_product(TENANT, widget("bolt")).unwrap();
    assert_eq!(product.id, 1);
    assert_eq!(product.tenant_id, TENANT);
    assert_eq!(product.name, "bolt");
    assert_eq!(product.stock_quantity, Decimal::zero());
    assert_eq!(engine.get_stock_level(TENANT, product.id), Ok(Decimal::zero()));
    assert_eq!(engine.project_stock(TENANT, product.id), Ok(Decimal::zero()));
    assert_eq!(engine.get_product(TENANT, product.id), Ok(product));
    assert_eq!(engine.next_id, 2);
}

#[test]
fn stock_is_the_sum_of_the_entries_after_every_posting() {
    let mut engine = Engine::new();
    let bolt = engine.create_product(TENANT, widget("bolt")).unwrap();
    let nut = engine.create_product(TENANT, widget("nut")).unwrap();
    let deltas = [5, -8, 12, -1, 0, 30];
    let mut expected = 0;
    for delta in deltas {
        let entry = engine
            .record_transaction(TENANT, movement(bolt.id, delta, TransactionType::Adjustment), at())
            .unwrap();
        expected += delta;
        assert_eq!(entry.quantity, Decimal::from_i64(delta));
        assert_eq!(entry.product_id, bolt.id);
        assert_eq!(entry.tenant_id, TENANT);
        assert_eq!(entry.created_at, at());
        assert_eq!(entry.notes, Some("counted".to_string()));
        assert_eq!(engine.get_stock_level(TENANT, bolt.id), Ok(Decimal::from_i64(expected)));
        assert_eq!(engine.project_stock(TENANT, bolt.id), Ok(Decimal::from_i64(expected)));
        assert_eq!(engine.get_stock_level(TENANT, nut.id), Ok(Decimal::zero()));
        assert_eq!(engine.project_stock(TENANT, nut.id), Ok(Decimal::zero()));
    }
    assert_eq!(engine.ledger.entries.len(), deltas.len());
    assert_eq!(engine.get_product(TENANT, bolt.id).unwrap().stock_quantity, Decimal::from_i64(38));
}

#[test]
fn stock_may_go_below_zero() {
    let mut engine = Engine::new();
    let bolt = engine.create_product(TENANT, widget("bolt")).unwrap();
    engine.record_transaction(TENANT, movement(bolt.id, -3, TransactionType::Sale), at()).unwrap();
    assert_eq!(engine.get_stock_level(TENANT, bolt.id), Ok(Decimal::from_i64(-3)));
}

#[test]
fn a_posting_for_an_unknown_product_is_refused() {
    let mut engine = Engine::new();
    let bolt = engine.create_product(TENANT, widget("bolt")).unwrap();
    let unknown = engine.record_transaction(TENANT, movement(999, 1, TransactionType::Adjustment), at());
    assert_eq!(unknown, Err(Error::NotFound("Product not found".to_string())));
    let foreign = engine.record_transaction(OTHER, movement(bolt.id, 1, TransactionType::Adjustment), at());
    assert_eq!(foreign, Err(Error::NotFound("Product not found".to_string())));
    assert!(engine.ledger.entries.is_empty());
    assert_eq!(engine.next_id, 2);
    assert_eq!(engine.get_stock_level(OTHER, bolt.id), Err(Error::NotFound("Product not found".to_string())));
    assert_eq!(engine.project_stock(OTHER, bolt.id), Err(Error::NotFound("Product not found".to_string())));
    assert_eq!(engine.get_product(OTHER, bolt.id), Err(Error::NotFound("Product not found".to_string())));
}

#[test]
fn a_posting_that_overflows_is_refused() {
    let mut engine = Engine::new();
    let bolt = engine.create_product(TENANT, widget("bolt")).unwrap();
    let huge = CreateInventoryTransaction {
        product_id: bolt.id,
        quantity: Decimal::try_from_parts(MAX_MANTISSA, 0).unwrap(),
        transaction_type: TransactionType::Adjustment,
        reference_id: None,
        notes: None,
    };
    engine.record_transaction(TENANT, huge.clone(), at()).unwrap();
    let again = engine.record_transaction(TENANT, huge, at());
    assert_eq!(again, Err(Error::Database("numeric value out of range".to_string())));
    assert_eq!(engine.ledger.entries.len(), 1);
    assert_eq!(engine.get_stock_level(TENANT, bolt.id).unwrap().mantissa(), MAX_MANTISSA);
}

#[test]
fn products_are_listed_for_their_tenant_only() {
    let mut engine = Engine::new();
    let bolt = engine.create_product(TENANT, widget("bolt")).unwrap();
    let screw = engine.create_product(OTHER, widget("screw")).unwrap();
    let nut = engine.create_product(TENANT, widget("nut")).unwrap();
    assert_eq!(engine.list_products(TENANT), vec![bolt, nut]);
    assert_eq!(engine.list_products(OTHER), vec![screw]);
    assert!(engine.list_products(3).is_empty());
}

#[test]
fn a_batch_is_written_as_a_whole_or_not_at_all() {
    let mut ledger = Ledger::new();
    let bolt = ledger.add_product(10, TENANT, widget("bolt")).unwrap();
    let nut = ledger.add_product(11, TENANT, widget("nut")).unwrap();
    let good = vec![
        movement(bolt.id, 4, TransactionType::Purchase),
        movement(nut.id, 6, TransactionType::Purchase),
        movement(bolt.id, -1, TransactionType::Sale),
    ];
    assert_eq!(ledger.post_all(TENANT, 100, &good, at()), Ok(()));
    assert_eq!(ledger.stock_level(TENANT, bolt.id), Ok(Decimal::from_i64(3)));
    assert_eq!(ledger.stock_level(TENANT, nut.id), Ok(Decimal::from_i64(6)));
    assert_eq!(ledger.entries.len(), 3);
    assert_eq!(ledger.entries[0].id, 100);
    assert_eq!(ledger.entries[2].id, 102);
    assert_eq!(ledger.sum_of_entries(TENANT, bolt.id), Some(Decimal::from_i64(3)));

    let bad = vec![
        movement(bolt.id, 7, TransactionType::Purchase),
        movement(12345, 1, TransactionType::Purchase),
    ];
    assert_eq!(
        ledger.post_all(TENANT, 200, &bad, at()),
        Err(Error::NotFound("Product not found".to_string()))
    );
    assert_eq!(ledger.stock_level(TENANT, bolt.id), Ok(Decimal::from_i64(3)));
    assert_eq!(ledger.entries.len(), 3);
}

#[test]
fn a_product_identifier_is_given_once() {
    let mut ledger = Ledger::new();
    ledger.add_product(10, TENANT, widget("bolt")).unwrap();
    let taken = ledger.add_product(10, OTHER, widget("nut"));
    assert_eq!(taken, Err(Error::Database("duplicate product identifier".to_string())));
    assert_eq!(ledger.products.len(), 1);
    assert_eq!(ledger.position(TENANT, 10), Some(0));
    assert_eq!(ledger.position(OTHER, 10), None);
}

#[test]
fn identifiers_run_out_without_a_change() {
    let mut engine = Engine::new();
    engine.next_id = u128::MAX;
    let refused = engine.create_product(TENANT, widget("bolt"));
    assert_eq!(refused, Err(Error::Database("identifier space exhausted".to_string())));
    assert!(engine.ledger.products.is_empty());
    assert_eq!(engine.next_id, u128::MAX);
    assert_eq!(engine.reserve(0), Ok(u128::MAX));
    assert!(engine.reserve(1).is_err());
}
