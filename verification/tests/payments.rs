use smart_erp::date::Date;
use smart_erp::decimal::{Decimal, MAX_MANTISSA};
use smart_erp::engine::Engine;
use smart_erp::error::Error;
use smart_erp::models::accounting::{
    CreateInvoice, CreatePayment, InvoiceStatus, PaymentMethod,
};

const TENANT: u128 = 1;
const OTHER: u128 = 2;

fn day(d: u32) -> Date {
    Date::from_ymd(2024, 1, d).unwrap()
}

fn invoice(engine: &mut Engine, total: Decimal) -> u128 {
    engine
        .create_invoice(
            TENANT,
            CreateInvoice {
                customer_id: 77,
                sales_order_id: None,
                invoice_number: "INV-1".to_string(),
                date: day(1),
                due_date: day(31),
                total_amount: total,
            },
        )
        .unwrap()
        .id
}

fn pay(invoice_id: u128, amount: Decimal) -> CreatePayment {
    CreatePayment {
        invoice_id,
        amount,
        date: day(15),
        method: PaymentMethod::BankTransfer,
        reference: Some("wire 1".to_string()),
    }
}

#[test]
fn an_invoice_is_created_as_a_draft_with_nothing_paid() {
    let mut engine = Engine::new();
    let id = invoice(&mut engine, Decimal::from_i64(100));
    let stored = &engine.accounting.invoices[0];
    assert_eq!(stored.id, id);
    assert_eq!(stored.status, InvoiceStatus::Draft);
    assert_eq!(stored.amount_paid, Decimal::zero());
    assert_eq!(stored.total_amount, Decimal::from_i64(100));
    assert_eq!(engine.list_invoices(TENANT).len(), 1);
    assert!(engine.list_invoices(OTHER).is_empty());
}

#[test]
fn payments_add_up_and_overpayment_is_accepted() {
    let mut engine = Engine::new();
    let id = invoice(&mut engine, Decimal::from_i64(100));

    let first = engine.record_payment(TENANT, pay(id, Decimal::from_i64(60))).unwrap();
    assert_eq!(first.amount, Decimal::from_i64(60));
    assert_eq!(first.invoice_id, id);
    assert_eq!(first.method, PaymentMethod::BankTransfer);
    assert_eq!(first.reference, Some("wire 1".to_string()));
    assert_eq!(engine.accounting.invoices[0].status, InvoiceStatus::PartiallyPaid);
    assert_eq!(engine.accounting.invoices[0].amount_paid, Decimal::from_i64(60));

    let second = engine.record_payment(TENANT, pay(id, Decimal::from_i64(50))).unwrap();
    assert_ne!(second.id, first.id);
    assert_eq!(engine.accounting.invoices[0].status, InvoiceStatus::Paid);
    assert_eq!(engine.accounting.invoices[0].amount_paid, Decimal::from_i64(110));
    assert_eq!(engine.list_payments(TENANT), vec![second, first]);
}

#[test]
fn paying_exactly_the_total_pays_the_invoice() {
    let mut engine = Engine::new();
    let id = invoice(&mut engine, Decimal::try_from_parts(9999, 2).unwrap());
    engine.record_payment(TENANT, pay(id, Decimal::try_from_parts(9998, 2).unwrap())).unwrap();
    assert_eq!(engine.accounting.invoices[0].status, InvoiceStatus::PartiallyPaid);
    engine.record_payment(TENANT, pay(id, Decimal::try_from_parts(1, 2).unwrap())).unwrap();
    assert_eq!(engine.accounting.invoices[0].status, InvoiceStatus::Paid);
    assert_eq!(engine.accounting.invoices[0].amount_paid, Decimal::try_from_parts(9999, 2).unwrap());
}

#[test]
fn a_payment_against_an_unknown_invoice_is_not_recorded() {
    let mut engine = Engine::new();
    let id = invoice(&mut engine, Decimal::from_i64(100));
    assert_eq!(
        engine.record_payment(TENANT, pay(id + 5, Decimal::from_i64(10))),
        Err(Error::NotFound("Invoice not found".to_string()))
    );
    assert_eq!(
        engine.record_payment(OTHER, pay(id, Decimal::from_i64(10))),
        Err(Error::NotFound("Invoice not found".to_string()))
    );
    assert!(engine.accounting.payments.is_empty());
    assert_eq!(engine.accounting.invoices[0].amount_paid, Decimal::zero());
    assert_eq!(engine.accounting.invoices[0].status, InvoiceStatus::Draft);
}

#[test]
fn a_payment_that_overflows_is_not_recorded() {
    let mut engine = Engine::new();
    let id = invoice(&mut engine, Decimal::from_i64(100));
    let huge = Decimal::try_from_parts(MAX_MANTISSA, 0).unwrap();
    engine.record_payment(TENANT, pay(id, huge)).unwrap();
    assert_eq!(
        engine.record_payment(TENANT, pay(id, huge)),
        Err(Error::Database("numeric value out of range".to_string()))
    );
    assert_eq!(engine.accounting.payments.len(), 1);
    assert_eq!(engine.accounting.invoices[0].amount_paid, huge);
}

#[test]
fn a_payment_can_be_applied_without_the_engine() {
    let mut engine = Engine::new();
    invoice(&mut engine, Decimal::from_i64(100));
    let stored = engine.accounting.invoices[0].clone();
    let partly = stored.apply_payment(Decimal::from_i64(99)).unwrap();
    assert_eq!(partly.status, InvoiceStatus::PartiallyPaid);
    assert!(partly.open());
    let paid = partly.apply_payment(Decimal::from_i64(1)).unwrap();
    assert_eq!(paid.status, InvoiceStatus::Paid);
    assert_eq!(paid.amount_paid, Decimal::from_i64(100));
    assert!(!paid.open());
    assert_eq!(stored.amount_paid, Decimal::zero());
}
