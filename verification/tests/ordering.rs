use smart_erp::date::{Date, Timestamp};
use smart_erp::decimal::Decimal;
use smart_erp::engine::Engine;
use smart_erp::models::chart_of_accounts::CreateAccount;
use smart_erp::models::purchasing::CreateSupplier;
use smart_erp::models::sales::CreateCustomer;
use smart_erp::models::transactions::CreateBill;
use smart_erp::models::accounting::CreateInvoice;
use smart_erp::order::{compare_bytes, key_at_most, sorted_order, SortKey};
use smart_erp::models::inventory::{CreateInventoryTransaction, TransactionType};
use smart_erp::models::product::{CreateProduct, UnitOfMeasure};
use smart_erp::models::transactions::{CreateJournalEntry, CreateJournalEntryLine};
use smart_erp::reports::{general_ledger, sort_oldest_first, JournalPosting};

fn posting(day: u32, label: &str, debit: i64, credit: i64) -> JournalPosting {
    JournalPosting {
        date: Date::from_ymd(2024, 5, day).unwrap(),
        account_number: "1000".to_string(),
        account_name: "Cash".to_string(),
        description: label.to_string(),
        debit: Decimal::from_i64(debit),
        credit: Decimal::from_i64(credit),
    }
}

#[test]
fn postings_are_put_oldest_first_and_days_keep_their_order() {
    let rows = vec![
        posting(3, "a", 1, 0),
        posting(9, "b", 2, 0),
        posting(3, "c", 3, 0),
        posting(1, "d", 4, 0),
        posting(9, "e", 5, 0),
        posting(4, "f", 6, 0),
    ];
    let sorted = sort_oldest_first(&rows);
    let labels: Vec<&str> = sorted.iter().map(|row| row.description.as_str()).collect();
    assert_eq!(labels, vec!["d", "a", "c", "f", "b", "e"]);
    assert!(sort_oldest_first(&vec![]).is_empty());
    let one = sort_oldest_first(&vec![posting(2, "x", 0, 0)]);
    assert_eq!(one, vec![posting(2, "x", 0, 0)]);
}

#[test]
fn postings_of_one_day_stand_by_account_number() {
    let on = |day: u32, number: &str, label: &str| JournalPosting {
        account_number: number.to_string(),
        ..posting(day, label, 1, 0)
    };
    let rows = vec![
        on(2, "2000", "a"),
        on(1, "", "b"),
        on(1, "30", "c"),
        on(1, "1000", "d"),
        on(1, "100", "e"),
        on(2, "1000", "f"),
        on(1, "1000", "g"),
    ];
    let sorted = sort_oldest_first(&rows);
    let labels: Vec<&str> = sorted.iter().map(|row| row.description.as_str()).collect();
    assert_eq!(labels, vec!["e", "d", "g", "c", "b", "f", "a"]);
}

#[test]
fn the_general_ledger_of_rows_keeps_their_order_and_sums_both_sides() {
    let rows = vec![posting(3, "a", 10, 0), posting(9, "b", 0, 4), posting(1, "c", 7, 7)];
    let ledger = general_ledger(&rows).unwrap();
    let labels: Vec<&str> = ledger.entries.iter().map(|e| e.description.as_str()).collect();
    assert_eq!(labels, vec!["a", "b", "c"]);
    assert_eq!(ledger.total_debits, Decimal::from_i64(17));
    assert_eq!(ledger.total_credits, Decimal::from_i64(11));
    assert_eq!(ledger.entries[0].balance, Decimal::from_i64(10));
    assert_eq!(ledger.entries[1].balance, Decimal::from_i64(-4));
    assert_eq!(ledger.entries[2].balance, Decimal::zero());
    let empty = general_ledger(&vec![]).unwrap();
    assert!(empty.entries.is_empty());
    assert_eq!(empty.total_debits, Decimal::zero());
}

#[test]
fn the_general_ledger_of_a_tenant_lists_the_oldest_entries_first() {
    let mut engine = Engine::new();
    let cash = engine
        .create_account(
            1,
            CreateAccount {
                parent_id: None,
                account_number: Some("1000".to_string()),
                name: "Cash".to_string(),
                account_type: "BANK".to_string(),
                detail_type: None,
                description: None,
            },
        )
        .unwrap();
    for (day, memo) in [(5u32, "first"), (20, "second"), (5, "third"), (12, "fourth")] {
        engine
            .create_journal_entry(
                1,
                CreateJournalEntry {
                    entry_number: memo.to_string(),
                    date: Some(Date::from_ymd(2024, 7, day).unwrap()),
                    memo: Some(memo.to_string()),
                    is_adjusting: false,
                    lines: vec![CreateJournalEntryLine {
                        account_id: cash.id,
                        debit: Decimal::from_i64(1),
                        credit: Decimal::zero(),
                        memo: None,
                    }],
                },
                Date::from_ymd(2024, 8, 1).unwrap(),
            )
            .unwrap();
    }
    let ledger = engine.general_ledger(1).unwrap();
    let labels: Vec<&str> = ledger.entries.iter().map(|e| e.description.as_str()).collect();
    assert_eq!(labels, vec!["first", "third", "fourth", "second"]);
    assert_eq!(ledger.total_debits, Decimal::from_i64(4));
}

#[test]
fn postings_of_one_tenant_leave_the_stock_of_another_alone() {
    let mut engine = Engine::new();
    let make = |name: &str| CreateProduct {
        name: name.to_string(),
        sku: name.to_string(),
        description: None,
        unit_of_measure: UnitOfMeasure::Liter,
        price: Decimal::from_i64(1),
        cost_price: Decimal::from_i64(1),
    };
    let mine = engine.create_product(1, make("oil")).unwrap();
    let theirs = engine.create_product(2, make("oil")).unwrap();
    let now = Timestamp { date: Date::from_ymd(2024, 7, 1).unwrap(), micros: 1 };
    for (tenant, product, quantity) in [(1u128, mine.id, 5i64), (2, theirs.id, 100), (1, mine.id, -2)] {
        engine
            .record_transaction(
                tenant,
                CreateInventoryTransaction {
                    product_id: product,
                    quantity: Decimal::from_i64(quantity),
                    transaction_type: TransactionType::Adjustment,
                    reference_id: None,
                    notes: None,
                },
                now,
            )
            .unwrap();
    }
    assert_eq!(engine.get_stock_level(1, mine.id), Ok(Decimal::from_i64(3)));
    assert_eq!(engine.get_stock_level(2, theirs.id), Ok(Decimal::from_i64(100)));
    assert_eq!(engine.project_stock(1, mine.id), Ok(Decimal::from_i64(3)));
    assert_eq!(engine.project_stock(2, theirs.id), Ok(Decimal::from_i64(100)));
    assert!(engine.get_stock_level(1, theirs.id).is_err());
    assert!(engine.get_stock_level(2, mine.id).is_err());
}

fn key(major: i64, minor: i64, text: &str, tail: &str, last: i64) -> SortKey {
    SortKey { major, minor, text: text.as_bytes().to_vec(), tail: tail.as_bytes().to_vec(), last }
}

#[test]
fn bytes_compare_as_in_a_dictionary() {
    assert_eq!(compare_bytes(&b"".to_vec(), &b"".to_vec()), 0);
    assert_eq!(compare_bytes(&b"".to_vec(), &b"a".to_vec()), -1);
    assert_eq!(compare_bytes(&b"a".to_vec(), &b"".to_vec()), 1);
    assert_eq!(compare_bytes(&b"abc".to_vec(), &b"abd".to_vec()), -1);
    assert_eq!(compare_bytes(&b"abd".to_vec(), &b"abc".to_vec()), 1);
    assert_eq!(compare_bytes(&b"ab".to_vec(), &b"abc".to_vec()), -1);
    assert_eq!(compare_bytes(&b"100".to_vec(), &b"30".to_vec()), -1);
    assert_eq!(compare_bytes(&b"same".to_vec(), &b"same".to_vec()), 0);
}

#[test]
fn keys_compare_part_by_part() {
    assert!(key_at_most(&key(1, 9, "z", "z", 9), &key(2, 0, "", "", 0)));
    assert!(!key_at_most(&key(2, 0, "", "", 0), &key(1, 9, "z", "z", 9)));
    assert!(key_at_most(&key(1, 0, "z", "z", 9), &key(1, 1, "", "", 0)));
    assert!(key_at_most(&key(1, 1, "a", "z", 9), &key(1, 1, "b", "", 0)));
    assert!(key_at_most(&key(1, 1, "a", "x", 9), &key(1, 1, "a", "y", 0)));
    assert!(key_at_most(&key(1, 1, "a", "x", 3), &key(1, 1, "a", "x", 4)));
    assert!(!key_at_most(&key(1, 1, "a", "x", 5), &key(1, 1, "a", "x", 4)));
    assert!(key_at_most(&key(1, 1, "a", "x", 4), &key(1, 1, "a", "x", 4)));
}

#[test]
fn rows_of_equal_keys_keep_their_order() {
    let keys = vec![key(3, 0, "", "", 0), key(1, 0, "", "", 0), key(3, 0, "", "", 0), key(2, 0, "", "", 0), key(1, 0, "", "", 0)];
    assert_eq!(sorted_order(&keys), vec![1, 4, 3, 0, 2]);
    assert!(sorted_order(&vec![]).is_empty());
}

#[test]
fn lists_stand_in_the_order_of_their_kind() {
    let mut engine = Engine::new();
    let make = |name: &str| CreateProduct {
        name: name.to_string(),
        sku: name.to_string(),
        description: None,
        unit_of_measure: UnitOfMeasure::Piece,
        price: Decimal::from_i64(1),
        cost_price: Decimal::from_i64(1),
    };
    for name in ["nut", "bolt", "washer", "anvil"] {
        engine.create_product(1, make(name)).unwrap();
    }
    engine.create_product(2, make("aardvark")).unwrap();
    let names: Vec<String> = engine.list_products(1).into_iter().map(|p| p.name).collect();
    assert_eq!(names, vec!["anvil", "bolt", "nut", "washer"]);

    for (number, name) in [(Some("2000"), "Payables"), (None, "Suspense"), (Some("1000"), "Savings"), (Some("1000"), "Cash"), (None, "Drawer")] {
        engine
            .create_account(
                1,
                CreateAccount {
                    parent_id: None,
                    account_number: number.map(|n| n.to_string()),
                    name: name.to_string(),
                    account_type: "BANK".to_string(),
                    detail_type: None,
                    description: None,
                },
            )
            .unwrap();
    }
    let names: Vec<String> = engine.list_accounts(1).into_iter().map(|a| a.name).collect();
    assert_eq!(names, vec!["Cash", "Savings", "Payables", "Drawer", "Suspense"]);

    for name in ["Mill", "Bakery"] {
        engine
            .create_supplier(1, CreateSupplier { name: name.to_string(), email: None, phone: None, address: None, contact_person: None })
            .unwrap();
    }
    let names: Vec<String> = engine.list_suppliers(1).into_iter().map(|s| s.name).collect();
    assert_eq!(names, vec!["Bakery", "Mill"]);
    let mill = engine.purchasing.suppliers[0].id;

    for (number, day) in [("B-1", 5u32), ("B-2", 20), ("B-3", 5), ("B-4", 12)] {
        engine
            .create_bill(
                1,
                CreateBill {
                    supplier_id: mill,
                    bill_number: number.to_string(),
                    date: Some(Date::from_ymd(2024, 7, day).unwrap()),
                    due_date: Date::from_ymd(2024, 8, 1).unwrap(),
                    total_amount: Decimal::from_i64(1),
                    terms: None,
                    notes: None,
                },
                Date::from_ymd(2024, 7, 30).unwrap(),
            )
            .unwrap();
    }
    let numbers: Vec<String> = engine.list_bills(1).into_iter().map(|b| b.bill_number).collect();
    assert_eq!(numbers, vec!["B-2", "B-4", "B-1", "B-3"]);

    let customer = engine
        .create_customer(1, CreateCustomer { name: "Zed".to_string(), email: None, phone: None, address: None })
        .unwrap();
    engine
        .create_customer(1, CreateCustomer { name: "Abe".to_string(), email: None, phone: None, address: None })
        .unwrap();
    let names: Vec<String> = engine.list_customers(1).into_iter().map(|c| c.name).collect();
    assert_eq!(names, vec!["Abe", "Zed"]);
    for number in ["I-1", "I-2", "I-3"] {
        engine
            .create_invoice(
                1,
                CreateInvoice {
                    customer_id: customer.id,
                    sales_order_id: None,
                    invoice_number: number.to_string(),
                    date: Date::from_ymd(2024, 7, 1).unwrap(),
                    due_date: Date::from_ymd(2024, 8, 1).unwrap(),
                    total_amount: Decimal::from_i64(1),
                },
            )
            .unwrap();
    }
    let numbers: Vec<String> = engine.list_invoices(1).into_iter().map(|i| i.invoice_number).collect();
    assert_eq!(numbers, vec!["I-3", "I-2", "I-1"]);
}
