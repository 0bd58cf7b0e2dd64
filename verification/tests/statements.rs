use smart_erp::date::Date;
use smart_erp::decimal::{Decimal, MAX_MANTISSA};
use smart_erp::engine::Engine;
use smart_erp::error::Error;
use smart_erp::models::accounting::{CreateInvoice, CreatePayment, InvoiceStatus, PaymentMethod};
use smart_erp::models::chart_of_accounts::{AccountGroup, CreateAccount};
use smart_erp::models::purchasing::CreateSupplier;
use smart_erp::models::sales::CreateCustomer;
use smart_erp::models::transactions::{CreateBill, CreateJournalEntry, CreateJournalEntryLine};
use smart_erp::reports::{
    age_rank_of, aging_bucket, aging_report, sort_by_name, trial_balance, AccountBalance, AgingBucket, OpenItem,
};

const TENANT: u128 = 1;
const OTHER: u128 = 2;

fn dec(mantissa: i128, scale: u32) -> Decimal {
    Decimal::try_from_parts(mantissa, scale).unwrap()
}

fn today() -> Date {
    Date::from_ymd(2024, 3, 16).unwrap()
}

fn account(engine: &mut Engine, tenant: u128, number: Option<&str>, name: &str, kind: &str, balance: i64) -> u128 {
    let created = engine
        .create_account(
            tenant,
            CreateAccount {
                parent_id: None,
                account_number: number.map(|n| n.to_string()),
                name: name.to_string(),
                account_type: kind.to_string(),
                detail_type: None,
                description: None,
            },
        )
        .unwrap();
    let at = engine.accounting.accounts.len() - 1;
    engine.accounting.accounts[at].balance = Decimal::from_i64(balance);
    created.id
}

fn customer(engine: &mut Engine, tenant: u128, name: &str) -> u128 {
    engine
        .create_customer(tenant, CreateCustomer { name: name.to_string(), email: None, phone: None, address: None })
        .unwrap()
        .id
}

fn invoice(engine: &mut Engine, tenant: u128, customer_id: u128, number: &str, date: Date, due: Date, total: i64, paid: i64) {
    let id = engine
        .create_invoice(
            tenant,
            CreateInvoice {
                customer_id,
                sales_order_id: None,
                invoice_number: number.to_string(),
                date,
                due_date: due,
                total_amount: Decimal::from_i64(total),
            },
        )
        .unwrap()
        .id;
    if paid != 0 {
        engine
            .record_payment(
                tenant,
                CreatePayment {
                    invoice_id: id,
                    amount: Decimal::from_i64(paid),
                    date,
                    method: PaymentMethod::Cash,
                    reference: None,
                },
            )
            .unwrap();
    }
}

#[test]
fn the_trial_balance_keeps_sides_and_tenants_apart() {
    let mut engine = Engine::new();
    account(&mut engine, TENANT, Some("5000"), "Rent", "EXPENSE", 320);
    account(&mut engine, TENANT, None, "Sales", "INCOME", 700);
    account(&mut engine, OTHER, Some("1000"), "Cash", "BANK", 9000);
    account(&mut engine, TENANT, Some("2000"), "Payables", "ACCOUNTS_PAYABLE", 120);
    account(&mut engine, TENANT, Some("9999"), "Odd", "SOMETHING_ELSE", 5);
    account(&mut engine, OTHER, Some("4000"), "Sales", "INCOME", 1);
    account(&mut engine, TENANT, Some("1000"), "Cash", "BANK", 500);
    let closed = account(&mut engine, TENANT, Some("1100"), "Old cash", "BANK", 77);
    let at = engine.accounting.accounts.iter().position(|a| a.id == closed).unwrap();
    engine.accounting.accounts[at].is_active = false;

    let report = engine.trial_balance(TENANT).unwrap();
    assert_eq!(report.total_debits, Decimal::from_i64(820));
    assert_eq!(report.total_credits, Decimal::from_i64(825));
    assert_eq!(report.lines.len(), 5);
    assert_eq!(report.lines[0].account_number, "1000");
    assert_eq!(report.lines[0].account_name, "Cash");
    assert_eq!(report.lines[0].account_type, "BANK");
    assert_eq!(report.lines[0].debit, Decimal::from_i64(500));
    assert_eq!(report.lines[0].credit, Decimal::zero());
    assert_eq!(report.lines[1].debit, Decimal::zero());
    assert_eq!(report.lines[1].credit, Decimal::from_i64(120));
    assert_eq!(report.lines[2].debit, Decimal::from_i64(320));
    assert_eq!(report.lines[3].credit, Decimal::from_i64(5));
    assert_eq!(report.lines[4].account_number, "");
    assert_eq!(report.lines[4].credit, Decimal::from_i64(700));
    let numbers: Vec<&str> = report.lines.iter().map(|line| line.account_number.as_str()).collect();
    assert_eq!(numbers, vec!["1000", "2000", "5000", "9999", ""]);

    let other = engine.trial_balance(OTHER).unwrap();
    assert_eq!(other.total_debits, Decimal::from_i64(9000));
    assert_eq!(other.total_credits, Decimal::from_i64(1));
    assert_eq!(other.lines.len(), 2);

    let nobody = engine.trial_balance(3).unwrap();
    assert!(nobody.lines.is_empty());
    assert_eq!(nobody.total_debits, Decimal::zero());
    assert_eq!(nobody.total_credits, Decimal::zero());
}

#[test]
fn the_trial_balance_of_rows_reports_overflow() {
    let huge = dec(MAX_MANTISSA, 0);
    let rows = vec![
        AccountBalance { account_number: "1".to_string(), name: "a".to_string(), account_type: "BANK".to_string(), balance: huge },
        AccountBalance { account_number: "2".to_string(), name: "b".to_string(), account_type: "EQUITY".to_string(), balance: huge },
    ];
    let fine = trial_balance(&rows).unwrap();
    assert_eq!(fine.total_debits, huge);
    assert_eq!(fine.total_credits, huge);
    let mut more = rows;
    more.push(AccountBalance { account_number: "3".to_string(), name: "c".to_string(), account_type: "FIXED_ASSET".to_string(), balance: Decimal::from_i64(1) });
    assert_eq!(trial_balance(&more), Err(Error::Database("numeric value out of range".to_string())));
}

#[test]
fn profit_is_income_less_cost_less_expenses() {
    let mut engine = Engine::new();
    account(&mut engine, TENANT, Some("6100"), "Fees", "OTHER_EXPENSE", 25);
    account(&mut engine, TENANT, Some("4100"), "Interest", "OTHER_INCOME", 50);
    account(&mut engine, TENANT, Some("5000"), "Materials", "COST_OF_GOODS_SOLD", 400);
    account(&mut engine, TENANT, Some("6000"), "Rent", "EXPENSE", 200);
    account(&mut engine, TENANT, Some("4000"), "Sales", "INCOME", 1000);
    account(&mut engine, TENANT, Some("1000"), "Cash", "BANK", 12345);
    account(&mut engine, OTHER, Some("4000"), "Sales", "INCOME", 999);

    let report = engine.profit_and_loss(TENANT).unwrap();
    assert_eq!(report.income.len(), 2);
    assert_eq!(report.income[1].name, "Interest");
    assert_eq!(report.income[1].account_number, "4100");
    assert_eq!(report.income[1].amount, Decimal::from_i64(50));
    assert_eq!(report.income[0].name, "Sales");
    assert_eq!(report.cogs.len(), 1);
    assert_eq!(report.expenses.len(), 2);
    assert_eq!(report.expenses[0].name, "Rent");
    assert_eq!(report.expenses[1].name, "Fees");
    assert_eq!(report.total_income, Decimal::from_i64(1050));
    assert_eq!(report.total_cogs, Decimal::from_i64(400));
    assert_eq!(report.gross_profit, Decimal::from_i64(650));
    assert_eq!(report.total_expenses, Decimal::from_i64(225));
    assert_eq!(report.net_income, Decimal::from_i64(425));

    let lines = engine.accounts_by_group(TENANT, AccountGroup::Asset);
    assert_eq!(lines.len(), 1);
    assert_eq!(lines[0].name, "Cash");
}

#[test]
fn the_balance_sheet_reports_three_totals() {
    let mut engine = Engine::new();
    account(&mut engine, TENANT, Some("1000"), "Cash", "BANK", 500);
    account(&mut engine, TENANT, Some("1200"), "Receivables", "ACCOUNTS_RECEIVABLE", 300);
    account(&mut engine, TENANT, Some("1500"), "Truck", "FIXED_ASSET", 4000);
    account(&mut engine, TENANT, Some("2000"), "Payables", "ACCOUNTS_PAYABLE", 700);
    account(&mut engine, TENANT, Some("2100"), "Card", "CREDIT_CARD", 50);
    account(&mut engine, TENANT, Some("3000"), "Capital", "EQUITY", 1000);
    account(&mut engine, TENANT, Some("4000"), "Sales", "INCOME", 999);

    let report = engine.balance_sheet(TENANT).unwrap();
    assert_eq!(report.assets.len(), 3);
    assert_eq!(report.liabilities.len(), 2);
    assert_eq!(report.equity.len(), 1);
    assert_eq!(report.total_assets, Decimal::from_i64(4800));
    assert_eq!(report.total_liabilities, Decimal::from_i64(750));
    assert_eq!(report.total_equity, Decimal::from_i64(1000));
}

#[test]
fn what_is_due_for_45_days_stands_in_the_second_bucket() {
    let mut engine = Engine::new();
    let acme = customer(&mut engine, TENANT, "Acme");
    invoice(&mut engine, TENANT, acme, "INV-1", Date::from_ymd(2024, 1, 1).unwrap(), Date::from_ymd(2024, 1, 31).unwrap(), 100, 20);

    let report = engine.ar_aging(TENANT, today()).unwrap();
    assert_eq!(report.lines.len(), 1);
    let line = &report.lines[0];
    assert_eq!(line.name, "Acme");
    assert_eq!(line.days_31_60, Decimal::from_i64(80));
    assert_eq!(line.total, Decimal::from_i64(80));
    assert_eq!(line.current, Decimal::zero());
    assert_eq!(line.days_1_30, Decimal::zero());
    assert_eq!(line.days_61_90, Decimal::zero());
    assert_eq!(line.over_90, Decimal::zero());
    assert_eq!(report.total_31_60, Decimal::from_i64(80));
    assert_eq!(report.grand_total, Decimal::from_i64(80));
    assert_eq!(report.total_current, Decimal::zero());
    assert_eq!(report.total_1_30, Decimal::zero());
    assert_eq!(report.total_61_90, Decimal::zero());
    assert_eq!(report.total_over_90, Decimal::zero());
}

#[test]
fn the_bounds_of_the_buckets_belong_to_the_younger_bucket() {
    assert_eq!(aging_bucket(-10), AgingBucket::Current);
    assert_eq!(aging_bucket(0), AgingBucket::Current);
    assert_eq!(aging_bucket(1), AgingBucket::Days1To30);
    assert_eq!(aging_bucket(30), AgingBucket::Days1To30);
    assert_eq!(aging_bucket(31), AgingBucket::Days31To60);
    assert_eq!(aging_bucket(60), AgingBucket::Days31To60);
    assert_eq!(aging_bucket(61), AgingBucket::Days61To90);
    assert_eq!(aging_bucket(90), AgingBucket::Days61To90);
    assert_eq!(aging_bucket(91), AgingBucket::Over90);
    assert_eq!(aging_bucket(i64::MAX), AgingBucket::Over90);
    assert_eq!(aging_bucket(i64::MIN), AgingBucket::Current);
}

#[test]
fn receivables_age_by_customer() {
    let mut engine = Engine::new();
    let acme = customer(&mut engine, TENANT, "Acme");
    let zenith = customer(&mut engine, TENANT, "Zenith");
    let foreign = customer(&mut engine, OTHER, "Acme");
    let d = |m: u32, day: u32| Date::from_ymd(2024, m, day).unwrap();
    invoice(&mut engine, TENANT, zenith, "Z-1", d(3, 1), d(3, 20), 40, 0);
    invoice(&mut engine, TENANT, acme, "A-1", d(1, 1), d(3, 15), 10, 0);
    invoice(&mut engine, TENANT, acme, "A-2", d(1, 1), d(2, 15), 200, 50);
    invoice(&mut engine, TENANT, acme, "A-3", d(1, 1), d(1, 10), 30, 0);
    invoice(&mut engine, TENANT, zenith, "Z-2", Date::from_ymd(2023, 1, 1).unwrap(), Date::from_ymd(2023, 12, 1).unwrap(), 7, 0);
    invoice(&mut engine, TENANT, acme, "A-4", d(1, 1), d(3, 16), 5, 0);
    invoice(&mut engine, TENANT, acme, "A-5", d(1, 1), d(1, 1), 60, 60);
    invoice(&mut engine, TENANT, acme, "A-6", d(1, 1), d(1, 1), 1000, 0);
    let cancelled = engine.accounting.invoices.len() - 1;
    engine.accounting.invoices[cancelled].status = InvoiceStatus::Cancelled;
    invoice(&mut engine, TENANT, 424242, "X-1", d(1, 1), d(1, 1), 500, 0);
    invoice(&mut engine, OTHER, foreign, "F-1", d(1, 1), d(1, 1), 9000, 0);

    let report = engine.ar_aging(TENANT, today()).unwrap();
    assert_eq!(report.lines.len(), 2);
    let z = &report.lines[1];
    assert_eq!(z.name, "Zenith");
    assert_eq!(z.current, Decimal::from_i64(40));
    assert_eq!(z.over_90, Decimal::from_i64(7));
    assert_eq!(z.total, Decimal::from_i64(47));
    let a = &report.lines[0];
    assert_eq!(a.name, "Acme");
    assert_eq!(a.current, Decimal::from_i64(5));
    assert_eq!(a.days_1_30, Decimal::from_i64(160));
    assert_eq!(a.days_31_60, Decimal::zero());
    assert_eq!(a.days_61_90, Decimal::from_i64(30));
    assert_eq!(a.over_90, Decimal::zero());
    assert_eq!(a.total, Decimal::from_i64(195));
    assert_eq!(report.total_current, Decimal::from_i64(45));
    assert_eq!(report.total_1_30, Decimal::from_i64(160));
    assert_eq!(report.total_31_60, Decimal::zero());
    assert_eq!(report.total_61_90, Decimal::from_i64(30));
    assert_eq!(report.total_over_90, Decimal::from_i64(7));
    assert_eq!(report.grand_total, Decimal::from_i64(242));

    let other = engine.ar_aging(OTHER, today()).unwrap();
    assert_eq!(other.lines.len(), 1);
    assert_eq!(other.grand_total, Decimal::from_i64(9000));
}

#[test]
fn an_aging_report_of_items_reports_overflow() {
    let huge = dec(MAX_MANTISSA, 0);
    let item = |name: &str, total: Decimal, paid: Decimal, days: i64| OpenItem {
        party: name.len() as u128,
        name: name.to_string(),
        number: "n".to_string(),
        total_amount: total,
        amount_paid: paid,
        days_past: days,
    };
    assert!(aging_report(&vec![]).unwrap().lines.is_empty());
    assert_eq!(aging_report(&vec![]).unwrap().grand_total, Decimal::zero());
    let overpaid = aging_report(&vec![item("a", Decimal::from_i64(10), Decimal::from_i64(15), 3)]).unwrap();
    assert_eq!(overpaid.lines[0].days_1_30, Decimal::from_i64(-5));
    assert_eq!(overpaid.grand_total, Decimal::from_i64(-5));
    let refused = aging_report(&vec![item("a", huge, huge.negate(), 3)]);
    assert_eq!(refused, Err(Error::Database("numeric value out of range".to_string())));
    let refused = aging_report(&vec![item("a", huge, Decimal::zero(), 3), item("bb", huge, Decimal::zero(), 3)]);
    assert_eq!(refused, Err(Error::Database("numeric value out of range".to_string())));
    let refused = aging_report(&vec![item("a", huge, Decimal::zero(), 3), item("bb", huge, Decimal::zero(), 300)]);
    assert_eq!(refused, Err(Error::Database("numeric value out of range".to_string())));
}

#[test]
fn two_customers_of_one_name_have_a_line_each() {
    let mut engine = Engine::new();
    let first = customer(&mut engine, TENANT, "Smith");
    let second = customer(&mut engine, TENANT, "Smith");
    let early = customer(&mut engine, TENANT, "Adams");
    let d = |m: u32, day: u32| Date::from_ymd(2024, m, day).unwrap();
    invoice(&mut engine, TENANT, first, "S-1", d(1, 1), d(3, 10), 10, 0);
    invoice(&mut engine, TENANT, second, "S-2", d(1, 1), d(3, 10), 200, 0);
    invoice(&mut engine, TENANT, first, "S-3", d(1, 1), d(1, 10), 3, 0);
    invoice(&mut engine, TENANT, early, "A-1", d(1, 1), d(3, 10), 7000, 0);

    let report = engine.ar_aging(TENANT, today()).unwrap();
    let lines: Vec<(&str, Decimal, Decimal)> =
        report.lines.iter().map(|line| (line.name.as_str(), line.days_1_30, line.total)).collect();
    assert_eq!(
        lines,
        vec![
            ("Adams", Decimal::from_i64(7000), Decimal::from_i64(7000)),
            ("Smith", Decimal::from_i64(10), Decimal::from_i64(13)),
            ("Smith", Decimal::from_i64(200), Decimal::from_i64(200)),
        ]
    );
    assert_eq!(report.grand_total, Decimal::from_i64(7213));

    let item = |party: u128, name: &str, total: i64| OpenItem {
        party,
        name: name.to_string(),
        number: "n".to_string(),
        total_amount: Decimal::from_i64(total),
        amount_paid: Decimal::zero(),
        days_past: 0,
    };
    let report = aging_report(&vec![item(7, "x", 1), item(8, "x", 2), item(7, "x", 4)]).unwrap();
    assert_eq!(report.lines.len(), 2);
    assert_eq!(report.lines[0].current, Decimal::from_i64(5));
    assert_eq!(report.lines[1].current, Decimal::from_i64(2));
}

#[test]
fn payables_age_by_supplier() {
    let mut engine = Engine::new();
    let supplier = engine
        .create_supplier(
            TENANT,
            CreateSupplier { name: "Mill".to_string(), email: None, phone: None, address: None, contact_person: None },
        )
        .unwrap();
    let bill = |number: &str, due: Date, total: i64| CreateBill {
        supplier_id: supplier.id,
        bill_number: number.to_string(),
        date: None,
        due_date: due,
        total_amount: Decimal::from_i64(total),
        terms: None,
        notes: None,
    };
    let first = engine.create_bill(TENANT, bill("B-1", Date::from_ymd(2024, 1, 1).unwrap(), 300), today()).unwrap();
    assert_eq!(first.date, today());
    assert_eq!(first.status, "OPEN");
    assert_eq!(first.amount_paid, Decimal::zero());
    engine.create_bill(TENANT, bill("B-2", Date::from_ymd(2024, 4, 1).unwrap(), 20), today()).unwrap();
    engine.create_bill(TENANT, bill("B-3", Date::from_ymd(2024, 1, 1).unwrap(), 1000), today()).unwrap();
    engine.accounting.bills[2].status = "PAID".to_string();
    engine.accounting.bills[0].amount_paid = Decimal::from_i64(100);

    let report = engine.ap_aging(TENANT, today()).unwrap();
    assert_eq!(report.lines.len(), 1);
    assert_eq!(report.lines[0].name, "Mill");
    assert_eq!(report.lines[0].days_61_90, Decimal::from_i64(200));
    assert_eq!(report.lines[0].current, Decimal::from_i64(20));
    assert_eq!(report.lines[0].total, Decimal::from_i64(220));
    assert_eq!(report.grand_total, Decimal::from_i64(220));
    assert_eq!(engine.list_bills(TENANT).len(), 3);
    assert!(engine.ap_aging(OTHER, today()).unwrap().lines.is_empty());
}

#[test]
fn the_general_ledger_lists_the_lines_of_the_journal() {
    let mut engine = Engine::new();
    let cash = account(&mut engine, TENANT, Some("1000"), "Cash", "BANK", 0);
    let sales = account(&mut engine, TENANT, None, "Sales", "INCOME", 0);
    let foreign = account(&mut engine, OTHER, Some("1000"), "Cash", "BANK", 0);
    let entry = engine
        .create_journal_entry(
            TENANT,
            CreateJournalEntry {
                entry_number: "JE-1".to_string(),
                date: Some(Date::from_ymd(2024, 2, 2).unwrap()),
                memo: Some("cash sale".to_string()),
                is_adjusting: false,
                lines: vec![
                    CreateJournalEntryLine { account_id: cash, debit: dec(1250, 2), credit: Decimal::zero(), memo: None },
                    CreateJournalEntryLine { account_id: sales, debit: Decimal::zero(), credit: dec(1250, 2), memo: Some("till".to_string()) },
                    CreateJournalEntryLine { account_id: foreign, debit: Decimal::from_i64(1), credit: Decimal::zero(), memo: None },
                ],
            },
            today(),
        )
        .unwrap();
    assert_eq!(entry.date, Date::from_ymd(2024, 2, 2).unwrap());
    assert_eq!(engine.accounting.journal_lines.len(), 3);
    assert_eq!(engine.accounting.journal_lines[1].sort_order, 1);
    assert_eq!(engine.accounting.journal_lines[1].entry_id, entry.id);
    engine
        .create_journal_entry(
            OTHER,
            CreateJournalEntry {
                entry_number: "JE-9".to_string(),
                date: None,
                memo: None,
                is_adjusting: true,
                lines: vec![CreateJournalEntryLine { account_id: foreign, debit: Decimal::from_i64(5), credit: Decimal::from_i64(2), memo: None }],
            },
            today(),
        )
        .unwrap();

    let ledger = engine.general_ledger(TENANT).unwrap();
    assert_eq!(ledger.entries.len(), 2);
    assert_eq!(ledger.total_debits, dec(1250, 2));
    assert_eq!(ledger.total_credits, dec(1250, 2));
    let first = &ledger.entries[0];
    assert_eq!(first.date, Date::from_ymd(2024, 2, 2).unwrap());
    assert_eq!(first.account_number, "1000");
    assert_eq!(first.account_name, "Cash");
    assert_eq!(first.description, "cash sale");
    assert_eq!(first.balance, dec(1250, 2));
    assert_eq!(first.source, "Journal Entry");
    let second = &ledger.entries[1];
    assert_eq!(second.account_number, "");
    assert_eq!(second.description, "till");
    assert_eq!(second.balance, dec(-1250, 2));

    let other = engine.general_ledger(OTHER).unwrap();
    assert_eq!(other.entries.len(), 1);
    assert_eq!(other.entries[0].date, today());
    assert_eq!(other.entries[0].description, "");
    assert_eq!(other.entries[0].balance, Decimal::from_i64(3));
    assert_eq!(engine.list_journal_entries(TENANT).len(), 1);
}

#[test]
fn the_sales_summary_sums_and_averages() {
    let mut engine = Engine::new();
    let acme = customer(&mut engine, TENANT, "Acme");
    let d = |y: i32, m: u32, day: u32| Date::from_ymd(y, m, day).unwrap();
    invoice(&mut engine, TENANT, acme, "1", d(2024, 3, 1), d(2024, 4, 1), 100, 20);
    invoice(&mut engine, TENANT, acme, "2", d(2023, 12, 24), d(2024, 1, 1), 50, 50);
    invoice(&mut engine, TENANT, acme, "3", d(2024, 3, 30), d(2024, 4, 1), 25, 0);
    invoice(&mut engine, OTHER, acme, "4", d(2024, 3, 30), d(2024, 4, 1), 7777, 0);
    invoice(&mut engine, TENANT, acme, "5", d(2024, 1, 2), d(2024, 4, 1), 25, 0);

    let summary = engine.sales_summary(TENANT).unwrap();
    assert_eq!(summary.total_invoiced, Decimal::from_i64(200));
    assert_eq!(summary.total_collected, Decimal::from_i64(70));
    assert_eq!(summary.outstanding, Decimal::from_i64(130));
    assert_eq!(summary.invoice_count, 4);
    assert_eq!(summary.avg_invoice, Decimal::from_i64(50));
    let months: Vec<(&str, Decimal, i64)> =
        summary.monthly.iter().map(|m| (m.month.as_str(), m.revenue, m.count)).collect();
    assert_eq!(
        months,
        vec![
            ("2024-03", Decimal::from_i64(125), 2),
            ("2024-01", Decimal::from_i64(25), 1),
            ("2023-12", Decimal::from_i64(50), 1),
        ]
    );

    let nobody = engine.sales_summary(3).unwrap();
    assert_eq!(nobody.invoice_count, 0);
    assert_eq!(nobody.avg_invoice, Decimal::zero());
    assert_eq!(nobody.total_invoiced, Decimal::zero());
    assert_eq!(nobody.outstanding, Decimal::zero());
    assert!(nobody.monthly.is_empty());
}

#[test]
fn the_sales_summary_lists_the_twelve_latest_months() {
    let mut engine = Engine::new();
    let acme = customer(&mut engine, TENANT, "Acme");
    let mut months = vec![];
    for year in [2022, 2024, 2023] {
        for month in [5u32, 1, 12, 9, 3] {
            months.push((year, month));
        }
    }
    for (i, (year, month)) in months.iter().enumerate() {
        let date = Date::from_ymd(*year, *month, 10).unwrap();
        invoice(&mut engine, TENANT, acme, "n", date, date, i as i64 + 1, 0);
    }
    let summary = engine.sales_summary(TENANT).unwrap();
    let labels: Vec<&str> = summary.monthly.iter().map(|m| m.month.as_str()).collect();
    assert_eq!(
        labels,
        vec![
            "2024-12", "2024-09", "2024-05", "2024-03", "2024-01", "2023-12", "2023-09", "2023-05",
            "2023-03", "2023-01", "2022-12", "2022-09",
        ]
    );
    assert_eq!(summary.monthly[0].revenue, Decimal::from_i64(8));
    assert_eq!(summary.monthly[11].revenue, Decimal::from_i64(4));
    assert_eq!(summary.invoice_count, 15);
    assert_eq!(summary.total_invoiced, Decimal::from_i64(120));
    assert_eq!(summary.avg_invoice, Decimal::from_i64(8));
}

#[test]
fn open_items_stand_by_name_and_the_longest_due_first() {
    let item = |party: u128, name: &str, number: &str, days: i64| OpenItem {
        party,
        name: name.to_string(),
        number: number.to_string(),
        total_amount: Decimal::from_i64(1),
        amount_paid: Decimal::zero(),
        days_past: days,
    };
    let items = vec![
        item(1, "Zenith", "a", 5),
        item(2, "Acme", "b", -3),
        item(2, "Acme", "c", 40),
        item(3, "Acme", "d", 40),
        item(1, "Zenith", "e", i64::MIN),
        item(2, "Acme", "f", 0),
        item(4, "Ab", "g", 1),
    ];
    let sorted = sort_by_name(&items);
    let numbers: Vec<&str> = sorted.iter().map(|i| i.number.as_str()).collect();
    assert_eq!(numbers, vec!["g", "c", "d", "f", "b", "a", "e"]);
    assert_eq!(age_rank_of(7), -7);
    assert_eq!(age_rank_of(-7), 7);
    assert_eq!(age_rank_of(i64::MIN), i64::MAX);
    assert_eq!(age_rank_of(i64::MAX), i64::MIN + 1);

    let report = aging_report(&sorted).unwrap();
    let names: Vec<&str> = report.lines.iter().map(|line| line.name.as_str()).collect();
    assert_eq!(names, vec!["Ab", "Acme", "Acme", "Zenith"]);
    assert_eq!(report.lines[1].total, Decimal::from_i64(3));
    assert_eq!(report.lines[2].total, Decimal::from_i64(1));
}
