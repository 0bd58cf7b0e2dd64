use smart_erp::auth::Role;
use smart_erp::error::{Error, SharedError};
use smart_erp::models::accounting::{InvoiceStatus, PaymentMethod};
use smart_erp::models::chart_of_accounts::{account_group, is_debit_normal, AccountGroup};
use smart_erp::models::inventory::TransactionType;
use smart_erp::models::manufacturing::WorkOrderStatus;
use smart_erp::models::product::UnitOfMeasure;
use smart_erp::models::purchasing::PurchaseOrderStatus;
use smart_erp::models::sales::SalesOrderStatus;

#[test]
fn transaction_types_have_their_codes() {
    let all = [
        (TransactionType::Purchase, "PURCHASE"),
        (TransactionType::Sale, "SALE"),
        (TransactionType::Adjustment, "ADJUSTMENT"),
        (TransactionType::ProductionIn, "PRODUCTION_IN"),
        (TransactionType::ProductionOut, "PRODUCTION_OUT"),
    ];
    for (kind, code) in all {
        assert_eq!(kind.as_str(), code);
        assert_eq!(TransactionType::parse(code), Some(kind));
    }
    assert_eq!(TransactionType::parse("purchase"), None);
    assert_eq!(TransactionType::parse(""), None);
}

#[test]
fn units_have_their_codes() {
    let all = [
        (UnitOfMeasure::Unit, "UNIT"),
        (UnitOfMeasure::SquareFeet, "SQ_FT"),
        (UnitOfMeasure::Kilogram, "KG"),
        (UnitOfMeasure::Piece, "PIECE"),
        (UnitOfMeasure::Meter, "METER"),
        (UnitOfMeasure::Liter, "LITER"),
    ];
    for (unit, code) in all {
        assert_eq!(unit.as_str(), code);
        assert_eq!(UnitOfMeasure::parse(code), Some(unit));
    }
    assert_eq!(UnitOfMeasure::parse("SquareFeet"), None);
}

#[test]
fn order_statuses_have_their_codes_and_names() {
    let purchase = [
        (PurchaseOrderStatus::Draft, "DRAFT", "Draft"),
        (PurchaseOrderStatus::Ordered, "ORDERED", "Ordered"),
        (PurchaseOrderStatus::Received, "RECEIVED", "Received"),
        (PurchaseOrderStatus::Cancelled, "CANCELLED", "Cancelled"),
    ];
    for (status, code, name) in purchase {
        assert_eq!(status.as_str(), code);
        assert_eq!(status.debug_name(), name);
        assert_eq!(PurchaseOrderStatus::parse(code), Some(status));
    }
    let sales = [
        (SalesOrderStatus::Draft, "DRAFT", "Draft"),
        (SalesOrderStatus::Confirmed, "CONFIRMED", "Confirmed"),
        (SalesOrderStatus::Shipped, "SHIPPED", "Shipped"),
        (SalesOrderStatus::Cancelled, "CANCELLED", "Cancelled"),
    ];
    for (status, code, name) in sales {
        assert_eq!(status.as_str(), code);
        assert_eq!(status.debug_name(), name);
        assert_eq!(SalesOrderStatus::parse(code), Some(status));
    }
    let work = [
        (WorkOrderStatus::Planned, "PLANNED", "Planned"),
        (WorkOrderStatus::InProgress, "IN_PROGRESS", "InProgress"),
        (WorkOrderStatus::Completed, "COMPLETED", "Completed"),
        (WorkOrderStatus::Cancelled, "CANCELLED", "Cancelled"),
    ];
    for (status, code, name) in work {
        assert_eq!(status.as_str(), code);
        assert_eq!(status.debug_name(), name);
        assert_eq!(WorkOrderStatus::parse(code), Some(status));
    }
    assert_eq!(PurchaseOrderStatus::parse("SHIPPED"), None);
    assert_eq!(SalesOrderStatus::parse("RECEIVED"), None);
    assert_eq!(WorkOrderStatus::parse("DRAFT"), None);
}

#[test]
fn invoice_statuses_and_payment_methods_have_their_codes() {
    let statuses = [
        (InvoiceStatus::Draft, "DRAFT"),
        (InvoiceStatus::Sent, "SENT"),
        (InvoiceStatus::Paid, "PAID"),
        (InvoiceStatus::PartiallyPaid, "PARTIALLY_PAID"),
        (InvoiceStatus::Overdue, "OVERDUE"),
        (InvoiceStatus::Cancelled, "CANCELLED"),
    ];
    for (status, code) in statuses {
        assert_eq!(status.as_str(), code);
        assert_eq!(InvoiceStatus::parse(code), Some(status));
    }
    let methods = [
        (PaymentMethod::Cash, "CASH"),
        (PaymentMethod::BankTransfer, "BANK_TRANSFER"),
        (PaymentMethod::CreditCard, "CREDIT_CARD"),
        (PaymentMethod::Other, "OTHER"),
    ];
    for (method, code) in methods {
        assert_eq!(method.as_str(), code);
        assert_eq!(PaymentMethod::parse(code), Some(method));
    }
    assert_eq!(InvoiceStatus::parse("PartiallyPaid"), None);
    assert_eq!(PaymentMethod::parse("CHEQUE"), None);
}

#[test]
fn roles_have_their_codes() {
    assert_eq!(Role::Admin.as_str(), "ADMIN");
    assert_eq!(Role::User.as_str(), "USER");
    assert_eq!(Role::parse("ADMIN"), Some(Role::Admin));
    assert_eq!(Role::parse("USER"), Some(Role::User));
    assert_eq!(Role::parse("ROOT"), None);
}

#[test]
fn account_types_fall_into_groups() {
    for kind in ["INCOME", "OTHER_INCOME"] {
        assert_eq!(account_group(kind), Some(AccountGroup::Income));
        assert!(!is_debit_normal(kind));
    }
    assert_eq!(account_group("COST_OF_GOODS_SOLD"), Some(AccountGroup::CostOfGoodsSold));
    assert!(is_debit_normal("COST_OF_GOODS_SOLD"));
    for kind in ["EXPENSE", "OTHER_EXPENSE"] {
        assert_eq!(account_group(kind), Some(AccountGroup::Expense));
        assert!(is_debit_normal(kind));
    }
    for kind in ["BANK", "ACCOUNTS_RECEIVABLE", "OTHER_CURRENT_ASSET", "FIXED_ASSET", "OTHER_ASSET"] {
        assert_eq!(account_group(kind), Some(AccountGroup::Asset));
        assert!(is_debit_normal(kind));
    }
    for kind in ["ACCOUNTS_PAYABLE", "CREDIT_CARD", "OTHER_CURRENT_LIABILITY", "LONG_TERM_LIABILITY"] {
        assert_eq!(account_group(kind), Some(AccountGroup::Liability));
        assert!(!is_debit_normal(kind));
    }
    assert_eq!(account_group("EQUITY"), Some(AccountGroup::Equity));
    assert!(!is_debit_normal("EQUITY"));
    assert_eq!(account_group("bank"), None);
    assert!(!is_debit_normal("bank"));
}

#[test]
fn errors_read_as_text() {
    assert_eq!(Error::Database("down".to_string()).to_string(), "Database error: down");
    assert_eq!(Error::NotFound("Product not found".to_string()).to_string(), "Entity not found: Product not found");
    assert_eq!(Error::BusinessRule("no".to_string()).to_string(), "Business rule violation: no");
    assert_eq!(Error::Unauthorized.to_string(), "Unauthorized access");
    assert_eq!(Error::Validation("bad".to_string()).to_string(), "Validation error: bad");
    assert_eq!(SharedError::Unknown.to_string(), "Unknown error");
    assert_eq!(Error::out_of_range(), Error::Database("numeric value out of range".to_string()));
    assert_eq!(Error::not_found("Invoice not found"), Error::NotFound("Invoice not found".to_string()));
}

#[test]
fn database_detail_is_not_told() {
    assert_eq!(Error::Database("connection refused at 10.0.0.5".to_string()).public_message(), "An internal error occurred");
    assert_eq!(Error::NotFound("Product not found".to_string()).public_message(), "Product not found");
    assert_eq!(Error::BusinessRule("Must be ORDERED.".to_string()).public_message(), "Must be ORDERED.");
    assert_eq!(Error::Validation("bad id".to_string()).public_message(), "bad id");
    assert_eq!(Error::Unauthorized.public_message(), "Unauthorized");
}

#[test]
fn a_statement_that_touched_nothing_found_nothing() {
    assert_eq!(Error::require_rows(1, "Employee not found"), Ok(()));
    assert_eq!(Error::require_rows(3, "Employee not found"), Ok(()));
    assert_eq!(Error::require_rows(0, "Employee not found"), Err(Error::NotFound("Employee not found".to_string())));
}

#[test]
fn errors_have_their_status() {
    assert_eq!(Error::Database("x".to_string()).status(), 500);
    assert_eq!(Error::NotFound("x".to_string()).status(), 404);
    assert_eq!(Error::BusinessRule("x".to_string()).status(), 400);
    assert_eq!(Error::Unauthorized.status(), 401);
    assert_eq!(Error::Validation("x".to_string()).status(), 400);
}
