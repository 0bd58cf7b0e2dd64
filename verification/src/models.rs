//! The entities of the data model, and the rules that each carries.
pub mod accounting;
pub mod chart_of_accounts;
pub mod inventory;
pub mod manufacturing;
pub mod product;
pub mod purchasing;
pub mod reports;
pub mod sales;
pub mod transactions;
