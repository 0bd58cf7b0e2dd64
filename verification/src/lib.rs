//! The business core of a multi-tenant resource-planning service: the
//! inventory ledger, the document state machines that post to it, payment
//! reconciliation, recipe resolution and the financial reports.
pub mod auth;
pub mod date;
pub mod decimal;
pub mod engine;
pub mod error;
pub mod ident;
pub mod ledger;
pub mod models;
pub mod order;
pub mod reports;
pub mod table;
pub mod text;
