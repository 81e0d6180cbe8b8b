//! Conversion of bank-statement records into tax-reporting records:
//! field validation, configurable labels and date filtering.

pub mod config;
pub mod convert;
pub mod date;
pub mod filter;
pub mod record;
