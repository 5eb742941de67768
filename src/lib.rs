//! Extraction of purchase invoices from a vendor's order-detail HTML page.
//!
//! The numeric and assembly rules are verified; the HTML tree and the calendar
//! parsing are delegated to `scraper` and `chrono` behind small trusted items.
pub mod models;
pub mod parser;
pub mod text;
