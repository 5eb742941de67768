//! Field extraction and invoice assembly.
pub mod dom;
pub mod error;
pub mod html_parser;
