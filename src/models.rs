//! Value records produced by the parser.
pub mod date;
pub mod invoice;
pub mod item;
