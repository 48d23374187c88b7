//! Typed value model of the UXF interchange format: identifier rules,
//! record types and the collections bound to them.

pub mod constants;
pub mod date;
pub mod error;
pub mod field;
pub mod list;
pub mod map;
pub mod order;
pub mod table;
pub mod tclass;
pub mod test_utils;
pub mod text;
pub mod util;
pub mod value;

pub use crate::value::Value;
