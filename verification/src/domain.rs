//! The entities that the engine works on.

pub mod row;
pub mod table;
pub mod two_column;
