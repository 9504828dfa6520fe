//! Typed views of SQLite text columns and result-column metadata.

pub mod column;
pub mod laws;
pub mod rows;
pub mod text_value;
pub mod vec_text;
