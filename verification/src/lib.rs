//! Verified core of a MaxMind DB reader binding: the record model, the
//! decisions taken around a lookup, the reader's life cycle and the text of
//! every error it reports.

pub mod text;
pub mod text_map;
pub mod value;
pub mod error;
pub mod mode;
pub mod metadata;
pub mod address;
pub mod database;
pub mod source;
pub mod laws;
