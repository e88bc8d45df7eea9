//! Settings of the storage backends that can hold the query data.

pub mod fs;
pub mod sql;
