pub mod builder;
pub mod metric;
