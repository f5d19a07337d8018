pub mod apm;
pub mod error;
pub mod hc;
pub mod pipeline;
pub mod reporter;
