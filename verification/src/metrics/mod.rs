pub mod histogram;
pub mod tag;
