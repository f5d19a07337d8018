pub mod defs;
pub mod validator;
