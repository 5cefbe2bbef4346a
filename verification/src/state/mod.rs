pub mod config_store;
pub mod config_validation;
pub mod lex;
