pub mod config;
pub mod source;
