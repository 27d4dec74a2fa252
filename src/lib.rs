pub mod configuration;
pub mod database;
pub mod decimal;
pub mod error;
pub mod network;
pub mod validate;
