pub mod cache;
pub mod config;
pub mod db;
pub mod errors;
pub mod models;
pub mod sql;
