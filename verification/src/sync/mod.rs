pub mod engine;
pub mod streaming;
pub mod table;
pub mod service;
