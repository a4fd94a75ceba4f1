pub mod reconnect;
pub mod url;
pub mod service;
