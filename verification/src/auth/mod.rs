pub mod machine;
pub mod state;
