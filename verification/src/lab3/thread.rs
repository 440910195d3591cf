pub mod context;
pub mod structs;
