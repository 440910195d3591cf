pub mod processor;
pub mod structs;
