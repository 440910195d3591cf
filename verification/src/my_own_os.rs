pub mod data_structure;
pub mod thread;
