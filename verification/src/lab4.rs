pub mod interrupt;
