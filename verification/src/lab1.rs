pub mod trap;
