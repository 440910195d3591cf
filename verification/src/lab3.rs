pub mod thread;
