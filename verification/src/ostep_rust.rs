pub mod threads_sema;
