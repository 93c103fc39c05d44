//! The schedulers, and the queues that tasks wait in.

pub mod current_thread;
pub mod laws;
pub mod multi_thread;
pub mod queue;
pub mod steps;
