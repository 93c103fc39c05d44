//! The verified core of a small task runtime.

pub mod runtime;
pub mod task;
pub mod time;

pub use runtime::{Builder, Runtime};
pub use task::{spawn, JoinHandle};
