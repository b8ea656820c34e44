//! A minimal cooperative task executor, reduced to its decisions.
//!
//! The library holds the state that a single-threaded, wake-driven scheduler
//! keeps about its tasks and decides, from that state and the events that reach
//! it (a spawn, a wake, a finished poll), what happens next. Running the futures
//! themselves, the threads that deliver wakes and the clock are left to the
//! caller, which hands the library plain values.

pub mod task;
pub mod scheduler;
pub mod guarantees;
pub mod delay;
pub mod pool;
pub mod route;
