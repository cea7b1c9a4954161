//! Iterated modular map evaluation over batches of integer seeds.
//!
//! The library normalizes three input shapes (an inclusive range, an explicit
//! list, a raw byte buffer) into one canonical sequence of `i64` seeds, applies
//! the recurrence `x <- (mu * x * (x + 1)) mod p` to each seed a given number
//! of times, and returns the results in input order. Batches run either
//! sequentially on the calling thread or fanned out across a data-parallel
//! runtime; an asynchronous dispatcher hands whole batches to a small worker
//! pool and delivers the results over a channel.

pub mod batch;
pub mod dispatch;
pub mod input;
pub mod recurrence;
pub mod runtime;
