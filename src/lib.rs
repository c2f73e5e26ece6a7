//! Cooperative, interrupt-driven task execution for a heap-less single-core
//! target: a byte arena for task state, steppable computations driven one
//! step at a time, and a bounded single-producer/single-consumer queue that
//! carries `u32` messages between tasks.

pub mod arena;
pub mod handlers;
pub mod queue;
pub mod receive;
pub mod task;
pub mod ws2812;
