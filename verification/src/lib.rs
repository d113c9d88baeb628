//! Background-work offload: the pieces for moving work off a request thread
//! onto a dedicated worker without unbounded memory growth.
//!
//! - `queue` is a thread-safe multi-producer/multi-consumer transport with
//!   cloneable producer and consumer handles and an optional, advisory
//!   high-watermark over an approximate occupancy counter.
//! - `worker` is the drain side: a unit function applied to each popped
//!   message against a long-lived, exclusively owned context.
//! - `backpressure` aggregates the full/not-full signals of any number of
//!   queues into a single admission decision, so overload is detected and
//!   reported before it causes failure.
//! - `fifo` is the model of the queue's delivery guarantees, with the proofs
//!   that no message is lost or duplicated and that the watermark reports
//!   full exactly at the configured occupancy.
//! - `errors`, `model` and `product` hold the error taxonomy and the small
//!   application model whose updates the worker processes.

pub mod backpressure;
pub mod errors;
pub mod fifo;
pub mod model;
pub mod product;
pub mod queue;
pub mod worker;
