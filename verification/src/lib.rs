//! A fixed-size worker-thread pool.
//!
//! Jobs submitted through the pool's producer handle are enqueued on a
//! multi-producer, single-consumer channel and executed exactly once each by
//! one of a fixed set of workers, started when the pool is constructed and
//! stopped by a close-then-join shutdown. Starting and joining the workers'
//! operating-system threads is left to the pool's caller, who supplies a
//! spawner and a joiner; everything the pool decides is verified here.

pub mod http;
pub mod pool;
pub mod queue;
