//! A fixed-size worker pool, modelled as a verified state machine.
//!
//! The library holds every decision the pool makes: what the shared job
//! queue does on `send`, `recv` and `close`, how each worker moves through
//! its lifecycle, when a submission is accepted, and what shutdown does.
//! Threads, locks and condition variables are supplied by the caller, which
//! performs the actions that the state machine returns.
//!
//! It also holds the request routing and response framing of the small
//! HTTP demo that feeds the pool.

mod http;
mod pool;
mod queue;
mod worker;

pub use http::{Route, bytes_equal, render_response, route};
pub use pool::{
    PoolError, ThreadPool, lemma_handed_in_fifo_order, lemma_joined_pool_is_drained,
    lemma_stop_idempotent,
};
pub use queue::{JobQueue, Received, SendError};
pub use worker::{Event, Worker, WorkerPhase};
