//! A single-reactor event loop on top of epoll.
//!
//! One thread waits for readiness of registered descriptors and dispatches
//! their handlers; deferred calls are queued and run in the order in which
//! they were scheduled, after a wakeup channel has roused the waiting thread.
//!
//! Everything in this crate is sequential: an [`event_loop::EpollEventLoop`]
//! is driven through `&mut self`, and every step of the dispatch cycle is
//! available on its own, so that a caller who shares the loop between threads
//! can hold its lock for one short step at a time.

pub mod descriptor;
pub mod error;
pub mod event_loop;
pub mod interest;
pub mod model;
pub mod pending;
pub mod registry;
pub mod sys;
pub mod wakeup;
