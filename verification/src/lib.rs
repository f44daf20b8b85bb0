//! Verified decision logic of a sandbox that runs JavaScript edge functions
//! on a pool of worker threads.
//!
//! The JavaScript engine, the threads and the channels live outside this
//! library; what is decided about them lives here, each decision with a
//! contract: which worker id a new request gets, which workers a drain hands
//! back, how a polled handler response settles, in which order a module is
//! bootstrapped and a handler is run, and what a finished worker answers.
pub mod decimal;
pub mod error;
pub mod module_url;
pub mod ops;
pub mod permissions;
pub mod poll;
pub mod pool;
pub mod pool_laws;
pub mod session;
pub mod session_laws;
pub mod task;
pub mod task_laws;
