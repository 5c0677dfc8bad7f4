//! A client library for driving a remote build-and-deploy pipeline.
//!
//! The library owns every decision the client makes: deriving and checking
//! resource slugs, compare-and-swap file uploads with a single conflict
//! retry, dispatching a pipeline run, correlating the dispatch with the run
//! it created, reducing a run's job/step breakdown to a progress report,
//! and the coordinator state machine that sequences all of it. Remote calls
//! themselves (HTTP, clocks, sleeps, session storage) are performed by the
//! embedding program, which executes the [`Action`](coordinator::Action)s
//! this library emits and feeds the observed results back as events.

pub mod backoff;
pub mod classify;
pub mod codec;
pub mod coordinator;
pub mod errors;
pub mod progress;
pub mod requests;
pub mod runs;
pub mod session;
pub mod slug;
pub mod status;
pub mod store;
pub mod text;
pub mod upsert;
