//! Verified core of a small greet-and-record page.
//!
//! A user submits a name; the server greets it, records it in a persistent
//! store, and the page shows the cumulative list of greeted names.  The
//! markup is incidental; what this crate models and verifies is the
//! client/server synchronization core:
//!
//! - [`schema`]: idempotent schema bootstrap of the persistent store;
//! - [`store`]: the store access layer (connections, positional binds, rows);
//! - [`gateway`]: the named server procedures and their dispatch;
//! - [`signal`]: reactive cells with explicit subscriber sets, and the
//!   per-tick deduplicating dirty queue;
//! - [`routine`]: the client-side asynchronous routines as explicit state
//!   machines;
//! - [`page`]: the page's state — the two signals and the dirty queue —
//!   and drivers that run one routine to completion against a local store,
//!   carrying the end-to-end contracts.
//!
//! The asynchronous transport, the real database and the rendering toolkit
//! live outside this crate; everything here is plain values and is verified.

pub mod errors;
pub mod gateway;
pub mod page;
pub mod routine;
pub mod schema;
pub mod signal;
pub mod store;
