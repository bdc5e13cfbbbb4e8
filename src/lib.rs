//! Session and result pipeline of a client for a remote analytical database.
//!
//! The library holds the decisions of an interactive session: which remote
//! database is selected, how results are rendered, how the batches of one
//! query stream are gathered, and how a result is summarised. Transport,
//! rendering of columnar data and terminal I/O are left to the caller.
pub mod batch;
pub mod format;
pub mod repl;
