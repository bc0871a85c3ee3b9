//! Core logic of a desktop chat backend: the local message store's records
//! and listing order, and the streaming relay's request planning and state
//! machine.
//!
//! The library makes no I/O of its own. A host opens the database, runs the
//! statements and performs the relay's network work; it hands the results to
//! the functions here, which decide what is stored, what is listed, and what
//! the relay does next.

pub mod store;
pub mod relay;
