//! Request routing for a database client: the method-to-statement translator,
//! the one-or-many result extractor, the per-connection session variables and
//! the decision step of the connection's processing loop.

pub mod commands;
pub mod error;
pub mod extract;
pub mod laws;
pub mod method;
pub mod router;
pub mod session;
pub mod translate;
pub mod value;
pub mod version;
