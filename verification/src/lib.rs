//! The core of a small task service: the task entity, the parameterized
//! statements that persist it, and the decisions each request makes between
//! borrowing a database connection and answering the client.
//!
//! Nothing here performs I/O. The caller owns the connection pool, executes the
//! statements it is handed, and reports back what the database said.

pub mod config;
pub mod laws;
pub mod model;
pub mod operation;
pub mod repository;
pub mod response;
pub mod statement;
pub mod table;
pub mod task;
