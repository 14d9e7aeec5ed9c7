pub mod admin_ops;
pub mod command;
pub mod cursor;
pub mod error;
pub mod executor;
pub mod operation;
pub mod query_ops;
pub mod read_ops;
pub mod response;
pub mod runner;
pub mod session;
pub mod value;
pub mod write_ops;
