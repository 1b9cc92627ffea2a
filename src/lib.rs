//! The handle layer of a query bridge: query contexts, their results, catalog
//! handles, single-use schema and partition spec builders, and tables that
//! contexts share. Every handle is nullable here (`Option`), every operation
//! on an absent or malformed argument fails with its sentinel, and every
//! builder is consumed exactly once, by table creation.
//!
//! Each context and each catalog owns a task scheduler of its own, on which
//! the engine's and the catalog's asynchronous work is run to completion.

pub mod bridge;
pub mod catalog;
pub mod session;
pub mod status;
pub mod text;
