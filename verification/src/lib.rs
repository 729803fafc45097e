//! A read-only gateway over chain state: typed queries, the two-step
//! lookup of transaction events, and the rendering of every reply as a
//! stable JSON value.

pub mod amount;
pub mod collections;
pub mod dec;
pub mod error;
pub mod event;
pub mod json;
pub mod query;
pub mod resolver;
pub mod text;
pub mod types;
