//! Profile records and the store that keeps them.

pub mod codec;
pub mod manager;
pub mod model;
pub mod names;
pub mod store;
