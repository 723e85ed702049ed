//! An in-memory coin bank: four denominations, each with a capacity, and
//! clamped add and subtract operations on a store that serialises access.

pub mod collection;
pub mod denomination;
pub mod error;
pub mod reserve;
pub mod store;
