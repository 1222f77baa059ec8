//! A cache-aside store for orders.
//!
//! An order is written to a relational backend as a delivery, a payment, a
//! header and its items, and is read back from those rows. A bounded cache
//! that forgets the order used longest ago stands in front of the backend.
//!
//! The library never talks to the backend itself. It says which statement is
//! to be run next and takes the backend's reply: [`store::create_order`] and
//! [`store::get_order`] decide each step of the two operations, on top of the
//! write and the read of [`gateway`], the statements of [`statement`], the
//! rows of [`row`] and the cache of [`cache`].

pub mod assoc;
pub mod cache;
pub mod cli;
pub mod error;
pub mod gateway;
pub mod model;
pub mod readback;
pub mod row;
pub mod statement;
pub mod store;
