//! # DB
//! The decision core of a small Postgres adapter.
//!
//! An adapter of this kind borrows a connection from a pool, sends a
//! parameterised statement, and hands the caller either the mapped rows or a
//! status code with a message. Talking to the pool and the server is left to
//! the caller; every decision around those calls is made here and proved
//! against its contract.
//!
//! - [`PostgresDB`] keeps the pool handle and turns each reply of the driver
//!   into a [`types::DBResult`].
//! - [`rows`] maps a row set to a list or to its first item.
//! - [`driver`] states what is taken on trust about the driver's error type.
//! - [`config`] builds the connection string from host, user and password.
pub mod config;
pub mod db;
pub mod driver;
pub mod rows;
pub mod types;

pub use crate::db::PostgresDB;
