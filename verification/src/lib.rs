//! A yes/no poll ledger kept in a byte-level key-value store.
//!
//! An administrator initializes the ledger once; after that anybody may
//! create polls, each named by its question, and cast `yes` or `no` votes on
//! them. The ledger lives in a `cosmwasm_std::MemoryStorage`; every entry
//! point states, over the raw entries of that store, exactly what it writes
//! and what it returns.
//!
//! - [`contract`]: the entry points and their outcome functions.
//! - [`laws`]: what holds of the entry points taken together.
//! - [`store`]: the records that the entries of a store stand for.
//! - [`keys`] and [`codec`]: the key and the bytes of each record.
//! - [`state`], [`msg`] and [`error`]: records, messages and failures.
//! - [`text`]: comparison of texts.
//! - [`bindings`]: what is taken on trust from outside this crate.

pub mod bindings;
pub mod codec;
pub mod contract;
pub mod error;
pub mod keys;
pub mod laws;
pub mod msg;
pub mod state;
pub mod store;
pub mod text;
