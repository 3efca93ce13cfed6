//! A small record store for todo items: titles are unique, messages are free text.
//!
//! The crate holds the rules of the store: what each mutation returns for what
//! the backing store reported, the HTTP status of each outcome, and an
//! in-memory table with the same semantics, together with the laws that the
//! operations obey.

pub mod todo;
pub mod rows;
pub mod outcome;
pub mod table;
pub mod laws;
