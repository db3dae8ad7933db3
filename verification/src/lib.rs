//! Read-only device/service registry backed by an embedded relational store.
//!
//! The crate covers the substantive part of a small inventory daemon:
//! schema bootstrap with default seeding, bind-configuration resolution
//! from the `config` relation, the query layer that turns stored rows into
//! `Device`/`Service` records, and the JSON bodies of the two read
//! endpoints with their not-found semantics. The HTTP transport and the
//! process wiring live outside the library and hand plain values in.

pub mod api;
pub mod bootstrap;
pub mod model;
pub mod registry;
pub mod store;
