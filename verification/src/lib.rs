//! Login and profile service for a WeChat mini-program.
//!
//! The crate holds the decisions of the service: how a bearer credential is
//! read and checked, how a login maps an external identity onto an account and
//! a session, and how profile records are listed, created, changed and removed
//! on behalf of the account that owns them. Every exchange with the database is
//! described as a [`protocol::Query`] and its [`protocol::Reply`]; the
//! [`store::memory::Store`] answers them in memory, and [`service`] tells, reply
//! by reply, what a request does next.

pub mod api;
pub mod clock;
pub mod entities;
pub mod laws;
pub mod protocol;
pub mod service;
pub mod status;
pub mod store;
