//! Authentication and authorization for a family of services.
//!
//! The library issues and validates opaque tokens for persons and for
//! services, renews a token that is close to expiry, answers what a person may
//! do in a service from a catalog of roles and permissions, keeps what it
//! found in a cache for the token, and clears that cache whenever the catalog
//! changes under it. A token that is revoked takes its rows of the cache
//! along; what expires is reaped from both tables.
//!
//! Every operation is a task that puts one statement at a time to a store and
//! decides from the answer what to do next (`protocol`). The tables of the
//! store are modelled as sequences of rows (`store`, `catalog`), and held in
//! memory they carry out the same statements; the endpoints in `server` run
//! the tasks against them. What the tasks guarantee is proved over that model
//! in the modules whose names end in `laws`.

pub mod access;
pub mod access_laws;
pub mod catalog;
pub mod command;
pub mod cors;
pub mod digest;
pub mod entities;
pub mod exchange;
pub mod flexible;
pub mod grant_laws;
pub mod http;
pub mod laws;
pub mod login;
pub mod login_laws;
pub mod manager;
pub mod order_laws;
pub mod password;
pub mod payloads;
pub mod progress;
pub mod protocol;
pub mod request;
pub mod resolve;
pub mod server;
pub mod session_laws;
pub mod settings;
pub mod store;
pub mod table;
pub mod text;
pub mod token;
pub mod validation;
