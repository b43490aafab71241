//! Authentication core of a single-operator admin panel: first-run bootstrap,
//! credential verification, session issuance and verification, and the
//! decisions of the login, logout and identity endpoints.

pub mod bootstrap;
pub mod cookie;
pub mod error;
pub mod gateway;
pub mod guard;
pub mod hasher;
pub mod identity;
pub mod request;
pub mod session;
pub mod store;
pub mod text;
pub mod token;
