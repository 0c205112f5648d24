//! Sign-in for an administrative platform through an OpenID Connect provider.
//!
//! The crate holds the decisions of the login flow and proves them: which
//! callback is accepted, which is turned down and why, what ends up in the
//! user's session, and how often the provider is asked for its metadata.
//! Network and database traffic is left to the program around it, which hands
//! in what it received and carries out what the functions here decide.

pub mod accounts;
pub mod claims;
pub mod cli;
pub mod config;
pub mod discovery;
pub mod errors;
pub mod global;
pub mod handler;
pub mod middlewares;
pub mod oidc;
pub mod provider;
pub mod schemas;
pub mod session;
pub mod text;
