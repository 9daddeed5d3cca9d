//! The authentication and authorization core of an HTTP API.
//!
//! A request shows a bearer token or a username and a password; this crate turns what it
//! shows into a verified principal, or into a structured rejection. It issues and
//! verifies the two kinds of token, hashes and checks passwords, resolves the three
//! guards that build on one another, and takes the decisions of the routes. Reading
//! the request, asking storage and sending the response are left to the caller, who
//! hands over plain values.

pub mod claims;
pub mod clock;
pub mod guard;
pub mod models;
pub mod outcome;
pub mod responses;
pub mod routes;
pub mod state;
pub mod token;
pub mod utils;
