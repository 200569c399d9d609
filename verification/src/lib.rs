//! Core of a local service that exposes a remote code-hosting platform's data
//! (users, repositories, issues, pull requests, notifications) through a small
//! set of typed RPC methods.
//!
//! The crate holds the verified logic: credential resolution, the
//! query-language / REST response envelope handling, the mapping of response
//! shapes into the domain records, and the method dispatcher that validates
//! parameters and serializes results. Network transport and process plumbing
//! live outside, in the surrounding application, which hands this crate plain
//! values (status codes, parsed bodies) and takes plain values back.
#![verifier::loop_isolation(false)]

pub mod credentials;
pub mod dispatch;
pub mod errors;
pub mod mapper;
pub mod models;
pub mod queries;
pub mod text;
pub mod transport;
pub mod value;
