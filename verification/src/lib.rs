//! The rules of a small HTTP service that keeps one table of rustaceans
//! behind HTTP Basic Authentication.
//!
//! Nothing here touches the network or the database. The crate decides who
//! may pass, which repository operation a request asks for and which response
//! an outcome deserves; its caller moves the bytes.

pub mod auth;
pub mod guarantees;
pub mod handlers;
pub mod models;
pub mod response;
pub mod routes;
pub mod storage;
