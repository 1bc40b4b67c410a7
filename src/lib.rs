//! Client for the HTTP write and query API of InfluxDB.
//!
//! The library decides what is sent and how an answer is read: it builds the
//! URL, method and body of each request and classifies the body of each
//! response. Sending a request and awaiting its answer is left to the caller.

pub mod client;
pub mod error;
pub mod request;
pub mod response;
pub mod text;
