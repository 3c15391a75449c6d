//! Fetching one to-do record over HTTP, with every decision verified.
//!
//! The crate holds the rules of the fetch, not the network: which base URL a
//! request may be built on, how the request URL is formed, which responses
//! count as a success, and how a JSON body becomes a [`decode::Todo`]. A
//! caller performs the round trip itself and hands the outcome back to
//! [`fetch::conclude`]. The [`stub`] module is a scripted stand-in for the
//! remote service, for use where no network is wanted.

pub mod decimal;
pub mod guard;
pub mod json;
pub mod decode;
pub mod transport;
pub mod fetch;
pub mod stub;
