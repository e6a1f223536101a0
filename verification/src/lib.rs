//! Client library for the MTA server HTTP scripting interface.
//!
//! A caller builds an endpoint configuration ([`client::Mta`]) and invokes a
//! named function of a named server-side resource over HTTP(S).  This crate
//! holds the request-construction and response-classification logic: deriving
//! the base URI, building the call URL, encoding the argument list as a JSON
//! array, and mapping the transport outcome to a typed result.  The network
//! transport itself lives outside the library.

pub mod client;
pub mod error;
pub mod json;
pub mod numeral;
