//! A small library behind a parameter-relay service: an HTTP handler takes a
//! JSON body naming a parameter-store path, the value at that path is fetched
//! from a remote configuration store, and the handler replies with the value
//! as plain text.
//!
//! `json` defines the accepted body grammar and a verified parser for it;
//! `handler` builds the replies and fixes the request/response contract.

pub mod handler;
pub mod json;
