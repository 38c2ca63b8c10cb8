//! Message layer of a WebDriver-protocol server: decodes an incoming HTTP
//! request (route, URL captures, JSON body) into a typed command value, and
//! encodes a typed result back into the wire JSON the protocol specifies.

pub mod actions;
pub mod command;
pub mod common;
pub mod error;
pub mod fields;
pub mod json;
pub mod response;
