//! A verified codec for DHCP options (RFC 2132).
//!
//! Each option travels on the wire as a tag byte, a length byte and a value
//! of exactly that many bytes; the two padding tags (`Pad` and `End`) are a
//! single tag byte.  The library offers a typed representation of every
//! supported option, an `encode` direction (`serialize`) and a `decode`
//! direction (`deserialize`) that consumes one option from the front of a
//! byte slice and returns the untouched remainder.

pub mod addr;
pub mod error;
pub mod wire;
pub mod model;
pub mod option;
pub mod laws;
