//! Typed, transport-free core of a client for the Patreon REST API.
//!
//! The library says what to request and reads what came back; it sends and
//! receives nothing itself. A reply is read in two steps: `serde_json` parses
//! the body into a [`json::Json`], and the decoders of this library turn that
//! value into a typed record or into the reason why there is none.
//!
//! - [`closed_enum`] and [`status`]: the closed enumerations, each symbol
//!   bound to one literal, decoded strictly.
//! - [`json`], [`decode`], [`document`], [`records`], [`timestamp`]: JSON
//!   values and what they decode to, from single members up to the envelope
//!   of a resource with its related resources.
//! - [`request`] and [`api`]: the addresses and headers of the requests, and
//!   the reading of a reply by its status.
//! - [`error`]: the failures; none of them is ever replaced by a default
//!   value.

pub mod api;
pub mod closed_enum;
pub mod decode;
pub mod document;
pub mod error;
pub mod json;
pub mod records;
pub mod request;
pub mod status;
pub mod text;
pub mod timestamp;

pub use error::{ApiError, DecodeError, PatreonError, PatreonResult};
