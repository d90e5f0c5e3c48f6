//! Typed client library for a JSON/HTTP game-data API: request-URL
//! construction, envelope decoding, and unified error normalization.
//!
//! The library is split along the wire format: [`client`] builds the request
//! URLs, [`json`] models the parsed response text as a JSON tree, [`payload`]
//! decodes the endpoint-specific record shapes, [`envelope`] decodes the
//! `{success, id, data, errors}` wrapper common to every endpoint and
//! normalizes both parse failures and server-reported failures into
//! [`error::InternalError`] lists. Performing the HTTP GET itself is left to
//! the caller, who hands the response text to the decoders here.

pub mod client;
pub mod envelope;
pub mod error;
pub mod json;
pub mod laws;
pub mod payload;
